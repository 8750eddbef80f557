//! The two fixed shapes: a pentagon and the letters "LOL", each drawn as an
//! indexed triangle list.

use vstd::prelude::*;

verus! {

/// Number of vertices in the pentagon's vertex buffer.
pub const PENTAGON_VERTEX_COUNT: u16 = 5;

/// Number of vertices in the letters' vertex buffer.
pub const LETTERS_VERTEX_COUNT: u16 = 26;

/// One of the two shapes whose buffers are uploaded once at start-up.
#[derive(Clone, Copy, Debug, PartialEq, Eq, Structural)]
pub enum Shape {
    Pentagon,
    Letters,
}

/// Triangles of the pentagon as a fan around its last corner.
pub open spec fn pentagon_index_seq() -> Seq<u16> {
    seq![0, 1, 4, 1, 2, 4, 2, 3, 4]
}

/// Triangles of the letters: the first L, the O as a ring, the second L.
pub open spec fn letters_index_seq() -> Seq<u16> {
    seq![
        6, 1, 0, 6, 2, 1, 3, 6, 5, 5, 4, 3,
        9, 8, 7, 7, 10, 9, 12, 11, 10, 10, 13, 12,
        13, 15, 14, 13, 16, 15, 16, 18, 17, 16, 7, 18,
        19, 21, 20, 19, 25, 21, 25, 23, 22, 25, 24, 23,
    ]
}

/// Every index names one of `n` vertices, and the list splits into whole
/// triangles.
pub open spec fn is_triangle_list(idx: Seq<u16>, n: nat) -> bool {
    &&& idx.len() % 3 == 0
    &&& forall|i: int| 0 <= i < idx.len() ==> (#[trigger] idx[i] as nat) < n
}

/// No triangle of the list repeats a corner, so none is degenerate.
pub open spec fn has_distinct_corners(idx: Seq<u16>) -> bool {
    forall|t: int|
        0 <= t < idx.len() / 3 ==> {
            &&& #[trigger] idx[3 * t] != idx[3 * t + 1]
            &&& idx[3 * t + 1] != idx[3 * t + 2]
            &&& idx[3 * t] != idx[3 * t + 2]
        }
}

impl Shape {
    pub open spec fn index_seq(self) -> Seq<u16> {
        match self {
            Shape::Pentagon => pentagon_index_seq(),
            Shape::Letters => letters_index_seq(),
        }
    }

    pub open spec fn vertex_count_spec(self) -> nat {
        match self {
            Shape::Pentagon => PENTAGON_VERTEX_COUNT as nat,
            Shape::Letters => LETTERS_VERTEX_COUNT as nat,
        }
    }

    /// Number of vertices in this shape's vertex buffer.
    pub fn vertex_count(&self) -> (r: u16)
        ensures
            r as nat == self.vertex_count_spec(),
    {
        match self {
            Shape::Pentagon => PENTAGON_VERTEX_COUNT,
            Shape::Letters => LETTERS_VERTEX_COUNT,
        }
    }

    /// The shape's index list, three indices per triangle.
    pub fn indices(&self) -> (r: Vec<u16>)
        ensures
            r@ == self.index_seq(),
    {
        match self {
            Shape::Pentagon => vec![0, 1, 4, 1, 2, 4, 2, 3, 4],
            Shape::Letters => vec![
                6, 1, 0, 6, 2, 1, 3, 6, 5, 5, 4, 3,
                9, 8, 7, 7, 10, 9, 12, 11, 10, 10, 13, 12,
                13, 15, 14, 13, 16, 15, 16, 18, 17, 16, 7, 18,
                19, 21, 20, 19, 25, 21, 25, 23, 22, 25, 24, 23,
            ],
        }
    }

    /// Number of indices that an indexed draw of this shape covers.
    pub fn index_count(&self) -> (r: u32)
        ensures
            r as nat == self.index_seq().len(),
    {
        match self {
            Shape::Pentagon => 9,
            Shape::Letters => 48,
        }
    }

    /// The bytes of the shape's index buffer: its index list as the GPU reads
    /// it, in the machine's byte order.
    pub fn index_buffer_contents(&self) -> (r: Vec<u8>)
        ensures
            is_native_encoding(r@, self.index_seq()),
            r@.len() == 2 * self.index_seq().len(),
    {
        let idx = self.indices();
        cast_indices_to_bytes(idx.as_slice())
    }
}

/// `bytes` holds each value of `vals` as two bytes, low byte first.
pub open spec fn is_le_encoding(bytes: Seq<u8>, vals: Seq<u16>) -> bool {
    &&& bytes.len() == 2 * vals.len()
    &&& forall|i: int|
        0 <= i < vals.len() ==> #[trigger] vals[i] as int == bytes[2 * i] as int + 256 * bytes[2 * i
            + 1] as int
}

/// `bytes` holds each value of `vals` as two bytes, high byte first.
pub open spec fn is_be_encoding(bytes: Seq<u8>, vals: Seq<u16>) -> bool {
    &&& bytes.len() == 2 * vals.len()
    &&& forall|i: int|
        0 <= i < vals.len() ==> #[trigger] vals[i] as int == 256 * bytes[2 * i] as int + bytes[2 * i
            + 1] as int
}

/// `bytes` holds `vals` as the machine stores them: two bytes each, all in
/// one byte order, which is the machine's own.
pub open spec fn is_native_encoding(bytes: Seq<u8>, vals: Seq<u16>) -> bool {
    is_le_encoding(bytes, vals) || is_be_encoding(bytes, vals)
}

/// Relies on bytemuck::cast_slice from `u16` to `u8`: the same memory read as
/// bytes, two for each index in the machine's byte order. For this pair of
/// types the cast cannot fail, since `u8` has size and alignment 1.
#[verifier::external_body]
fn cast_indices_to_bytes(indices: &[u16]) -> (r: Vec<u8>)
    ensures
        is_native_encoding(r@, indices@),
{
    bytemuck::cast_slice::<u16, u8>(indices).to_vec()
}

/// Each shape's index list is a triangle list over that shape's own vertices,
/// with three distinct corners in every triangle.
pub proof fn lemma_shape_indices_valid(s: Shape)
    ensures
        is_triangle_list(s.index_seq(), s.vertex_count_spec()),
        has_distinct_corners(s.index_seq()),
{
}

} // verus!
