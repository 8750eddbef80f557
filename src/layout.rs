//! Layout of one vertex in the vertex buffer: a position and a colour, each
//! three 32-bit floats, packed one after the other.

use vstd::prelude::*;

verus! {

/// Size in bytes of one 32-bit float component.
pub const COMPONENT_BYTES: u64 = 4;

/// Components of a vertex position (x, y, z).
pub const POSITION_COMPONENTS: u32 = 3;

/// Components of a vertex colour (r, g, b).
pub const COLOR_COMPONENTS: u32 = 3;

/// One attribute the vertex shader reads: where it starts in a vertex, the
/// shader location it feeds, and how many 32-bit floats it has.
#[derive(Clone, Copy, Debug, PartialEq, Eq, Structural)]
pub struct VertexAttribute {
    pub offset: u64,
    pub shader_location: u32,
    pub components: u32,
}

/// How the shader steps through the vertex buffer: the distance between two
/// vertices and the attributes inside one.
#[derive(Clone, Debug)]
pub struct VertexLayout {
    pub array_stride: u64,
    pub attributes: Vec<VertexAttribute>,
}

pub open spec fn attribute_bytes(a: VertexAttribute) -> int {
    a.components * COMPONENT_BYTES
}

/// The attributes sit back to back from the start of the vertex, attribute
/// `i` feeds shader location `i`, and the stride ends where the last one ends.
pub open spec fn is_packed(stride: u64, attrs: Seq<VertexAttribute>) -> bool {
    &&& attrs.len() > 0
    &&& attrs[0].offset == 0
    &&& forall|i: int| 0 <= i < attrs.len() ==> (#[trigger] attrs[i]).shader_location == i
    &&& forall|i: int|
        0 < i < attrs.len() ==> (#[trigger] attrs[i]).offset == attrs[i - 1].offset
            + attribute_bytes(attrs[i - 1])
    &&& stride == attrs.last().offset + attribute_bytes(attrs.last())
}

/// The two attributes: the position at location 0, the colour at location 1.
pub open spec fn vertex_attribute_seq() -> Seq<VertexAttribute> {
    seq![
        VertexAttribute { offset: 0, shader_location: 0, components: POSITION_COMPONENTS },
        VertexAttribute {
            offset: ((POSITION_COMPONENTS as u64) * COMPONENT_BYTES) as u64,
            shader_location: 1,
            components: COLOR_COMPONENTS,
        },
    ]
}

/// The layout of the shape vertices: position then colour, 24 bytes a vertex.
pub fn vertex_layout() -> (r: VertexLayout)
    ensures
        r.attributes@ == vertex_attribute_seq(),
        r.array_stride == (POSITION_COMPONENTS + COLOR_COMPONENTS) as u64 * COMPONENT_BYTES,
        is_packed(r.array_stride, r.attributes@),
{
    let position = VertexAttribute {
        offset: 0,
        shader_location: 0,
        components: POSITION_COMPONENTS,
    };
    let color = VertexAttribute {
        offset: POSITION_COMPONENTS as u64 * COMPONENT_BYTES,
        shader_location: 1,
        components: COLOR_COMPONENTS,
    };
    let stride = (POSITION_COMPONENTS + COLOR_COMPONENTS) as u64 * COMPONENT_BYTES;
    let attributes = vec![position, color];
    VertexLayout { array_stride: stride, attributes }
}

} // verus!
