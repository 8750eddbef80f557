//! Choice of the surface's texture format among those the adapter offers.

use vstd::prelude::*;

verus! {

/// Format `i` is the one to take: the first sRGB format, or the first format
/// when none is sRGB.
pub open spec fn is_preferred(srgb: Seq<bool>, i: int) -> bool {
    &&& 0 <= i < srgb.len()
    &&& if srgb[i] {
        forall|j: int| 0 <= j < i ==> !srgb[j]
    } else {
        i == 0 && forall|j: int| 0 <= j < srgb.len() ==> !srgb[j]
    }
}

/// Picks the format to configure the surface with, given for each offered
/// format whether it is sRGB: the first sRGB one, or else the first one.
/// `None` when nothing is offered.
pub fn preferred_format(srgb: &[bool]) -> (r: Option<usize>)
    ensures
        match r {
            None => srgb@.len() == 0,
            Some(i) => is_preferred(srgb@, i as int),
        },
{
    if srgb.len() == 0 {
        return None;
    }
    let mut k: usize = 0;
    while k < srgb.len()
        invariant
            k <= srgb@.len(),
            forall|j: int| 0 <= j < k ==> !srgb@[j],
        decreases srgb@.len() - k,
    {
        if srgb[k] {
            return Some(k);
        }
        k = k + 1;
    }
    Some(0)
}

} // verus!
