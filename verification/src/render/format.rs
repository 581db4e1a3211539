use vstd::prelude::*;

verus! {

/// Chooses the surface pixel format from the formats the platform
/// advertises, given for each whether it is a color-managed (sRGB) format.
/// The renderer prefers a linear format: the result is the index of the
/// first non-sRGB entry, and the first entry of all when every advertised
/// format is sRGB.
pub fn select_surface_format(is_srgb: &Vec<bool>) -> (i: usize)
    requires
        is_srgb.len() > 0,
    ensures
        i < is_srgb.len(),
        (exists|j: int| 0 <= j < is_srgb.len() && !is_srgb[j]) ==> !is_srgb[i as int],
        forall|j: int| 0 <= j < i ==> is_srgb[j],
        (forall|j: int| 0 <= j < is_srgb.len() ==> is_srgb[j]) ==> i == 0,
{
    let mut j: usize = 0;
    while j < is_srgb.len()
        invariant
            j <= is_srgb.len(),
            forall|k: int| 0 <= k < j ==> is_srgb[k],
        decreases is_srgb.len() - j,
    {
        if !is_srgb[j] {
            return j;
        }
        j += 1;
    }
    0
}

} // verus!
