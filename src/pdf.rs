use vstd::prelude::*;

verus! {

/// The uniform density over all directions of the unit sphere.
#[derive(Clone, Copy, Debug, PartialEq, Eq)]
pub struct SpherePdf;

impl SpherePdf {
    /// The uniform density; it has no parameter.
    pub fn new() -> (r: Self)
        ensures
            r == SpherePdf,
    {
        SpherePdf
    }
}

/// Which of the two densities of an equal mixture draws the next direction:
/// the first (index 0) on heads, the second (index 1) on tails, and always the
/// first when there is no second.
pub fn mixture_component(heads: bool, has_second: bool) -> (r: usize)
    ensures
        r == (if heads || !has_second { 0usize } else { 1usize }),
{
    if heads || !has_second {
        0
    } else {
        1
    }
}

} // verus!
