use vstd::prelude::*;
use crate::rtweekend::random_int;

verus! {

/// A uniformly drawn position in a list of `len` objects.
pub fn random_index(len: usize) -> (r: usize)
    requires
        0 < len <= i32::MAX,
    ensures
        r < len,
{
    random_int(0, (len - 1) as i32) as usize
}

} // verus!
