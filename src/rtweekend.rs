use vstd::prelude::*;

verus! {

/// Relies on `rand::Rng::gen_range` over `rand::thread_rng()`: for a non-empty
/// inclusive range it returns a value inside that range (it panics on an empty one).
#[verifier::external_body]
fn draw_inclusive(min: i32, max: i32) -> (r: i32)
    requires
        min <= max,
    ensures
        min <= r <= max,
{
    rand::Rng::gen_range(&mut rand::thread_rng(), min..=max)
}

/// Returns a random integer in `[min, max]`.
pub fn random_int(min: i32, max: i32) -> (r: i32)
    requires
        min <= max,
    ensures
        min <= r <= max,
{
    draw_inclusive(min, max)
}

} // verus!
