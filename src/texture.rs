use vstd::prelude::*;

verus! {

/// A texture of one constant colour, whatever the coordinates.
#[derive(Clone, Copy, Debug)]
pub struct SolidColor<C> {
    albedo: C,
}

impl<C: Copy> SolidColor<C> {
    pub closed spec fn albedo_spec(&self) -> C {
        self.albedo
    }

    /// The texture of colour `albedo`.
    pub fn new(albedo: C) -> (r: Self)
        ensures
            r.albedo_spec() == albedo,
    {
        SolidColor { albedo }
    }

    /// The colour, at every point.
    pub fn value(&self) -> (r: C)
        ensures
            r == self.albedo_spec(),
    {
        self.albedo
    }
}

/// Whether the checker cell with integer coordinates `(x, y, z)` takes the
/// even texture: the coordinates sum to an even number.
pub fn checker_is_even(x: i32, y: i32, z: i32) -> (r: bool)
    ensures
        r == ((x + y + z) % 2 == 0),
{
    let s = x as i64 + y as i64 + z as i64;
    s % 2 == 0
}

} // verus!
