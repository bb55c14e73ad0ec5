use vstd::prelude::*;

verus! {

/// An orthonormal basis: the axes `u`, `v` and `w`, in that order. The
/// vector type is the caller's.
#[derive(Clone, Copy, Debug)]
pub struct ONB<V> {
    axis: [V; 3],
}

impl<V: Copy> ONB<V> {
    /// The axes, `u` first.
    pub closed spec fn axes(&self) -> Seq<V> {
        self.axis@
    }

    /// The basis with axes `u`, `v` and `w`.
    pub fn new(u: V, v: V, w: V) -> (r: Self)
        ensures
            r.axes() == seq![u, v, w],
    {
        let r = ONB { axis: [u, v, w] };
        assert(r.axes() =~= seq![u, v, w]);
        r
    }

    /// The first axis.
    pub fn u(&self) -> (r: V)
        ensures
            r == self.axes()[0],
    {
        self.axis[0]
    }

    /// The second axis.
    pub fn v(&self) -> (r: V)
        ensures
            r == self.axes()[1],
    {
        self.axis[1]
    }

    /// The third axis, the one the basis was built around.
    pub fn w(&self) -> (r: V)
        ensures
            r == self.axes()[2],
    {
        self.axis[2]
    }
}

} // verus!
