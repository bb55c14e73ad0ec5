use vstd::prelude::*;
use vstd::arithmetic::div_mod::{lemma_fundamental_div_mod, lemma_fundamental_div_mod_converse};
use crate::rtweekend::random_int;

verus! {

/// Number of lattice gradients, and the length of each permutation table.
pub const POINT_COUNT: usize = 256;

/// `s` holds each of `0, 1, ..., n - 1` exactly once.
pub open spec fn is_permutation(s: Seq<i32>, n: nat) -> bool {
    &&& s.len() == n
    &&& forall|i: int| 0 <= i < n ==> 0 <= #[trigger] s[i] < n
    &&& forall|i: int, j: int| 0 <= i < j < n ==> s[i] != s[j]
}

/// The table slot that lattice coordinate `c` falls in: `c` modulo the table length.
pub open spec fn slot(c: int) -> int {
    c % (POINT_COUNT as int)
}

/// Lattice permutation tables of Perlin noise, one per axis. The gradient
/// vectors that the tables index are held by the caller.
#[derive(Clone, Debug)]
pub struct Perlin {
    perm_x: Vec<i32>,
    perm_y: Vec<i32>,
    perm_z: Vec<i32>,
}

impl Perlin {
    pub closed spec fn table_x(&self) -> Seq<i32> {
        self.perm_x@
    }

    pub closed spec fn table_y(&self) -> Seq<i32> {
        self.perm_y@
    }

    pub closed spec fn table_z(&self) -> Seq<i32> {
        self.perm_z@
    }

    /// Each table is a permutation of the slots.
    pub open spec fn wf(&self) -> bool {
        &&& is_permutation(self.table_x(), POINT_COUNT as nat)
        &&& is_permutation(self.table_y(), POINT_COUNT as nat)
        &&& is_permutation(self.table_z(), POINT_COUNT as nat)
    }

    /// The gradient index of lattice point `(i, j, k)`: the exclusive or of
    /// the three table entries.
    pub open spec fn corner_spec(&self, i: int, j: int, k: int) -> int {
        (self.table_x()[slot(i)] as u32 ^ self.table_y()[slot(j)] as u32
            ^ self.table_z()[slot(k)] as u32) as int
    }

    /// Three fresh random permutation tables.
    pub fn new() -> (r: Self)
        ensures
            r.wf(),
    {
        let perm_x = Self::perlin_generate_perm();
        let perm_y = Self::perlin_generate_perm();
        let perm_z = Self::perlin_generate_perm();
        Perlin { perm_x, perm_y, perm_z }
    }

    /// The identity table, shuffled.
    fn perlin_generate_perm() -> (p: Vec<i32>)
        ensures
            is_permutation(p@, POINT_COUNT as nat),
    {
        let mut p: Vec<i32> = Vec::new();
        let mut i: usize = 0;
        while i < POINT_COUNT
            invariant
                i <= POINT_COUNT,
                p@.len() == i,
                forall|k: int| 0 <= k < i ==> #[trigger] p@[k] == k,
            decreases POINT_COUNT - i,
        {
            p.push(i as i32);
            i += 1;
        }
        Self::permute(&mut p, POINT_COUNT);
        p
    }

    /// Fisher-Yates shuffle of the first `n` entries of `p`.
    fn permute(p: &mut Vec<i32>, n: usize)
        requires
            old(p)@.len() == n,
            n <= i32::MAX,
        ensures
            final(p)@.len() == n,
            final(p)@.to_multiset() == old(p)@.to_multiset(),
            is_permutation(old(p)@, n as nat) ==> is_permutation(final(p)@, n as nat),
    {
        if n == 0 {
            return;
        }
        let ghost start = p@;
        let mut i: usize = n - 1;
        while i > 0
            invariant
                i < n,
                n <= i32::MAX,
                p@.len() == n,
                p@.to_multiset() == start.to_multiset(),
                is_permutation(start, n as nat) ==> is_permutation(p@, n as nat),
            decreases i,
        {
            let target = random_int(0, i as i32) as usize;
            let ghost before = p@;
            Self::shuffle_step(p, i, target);
            proof {
                broadcast use vstd::seq_lib::group_to_multiset_ensures;
                broadcast use vstd::multiset::group_multiset_properties;
                let bi = before[i as int];
                let bt = before[target as int];
                let mid = before.update(i as int, bt);
                assert(before.contains(bi));
                assert(mid[target as int] == bt);
                assert(mid.contains(bt));
                assert(p@ == mid.update(target as int, bi));
                assert(p@.to_multiset() =~= before.to_multiset());
                if is_permutation(start, n as nat) {
                    assert forall|a: int, b: int| 0 <= a < b < n implies p@[a] != p@[b] by {
                        let a0 = if a == i { target as int } else if a == target { i as int } else { a };
                        let b0 = if b == i { target as int } else if b == target { i as int } else { b };
                        assert(p@[a] == before[a0]);
                        assert(p@[b] == before[b0]);
                        if a0 < b0 {
                            assert(before[a0] != before[b0]);
                        } else {
                            assert(before[b0] != before[a0]);
                        }
                    }
                    assert forall|a: int| 0 <= a < n implies 0 <= #[trigger] p@[a] < n by {
                        let a0 = if a == i { target as int } else if a == target { i as int } else { a };
                        assert(p@[a] == before[a0]);
                    }
                }
            }
            i -= 1;
        }
    }

    /// One step of the shuffle: entries `i` and `target` trade places.
    pub fn shuffle_step(p: &mut Vec<i32>, i: usize, target: usize)
        requires
            target <= i < old(p)@.len(),
        ensures
            final(p)@ == old(p)@.update(i as int, old(p)@[target as int]).update(
                target as int,
                old(p)@[i as int],
            ),
    {
        let tmp = p[i];
        let moved = p[target];
        p.set(i, moved);
        p.set(target, tmp);
    }

    /// The gradient index for lattice point `(i, j, k)`; always a valid slot.
    pub fn corner(&self, i: i32, j: i32, k: i32) -> (r: usize)
        requires
            self.wf(),
        ensures
            r as int == self.corner_spec(i as int, j as int, k as int),
            r < POINT_COUNT,
    {
        let a = self.perm_x[Self::slot_of(i)];
        let b = self.perm_y[Self::slot_of(j)];
        let c = self.perm_z[Self::slot_of(k)];
        let (ua, ub, uc) = (a as u32, b as u32, c as u32);
        assert(ua < 256 && ub < 256 && uc < 256);
        assert(ua ^ ub ^ uc < 256) by (bit_vector)
            requires
                ua < 256 && ub < 256 && uc < 256,
        ;
        (ua ^ ub ^ uc) as usize
    }

    /// The table slot of lattice coordinate `c`.
    fn slot_of(c: i32) -> (r: usize)
        ensures
            r as int == slot(c as int),
            r < POINT_COUNT,
    {
        if c >= 0 {
            (c % 256) as usize
        } else {
            let d = -(c + 1);
            let r = d % 256;
            proof {
                let q = (d as int) / 256;
                lemma_fundamental_div_mod(d as int, 256);
                lemma_fundamental_div_mod_converse(c as int, 256, -q - 1, 255 - r as int);
            }
            (255 - r) as usize
        }
    }
}

} // verus!
