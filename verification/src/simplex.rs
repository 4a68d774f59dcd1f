//! A simplex noise generator: an immutable permutation table hashing the
//! corners of a skewed simplex lattice, and the rules that pick which
//! corners a sample visits.

use crate::entropy;
use crate::table;
use crate::table::{corner_hash1, corner_hash2, corner_hash3, duplicated, table_wf};
use vstd::prelude::*;

verus! {

/// The lattice offsets of the middle corner of a two-dimensional simplex:
/// the lower triangle steps through `(1, 0)`, the upper through `(0, 1)`.
pub open spec fn simplex2_middle_spec(x_gt_y: bool) -> (int, int) {
    if x_gt_y {
        (1, 0)
    } else {
        (0, 1)
    }
}

/// The lattice offsets of the second and third corners of a
/// three-dimensional simplex, given how the three cell-relative
/// coordinates compare: the six orderings of `x`, `y` and `z` pick six
/// tetrahedra that together tile the cell.
pub open spec fn simplex3_middle_spec(x_ge_y: bool, y_ge_z: bool, x_ge_z: bool) -> (
    (int, int, int),
    (int, int, int),
) {
    if x_ge_y {
        if y_ge_z {
            ((1, 0, 0), (1, 1, 0))
        } else if x_ge_z {
            ((1, 0, 0), (1, 0, 1))
        } else {
            ((0, 0, 1), (1, 0, 1))
        }
    } else {
        if !y_ge_z {
            ((0, 0, 1), (0, 1, 1))
        } else if !x_ge_z {
            ((0, 1, 0), (0, 1, 1))
        } else {
            ((0, 1, 0), (1, 1, 0))
        }
    }
}

/// Picks the middle corner of a two-dimensional simplex from the
/// comparison of the cell-relative coordinates.
pub fn simplex2_middle(x_gt_y: bool) -> (o: (usize, usize))
    ensures
        (o.0 as int, o.1 as int) == simplex2_middle_spec(x_gt_y),
        o.0 <= 1,
        o.1 <= 1,
{
    if x_gt_y {
        (1, 0)
    } else {
        (0, 1)
    }
}

/// Picks the second and third corners of a three-dimensional simplex from
/// the pairwise comparisons of the cell-relative coordinates.
pub fn simplex3_middle(x_ge_y: bool, y_ge_z: bool, x_ge_z: bool) -> (o: (
    (usize, usize, usize),
    (usize, usize, usize),
))
    ensures
        (
            ((o.0).0 as int, (o.0).1 as int, (o.0).2 as int),
            ((o.1).0 as int, (o.1).1 as int, (o.1).2 as int),
        ) == simplex3_middle_spec(x_ge_y, y_ge_z, x_ge_z),
        (o.0).0 <= 1 && (o.0).1 <= 1 && (o.0).2 <= 1,
        (o.1).0 <= 1 && (o.1).1 <= 1 && (o.1).2 <= 1,
{
    if x_ge_y {
        if y_ge_z {
            ((1, 0, 0), (1, 1, 0))
        } else if x_ge_z {
            ((1, 0, 0), (1, 0, 1))
        } else {
            ((0, 0, 1), (1, 0, 1))
        }
    } else {
        if !y_ge_z {
            ((0, 0, 1), (0, 1, 1))
        } else if !x_ge_z {
            ((0, 1, 0), (0, 1, 1))
        } else {
            ((0, 1, 0), (1, 1, 0))
        }
    }
}

/// The corners picked for a three-dimensional simplex walk from the cell
/// origin to its far corner one axis step at a time: the middle corners
/// each step along exactly one further axis, and never step back.
pub proof fn lemma_simplex3_walk(x_ge_y: bool, y_ge_z: bool, x_ge_z: bool)
    ensures
        ({
            let (c1, c2) = simplex3_middle_spec(x_ge_y, y_ge_z, x_ge_z);
            &&& c1.0 + c1.1 + c1.2 == 1
            &&& c2.0 + c2.1 + c2.2 == 2
            &&& c1.0 <= c2.0 <= 1
            &&& c1.1 <= c2.1 <= 1
            &&& c1.2 <= c2.2 <= 1
            &&& 0 <= c1.0 && 0 <= c1.1 && 0 <= c1.2
        }),
{
}

/// A simplex noise generator: an immutable 512-entry permutation table,
/// built by duplicating 256 randomly drawn bytes.
pub struct Simplex {
    perm: Vec<u8>,
}

impl View for Simplex {
    type V = Seq<u8>;

    closed spec fn view(&self) -> Seq<u8> {
        self.perm@
    }
}

impl Simplex {
    #[verifier::type_invariant]
    spec fn wf(&self) -> bool {
        table_wf(self.perm@)
    }

    /// Builds a generator from 256 supplied bytes; the table, and with it
    /// every hash the generator will ever produce, is a function of these
    /// bytes alone.
    pub fn from_bytes(base: &Vec<u8>) -> (s: Simplex)
        requires
            base@.len() == 256,
        ensures
            s@ == duplicated(base@),
    {
        Simplex { perm: table::build(base) }
    }

    /// Builds a generator by drawing 256 bytes from the supplied random
    /// source.
    pub fn from_rng<R: rand::Rng>(rng: &mut R) -> (s: Simplex)
        ensures
            exists|base: Seq<u8>| base.len() == 256 && s@ == duplicated(base),
    {
        let bytes = entropy::draw_seed_bytes(rng);
        let s = Simplex::from_bytes(&bytes);
        proof {
            assert(bytes@.len() == 256 && s@ == duplicated(bytes@));
        }
        s
    }

    /// Builds a generator from a freshly seeded default random source.
    pub fn new() -> (s: Simplex)
        ensures
            exists|base: Seq<u8>| base.len() == 256 && s@ == duplicated(base),
    {
        let mut rng = entropy::fresh_default_rng();
        Simplex::from_rng(&mut rng)
    }

    /// The byte stored for lattice coordinate `i + oi`.
    pub fn hash1(&self, i: i64, oi: usize) -> (h: u8)
        requires
            oi <= 1,
        ensures
            h == corner_hash1(self@, i as int + oi),
    {
        proof {
            use_type_invariant(self);
        }
        table::hash1(&self.perm, i, oi)
    }

    /// The byte hashed for the two-dimensional lattice corner
    /// `(i + oi, j + oj)`.
    pub fn hash2(&self, i: i64, oi: usize, j: i64, oj: usize) -> (h: u8)
        requires
            oi <= 1,
            oj <= 1,
        ensures
            h == corner_hash2(self@, i as int + oi, j as int + oj),
    {
        proof {
            use_type_invariant(self);
        }
        table::hash2(&self.perm, i, oi, j, oj)
    }

    /// The byte hashed for the three-dimensional lattice corner
    /// `(i + oi, j + oj, k + ok)`.
    pub fn hash3(&self, i: i64, oi: usize, j: i64, oj: usize, k: i64, ok: usize) -> (h: u8)
        requires
            oi <= 1,
            oj <= 1,
            ok <= 1,
        ensures
            h == corner_hash3(self@, i as int + oi, j as int + oj, k as int + ok),
    {
        proof {
            use_type_invariant(self);
        }
        table::hash3(&self.perm, i, oi, j, oj, k, ok)
    }
}

impl Clone for Simplex {
    /// A clone holds an equal permutation table, and so produces the same
    /// hashes as the original.
    fn clone(&self) -> (res: Simplex)
        ensures
            res@ == self@,
    {
        proof {
            use_type_invariant(self);
        }
        let perm = self.perm.clone();
        proof {
            assert(perm@ =~= self.perm@);
        }
        Simplex { perm }
    }
}

impl PartialEq for Simplex {
    /// Two generators are equal when their permutation tables are.
    fn eq(&self, other: &Simplex) -> (r: bool) {
        table::bytes_eq(&self.perm, &other.perm)
    }
}

impl vstd::std_specs::cmp::PartialEqSpecImpl for Simplex {
    open spec fn obeys_eq_spec() -> bool {
        true
    }

    open spec fn eq_spec(&self, other: &Simplex) -> bool {
        self@ == other@
    }
}

impl Eq for Simplex {

}

} // verus!
