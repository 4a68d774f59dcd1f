//! A classic Perlin lattice noise generator: an immutable permutation table
//! hashing lattice corners to gradient bytes.

use crate::entropy;
use crate::table;
use crate::table::{corner_hash1, corner_hash2, corner_hash3, duplicated, table_wf};
use vstd::prelude::*;

verus! {

/// A Perlin noise generator: an immutable 512-entry permutation table,
/// built by duplicating 256 randomly drawn bytes.
pub struct Perlin {
    perm: Vec<u8>,
}

impl View for Perlin {
    type V = Seq<u8>;

    closed spec fn view(&self) -> Seq<u8> {
        self.perm@
    }
}

impl Perlin {
    #[verifier::type_invariant]
    spec fn wf(&self) -> bool {
        table_wf(self.perm@)
    }

    /// Builds a generator from 256 supplied bytes; the table, and with it
    /// every hash the generator will ever produce, is a function of these
    /// bytes alone.
    pub fn from_bytes(base: &Vec<u8>) -> (p: Perlin)
        requires
            base@.len() == 256,
        ensures
            p@ == duplicated(base@),
    {
        Perlin { perm: table::build(base) }
    }

    /// Builds a generator by drawing 256 bytes from the supplied random
    /// source.
    pub fn from_rng<R: rand::Rng>(rng: &mut R) -> (p: Perlin)
        ensures
            exists|base: Seq<u8>| base.len() == 256 && p@ == duplicated(base),
    {
        let bytes = entropy::draw_seed_bytes(rng);
        let p = Perlin::from_bytes(&bytes);
        proof {
            assert(bytes@.len() == 256 && p@ == duplicated(bytes@));
        }
        p
    }

    /// Builds a generator from a freshly seeded default random source.
    pub fn new() -> (p: Perlin)
        ensures
            exists|base: Seq<u8>| base.len() == 256 && p@ == duplicated(base),
    {
        let mut rng = entropy::fresh_default_rng();
        Perlin::from_rng(&mut rng)
    }

    /// The byte stored for lattice coordinate `i + oi`.
    pub fn hash1(&self, i: i64, oi: usize) -> (h: u8)
        requires
            oi <= 1,
        ensures
            h == corner_hash1(self@, i as int + oi),
    {
        proof {
            use_type_invariant(self);
        }
        table::hash1(&self.perm, i, oi)
    }

    /// The byte hashed for the two-dimensional lattice corner
    /// `(i + oi, j + oj)`.
    pub fn hash2(&self, i: i64, oi: usize, j: i64, oj: usize) -> (h: u8)
        requires
            oi <= 1,
            oj <= 1,
        ensures
            h == corner_hash2(self@, i as int + oi, j as int + oj),
    {
        proof {
            use_type_invariant(self);
        }
        table::hash2(&self.perm, i, oi, j, oj)
    }

    /// The byte hashed for the three-dimensional lattice corner
    /// `(i + oi, j + oj, k + ok)`.
    pub fn hash3(&self, i: i64, oi: usize, j: i64, oj: usize, k: i64, ok: usize) -> (h: u8)
        requires
            oi <= 1,
            oj <= 1,
            ok <= 1,
        ensures
            h == corner_hash3(self@, i as int + oi, j as int + oj, k as int + ok),
    {
        proof {
            use_type_invariant(self);
        }
        table::hash3(&self.perm, i, oi, j, oj, k, ok)
    }
}

impl Clone for Perlin {
    /// A clone holds an equal permutation table, and so produces the same
    /// hashes as the original.
    fn clone(&self) -> (res: Perlin)
        ensures
            res@ == self@,
    {
        proof {
            use_type_invariant(self);
        }
        let perm = self.perm.clone();
        proof {
            assert(perm@ =~= self.perm@);
        }
        Perlin { perm }
    }
}

impl PartialEq for Perlin {
    /// Two generators are equal when their permutation tables are.
    fn eq(&self, other: &Perlin) -> (r: bool) {
        table::bytes_eq(&self.perm, &other.perm)
    }
}

impl vstd::std_specs::cmp::PartialEqSpecImpl for Perlin {
    open spec fn obeys_eq_spec() -> bool {
        true
    }

    open spec fn eq_spec(&self, other: &Perlin) -> bool {
        self@ == other@
    }
}

impl Eq for Perlin {

}

} // verus!
