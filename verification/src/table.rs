//! The permutation table shared by the lattice noise generators: a 256-entry
//! base table of random bytes, duplicated once into 512 entries so that
//! lookups whose index adds a small corner offset never leave the table.

use vstd::arithmetic::div_mod::{
    lemma_add_mod_noop, lemma_mod_add_multiples_vanish, lemma_mod_division_less_than_divisor,
    lemma_small_mod,
};
use vstd::prelude::*;

verus! {

/// The table built from a 256-entry base: 512 entries, the base repeated twice.
pub open spec fn duplicated(base: Seq<u8>) -> Seq<u8> {
    Seq::new(512, |i: int| base[i % 256])
}

/// A well-formed table has 512 entries and its second half repeats the first.
pub open spec fn table_wf(t: Seq<u8>) -> bool {
    &&& t.len() == 512
    &&& forall|i: int| 256 <= i < 512 ==> #[trigger] t[i] == t[i - 256]
}

/// The byte stored for a lattice coordinate: the coordinate wrapped into
/// [0, 255] selects a table entry.
pub open spec fn corner_hash1(t: Seq<u8>, ci: int) -> u8 {
    t[ci % 256]
}

/// The byte hashed for a two-dimensional lattice corner, by the chained
/// lookup `t[wrap(ci) + t[wrap(cj)]]`.
pub open spec fn corner_hash2(t: Seq<u8>, ci: int, cj: int) -> u8 {
    t[ci % 256 + corner_hash1(t, cj)]
}

/// The byte hashed for a three-dimensional lattice corner, by the chained
/// lookup `t[wrap(ci) + t[wrap(cj) + t[wrap(ck)]]]`.
pub open spec fn corner_hash3(t: Seq<u8>, ci: int, cj: int, ck: int) -> u8 {
    t[ci % 256 + corner_hash2(t, cj, ck)]
}

/// A duplicated table is well-formed.
proof fn lemma_duplicated_wf(base: Seq<u8>)
    requires
        base.len() == 256,
    ensures
        table_wf(duplicated(base)),
{
    let t = duplicated(base);
    assert forall|i: int| 256 <= i < 512 implies #[trigger] t[i] == t[i - 256] by {
        lemma_small_mod((i - 256) as nat, 256);
        assert(i % 256 == i - 256) by {
            lemma_add_mod_noop(i - 256, 256, 256);
            lemma_small_mod((i - 256) as nat, 256);
        };
    }
}

/// Builds the 512-entry table from a 256-entry base by duplicating it.
pub(crate) fn build(base: &Vec<u8>) -> (t: Vec<u8>)
    requires
        base@.len() == 256,
    ensures
        t@ == duplicated(base@),
        table_wf(t@),
{
    let mut t: Vec<u8> = Vec::new();
    let mut i: usize = 0;
    while i < 512
        invariant
            base@.len() == 256,
            i <= 512,
            t@.len() == i,
            forall|k: int| 0 <= k < i ==> t@[k] == base@[k % 256],
        decreases 512 - i,
    {
        proof {
            lemma_mod_division_less_than_divisor(i as int, 256);
        }
        t.push(base[i % 256]);
        i += 1;
    }
    proof {
        assert(t@ =~= duplicated(base@));
        lemma_duplicated_wf(base@);
    }
    t
}

/// Wraps a lattice coordinate into [0, 255], as Euclidean remainder.
pub(crate) fn wrap(i: i64) -> (r: usize)
    ensures
        r == (i as int) % 256,
        r < 256,
{
    proof {
        lemma_mod_division_less_than_divisor(i as int, 256);
    }
    match i.checked_rem_euclid(256) {
        Some(m) => m as usize,
        None => 0,
    }
}

/// In a well-formed table, pushing a corner offset through the wrap is the
/// same as adding it to the already-wrapped index: the duplicated half
/// absorbs the overflowing step.
proof fn lemma_offset_absorbed(t: Seq<u8>, c: int, o: int, e: int)
    requires
        table_wf(t),
        0 <= o <= 1,
        0 <= e < 256,
    ensures
        0 <= c % 256 + o + e < 512,
        t[c % 256 + o + e] == t[(c + o) % 256 + e],
{
    lemma_mod_division_less_than_divisor(c, 256);
    lemma_mod_division_less_than_divisor(c + o, 256);
    let m = c % 256;
    lemma_add_mod_noop(c, o, 256);
    lemma_small_mod(o as nat, 256);
    if m + o < 256 {
        lemma_small_mod((m + o) as nat, 256);
        assert((c + o) % 256 == m + o);
    } else {
        // m == 255 and o == 1: the step lands in the duplicated half.
        assert((m + o) % 256 == 0) by {
            assert(m + o == 256);
            lemma_add_mod_noop(256, 0, 256);
            lemma_small_mod(0, 256);
        };
        assert((c + o) % 256 == 0);
        assert(t[256 + e] == t[e]);
    }
}

/// Looks up the byte for lattice coordinate `i + oi`.
pub(crate) fn hash1(t: &Vec<u8>, i: i64, oi: usize) -> (h: u8)
    requires
        table_wf(t@),
        oi <= 1,
    ensures
        h == corner_hash1(t@, i as int + oi),
{
    let ii = wrap(i);
    proof {
        lemma_offset_absorbed(t@, i as int, oi as int, 0);
    }
    t[ii + oi]
}

/// Hashes the two-dimensional lattice corner `(i + oi, j + oj)` by the
/// chained lookup through the table.
pub(crate) fn hash2(t: &Vec<u8>, i: i64, oi: usize, j: i64, oj: usize) -> (h: u8)
    requires
        table_wf(t@),
        oi <= 1,
        oj <= 1,
    ensures
        h == corner_hash2(t@, i as int + oi, j as int + oj),
{
    let inner = hash1(t, j, oj);
    let ii = wrap(i);
    proof {
        lemma_offset_absorbed(t@, i as int, oi as int, inner as int);
    }
    t[ii + oi + inner as usize]
}

/// Hashes the three-dimensional lattice corner `(i + oi, j + oj, k + ok)` by
/// the doubly chained lookup through the table.
pub(crate) fn hash3(
    t: &Vec<u8>,
    i: i64,
    oi: usize,
    j: i64,
    oj: usize,
    k: i64,
    ok: usize,
) -> (h: u8)
    requires
        table_wf(t@),
        oi <= 1,
        oj <= 1,
        ok <= 1,
    ensures
        h == corner_hash3(t@, i as int + oi, j as int + oj, k as int + ok),
{
    let innermost = hash1(t, k, ok);
    let jj = wrap(j);
    proof {
        lemma_offset_absorbed(t@, j as int, oj as int, innermost as int);
    }
    let inner = t[jj + oj + innermost as usize];
    let ii = wrap(i);
    proof {
        lemma_offset_absorbed(t@, i as int, oi as int, inner as int);
    }
    t[ii + oi + inner as usize]
}

/// Corner hashing is periodic with period 256 along every axis: the table
/// makes the infinite lattice repeat every 256 cells.
pub proof fn lemma_corner_hash_periodic(t: Seq<u8>, ci: int, cj: int, ck: int)
    ensures
        corner_hash1(t, ci + 256) == corner_hash1(t, ci),
        corner_hash2(t, ci + 256, cj) == corner_hash2(t, ci, cj),
        corner_hash2(t, ci, cj + 256) == corner_hash2(t, ci, cj),
        corner_hash3(t, ci + 256, cj, ck) == corner_hash3(t, ci, cj, ck),
        corner_hash3(t, ci, cj + 256, ck) == corner_hash3(t, ci, cj, ck),
        corner_hash3(t, ci, cj, ck + 256) == corner_hash3(t, ci, cj, ck),
{
    lemma_mod_add_multiples_vanish(ci, 256);
    lemma_mod_add_multiples_vanish(cj, 256);
    lemma_mod_add_multiples_vanish(ck, 256);
}

/// Corner hashing is a function of the table alone: generators holding
/// equal tables hash every lattice corner alike, so equal seed bytes give
/// bit-for-bit identical hashes.
pub proof fn lemma_equal_tables_hash_alike(t1: Seq<u8>, t2: Seq<u8>, ci: int, cj: int, ck: int)
    requires
        t1 == t2,
    ensures
        corner_hash1(t1, ci) == corner_hash1(t2, ci),
        corner_hash2(t1, ci, cj) == corner_hash2(t2, ci, cj),
        corner_hash3(t1, ci, cj, ck) == corner_hash3(t2, ci, cj, ck),
{
}

/// Compares two tables entry by entry.
pub(crate) fn bytes_eq(a: &Vec<u8>, b: &Vec<u8>) -> (r: bool)
    ensures
        r == (a@ == b@),
{
    if a.len() != b.len() {
        proof {
            assert(a@ !~= b@);
        }
        return false;
    }
    let mut i: usize = 0;
    while i < a.len()
        invariant
            a@.len() == b@.len(),
            i <= a@.len(),
            forall|k: int| 0 <= k < i ==> a@[k] == b@[k],
        decreases a@.len() - i,
    {
        if a[i] != b[i] {
            proof {
                assert(a@ !~= b@);
            }
            return false;
        }
        i += 1;
    }
    proof {
        assert(a@ =~= b@);
    }
    true
}

} // verus!

