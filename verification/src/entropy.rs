//! The only side-effecting step of the library: drawing the 256 random
//! bytes that seed a generator's permutation table. Both entry points are
//! trusted wrappers around the `rand` crate; everything downstream of the
//! drawn bytes is verified.

use vstd::prelude::*;

verus! {

#[verifier::external_type_specification]
#[verifier::external_body]
pub struct ExXorShiftRng(rand::XorShiftRng);

/// Relies on `rand::weak_rng`: a fresh `XorShiftRng` seeded from the
/// thread-local entropy source. Nothing is promised of its state.
#[verifier::external_body]
pub(crate) fn fresh_default_rng() -> rand::XorShiftRng {
    rand::weak_rng()
}

/// Relies on `rand::Rng::fill_bytes`: the buffer handed to it is filled
/// entirely with bytes drawn from the generator, so the result holds
/// exactly 256 drawn bytes. Nothing is promised of their values.
#[verifier::external_body]
pub(crate) fn draw_seed_bytes<R: rand::Rng>(rng: &mut R) -> (bytes: Vec<u8>)
    ensures
        bytes@.len() == 256,
{
    let mut buf = [0u8; 256];
    rng.fill_bytes(&mut buf);
    buf.to_vec()
}

} // verus!
