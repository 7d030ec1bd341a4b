//! Trusted interface to the `rand` crate's standard generator.
//!
//! Key provisioning for test configurations draws fresh key material from a
//! caller-supplied `StdRng`.  Determinism for reproducible fixtures is owned
//! by the caller, who seeds the generator; nothing is promised here about
//! the values drawn.

use vstd::prelude::*;

verus! {

#[verifier::external_type_specification]
#[verifier::external_body]
pub struct ExStdRng(rand::rngs::StdRng);

/// Relies on `rand::Rng::fill_bytes` (the blanket impl over
/// `TryRng<Error = Infallible>`, which `StdRng` implements): it fills the
/// whole destination buffer with bytes drawn from the generator and cannot
/// fail.  Only the length of the result is stated; the values depend on the
/// generator's state.
#[verifier::external_body]
pub(crate) fn draw_key_bytes(rng: &mut rand::rngs::StdRng) -> (r: Vec<u8>)
    ensures
        r@.len() == 32,
{
    let mut buf = [0u8; 32];
    rand::Rng::fill_bytes(rng, &mut buf);
    buf.to_vec()
}

} // verus!
