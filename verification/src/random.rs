//! The random source: uniformly distributed scalar randomness drawn from
//! the process entropy source.
//!
//! A uniform draw is kept as an exact rational: a numerator in
//! `[0, UNIFORM_DENOM]` over the fixed denominator `UNIFORM_DENOM`. The
//! numerator is the sum of three independent random bytes, so the draw
//! covers the unit interval in steps of `1/765`.

use vstd::prelude::*;

use crate::errors::NoiseError;

verus! {

/// Denominator of a uniform draw: three bytes of at most `255` each.
pub const UNIFORM_DENOM: u16 = 765;

/// The error type of the entropy source, opaque to the core.
#[verifier::external_type_specification]
#[verifier::external_body]
pub struct ExGetrandomError(getrandom::Error);

/// Relies on `getrandom::getrandom`: on success the whole buffer was
/// filled with random bytes, so the returned vector has the requested
/// length; on failure the source's own error is handed back.
#[verifier::external_body]
fn entropy_bytes(n: usize) -> (r: Result<Vec<u8>, getrandom::Error>)
    ensures
        r matches Ok(b) ==> b@.len() == n,
{
    let mut buf = vec![0u8; n];
    match getrandom::getrandom(&mut buf) {
        Ok(()) => Ok(buf),
        Err(e) => Err(e),
    }
}

/// Draws `n` random bytes from the entropy source in one batch.
///
/// An entropy failure is fatal for the caller's draw and is reported as
/// such, never replaced by a substitute value.
pub fn random_buffer(n: usize) -> (r: Result<Vec<u8>, NoiseError>)
    ensures
        r matches Ok(b) ==> b@.len() == n,
        r is Err ==> r == Err::<Vec<u8>, NoiseError>(NoiseError::EntropyUnavailable),
{
    match entropy_bytes(n) {
        Ok(b) => Ok(b),
        Err(_) => Err(NoiseError::EntropyUnavailable),
    }
}

/// Normalizes three random bytes into the numerator of a uniform draw
/// over `UNIFORM_DENOM`.
pub fn uniform_from_bytes(b0: u8, b1: u8, b2: u8) -> (u: u16)
    ensures
        u == b0 + b1 + b2,
        u <= UNIFORM_DENOM,
{
    b0 as u16 + b1 as u16 + b2 as u16
}

/// Draws one uniform value: the numerator of a fraction over
/// `UNIFORM_DENOM`, so the draw lies in the unit interval.
pub fn next_uniform() -> (r: Result<u16, NoiseError>)
    ensures
        r matches Ok(u) ==> u <= UNIFORM_DENOM,
        r is Err ==> r == Err::<u16, NoiseError>(NoiseError::EntropyUnavailable),
{
    match random_buffer(3) {
        Ok(b) => Ok(uniform_from_bytes(b[0], b[1], b[2])),
        Err(e) => Err(e),
    }
}

} // verus!
