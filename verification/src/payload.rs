//! Generation of pseudorandom value payloads.
//!
//! Every value written during a fill or benchmark run is a fresh buffer of
//! uniformly random bytes of a fixed size. Nothing is assumed about the
//! bytes themselves, only that the buffer has the requested length.

use vstd::prelude::*;
use rand::Rng;

verus! {

/// Relies on rand::rng and rand::Rng::random: one byte drawn from the
/// thread-local generator. Nothing is promised of its value.
#[verifier::external_body]
fn random_byte() -> u8 {
    rand::rng().random()
}

/// A freshly allocated buffer of `size` independent random bytes.
pub fn generate_random_value(size: usize) -> (r: Vec<u8>)
    ensures
        r@.len() == size,
{
    let mut buf: Vec<u8> = Vec::new();
    let mut i: usize = 0;
    while i < size
        invariant
            buf@.len() == i,
            i <= size,
        decreases size - i,
    {
        buf.push(random_byte());
        i = i + 1;
    }
    buf
}

} // verus!
