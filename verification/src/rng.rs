use rand::{RngCore, SeedableRng};
use vstd::prelude::*;

verus! {

/// Relies on `rand::rngs::StdRng` seeded from the operating system via
/// `SeedableRng::from_entropy`, with `RngCore::fill_bytes`: it fills the
/// buffer completely. Nothing is promised about the values: they are drawn
/// fresh from a cryptographically secure source on every call.
#[verifier::external_body]
pub(crate) fn random_bytes(n: usize) -> (r: Vec<u8>)
    ensures
        r@.len() == n,
{
    let mut buf = vec![0u8; n];
    let mut rng = rand::rngs::StdRng::from_entropy();
    rng.fill_bytes(&mut buf);
    buf
}

} // verus!
