use vstd::prelude::*;
use rand::RngCore;

verus! {

/// Relies on rand's `thread_rng().fill_bytes`: fills 32 bytes from the
/// thread-local cryptographically secure generator. Nothing can be promised
/// of the bytes themselves.
#[verifier::external_body]
pub(crate) fn random_seed() -> (seed: [u8; 32]) {
    let mut seed = [0u8; 32];
    rand::thread_rng().fill_bytes(&mut seed);
    seed
}

} // verus!
