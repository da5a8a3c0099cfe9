//! Random bytes of the operating system.

use rand::RngCore;
use vstd::prelude::*;

verus! {

/// Thirty-two random bytes: calls `rand::rngs::OsRng::try_fill_bytes`, which fills the
/// buffer from the operating system or reports that it could not. Which bytes come is
/// chance, so nothing is stated of them.
#[verifier::external_body]
pub(crate) fn random_bytes_32() -> (bytes: Option<[u8; 32]>) {
    let mut bytes = [0u8; 32];
    rand::rngs::OsRng.try_fill_bytes(&mut bytes).ok().map(|()| bytes)
}

} // verus!
