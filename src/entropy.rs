use vstd::prelude::*;
use rand::Rng;

verus! {

/// Relies on rand::thread_rng, a cryptographically strong generator seeded
/// by the operating system: sixteen random bytes. Nothing is promised of
/// their values.
#[verifier::external_body]
pub(crate) fn random_bytes() -> (r: [u8; 16]) {
    rand::thread_rng().gen::<[u8; 16]>()
}

/// Relies on rand::thread_rng: a random 64-bit credential. Nothing is
/// promised of its value.
#[verifier::external_body]
pub(crate) fn random_app_id() -> (r: i64) {
    rand::thread_rng().gen::<i64>()
}

} // verus!
