use ahash::RandomState;
use vstd::prelude::*;

verus! {

/// `ahash::RandomState`, a keyed hash builder; carried opaque.
#[verifier::external_type_specification]
#[verifier::external_body]
pub struct ExRandomState(RandomState);

/// Relies on `ahash::RandomState::hash_one`: the keyed hash of a byte
/// sequence. The keys are drawn per process, so nothing is stated of the
/// value.
#[verifier::external_body]
pub(crate) fn content_hash(state: &RandomState, bytes: &[u8]) -> u64 {
    state.hash_one(bytes)
}

} // verus!
