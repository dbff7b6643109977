//! Fresh identifiers and the clock: values the environment supplies.

use vstd::prelude::*;

verus! {

/// Relies on uuid::Uuid::new_v4: a random version-4 UUID, read out as
/// its 128-bit value. Random, so nothing is promised of the value.
#[verifier::external_body]
pub(crate) fn fresh_uuid_u128() -> (r: u128) {
    uuid::Uuid::new_v4().as_u128()
}

/// Relies on uuid::Uuid::new_v4 and its simple formatting: 32 hex
/// digits. The value is random; only the length is promised.
#[verifier::external_body]
pub(crate) fn fresh_token_string() -> (r: String)
    ensures
        r@.len() == 32,
{
    uuid::Uuid::new_v4().simple().to_string()
}

/// Relies on std::time::SystemTime::now: the seconds since the Unix
/// epoch, or zero should the clock lie before it. Nothing is promised
/// of the value.
#[verifier::external_body]
pub(crate) fn now_unix_seconds() -> (r: u64) {
    match std::time::SystemTime::now().duration_since(std::time::UNIX_EPOCH) {
        Ok(d) => d.as_secs(),
        Err(_) => 0,
    }
}

} // verus!
