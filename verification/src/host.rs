//! The two host facilities the library draws on: fresh volume
//! identifiers and the current time.  Both results depend on the
//! machine and the moment, so the contracts state only what holds of
//! every outcome.

use vstd::prelude::*;

verus! {

/// Relies on uuid::Uuid::new_v4 and uuid::Uuid::as_bytes: a fresh
/// random version-4 UUID is sixteen bytes.  Nothing more is promised
/// of a random value.
#[verifier::external_body]
pub fn fresh_volume_uuid() -> (r: Vec<u8>)
    ensures
        r@.len() == 16,
{
    uuid::Uuid::new_v4().as_bytes().to_vec()
}

/// Relies on std::time::SystemTime::now and duration_since: seconds
/// from the epoch to the present moment, truncated to 32 bits as the
/// on-disk timestamp fields store them; zero if the clock reads before
/// the epoch.  Nothing more is promised of the clock.
#[verifier::external_body]
pub fn now_epoch_secs() -> (r: u32)
{
    match std::time::SystemTime::now().duration_since(std::time::SystemTime::UNIX_EPOCH) {
        Ok(d) => d.as_secs() as u32,
        Err(_) => 0,
    }
}

} // verus!
