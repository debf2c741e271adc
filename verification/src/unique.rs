//! The boundary to `uuid` and to the system clock: the calls that the
//! identifier handler makes. Nothing in this file is proved. What the calls
//! return depends on the clock and on chance, so the contracts state only
//! what holds of every outcome.

use vstd::prelude::*;

verus! {

/// `uuid::ContextV1`: a clock sequence, which tells the identifiers of one
/// instant apart.
#[verifier::external_type_specification]
#[verifier::external_body]
pub struct ExContextV1(uuid::ContextV1);

/// `uuid::Timestamp`: an instant together with a value of the clock
/// sequence.
#[verifier::external_type_specification]
#[verifier::external_body]
pub struct ExTimestamp(uuid::Timestamp);

/// `uuid::Uuid`: one identifier.
#[verifier::external_type_specification]
#[verifier::external_body]
pub struct ExUuid(uuid::Uuid);

/// `uuid::ContextV1::new_random`: a clock sequence that starts at a random
/// value.
#[verifier::external_body]
pub(crate) fn random_clock_sequence() -> (sequence: uuid::ContextV1)
{
    uuid::ContextV1::new_random()
}

/// `std::time::SystemTime::elapsed` on `UNIX_EPOCH`: the time since the
/// beginning of 1970, or `None` on a system whose clock stands before it.
#[verifier::external_body]
pub(crate) fn since_epoch() -> (elapsed: Option<core::time::Duration>)
{
    std::time::SystemTime::UNIX_EPOCH.elapsed().ok()
}

/// `Duration::as_secs`: the whole seconds of a duration.
#[verifier::external_body]
pub(crate) fn whole_seconds(duration: &core::time::Duration) -> (seconds: u64)
{
    duration.as_secs()
}

/// `Duration::subsec_nanos`: the part of a duration below one second, in
/// nanoseconds; it is less than one billion.
#[verifier::external_body]
pub(crate) fn fraction_nanos(duration: &core::time::Duration) -> (nanos: u32)
    ensures
        nanos < 1_000_000_000,
{
    duration.subsec_nanos()
}

/// `uuid::Timestamp::from_unix`: the timestamp of an instant, given in
/// seconds and nanoseconds since the beginning of 1970, with the next value
/// of the clock sequence.
#[verifier::external_body]
pub(crate) fn timestamp_at(sequence: &uuid::ContextV1, seconds: u64, nanos: u32) -> (at:
    uuid::Timestamp)
{
    uuid::Timestamp::from_unix(sequence, seconds, nanos)
}

/// `uuid::Uuid::new_v6`: the version 6 identifier of a timestamp and a node.
#[verifier::external_body]
pub(crate) fn uuid_v6(timestamp: uuid::Timestamp, node_id: &[u8; 6]) -> (id: uuid::Uuid)
{
    uuid::Uuid::new_v6(timestamp, node_id)
}

/// `Display` for `uuid::Uuid`: the hyphenated form, which has 36
/// characters.
#[verifier::external_body]
pub(crate) fn uuid_text(id: &uuid::Uuid) -> (text: String)
    ensures
        text@.len() == 36,
{
    id.to_string()
}

} // verus!
