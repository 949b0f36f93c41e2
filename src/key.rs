use vstd::prelude::*;
use vstd::string::StringExecFns;
use std::time::{Duration, SystemTime};
use crate::error::RecordError;
use crate::text::{decimal, decimal_string, padded, padded_string};

verus! {

pub const NANOS_PER_SEC: u32 = 1_000_000_000;

/// The key for a moment: whole seconds, then nine zero-padded digits of
/// nanoseconds.
pub open spec fn key_text(secs: nat, nanos: nat) -> Seq<char> {
    decimal(secs) + padded(nanos, 9)
}

/// Formats a key from seconds and the nanoseconds within that second.
pub fn format_key(secs: u64, nanos: u32) -> (r: String)
    requires
        nanos < NANOS_PER_SEC,
    ensures
        r@ == key_text(secs as nat, nanos as nat),
{
    let mut s = decimal_string(secs);
    let tail = padded_string(nanos as u64, 9);
    s.append(tail.as_str());
    s
}

#[verifier::external_type_specification]
#[verifier::external_body]
pub struct ExSystemTime(SystemTime);

/// Relies on SystemTime::now: reads the wall clock.
#[verifier::external_body]
fn system_now() -> SystemTime {
    SystemTime::now()
}

/// Relies on SystemTime::duration_since with the Unix epoch: `None` when the
/// time lies before it.
#[verifier::external_body]
fn since_unix_epoch(t: &SystemTime) -> Option<Duration> {
    t.duration_since(SystemTime::UNIX_EPOCH).ok()
}

/// Relies on Duration::as_secs: the whole seconds.
#[verifier::external_body]
fn whole_secs(d: &Duration) -> u64 {
    d.as_secs()
}

/// Relies on Duration::subsec_nanos: the fractional part, always below one
/// second.
#[verifier::external_body]
fn sub_nanos(d: &Duration) -> (r: u32)
    ensures
        r < NANOS_PER_SEC,
{
    d.subsec_nanos()
}

/// Reads the clock and makes a key of it; fails only when the clock reads a
/// time before the Unix epoch.
pub fn get_key() -> (r: Result<String, RecordError>)
    ensures
        r matches Ok(k) ==> exists|secs: u64, nanos: u32|
            nanos < NANOS_PER_SEC && #[trigger] key_text(secs as nat, nanos as nat) == k@,
        r matches Err(e) ==> e is Clock,
{
    let now = system_now();
    match since_unix_epoch(&now) {
        Some(d) => {
            let secs = whole_secs(&d);
            let nanos = sub_nanos(&d);
            Ok(format_key(secs, nanos))
        },
        None => Err(RecordError::Clock),
    }
}

} // verus!
