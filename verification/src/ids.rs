use vstd::prelude::*;
use std::time::{Duration, SystemTime, SystemTimeError};
use crate::text::{decimal, decimal_string, lemma_decimal_digits, is_digit};

verus! {

#[verifier::external_type_specification]
#[verifier::external_body]
pub struct ExSystemTime(SystemTime);

#[verifier::external_type_specification]
#[verifier::external_body]
pub struct ExSystemTimeError(SystemTimeError);

/// Reads the system clock with `std::time::SystemTime::now`. Nothing is
/// claimed of the instant it returns: it depends on the machine's clock.
#[verifier::external_body]
fn clock_now() -> SystemTime {
    SystemTime::now()
}

/// `SystemTime::duration_since(UNIX_EPOCH)`: the time elapsed since the Unix
/// epoch, or an error when the instant lies before it. Nothing is claimed of
/// which of the two comes back.
#[verifier::external_body]
fn since_unix_epoch(t: &SystemTime) -> Result<Duration, SystemTimeError> {
    t.duration_since(SystemTime::UNIX_EPOCH)
}

/// The most nanoseconds a `Duration` holds: `Duration::MAX` is `u64::MAX`
/// whole seconds and 999 999 999 nanoseconds.
pub open spec fn max_duration_nanos() -> int {
    18446744073709551615int * 1000000000int + 999999999int
}

/// `Duration::as_nanos`: the whole nanoseconds of a duration. The duration
/// is opaque here, so which number it is stays unsaid; the contract claims
/// only that it is no more than a `Duration` can hold.
#[verifier::external_body]
fn duration_nanos(d: &Duration) -> (r: u128)
    ensures
        r <= max_duration_nanos(),
{
    d.as_nanos()
}

/// `Duration::as_secs`: the whole seconds of a duration. The duration is
/// opaque here, so nothing is claimed of the number.
#[verifier::external_body]
fn duration_secs(d: &Duration) -> u64 {
    d.as_secs()
}

/// The identifier made from a clock reading in nanoseconds since the epoch:
/// its decimal digits, or the empty string when the clock read before the epoch.
pub open spec fn id_of_nanos(nanos: Option<u128>) -> Seq<char> {
    match nanos {
        Some(n) => decimal(n as nat),
        None => Seq::empty(),
    }
}

/// What every identifier that `nanoid` hands out looks like.
pub open spec fn is_nano_id(s: Seq<char>) -> bool {
    s.len() == 0 || exists|n: u128| s == #[trigger] decimal(n as nat)
}

/// Formats a clock reading as an identifier.
pub fn id_from_nanos(nanos: Option<u128>) -> (r: String)
    ensures
        r@ == id_of_nanos(nanos),
{
    match nanos {
        Some(n) => decimal_string(n),
        None => String::new(),
    }
}

/// Nanoseconds since the Unix epoch now, or `None` when the clock reads
/// before it; a reading is never more than a `Duration` holds.
pub fn now_unix_nanos() -> (r: Option<u128>)
    ensures
        r matches Some(n) ==> n <= max_duration_nanos(),
{
    let now = clock_now();
    match since_unix_epoch(&now) {
        Ok(d) => Some(duration_nanos(&d)),
        Err(_) => None,
    }
}

/// Whole seconds since the Unix epoch now, or `None` when the clock reads before it.
pub fn now_unix_secs() -> Option<u64> {
    let now = clock_now();
    match since_unix_epoch(&now) {
        Ok(d) => Some(duration_secs(&d)),
        Err(_) => None,
    }
}

/// A fresh identifier: the current time in nanoseconds since the epoch, in
/// decimal, or the empty string when the clock reads before the epoch.
pub fn nanoid() -> (r: String)
    ensures
        is_nano_id(r@),
        forall|i: int| 0 <= i < r@.len() ==> is_digit(#[trigger] r@[i]),
{
    let nanos = now_unix_nanos();
    let r = id_from_nanos(nanos);
    proof {
        if let Some(n) = nanos {
            lemma_decimal_digits(n as nat);
            assert(r@ == decimal(n as nat));
        }
    }
    r
}

} // verus!

verus! {

/// The identifier of the sequence read back with the project `project_id`.
pub fn loaded_sequence_id(project_id: &str) -> (r: String)
    ensures
        r@ == "seq_"@ + project_id@,
{
    let mut s = "seq_".to_owned();
    s.append(project_id);
    s
}

} // verus!
