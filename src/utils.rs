use std::time::{SystemTime, UNIX_EPOCH};

use vstd::prelude::*;
use vstd::string::StringSliceAdditionalSpecFns;
use vstd::utf8::is_char_boundary;

verus! {

/// Byte position where the last `n` bytes of a text of `len` bytes start.
pub open spec fn tail_start(len: nat, n: nat) -> int {
    if len > n { len - n } else { 0 }
}

/// The last `n` bytes of `s`, or all of it when it is shorter; the cut must
/// fall on a character boundary.
pub fn last_n_chars(s: &str, n: usize) -> (r: &str)
    requires
        is_char_boundary(s.spec_bytes(), tail_start(s.spec_bytes().len(), n as nat)),
    ensures
        r.spec_bytes() == s.spec_bytes().subrange(
            tail_start(s.spec_bytes().len(), n as nat),
            s.spec_bytes().len() as int,
        ),
{
    let len = s.as_bytes().len();
    let from: usize = if len > n { len - n } else { 0 };
    let (_, tail) = s.split_at(from);
    tail
}

/// `std::time::SystemTime`, a wall-clock instant; carried opaque.
#[verifier::external_type_specification]
#[verifier::external_body]
pub struct ExSystemTime(SystemTime);

/// Relies on `SystemTime::now`: the wall-clock time now. Nothing is stated of
/// the value.
#[verifier::external_body]
fn system_now() -> SystemTime {
    SystemTime::now()
}

/// Relies on `SystemTime::duration_since`: the nanoseconds from the Unix
/// epoch to `t`, or `None` when `t` lies before it.
#[verifier::external_body]
fn nanos_since_epoch(t: SystemTime) -> Option<u128> {
    match t.duration_since(UNIX_EPOCH) {
        Ok(d) => Some(d.as_nanos()),
        Err(_) => None,
    }
}

/// The nanoseconds of the current second of wall-clock time, or `None` when
/// the clock is set before the Unix epoch.
pub fn current_ns() -> (r: Option<usize>)
    ensures
        r is Some ==> r->0 < 1_000_000_000,
{
    match nanos_since_epoch(system_now()) {
        Some(ns) => Some(subsecond_nanos(ns)),
        None => None,
    }
}

/// The nanoseconds within the current second of a count of nanoseconds.
pub fn subsecond_nanos(ns: u128) -> (r: usize)
    ensures
        r == ns % 1_000_000_000,
{
    (ns % 1_000_000_000) as usize
}

/// A wall-clock instant as nanoseconds from the Unix epoch, negative before
/// it.
#[derive(Debug, Clone, Copy, PartialEq, Eq, Structural)]
pub struct WallTime {
    pub nanos: i64,
}

/// Signed microseconds from `start` to `stop`, each direction truncated
/// toward zero.
pub open spec fn micros_between(start: WallTime, stop: WallTime) -> int {
    if start.nanos < stop.nanos {
        (stop.nanos - start.nanos) / 1000
    } else {
        -((start.nanos - stop.nanos) / 1000)
    }
}

/// Microseconds from `start` to `stop`: positive when `stop` is later,
/// negative when it is earlier.
pub fn diff_time(start: WallTime, stop: WallTime) -> (r: i128)
    ensures
        r == micros_between(start, stop),
{
    let a = start.nanos as i128;
    let b = stop.nanos as i128;
    if a < b {
        (b - a) / 1000
    } else {
        -((a - b) / 1000)
    }
}

} // verus!
