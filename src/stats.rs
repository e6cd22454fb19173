use std::sync::atomic::{AtomicU64, AtomicUsize, Ordering};

use vstd::prelude::*;
use vstd::string::StringExecFns;

use crate::args::Source;
use crate::text::{decimal, push_decimal, push_two_digits, two_digits};

verus! {

/// Counter values drained from `Stats` by one report.
#[derive(Debug, Clone, Copy, PartialEq, Eq, Structural)]
pub struct Snapshot {
    pub zdn_packets: usize,
    pub reference_packets: usize,
    pub zdn_invalids: usize,
    pub reference_invalids: usize,
    pub zdn_firsts: usize,
    pub reference_firsts: usize,
    pub forwarded: usize,
    pub nanos: u64,
}

/// Milliseconds in hundredths, rounded to nearest, of a nanosecond count.
pub open spec fn centis_of_millis(nanos: u64) -> int {
    (nanos as int + 5_000) / 10_000
}

impl Snapshot {
    /// Cumulative processing time in hundredths of a millisecond, rounded
    /// to nearest.
    pub fn centimillis(&self) -> (r: u64)
        ensures
            r == centis_of_millis(self.nanos),
    {
        self.nanos / 10_000 + (if self.nanos % 10_000 >= 5_000 { 1u64 } else { 0u64 })
    }

    /// One human-readable line with every counter.
    pub fn line(&self) -> (r: String)
        ensures
            r@ == report_line(*self),
    {
        let centis = self.centimillis();
        let mut r = String::new();
        r.append("zdn-packet ");
        push_decimal(&mut r, self.zdn_packets as u64);
        r.append(", reference-packet ");
        push_decimal(&mut r, self.reference_packets as u64);
        r.append(", zdn-invalid ");
        push_decimal(&mut r, self.zdn_invalids as u64);
        r.append(", reference-invalid ");
        push_decimal(&mut r, self.reference_invalids as u64);
        r.append(", zdn-first ");
        push_decimal(&mut r, self.zdn_firsts as u64);
        r.append(", reference-first ");
        push_decimal(&mut r, self.reference_firsts as u64);
        r.append(", forwarded ");
        push_decimal(&mut r, self.forwarded as u64);
        r.append(", ms ");
        push_decimal(&mut r, centis / 100);
        r.append(".");
        push_two_digits(&mut r, centis % 100);
        assert(r@ =~= report_line(*self));
        r
    }
}

/// The report line of a snapshot: each counter after its label, then the
/// processing time in milliseconds with two decimals.
pub open spec fn report_line(s: Snapshot) -> Seq<char> {
    "zdn-packet "@ + decimal(s.zdn_packets as nat) + ", reference-packet "@ + decimal(
        s.reference_packets as nat,
    ) + ", zdn-invalid "@ + decimal(s.zdn_invalids as nat) + ", reference-invalid "@ + decimal(
        s.reference_invalids as nat,
    ) + ", zdn-first "@ + decimal(s.zdn_firsts as nat) + ", reference-first "@ + decimal(
        s.reference_firsts as nat,
    ) + ", forwarded "@ + decimal(s.forwarded as nat) + ", ms "@ + decimal(
        (centis_of_millis(s.nanos) / 100) as nat,
    ) + "."@ + two_digits((centis_of_millis(s.nanos) % 100) as nat)
}

/// Telemetry counters shared by every stage and updated with relaxed atomic
/// operations only.
pub struct Stats {
    pub packets: [AtomicUsize; 2],
    pub invalids: [AtomicUsize; 2],
    pub firsts: [AtomicUsize; 2],
    pub forwarded: AtomicUsize,
    pub nanos: AtomicU64,
}

impl Stats {
    pub fn new() -> Stats {
        Stats {
            packets: [AtomicUsize::new(0), AtomicUsize::new(0)],
            invalids: [AtomicUsize::new(0), AtomicUsize::new(0)],
            firsts: [AtomicUsize::new(0), AtomicUsize::new(0)],
            forwarded: AtomicUsize::new(0),
            nanos: AtomicU64::new(0),
        }
    }

    /// A datagram arrived from `source`.
    pub fn add_packet(&self, source: Source) {
        let i = source.index();
        self.packets[i].fetch_add(1, Ordering::Relaxed);
    }

    /// A datagram from `source` was refused by the normalizer.
    pub fn add_invalid(&self, source: Source) {
        let i = source.index();
        self.invalids[i].fetch_add(1, Ordering::Relaxed);
    }

    /// A packet from `source` was the first of its kind in the window.
    pub fn add_first(&self, source: Source) {
        let i = source.index();
        self.firsts[i].fetch_add(1, Ordering::Relaxed);
    }

    /// A packet was sent to the validator destinations.
    pub fn add_forwarded(&self) {
        self.forwarded.fetch_add(1, Ordering::Relaxed);
    }

    /// Processing time spent on one packet.
    pub fn add_nanos(&self, nanos: u64) {
        self.nanos.fetch_add(nanos, Ordering::Relaxed);
    }

    /// Reads and resets every counter, each by one atomic swap to zero.
    pub fn take(&self) -> Snapshot {
        let zdn_packets = self.packets[0].swap(0, Ordering::Relaxed);
        let reference_packets = self.packets[1].swap(0, Ordering::Relaxed);
        let zdn_invalids = self.invalids[0].swap(0, Ordering::Relaxed);
        let reference_invalids = self.invalids[1].swap(0, Ordering::Relaxed);
        let zdn_firsts = self.firsts[0].swap(0, Ordering::Relaxed);
        let reference_firsts = self.firsts[1].swap(0, Ordering::Relaxed);
        let forwarded = self.forwarded.swap(0, Ordering::Relaxed);
        let nanos = self.nanos.swap(0, Ordering::Relaxed);
        Snapshot {
            zdn_packets,
            reference_packets,
            zdn_invalids,
            reference_invalids,
            zdn_firsts,
            reference_firsts,
            forwarded,
            nanos,
        }
    }

    /// Drains the counters and renders them as one line.
    pub fn report(&self) -> (r: String)
        ensures
            exists|snap: Snapshot| r@ == #[trigger] report_line(snap),
    {
        self.take().line()
    }
}

} // verus!
