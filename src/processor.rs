use vstd::prelude::*;

use crate::args::Source;
use crate::stats::Stats;
use crate::window::DedupWindow;

verus! {

/// What the processor does with one packet from the receivers.
#[derive(Debug, Clone, Copy, PartialEq, Eq, Structural)]
pub enum Disposition {
    /// Already in the current generation: dropped.
    Duplicate,
    /// New, from a source that is counted but not forwarded.
    FirstSeen,
    /// New, from the primary relay: sent to every validator destination.
    Forward,
}

/// The disposition of a packet with `hash` from `source`, given the current
/// generation of the processor's window.
pub open spec fn disposition_of(current: Map<u64, Source>, source: Source, hash: u64) -> Disposition {
    if current.contains_key(hash) {
        Disposition::Duplicate
    } else if source == Source::Zdn {
        Disposition::Forward
    } else {
        Disposition::FirstSeen
    }
}

/// How many "first-seen" increments a disposition causes.
pub open spec fn first_seen_count(d: Disposition) -> nat {
    if d == Disposition::Duplicate { 0 } else { 1 }
}

/// How many forwards a disposition causes.
pub open spec fn forward_count(d: Disposition) -> nat {
    if d == Disposition::Forward { 1 } else { 0 }
}

/// Single-owner state of the processor: its own duplicate window.
pub struct Processor {
    pub window: DedupWindow,
}

impl Processor {
    pub open spec fn wf(&self) -> bool {
        self.window.wf()
    }

    pub fn new() -> (r: Processor)
        ensures
            r.wf(),
            r.window.current_view() == Map::<u64, Source>::empty(),
            r.window.preparing_view() == Map::<u64, Source>::empty(),
    {
        Processor { window: DedupWindow::new() }
    }

    /// Decides on a packet with content hash `hash` from `source`, and
    /// records it in the window when it is new.
    pub fn handle(&mut self, source: Source, hash: u64) -> (r: Disposition)
        requires
            old(self).wf(),
        ensures
            final(self).wf(),
            r == disposition_of(old(self).window.current_view(), source, hash),
            (final(self).window.current_view(), final(self).window.preparing_view())
                == DedupWindow::observed(
                old(self).window.current_view(),
                old(self).window.preparing_view(),
                hash,
                source,
            ),
    {
        if self.window.contains(hash) {
            return Disposition::Duplicate;
        }
        self.window.observe(hash, source);
        match source {
            Source::Zdn => Disposition::Forward,
            Source::Reference => Disposition::FirstSeen,
        }
    }

    /// Handles a packet and updates the counters: the payload to send to
    /// every validator destination is returned, untouched, when the packet
    /// is forwarded.
    pub fn process(&mut self, stats: &Stats, source: Source, bytes: Vec<u8>, hash: u64) -> (r:
        Option<Vec<u8>>)
        requires
            old(self).wf(),
        ensures
            final(self).wf(),
            (final(self).window.current_view(), final(self).window.preparing_view())
                == DedupWindow::observed(
                old(self).window.current_view(),
                old(self).window.preparing_view(),
                hash,
                source,
            ),
            match r {
                Some(out) => disposition_of(old(self).window.current_view(), source, hash)
                    == Disposition::Forward && out@ == bytes@,
                None => disposition_of(old(self).window.current_view(), source, hash)
                    != Disposition::Forward,
            },
    {
        let d = self.handle(source, hash);
        match d {
            Disposition::Duplicate => None,
            Disposition::FirstSeen => {
                stats.add_first(source);
                None
            },
            Disposition::Forward => {
                stats.add_first(source);
                stats.add_forwarded();
                Some(bytes)
            },
        }
    }

    /// Rotation tick: the window ages by one generation.
    pub fn rotate(&mut self)
        requires
            old(self).wf(),
        ensures
            final(self).wf(),
            final(self).window.current_view() == old(self).window.preparing_view(),
            final(self).window.preparing_view() == Map::<u64, Source>::empty(),
    {
        self.window.rotate();
    }
}

/// The same content hash handled twice with no rotation in between gives
/// exactly one "first-seen" increment when it was not already current, none
/// when it was, and at most one forward, whatever the two sources.
pub proof fn lemma_handle_twice(
    current: Map<u64, Source>,
    preparing: Map<u64, Source>,
    hash: u64,
    first: Source,
    second: Source,
)
    ensures
        ({
            let d1 = disposition_of(current, first, hash);
            let after = DedupWindow::observed(current, preparing, hash, first);
            let d2 = disposition_of(after.0, second, hash);
            &&& first_seen_count(d1) + first_seen_count(d2) == if current.contains_key(hash) {
                0nat
            } else {
                1nat
            }
            &&& forward_count(d1) + forward_count(d2) <= 1
            &&& d2 == Disposition::Duplicate
        }),
{
}

} // verus!
