use ahash::RandomState;
use vstd::prelude::*;
use vstd::slice::slice_subrange;

use crate::args::Source;
use crate::hashing::content_hash;
use crate::window::DedupWindow;

verus! {

/// Bytes of an IPv4 header without options.
pub const IPV4_HEADER_LEN: usize = 20;

/// Bytes of a UDP header.
pub const UDP_HEADER_LEN: usize = 8;

/// Link-layer header length for a capture link type: 14 for Ethernet, 4 for
/// the loopback (null) encapsulation and for any other link type.
pub open spec fn link_header_len(link_type: i32) -> nat {
    if link_type == 1 { 14 } else { 4 }
}

/// Offset of the UDP payload in a captured frame of the given link type.
pub fn payload_offset(link_type: i32) -> (r: usize)
    ensures
        r == link_header_len(link_type) + IPV4_HEADER_LEN + UDP_HEADER_LEN,
{
    let header: usize = if link_type == 1 { 14 } else { 4 };
    header + IPV4_HEADER_LEN + UDP_HEADER_LEN
}

/// The bytes of a captured frame after the header offset, or `None` for a
/// frame that is no longer than the offset.
pub open spec fn post_header(frame: Seq<u8>, offset: nat) -> Option<Seq<u8>> {
    if frame.len() <= offset {
        None
    } else {
        Some(frame.subrange(offset as int, frame.len() as int))
    }
}

/// What is sent to every relay destination for a captured shred whose
/// canonical payload hashes to `hash` and whose UDP payload is `payload`:
/// the payload itself, unless the current generation holds the hash.
pub open spec fn capture_forward(current: Map<u64, Source>, hash: u64, payload: Seq<u8>) -> Option<
    Seq<u8>,
> {
    if current.contains_key(hash) {
        None
    } else {
        Some(payload)
    }
}

/// The UDP payload of a captured frame, or `None` for a frame that is no
/// longer than the header offset.
pub fn strip_header(frame: &[u8], offset: usize) -> (r: Option<&[u8]>)
    ensures
        match r {
            Some(p) => post_header(frame@, offset as nat) == Some(p@),
            None => post_header(frame@, offset as nat) is None,
        },
{
    if frame.len() <= offset {
        None
    } else {
        Some(slice_subrange(frame, offset, frame.len()))
    }
}

/// Single-owner state of the sniffer: its own keyed hasher and duplicate
/// window, and the number of packets sent back since the last report.
pub struct Sniffer {
    window: DedupWindow,
    hasher: RandomState,
    sent_back: u64,
}

impl Sniffer {
    /// The sniffer's duplicate window.
    pub closed spec fn win(&self) -> DedupWindow {
        self.window
    }

    /// Packets sent back since the last report.
    pub closed spec fn sent(&self) -> u64 {
        self.sent_back
    }

    pub open spec fn wf(&self) -> bool {
        self.win().wf()
    }

    /// A sniffer with an empty window, hashing with `hasher`, whose keys
    /// belong to this sniffer alone.
    pub fn new(hasher: RandomState) -> (r: Sniffer)
        ensures
            r.wf(),
            r.win().current_view() == Map::<u64, Source>::empty(),
            r.win().preparing_view() == Map::<u64, Source>::empty(),
            r.sent() == 0,
    {
        Sniffer { window: DedupWindow::new(), hasher, sent_back: 0 }
    }

    /// Records the hash of a packet already delivered by the relay, under the
    /// primary relay, unless the current generation holds it.
    pub fn record_relay_hash(&mut self, hash: u64)
        requires
            old(self).wf(),
        ensures
            final(self).wf(),
            final(self).sent() == old(self).sent(),
            (final(self).win().current_view(), final(self).win().preparing_view())
                == DedupWindow::observed(
                old(self).win().current_view(),
                old(self).win().preparing_view(),
                hash,
                Source::Zdn,
            ),
    {
        self.window.observe(hash, Source::Zdn);
    }

    /// Side-channel copy of a datagram that a receiver accepted: its whole
    /// bytes are hashed and recorded. An empty copy changes nothing.
    pub fn on_relay_copy(&mut self, bytes: &[u8])
        requires
            old(self).wf(),
        ensures
            final(self).wf(),
            final(self).sent() == old(self).sent(),
            bytes@.len() == 0 ==> final(self).win() == old(self).win(),
            bytes@.len() > 0 ==> exists|h: u64|
                (final(self).win().current_view(), final(self).win().preparing_view())
                    == #[trigger] DedupWindow::observed(
                    old(self).win().current_view(),
                    old(self).win().preparing_view(),
                    h,
                    Source::Zdn,
                ),
    {
        if bytes.len() == 0 {
            return;
        }
        let hash = content_hash(&self.hasher, bytes);
        self.record_relay_hash(hash);
    }

    /// Decides on a parsed shred whose canonical payload hashes to `hash`:
    /// unless the current generation holds it, it is counted and its UDP
    /// payload is returned, untouched, to be sent to every relay
    /// destination. The window is not changed.
    pub fn decide_capture(&mut self, hash: u64, payload: Vec<u8>) -> (r: Option<Vec<u8>>)
        requires
            old(self).wf(),
        ensures
            final(self).wf(),
            final(self).win() == old(self).win(),
            match r {
                Some(out) => {
                    &&& capture_forward(old(self).win().current_view(), hash, payload@) == Some(
                        out@,
                    )
                    &&& final(self).sent() == if old(self).sent() < u64::MAX {
                        old(self).sent() + 1
                    } else {
                        old(self).sent() as int
                    }
                },
                None => {
                    &&& capture_forward(old(self).win().current_view(), hash, payload@) is None
                    &&& final(self).sent() == old(self).sent()
                },
            },
    {
        if self.window.contains(hash) {
            return None;
        }
        if self.sent_back < u64::MAX {
            self.sent_back = self.sent_back + 1;
        }
        Some(payload)
    }

    /// A captured packet that parsed as a shred: `canonical` is its
    /// canonical payload, which is hashed, and `payload` the UDP payload that
    /// is forwarded when the hash is new.
    pub fn on_shred(&mut self, canonical: &[u8], payload: Vec<u8>) -> (r: Option<Vec<u8>>)
        requires
            old(self).wf(),
        ensures
            final(self).wf(),
            final(self).win() == old(self).win(),
            exists|h: u64|
                match r {
                    Some(out) => !old(self).win().current_view().contains_key(h) && out@ == payload@,
                    None => #[trigger] old(self).win().current_view().contains_key(h),
                },
            r is Some ==> final(self).sent() == if old(self).sent() < u64::MAX {
                old(self).sent() + 1
            } else {
                old(self).sent() as int
            },
            r is None ==> final(self).sent() == old(self).sent(),
    {
        let hash = content_hash(&self.hasher, canonical);
        self.decide_capture(hash, payload)
    }

    /// Rotation tick: the window ages by one generation.
    pub fn rotate(&mut self)
        requires
            old(self).wf(),
        ensures
            final(self).wf(),
            final(self).sent() == old(self).sent(),
            final(self).win().current_view() == old(self).win().preparing_view(),
            final(self).win().preparing_view() == Map::<u64, Source>::empty(),
    {
        self.window.rotate();
    }

    /// Report tick: returns the number of packets sent back since the last
    /// report and starts counting again from zero.
    pub fn take_sent_back(&mut self) -> (r: u64)
        ensures
            r == old(self).sent(),
            final(self).sent() == 0,
            final(self).win() == old(self).win(),
    {
        let n = self.sent_back;
        self.sent_back = 0;
        n
    }
}

/// A captured frame is forwarded bit for bit as it arrived after its header:
/// whatever the window holds, what is sent for it, if anything, is exactly the
/// frame's bytes from the header offset on.
pub proof fn lemma_capture_sent_unchanged(
    current: Map<u64, Source>,
    frame: Seq<u8>,
    offset: nat,
    hash: u64,
)
    ensures
        match post_header(frame, offset) {
            Some(p) => match capture_forward(current, hash, p) {
                Some(sent) => sent == frame.subrange(offset as int, frame.len() as int),
                None => true,
            },
            None => frame.len() <= offset,
        },
{
}

/// A hash that the relay delivered stops suppressing captures after two
/// rotations: a shred with that hash is forwarded again.
pub proof fn lemma_capture_novel_after_two_rotations(
    current: Map<u64, Source>,
    preparing: Map<u64, Source>,
    hash: u64,
    payload: Seq<u8>,
)
    ensures
        ({
            let seen = DedupWindow::observed(current, preparing, hash, Source::Zdn);
            let once = DedupWindow::rotated(seen.0, seen.1);
            let twice = DedupWindow::rotated(once.0, once.1);
            &&& capture_forward(seen.0, hash, payload) is None
            &&& capture_forward(twice.0, hash, payload) == Some(payload)
        }),
{
}

} // verus!
