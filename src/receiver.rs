use ahash::RandomState;
use vstd::prelude::*;
use vstd::slice::slice_to_vec;

use crate::args::Source;
use crate::hashing::content_hash;
use crate::normalize::{canonical_slice, normalize, verdict_of, Verdict};
use crate::stats::Stats;

verus! {

/// A datagram accepted from a relay, with the hash of its canonical slice.
pub struct Received {
    pub source: Source,
    pub bytes: Vec<u8>,
    pub hash: u64,
}

/// Ports that receive from the relays: the primary one always, the
/// reference one when configured.
pub fn listeners(port: u16, reference: Option<u16>) -> (r: Vec<(Source, u16)>)
    ensures
        r@.len() == if reference is Some { 2nat } else { 1nat },
        r@[0] == (Source::Zdn, port),
        reference is Some ==> r@[1] == (Source::Reference, reference->0),
{
    let mut r: Vec<(Source, u16)> = Vec::new();
    r.push((Source::Zdn, port));
    if let Some(p) = reference {
        r.push((Source::Reference, p));
    }
    r
}

/// Handles one datagram from `source`: counts it, normalizes it, counts it as
/// invalid when refused (a datagram that ends before its tag byte included),
/// and otherwise hashes its canonical slice. The bytes handed on are the whole
/// datagram, untouched. An empty datagram is ignored.
pub fn receive(stats: &Stats, hasher: &RandomState, source: Source, data: &[u8]) -> (r: Option<
    Received,
>)
    ensures
        match r {
            Some(p) => {
                &&& data@.len() > 0
                &&& verdict_of(data@) is Valid
                &&& p.source == source
                &&& p.bytes@ == data@
            },
            None => data@.len() == 0 || !(verdict_of(data@) is Valid),
        },
{
    if data.len() == 0 {
        return None;
    }
    stats.add_packet(source);
    match normalize(data) {
        Verdict::Valid { len } => {
            let hash = content_hash(hasher, canonical_slice(data, len));
            Some(Received { source, bytes: slice_to_vec(data), hash })
        },
        Verdict::Invalid(_) => {
            stats.add_invalid(source);
            None
        },
    }
}

} // verus!
