use std::collections::HashMap;
use std::hash::BuildHasherDefault;

use nohash_hasher::{BuildNoHashHasher, NoHashHasher};
use vstd::prelude::*;

use crate::args::Source;

verus! {

/// `nohash_hasher::NoHashHasher`, the hasher that passes an integer key
/// through as its hash; carried opaque.
#[verifier::external_type_specification]
#[verifier::external_body]
#[verifier::reject_recursive_types(T)]
pub struct ExNoHashHasher<T>(NoHashHasher<T>);

/// `std::hash::BuildHasherDefault`, which builds the hasher above by
/// `Default`; carried opaque.
#[verifier::external_type_specification]
#[verifier::external_body]
#[verifier::reject_recursive_types(H)]
pub struct ExBuildHasherDefault<H>(BuildHasherDefault<H>);

/// A hash table keyed by content hashes, which are used as their own bucket
/// hash.
type HashTable = HashMap<u64, Source, BuildNoHashHasher<u64>>;

/// Relies on `HashMap::contains_key`: true exactly when the key is present.
/// The answer of a hash table does not depend on its hasher, here the
/// identity hasher of `nohash_hasher`.
#[verifier::external_body]
fn table_contains(t: &HashTable, hash: u64) -> (r: bool)
    ensures
        r == t@.contains_key(hash),
{
    t.contains_key(&hash)
}

/// Relies on `HashMap::insert`: afterwards the key maps to the value and the
/// other entries are unchanged, whatever the hasher.
#[verifier::external_body]
fn table_insert(t: &mut HashTable, hash: u64, source: Source)
    ensures
        final(t)@ == old(t)@.insert(hash, source),
{
    t.insert(hash, source);
}

/// Two generations of content hashes with the source that first produced
/// each. `current` decides duplicates; `preparing` collects the generation
/// that replaces it at the next rotation.
pub struct DedupWindow {
    current: HashTable,
    preparing: HashTable,
}

impl DedupWindow {
    /// The generation that duplicate checks consult.
    pub closed spec fn current_view(&self) -> Map<u64, Source> {
        self.current@
    }

    /// The generation that becomes current at the next rotation.
    pub closed spec fn preparing_view(&self) -> Map<u64, Source> {
        self.preparing@
    }

    /// Every hash of the next generation is already in the current one.
    pub open spec fn wf(&self) -> bool {
        self.preparing_view() <= self.current_view()
    }

    /// The window after `hash` is observed from `source`.
    pub open spec fn observed(
        cur: Map<u64, Source>,
        prep: Map<u64, Source>,
        hash: u64,
        source: Source,
    ) -> (Map<u64, Source>, Map<u64, Source>) {
        if cur.contains_key(hash) {
            (cur, prep)
        } else {
            (cur.insert(hash, source), prep.insert(hash, source))
        }
    }

    /// The window after one rotation.
    pub open spec fn rotated(cur: Map<u64, Source>, prep: Map<u64, Source>) -> (
        Map<u64, Source>,
        Map<u64, Source>,
    ) {
        (prep, Map::empty())
    }

    pub fn new() -> (r: DedupWindow)
        ensures
            r.wf(),
            r.current_view() == Map::<u64, Source>::empty(),
            r.preparing_view() == Map::<u64, Source>::empty(),
    {
        DedupWindow { current: HashMap::default(), preparing: HashMap::default() }
    }

    /// True iff `hash` is in the current generation.
    pub fn contains(&self, hash: u64) -> (r: bool)
        ensures
            r == self.current_view().contains_key(hash),
    {
        table_contains(&self.current, hash)
    }

    /// Records `hash` as first seen from `source`, in both generations, unless
    /// the current generation already holds it. Returns whether it was new.
    pub fn observe(&mut self, hash: u64, source: Source) -> (r: bool)
        requires
            old(self).wf(),
        ensures
            final(self).wf(),
            r == !old(self).current_view().contains_key(hash),
            (final(self).current_view(), final(self).preparing_view()) == Self::observed(
                old(self).current_view(),
                old(self).preparing_view(),
                hash,
                source,
            ),
    {
        if table_contains(&self.current, hash) {
            return false;
        }
        table_insert(&mut self.current, hash, source);
        table_insert(&mut self.preparing, hash, source);
        true
    }

    /// Ages the window by one generation: the preparing generation becomes
    /// current and a new, empty one starts.
    pub fn rotate(&mut self)
        requires
            old(self).wf(),
        ensures
            final(self).wf(),
            (final(self).current_view(), final(self).preparing_view()) == Self::rotated(
                old(self).current_view(),
                old(self).preparing_view(),
            ),
            final(self).current_view() == old(self).preparing_view(),
            final(self).preparing_view() == Map::<u64, Source>::empty(),
    {
        std::mem::swap(&mut self.current, &mut self.preparing);
        self.preparing.clear();
    }
}

/// Two rotations with no observation in between age every hash out: none is
/// a duplicate any more, whatever the window held before.
pub proof fn lemma_two_rotations_forget(cur: Map<u64, Source>, prep: Map<u64, Source>, hash: u64)
    ensures
        ({
            let once = DedupWindow::rotated(cur, prep);
            let twice = DedupWindow::rotated(once.0, once.1);
            !twice.0.contains_key(hash)
        }),
{
}

/// A hash observed as new stays in the current generation until the second
/// rotation after it: after one rotation it still counts as a duplicate.
pub proof fn lemma_observed_survives_one_rotation(
    cur: Map<u64, Source>,
    prep: Map<u64, Source>,
    hash: u64,
    source: Source,
)
    requires
        prep <= cur,
        !cur.contains_key(hash),
    ensures
        ({
            let seen = DedupWindow::observed(cur, prep, hash, source);
            &&& seen.0.contains_key(hash)
            &&& DedupWindow::rotated(seen.0, seen.1).0.contains_key(hash)
        }),
{
}

} // verus!
