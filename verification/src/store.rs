//! Document store: a concurrency-safe mapping from document identifier to the
//! document's current state. The backing map is dashmap's sharded hash map, so
//! operations on distinct documents do not contend on one global lock; its
//! behaviour enters the proofs only through the trusted contracts below, which
//! speak of the store's abstract map.

use vstd::prelude::*;

use crate::analysis::AnalysisResult;
use crate::schedule::Sched;
use crate::schedule::sched_wf;
use vstd::utf8::encode_utf8;

verus! {

/// The state the store keeps per open document.
#[derive(Clone, Debug)]
pub struct DocumentState {
    /// Version supplied by the edit source; grows monotonically.
    pub version: u64,
    /// The full current source content (whole-document replacement sync).
    pub text: String,
    /// Version of the text the recorded result was computed from.
    pub analyzed_version: u64,
    /// The most recent analysis result, or `None` before the first one.
    pub last_result: Option<AnalysisResult>,
    /// Debounce and run-in-flight state for this document.
    pub sched: Sched,
}

/// Whether a debounce timer or analysis run is currently scheduled or running
/// for this document.
pub open spec fn spec_pending(s: DocumentState) -> bool {
    s.sched.timer_armed || s.sched.running || s.sched.queued
}

/// The byte-length bound under which position arithmetic cannot overflow; a
/// machine limit, met by every text a real editor can hold.
pub open spec fn text_within_limit(text: Seq<char>) -> bool {
    encode_utf8(text).len() <= usize::MAX / 2
}

/// Well-formedness of one document's state: a recorded result is never newer
/// than the text, the scheduling state is well formed, and the text is within
/// the position translator's byte-length limit.
pub open spec fn wf_state(s: DocumentState) -> bool {
    &&& s.last_result is Some ==> s.analyzed_version <= s.version
    &&& sched_wf(s.sched)
    &&& text_within_limit(s.text@)
}

impl DocumentState {
    /// Whether a debounce timer or analysis run is currently scheduled or
    /// running for this document.
    pub fn pending(&self) -> (r: bool)
        ensures
            r == spec_pending(*self),
    {
        self.sched.timer_armed || self.sched.running || self.sched.queued
    }
}

/// The store itself. The field is hidden from verification because dashmap's
/// reads hand out shard guards that cannot be declared to the verifier; every
/// access goes through the trusted methods below, whose contracts are stated
/// over the abstract map `store_map`.
#[verifier::external_body]
pub struct DocumentStore {
    inner: dashmap::DashMap<String, DocumentState>,
}

/// The abstract contents of a store: which identifiers are open and what state
/// each maps to.
pub uninterp spec fn store_map(s: DocumentStore) -> Map<Seq<char>, DocumentState>;

/// The contents of a store with no open document.
pub open spec fn empty_docs() -> Map<Seq<char>, DocumentState> {
    Map::empty()
}

impl DocumentStore {
    /// Relies on dashmap::DashMap::new: the fresh map is empty.
    #[verifier::external_body]
    pub(crate) fn new() -> (r: DocumentStore)
        ensures
            store_map(r) == empty_docs(),
    {
        DocumentStore { inner: dashmap::DashMap::new() }
    }

    /// Relies on dashmap::DashMap::get: returns the state stored under `id`,
    /// if any. The guard dashmap hands out is released by cloning the value
    /// out of it.
    #[verifier::external_body]
    pub(crate) fn read(&self, id: &String) -> (r: Option<DocumentState>)
        ensures
            r == (if store_map(*self).dom().contains(id@) {
                Some(store_map(*self)[id@])
            } else {
                None::<DocumentState>
            }),
    {
        self.inner.get(id).map(|entry| entry.value().clone())
    }

    /// Relies on dashmap::DashMap::insert: after the call `id` maps to `st`
    /// and every other identifier is untouched.
    #[verifier::external_body]
    pub(crate) fn write(&mut self, id: &String, st: DocumentState)
        ensures
            store_map(*final(self)) == store_map(*old(self)).insert(id@, st),
    {
        self.inner.insert(id.clone(), st);
    }

    /// Relies on dashmap::DashMap::remove: after the call `id` is absent and
    /// every other identifier is untouched.
    #[verifier::external_body]
    pub(crate) fn remove(&mut self, id: &String)
        ensures
            store_map(*final(self)) == store_map(*old(self)).remove(id@),
    {
        self.inner.remove(id);
    }
}

} // verus!
