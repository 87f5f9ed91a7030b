//! The capability a pluggable backend implements.
//!
//! The facade is oblivious to which concrete backend is active: it only
//! relies on this three-operation interface. A backend's observable history
//! is the sequence of records it has received, written `model()`; dispatch
//! appends exactly one record to that history and flush loses none.

use vstd::prelude::*;
use crate::level::Level;
use crate::record::{Record, RecordView};

verus! {

/// The interface a pluggable backend satisfies: an acceptance pre-check,
/// record dispatch, and a best-effort flush.
pub trait Backend {
    /// The history of records this backend has received, in order.
    spec fn model(&self) -> Seq<RecordView>;

    /// The backend's own acceptance policy for a level and target, which
    /// `accepts` computes.
    spec fn spec_accepts(&self, level: Level, target: Seq<char>) -> bool;

    /// Cheap, side-effect-free pre-check a caller may use to skip
    /// expensive argument preparation before building a record.
    fn accepts(&self, level: Level, target: &str) -> (r: bool)
        ensures
            r == self.spec_accepts(level, target@),
    ;

    /// Receive one record: the history grows by exactly that record. What
    /// happens to the record afterwards — writing it somewhere, dropping
    /// it — is the backend's own concern; a failure there is the
    /// backend's to handle and never reaches the logging call site.
    fn dispatch(&mut self, record: Record)
        ensures
            final(self).model() == old(self).model().push(record@),
    ;

    /// Best-effort drain of any buffered state; no received record is
    /// lost.
    fn flush(&mut self)
        ensures
            final(self).model() == old(self).model(),
    ;
}

/// A backend that keeps every record it receives, in order of arrival.
pub struct MemoryBackend {
    records: Vec<Record>,
}

impl MemoryBackend {
    /// A backend that has received nothing yet.
    pub fn new() -> (b: MemoryBackend)
        ensures
            b.model() == Seq::<RecordView>::empty(),
    {
        let b = MemoryBackend { records: Vec::new() };
        proof {
            assert(b.model() =~= Seq::<RecordView>::empty());
        }
        b
    }

    /// The records received so far, oldest first.
    pub fn records(&self) -> (r: &Vec<Record>)
        ensures
            r@.map_values(|rec: Record| rec@) == self.model(),
    {
        &self.records
    }

    /// How many records have been received.
    pub fn len(&self) -> (n: usize)
        ensures
            n == self.model().len(),
    {
        self.records.len()
    }
}

impl Backend for MemoryBackend {
    closed spec fn model(&self) -> Seq<RecordView> {
        self.records@.map_values(|rec: Record| rec@)
    }

    open spec fn spec_accepts(&self, level: Level, target: Seq<char>) -> bool {
        true
    }

    fn accepts(&self, level: Level, target: &str) -> (r: bool) {
        true
    }

    fn dispatch(&mut self, record: Record) {
        self.records.push(record);
        proof {
            assert(final(self).model() =~= old(self).model().push(self.records@.last()@));
        }
    }

    fn flush(&mut self) {
    }
}

/// A backend that drops every record; its history is kept only as ghost
/// state, so receiving costs nothing at runtime.
pub struct NopBackend {
    received: Ghost<Seq<RecordView>>,
}

impl NopBackend {
    /// A backend that has received nothing yet.
    pub fn new() -> (b: NopBackend)
        ensures
            b.model() == Seq::<RecordView>::empty(),
    {
        NopBackend { received: Ghost(Seq::empty()) }
    }
}

impl Backend for NopBackend {
    closed spec fn model(&self) -> Seq<RecordView> {
        self.received@
    }

    open spec fn spec_accepts(&self, level: Level, target: Seq<char>) -> bool {
        false
    }

    fn accepts(&self, level: Level, target: &str) -> (r: bool) {
        false
    }

    fn dispatch(&mut self, record: Record) {
        let ghost history = self.received@;
        self.received = Ghost(history.push(record@));
    }

    fn flush(&mut self) {
    }
}

} // verus!
