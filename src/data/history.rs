use vstd::prelude::*;

use crate::data::{sync_action, sync_plan, SyncAction};
use crate::text::{texts_of, vec_has_text};

verus! {

/// The durable history record: the guids known to be fully downloaded.
#[derive(Debug)]
pub struct SerdeHistory {
    pub downloaded: Vec<String>,
}

impl Default for SerdeHistory {
    /// The record written when no history file exists: nothing downloaded.
    fn default() -> (r: Self)
        ensures
            r.downloaded@.len() == 0,
    {
        Self { downloaded: Vec::new() }
    }
}

/// The history store: the durable set of downloaded guids, the pending delta
/// of guids completed since the last reconciliation, the path of the file
/// and its modification time when the store last read or wrote it.
pub struct History {
    modified_time: u128,
    path: String,
    inner: SerdeHistory,
    delta: Vec<String>,
}

/// Whether a guid counts as downloaded: it is in the durable set or in the
/// pending delta.
pub open spec fn downloaded_in(downloaded: Seq<Seq<char>>, delta: Seq<Seq<char>>, guid: Seq<char>) -> bool {
    downloaded.contains(guid) || delta.contains(guid)
}

impl History {
    /// The remembered modification time of the file.
    pub closed spec fn spec_modified_time(&self) -> u128 {
        self.modified_time
    }

    /// The path of the file.
    pub closed spec fn spec_path(&self) -> Seq<char> {
        self.path@
    }

    /// The durable set, in the order it is written.
    pub closed spec fn downloaded(&self) -> Seq<Seq<char>> {
        texts_of(self.inner.downloaded@)
    }

    /// The guids completed since the last reconciliation.
    pub closed spec fn delta(&self) -> Seq<Seq<char>> {
        texts_of(self.delta@)
    }

    /// Whether `guid` counts as downloaded.
    pub open spec fn has(&self, guid: Seq<char>) -> bool {
        downloaded_in(self.downloaded(), self.delta(), guid)
    }

    /// A store holding `inner` and an empty delta, read from or written to
    /// `path` when the file had modification time `modified_time`.
    pub fn new(path: &str, inner: SerdeHistory, modified_time: u128) -> (r: Self)
        ensures
            r.spec_path() == path@,
            r.downloaded() == texts_of(inner.downloaded@),
            r.delta().len() == 0,
            r.spec_modified_time() == modified_time,
    {
        Self { modified_time, path: String::from_str(path), inner, delta: Vec::new() }
    }

    /// Whether `guid` is in the durable set or in the pending delta.
    pub fn query(&self, guid: &str) -> (r: bool)
        ensures
            r == self.has(guid@),
    {
        vec_has_text(&self.inner.downloaded, guid) || vec_has_text(&self.delta, guid)
    }

    /// Records a completion in the pending delta.
    pub fn push(&mut self, guid: &str)
        ensures
            final(self).delta() == old(self).delta().push(guid@),
            final(self).downloaded() == old(self).downloaded(),
            final(self).spec_path() == old(self).spec_path(),
            final(self).spec_modified_time() == old(self).spec_modified_time(),
    {
        self.delta.push(String::from_str(guid));
        proof {
            assert(texts_of(self.delta@) =~= texts_of(old(self).delta@).push(guid@));
        }
    }

    pub fn modified_time(&self) -> (r: u128)
        ensures
            r == self.spec_modified_time(),
    {
        self.modified_time
    }

    pub fn path(&self) -> (r: &str)
        ensures
            r@ == self.spec_path(),
    {
        self.path.as_str()
    }

    /// The record to write back to the file.
    pub fn contents(&self) -> (r: &SerdeHistory)
        ensures
            texts_of(r.downloaded@) == self.downloaded(),
    {
        &self.inner
    }

    /// What a sync does, given the file's current modification time.
    pub fn sync_action(&self, on_disk: u128) -> (r: SyncAction)
        ensures
            r == sync_plan(self.spec_modified_time(), on_disk),
    {
        sync_action(self.modified_time, on_disk)
    }

    /// Moves the pending delta into the durable set, before the in-memory
    /// copy is written back unchanged by any external edit.
    pub fn absorb_delta(&mut self)
        ensures
            final(self).downloaded() == old(self).downloaded() + old(self).delta(),
            final(self).delta().len() == 0,
            final(self).spec_path() == old(self).spec_path(),
            final(self).spec_modified_time() == old(self).spec_modified_time(),
    {
        let ghost d0 = self.inner.downloaded@;
        let ghost e0 = self.delta@;
        self.inner.downloaded.append(&mut self.delta);
        proof {
            assert(texts_of(d0 + e0) =~= texts_of(d0) + texts_of(e0));
            assert(texts_of(self.delta@) =~= Seq::<Seq<char>>::empty());
        }
    }

    /// Takes in the record read from an externally edited file: it replaces
    /// the durable set, the pending delta is appended to it and cleared.
    pub fn merge(&mut self, on_disk: SerdeHistory)
        ensures
            final(self).downloaded() == texts_of(on_disk.downloaded@) + old(self).delta(),
            final(self).delta().len() == 0,
            final(self).spec_path() == old(self).spec_path(),
            final(self).spec_modified_time() == old(self).spec_modified_time(),
    {
        self.inner = on_disk;
        self.absorb_delta();
    }

    /// Remembers the file's modification time after the record was written
    /// back.
    pub fn record_write_back(&mut self, modified_time: u128)
        ensures
            final(self).spec_modified_time() == modified_time,
            final(self).downloaded() == old(self).downloaded(),
            final(self).delta() == old(self).delta(),
            final(self).spec_path() == old(self).spec_path(),
    {
        self.modified_time = modified_time;
    }
}

} // verus!
