use vstd::prelude::*;

use crate::data::{sync_action, sync_plan, SyncAction};

verus! {

/// The durable configuration record: the daemon's address and the feeds to
/// read, by URL and by local path.
#[derive(Debug)]
pub struct SerdeConfig {
    pub aria2_address: String,
    pub url: Option<Vec<String>>,
    pub file: Option<Vec<String>>,
}

impl Default for SerdeConfig {
    /// The record written when no configuration file exists: the daemon at
    /// its usual local address and no feeds.
    fn default() -> (r: Self)
        ensures
            r.aria2_address@ == "127.0.0.1:6800"@,
            r.url is None,
            r.file is None,
    {
        Self { aria2_address: String::from_str("127.0.0.1:6800"), url: None, file: None }
    }
}

/// The configuration store: the record, the path of its file, and the
/// file's modification time when the store last read or wrote it.
pub struct Config {
    modified_time: u128,
    path: String,
    inner: SerdeConfig,
}

impl Config {
    /// The remembered modification time of the file.
    pub closed spec fn spec_modified_time(&self) -> u128 {
        self.modified_time
    }

    /// The path of the file.
    pub closed spec fn spec_path(&self) -> Seq<char> {
        self.path@
    }

    /// The record held in memory.
    pub closed spec fn record(&self) -> &SerdeConfig {
        &self.inner
    }

    /// A store holding `inner`, read from or written to `path` when the file
    /// had modification time `modified_time`.
    pub fn new(path: &str, inner: SerdeConfig, modified_time: u128) -> (r: Self)
        ensures
            r.spec_path() == path@,
            r.record() == inner,
            r.spec_modified_time() == modified_time,
    {
        Self { modified_time, path: String::from_str(path), inner }
    }

    pub fn aria2_address(&self) -> (r: &String)
        ensures
            r == self.record().aria2_address,
    {
        &self.inner.aria2_address
    }

    pub fn url(&self) -> (r: &Option<Vec<String>>)
        ensures
            r == self.record().url,
    {
        &self.inner.url
    }

    pub fn file(&self) -> (r: &Option<Vec<String>>)
        ensures
            r == self.record().file,
    {
        &self.inner.file
    }

    pub fn modified_time(&self) -> (r: u128)
        ensures
            r == self.spec_modified_time(),
    {
        self.modified_time
    }

    pub fn path(&self) -> (r: &str)
        ensures
            r@ == self.spec_path(),
    {
        self.path.as_str()
    }

    /// The record to write back to the file.
    pub fn contents(&self) -> (r: &SerdeConfig)
        ensures
            r == self.record(),
    {
        &self.inner
    }

    /// What a sync does, given the file's current modification time.
    pub fn sync_action(&self, on_disk: u128) -> (r: SyncAction)
        ensures
            r == sync_plan(self.spec_modified_time(), on_disk),
    {
        sync_action(self.modified_time, on_disk)
    }

    /// Takes in the record read from an externally edited file: it replaces
    /// the one in memory.
    pub fn merge(&mut self, on_disk: SerdeConfig)
        ensures
            final(self).record() == on_disk,
            final(self).spec_path() == old(self).spec_path(),
            final(self).spec_modified_time() == old(self).spec_modified_time(),
    {
        self.inner = on_disk;
    }

    /// Remembers the file's modification time after the record was written
    /// back.
    pub fn record_write_back(&mut self, modified_time: u128)
        ensures
            final(self).spec_modified_time() == modified_time,
            final(self).record() == old(self).record(),
            final(self).spec_path() == old(self).spec_path(),
    {
        self.modified_time = modified_time;
    }
}

} // verus!
