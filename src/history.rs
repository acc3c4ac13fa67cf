use vstd::prelude::*;

use crate::text::str_eq;

verus! {

/// What the per-guid history records of an episode.
#[derive(Debug, Clone, Copy, PartialEq, Eq, Structural)]
pub struct HistoryMeta {
    pub is_downloaded: bool,
}

/// A history that records, for each guid it has been asked about, whether
/// the episode was downloaded. Each guid has at most one record (see
/// `unique_keys`, which every operation keeps).
#[derive(Debug)]
pub struct History {
    inner: Vec<(String, HistoryMeta)>,
}

/// The record of the first entry with guid `guid`, if any.
pub open spec fn record_of(entries: Seq<(Seq<char>, HistoryMeta)>, guid: Seq<char>) -> Option<HistoryMeta>
    decreases entries.len(),
{
    if entries.len() == 0 {
        None
    } else if entries[0].0 == guid {
        Some(entries[0].1)
    } else {
        record_of(entries.drop_first(), guid)
    }
}

/// No two entries share a guid.
pub open spec fn unique_keys(entries: Seq<(Seq<char>, HistoryMeta)>) -> bool {
    forall|i: int, j: int|
        0 <= i < entries.len() && 0 <= j < entries.len() && i != j ==> entries[i].0 != entries[j].0
}

/// With no record of `guid`, no entry has that guid.
proof fn lemma_record_absent(entries: Seq<(Seq<char>, HistoryMeta)>, guid: Seq<char>)
    requires
        record_of(entries, guid) is None,
    ensures
        forall|j: int| 0 <= j < entries.len() ==> #[trigger] entries[j].0 != guid,
    decreases entries.len(),
{
    if entries.len() > 0 {
        lemma_record_absent(entries.drop_first(), guid);
        assert forall|j: int| 0 <= j < entries.len() implies #[trigger] entries[j].0 != guid by {
            if j > 0 {
                assert(entries[j] == entries.drop_first()[j - 1]);
            }
        }
    }
}

/// The position of the first entry with guid `guid`.
pub open spec fn record_index(entries: Seq<(Seq<char>, HistoryMeta)>, guid: Seq<char>) -> int
    decreases entries.len(),
{
    if entries.len() == 0 {
        0
    } else if entries[0].0 == guid {
        0
    } else {
        1 + record_index(entries.drop_first(), guid)
    }
}

proof fn lemma_record_index(entries: Seq<(Seq<char>, HistoryMeta)>, guid: Seq<char>)
    requires
        record_of(entries, guid) is Some,
    ensures
        0 <= record_index(entries, guid) < entries.len(),
        entries[record_index(entries, guid)].0 == guid,
        entries[record_index(entries, guid)].1 == record_of(entries, guid)->0,
        forall|j: int| 0 <= j < record_index(entries, guid) ==> entries[j].0 != guid,
    decreases entries.len(),
{
    if entries[0].0 != guid {
        lemma_record_index(entries.drop_first(), guid);
        let k = record_index(entries.drop_first(), guid);
        assert forall|j: int| 0 <= j < record_index(entries, guid) implies entries[j].0 != guid by {
            if j > 0 {
                assert(entries[j] == entries.drop_first()[j - 1]);
            }
        }
    }
}

impl History {
    /// The records, in the order the guids were first asked about.
    pub closed spec fn entries(&self) -> Seq<(Seq<char>, HistoryMeta)> {
        self.inner@.map_values(|e: (String, HistoryMeta)| (e.0@, e.1))
    }

    fn new() -> (r: Self)
        ensures
            r.entries().len() == 0,
            unique_keys(r.entries()),
    {
        Self { inner: Vec::new() }
    }

    /// A history with no records.
    pub fn new_empty() -> (r: Self)
        ensures
            r.entries().len() == 0,
            unique_keys(r.entries()),
    {
        History::new()
    }

    /// A history holding the given records, as read from a file, which has
    /// at most one record per guid.
    pub fn from_records(records: Vec<(String, HistoryMeta)>) -> (r: Self)
        requires
            unique_keys(records@.map_values(|e: (String, HistoryMeta)| (e.0@, e.1))),
        ensures
            unique_keys(r.entries()),
            r.entries() == records@.map_values(|e: (String, HistoryMeta)| (e.0@, e.1)),
    {
        Self { inner: records }
    }

    /// The records, to write to a file.
    pub fn records(&self) -> (r: &Vec<(String, HistoryMeta)>)
        ensures
            r@.map_values(|e: (String, HistoryMeta)| (e.0@, e.1)) == self.entries(),
    {
        &self.inner
    }

    /// The number of guids recorded.
    pub fn len(&self) -> (r: usize)
        ensures
            r == self.entries().len(),
    {
        self.inner.len()
    }

    /// The position of the record of `guid`, if any.
    fn find(&self, guid: &str) -> (r: Option<usize>)
        ensures
            match r {
                Some(k) => record_of(self.entries(), guid@) is Some && k == record_index(self.entries(), guid@),
                None => record_of(self.entries(), guid@) is None,
            },
    {
        let ghost es = self.entries();
        let mut i: usize = 0;
        assert(es.subrange(0, es.len() as int) =~= es);
        while i < self.inner.len()
            invariant
                i <= es.len(),
                es.len() == self.inner@.len(),
                es == self.entries(),
                record_of(es, guid@) == record_of(es.subrange(i as int, es.len() as int), guid@),
                record_index(es, guid@) == i + record_index(es.subrange(i as int, es.len() as int), guid@),
            decreases es.len() - i,
        {
            let ghost rest = es.subrange(i as int, es.len() as int);
            assert(rest.drop_first() =~= es.subrange(i + 1, es.len() as int));
            assert(rest[0] == es[i as int]);
            assert(es[i as int].0 == self.inner@[i as int].0@);
            if str_eq(self.inner[i].0.as_str(), guid) {
                return Some(i);
            }
            i += 1;
        }
        None
    }

    /// The record of `guid`, if it has one.
    pub fn get(&self, guid: &str) -> (r: Option<&HistoryMeta>)
        ensures
            r is Some <==> record_of(self.entries(), guid@) is Some,
            r matches Some(m) ==> record_of(self.entries(), guid@) == Some(*m),
    {
        match self.find(guid) {
            Some(k) => {
                proof {
                    lemma_record_index(self.entries(), guid@);
                }
                Some(&self.inner[k].1)
            },
            None => None,
        }
    }

    /// Whether `guid` is recorded as downloaded. A guid never asked about
    /// before gets a record saying it is not, and the answer is `false`.
    pub fn query_downloaded(&mut self, guid: &str) -> (r: bool)
        ensures
            match record_of(old(self).entries(), guid@) {
                Some(m) => r == m.is_downloaded && final(self).entries() == old(self).entries(),
                None => !r && final(self).entries() == old(self).entries().push(
                    (guid@, HistoryMeta { is_downloaded: false }),
                ),
            },
            unique_keys(old(self).entries()) ==> unique_keys(final(self).entries()),
    {
        match self.find(guid) {
            Some(k) => {
                proof {
                    lemma_record_index(self.entries(), guid@);
                }
                self.inner[k].1.is_downloaded
            },
            None => {
                self.inner.push((String::from_str(guid), HistoryMeta { is_downloaded: false }));
                proof {
                    assert(self.entries() =~= old(self).entries().push((guid@, HistoryMeta { is_downloaded: false })));
                    lemma_record_absent(old(self).entries(), guid@);
                }
                false
            },
        }
    }

    /// The record of `guid`, to update in place; `guid` must have one.
    pub fn get_metadata_mut(&mut self, guid: &str) -> (r: &mut HistoryMeta)
        requires
            record_of(old(self).entries(), guid@) is Some,
        ensures
            *r == record_of(old(self).entries(), guid@)->0,
            final(self).entries() == old(self).entries().update(
                record_index(old(self).entries(), guid@),
                (guid@, *final(r)),
            ),
            unique_keys(old(self).entries()) ==> unique_keys(final(self).entries()),
    {
        proof {
            lemma_record_index(self.entries(), guid@);
        }
        let k = match self.find(guid) {
            Some(k) => k,
            None => vstd::pervasive::unreached(),
        };
        &mut self.inner[k].1
    }
}

} // verus!
