use vstd::prelude::*;

use crate::error::Error;
use crate::text::str_eq;

verus! {

/// Where an episode stands in its download lifecycle.
#[derive(Debug, Clone, Copy, PartialEq, Eq, Structural)]
pub enum DownloadStatus {
    /// Waiting for sending to aria2
    Waiting,
    /// Sent to aria2
    Sent,
    /// Finished downloading
    Done,
    /// Something went wrong on the aria2 side
    Error,
}

/// A raw item of a feed, as the feed reader yields it: the enclosure's URL,
/// the item's explicit identifier and its title, each when present.
pub struct FeedItem {
    pub guid: Option<String>,
    pub title: Option<String>,
    pub enclosure: Option<String>,
}

/// One downloadable item discovered in a feed. Two episodes are equal when
/// their `guid`s are.
pub struct Episode {
    pub guid: String,
    pub title: Option<String>,
    pub torrent_link: String,
    pub gid: Option<String>,
    pub download_status: DownloadStatus,
}

/// The state that the daemon's status string leads to, if it is one of the
/// six that the lifecycle knows.
pub open spec fn status_transition(status: Seq<char>) -> Option<DownloadStatus> {
    if status == "active"@ || status == "waiting"@ || status == "paused"@ {
        Some(DownloadStatus::Sent)
    } else if status == "error"@ {
        Some(DownloadStatus::Error)
    } else if status == "complete"@ || status == "removed"@ {
        Some(DownloadStatus::Done)
    } else {
        None
    }
}

/// The guid of the episode made from a feed item with the given enclosure
/// URL: the item's own identifier, else the URL.
pub open spec fn item_guid(item: FeedItem, link: Seq<char>) -> Seq<char> {
    match item.guid {
        Some(g) => g@,
        None => link,
    }
}

impl Episode {
    /// A freshly discovered episode, waiting to be submitted.
    pub fn new(guid: String, title: Option<String>, torrent_link: String) -> (r: Self)
        ensures
            r.guid == guid,
            r.title == title,
            r.torrent_link == torrent_link,
            r.gid is None,
            r.download_status == DownloadStatus::Waiting,
    {
        Self { guid, title, torrent_link, gid: None, download_status: DownloadStatus::Waiting }
    }

    pub fn is_waiting(&self) -> (r: bool)
        ensures
            r == (self.download_status == DownloadStatus::Waiting),
    {
        self.download_status == DownloadStatus::Waiting
    }

    pub fn is_sent(&self) -> (r: bool)
        ensures
            r == (self.download_status == DownloadStatus::Sent),
    {
        self.download_status == DownloadStatus::Sent
    }

    pub fn is_done(&self) -> (r: bool)
        ensures
            r == (self.download_status == DownloadStatus::Done),
    {
        self.download_status == DownloadStatus::Done
    }

    /// Applies the daemon's status string: `active`, `waiting` and `paused`
    /// lead to `Sent`, `error` to `Error`, `complete` and `removed` to
    /// `Done`; any other string fails and leaves the episode as it was.
    pub fn set_download_status(&mut self, status: &str) -> (r: Result<(), Error>)
        ensures
            match status_transition(status@) {
                Some(s) => r is Ok && final(self).download_status == s,
                None => r == Err::<(), Error>(Error::ImpossibleEpisodeState)
                    && final(self).download_status == old(self).download_status,
            },
            final(self).guid == old(self).guid,
            final(self).title == old(self).title,
            final(self).torrent_link == old(self).torrent_link,
            final(self).gid == old(self).gid,
    {
        if str_eq(status, "active") || str_eq(status, "waiting") || str_eq(status, "paused") {
            self.download_status = DownloadStatus::Sent;
        } else if str_eq(status, "error") {
            self.download_status = DownloadStatus::Error;
        } else if str_eq(status, "complete") || str_eq(status, "removed") {
            self.download_status = DownloadStatus::Done;
        } else {
            return Err(Error::ImpossibleEpisodeState);
        }
        Ok(())
    }

    pub fn set_sent(&mut self)
        ensures
            final(self).download_status == DownloadStatus::Sent,
            final(self).guid == old(self).guid,
            final(self).title == old(self).title,
            final(self).torrent_link == old(self).torrent_link,
            final(self).gid == old(self).gid,
    {
        self.download_status = DownloadStatus::Sent;
    }

    /// The daemon's handle of the submitted download; fails when the episode
    /// was never submitted.
    pub fn gid(&self) -> (r: Result<String, Error>)
        ensures
            match self.gid {
                Some(g) => r is Ok && r->Ok_0@ == g@,
                None => r == Err::<String, Error>(Error::ImpossibleEpisodeState),
            },
    {
        match &self.gid {
            Some(gid) => Ok(gid.clone()),
            None => Err(Error::ImpossibleEpisodeState),
        }
    }

    /// Makes the episode of a feed item. Its guid is the item's identifier,
    /// or the enclosure's URL when the item has none; an item without an
    /// enclosure fails with `BadTorrentLink`.
    pub fn try_from(value: FeedItem) -> (r: Result<Episode, Error>)
        ensures
            match value.enclosure {
                None => r == Err::<Episode, Error>(Error::BadTorrentLink),
                Some(link) => r is Ok && {
                    let e = r->Ok_0;
                    &&& e.guid@ == item_guid(value, link@)
                    &&& e.torrent_link@ == link@
                    &&& e.title == value.title
                    &&& e.gid is None
                    &&& e.download_status == DownloadStatus::Waiting
                },
            },
    {
        let FeedItem { guid, title, enclosure } = value;
        let torrent_link = match enclosure {
            Some(link) => link,
            None => return Err(Error::BadTorrentLink),
        };
        let guid = match guid {
            Some(g) => g,
            None => torrent_link.clone(),
        };
        Ok(Self::new(guid, title, torrent_link))
    }
}

impl PartialEq for Episode {
    fn eq(&self, other: &Self) -> (r: bool)
        ensures
            r == (self.guid@ == other.guid@),
    {
        self.guid == other.guid
    }
}

impl vstd::std_specs::cmp::PartialEqSpecImpl for Episode {
    open spec fn obeys_eq_spec() -> bool {
        true
    }

    open spec fn eq_spec(&self, other: &Episode) -> bool {
        self.guid@ == other.guid@
    }
}

} // verus!
