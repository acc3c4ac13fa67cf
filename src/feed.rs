//! Reading the items of an RSS document and turning them into episodes.
use vstd::prelude::*;

use crate::data::episode::{DownloadStatus, Episode, FeedItem};
use crate::error::Error as EngineError;

verus! {

/// What a feed item holds: its identifier, title and enclosure URL, as
/// characters.
pub struct FeedItemView {
    pub guid: Option<Seq<char>>,
    pub title: Option<Seq<char>>,
    pub enclosure: Option<Seq<char>>,
}

pub open spec fn opt_text(s: Option<String>) -> Option<Seq<char>> {
    match s {
        Some(t) => Some(t@),
        None => None,
    }
}

impl View for FeedItem {
    type V = FeedItemView;

    open spec fn view(&self) -> FeedItemView {
        FeedItemView { guid: opt_text(self.guid), title: opt_text(self.title), enclosure: opt_text(self.enclosure) }
    }
}

pub open spec fn items_view(items: Seq<FeedItem>) -> Seq<FeedItemView> {
    items.map_values(|i: FeedItem| i@)
}

/// The items, in document order, that rss reads from an RSS document; none
/// when the document cannot be read.
pub uninterp spec fn rss_items(bytes: Seq<u8>) -> Option<Seq<FeedItemView>>;

/// Relies on `rss::Channel::read_from`, which parses an RSS document, and on
/// the accessors of its items (`guid().value()`, `title()`,
/// `enclosure().url()`), which hand each item's fields out unchanged. A
/// parse error is reported as `None`.
#[verifier::external_body]
fn read_channel(bytes: &[u8]) -> (r: Option<Vec<FeedItem>>)
    ensures
        match r {
            Some(items) => rss_items(bytes@) == Some(items_view(items@)),
            None => rss_items(bytes@) is None,
        },
{
    let channel = rss::Channel::read_from(bytes).ok()?;
    Some(channel.into_items().into_iter().map(|i| FeedItem {
        guid: i.guid().map(|g| g.value().to_string()),
        title: i.title().map(|t| t.to_string()),
        enclosure: i.enclosure().map(|e| e.url().to_string()),
    }).collect())
}

/// `e` is the episode of a feed item: its guid is the item's identifier, or
/// the enclosure URL when there is none; it links to the enclosure, keeps
/// the title and waits to be submitted.
pub open spec fn episode_of(item: FeedItemView, e: Episode) -> bool {
    &&& item.enclosure matches Some(link)
    &&& e.guid@ == (match item.guid {
        Some(g) => g,
        None => link,
    })
    &&& e.torrent_link@ == link
    &&& opt_text(e.title) == item.title
    &&& e.gid is None
    &&& e.download_status == DownloadStatus::Waiting
}

/// Every item has an enclosure.
pub open spec fn all_linked(items: Seq<FeedItemView>) -> bool {
    forall|i: int| 0 <= i < items.len() ==> (#[trigger] items[i]).enclosure is Some
}

/// `episodes` are the episodes of `items`, one for one, in order.
pub open spec fn episodes_of(items: Seq<FeedItemView>, episodes: Seq<Episode>) -> bool {
    &&& episodes.len() == items.len()
    &&& forall|i: int| 0 <= i < items.len() ==> episode_of(#[trigger] items[i], episodes[i])
}

/// The episodes of feed items, in order. Fails with `BadTorrentLink` when
/// some item has no enclosure.
pub fn episodes_of_items(items: Vec<FeedItem>) -> (r: Result<Vec<Episode>, EngineError>)
    ensures
        r is Ok <==> all_linked(items_view(items@)),
        r is Err ==> r == Err::<Vec<Episode>, EngineError>(EngineError::BadTorrentLink),
        r matches Ok(v) ==> episodes_of(items_view(items@), v@),
{
    let ghost all = items_view(items@);
    let mut rest = items;
    let mut out: Vec<Episode> = Vec::new();
    let mut i: usize = 0;
    assert(all.len() == rest.len());
    while rest.len() > 0
        invariant
            all == items_view(items@),
            all.len() <= usize::MAX,
            i + rest@.len() == all.len(),
            items_view(rest@) == all.subrange(i as int, all.len() as int),
            out@.len() == i,
            forall|j: int| 0 <= j < i ==> episode_of(#[trigger] all[j], out@[j]),
        decreases rest@.len(),
    {
        let ghost before = rest@;
        let item = rest.remove(0);
        proof {
            assert(items_view(before)[0] == item@);
            assert(all[i as int] == item@);
            assert(rest@ =~= before.subrange(1, before.len() as int));
            assert forall|k: int| 0 <= k < rest@.len() implies #[trigger] items_view(rest@)[k] == all[i + 1 + k] by {
                assert(items_view(rest@)[k] == rest@[k]@);
                assert(rest@[k] == before[k + 1]);
                assert(items_view(before)[k + 1] == before[k + 1]@);
            }
            assert(items_view(rest@) =~= all.subrange(i + 1, all.len() as int));
        }
        match Episode::try_from(item) {
            Ok(e) => out.push(e),
            Err(e) => {
                proof {
                    assert(all[i as int].enclosure is None);
                    assert(!all_linked(all));
                }
                return Err(e);
            },
        }
        i += 1;
    }
    proof {
        assert forall|j: int| 0 <= j < all.len() implies (#[trigger] all[j]).enclosure is Some by {
            assert(episode_of(all[j], out@[j]));
        }
    }
    Ok(out)
}

/// The episodes of an RSS document, in order. Fails with `BadFeed` when rss
/// cannot read the document, and with `BadTorrentLink` when some item has
/// no enclosure.
pub fn read_feed(bytes: &[u8]) -> (r: Result<Vec<Episode>, EngineError>)
    ensures
        match rss_items(bytes@) {
            None => r == Err::<Vec<Episode>, EngineError>(EngineError::BadFeed),
            Some(items) => {
                &&& r is Ok <==> all_linked(items)
                &&& r is Err ==> r == Err::<Vec<Episode>, EngineError>(EngineError::BadTorrentLink)
                &&& r matches Ok(v) ==> episodes_of(items, v@)
            },
        },
{
    match read_channel(bytes) {
        Some(items) => episodes_of_items(items),
        None => Err(EngineError::BadFeed),
    }
}

} // verus!
