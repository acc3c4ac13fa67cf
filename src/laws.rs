//! Properties that relate several operations of the engine.
use vstd::prelude::*;
use vstd::std_specs::cmp::PartialEqSpec;

use crate::data::episode::{item_guid, status_transition, DownloadStatus, Episode, FeedItem};
use crate::data::history::{downloaded_in, History};
use crate::data::{sync_plan, SyncAction};
use crate::engine::{
    add_all, admissible, done_guids, gids_consistent, gid_matches_status, guids_of, not_done,
    pollable, unique_guids,
};

verus! {

/// Episodes are equal exactly when their guids are, and once an episode is
/// in the worklist, no episode with the same guid is admitted.
pub proof fn lemma_guid_is_the_key(history: History, list: Seq<Episode>, a: Episode, b: Episode)
    ensures
        a.eq_spec(&b) <==> a.guid@ == b.guid@,
        a.guid@ == b.guid@ ==> !admissible(history, list.push(a), b.guid@),
{
    if a.guid@ == b.guid@ {
        assert(guids_of(list.push(a))[list.len() as int] == b.guid@);
    }
}

/// Two feed items without an identifier and with the same enclosure URL
/// give episodes with the same guid, and so collide.
pub proof fn lemma_same_link_collides(x: FeedItem, y: FeedItem)
    requires
        x.guid is None,
        y.guid is None,
        x.enclosure is Some,
        y.enclosure is Some,
        x.enclosure->0@ == y.enclosure->0@,
    ensures
        item_guid(x, x.enclosure->0@) == item_guid(y, y.enclosure->0@),
{
}

/// Admitting a batch of discovered episodes never puts two episodes with the
/// same guid in the worklist, nor one whose guid is already downloaded.
pub proof fn lemma_admission_dedups(history: History, list: Seq<Episode>, new: Seq<Episode>)
    requires
        unique_guids(list),
        forall|i: int| 0 <= i < list.len() ==> !history.has(#[trigger] list[i].guid@),
    ensures
        unique_guids(add_all(history, list, new)),
        forall|i: int| 0 <= i < add_all(history, list, new).len()
            ==> !history.has(#[trigger] add_all(history, list, new)[i].guid@),
    decreases new.len(),
{
    if new.len() > 0 {
        let prev = add_all(history, list, new.drop_last());
        lemma_admission_dedups(history, list, new.drop_last());
        let e = new.last();
        if admissible(history, prev, e.guid@) {
            let l2 = prev.push(e);
            assert forall|i: int, j: int|
                0 <= i < l2.len() && 0 <= j < l2.len() && i != j implies l2[i].guid@ != l2[j].guid@ by {
                if i == prev.len() {
                    assert(guids_of(prev)[j] == prev[j].guid@);
                } else if j == prev.len() {
                    assert(guids_of(prev)[i] == prev[i].guid@);
                }
            }
        }
    }
}

/// Moving the delta into the durable set changes no answer of the history
/// query, and leaves the delta empty.
pub proof fn lemma_absorbing_keeps_answers(downloaded: Seq<Seq<char>>, delta: Seq<Seq<char>>, guid: Seq<char>)
    ensures
        downloaded_in(downloaded + delta, Seq::empty(), guid) == downloaded_in(downloaded, delta, guid),
{
    let all = downloaded + delta;
    if downloaded.contains(guid) {
        let k = choose|k: int| 0 <= k < downloaded.len() && downloaded[k] == guid;
        assert(all[k] == guid);
    }
    if delta.contains(guid) {
        let k = choose|k: int| 0 <= k < delta.len() && delta[k] == guid;
        assert(all[downloaded.len() + k] == guid);
    }
    if all.contains(guid) {
        let k = choose|k: int| 0 <= k < all.len() && all[k] == guid;
        if k >= downloaded.len() {
            assert(delta[k - downloaded.len()] == guid);
        }
    }
}

/// Merging an externally edited file loses no completion of the pending
/// delta: every guid of the delta, and every guid of the file, is in the
/// merged durable set, and the delta is empty.
pub proof fn lemma_merge_keeps_delta(on_disk: Seq<Seq<char>>, delta: Seq<Seq<char>>, guid: Seq<char>)
    ensures
        downloaded_in(on_disk + delta, Seq::empty(), guid) == (on_disk.contains(guid) || delta.contains(guid)),
{
    lemma_absorbing_keeps_answers(on_disk, delta, guid);
}

/// A sync writes back without reading exactly when the remembered
/// modification time is the same as or newer than the file's, and reads and
/// merges exactly when the file is newer.
pub proof fn lemma_sync_protocol(remembered: u128, on_disk: u128)
    ensures
        (sync_plan(remembered, on_disk) == SyncAction::WriteBack) <==> remembered >= on_disk,
        (sync_plan(remembered, on_disk) == SyncAction::MergeThenWriteBack) <==> on_disk > remembered,
{
}


/// The daemon status `complete` makes an episode `Done`.
pub proof fn lemma_complete_is_done()
    ensures
        status_transition("complete"@) == Some(DownloadStatus::Done),
{
    reveal_strlit("complete");
    reveal_strlit("active");
    reveal_strlit("waiting");
    reveal_strlit("paused");
    reveal_strlit("error");
    assert("complete"@.len() == 8);
    assert("active"@.len() == 6 && "paused"@.len() == 6 && "error"@.len() == 5);
    assert("waiting"@.len() == 7);
}

/// In a worklist whose episodes hold a handle exactly when they have left
/// `Waiting`, every `Sent` episode is polled.
pub proof fn lemma_sent_episodes_are_polled(list: Seq<Episode>, i: int)
    requires
        gids_consistent(list),
        0 <= i < list.len(),
        list[i].download_status == DownloadStatus::Sent,
    ensures
        pollable(list[i]),
{
    assert(gid_matches_status(list[i]));
}

/// Each episode that eviction keeps is a non-`Done` episode of the worklist.
proof fn lemma_kept_are_members(list: Seq<Episode>)
    ensures
        forall|k: int| 0 <= k < not_done(list).len() ==> exists|j: int|
            0 <= j < list.len() && #[trigger] not_done(list)[k] == list[j]
                && list[j].download_status != DownloadStatus::Done,
    decreases list.len(),
{
    if list.len() > 0 {
        let prev = list.drop_last();
        lemma_kept_are_members(prev);
        assert forall|k: int| 0 <= k < not_done(list).len() implies exists|j: int|
            0 <= j < list.len() && #[trigger] not_done(list)[k] == list[j]
                && list[j].download_status != DownloadStatus::Done by {
            if k < not_done(prev).len() {
                assert(not_done(list)[k] == not_done(prev)[k]);
                let j = choose|j: int| 0 <= j < prev.len() && not_done(prev)[k] == prev[j]
                    && prev[j].download_status != DownloadStatus::Done;
                assert(list[j] == prev[j]);
            } else {
                assert(not_done(list)[k] == list[list.len() - 1]);
            }
        }
    }
}

/// A `Done` episode's guid goes to the history's delta, and eviction
/// leaves no episode with that guid in a worklist of unique guids.
pub proof fn lemma_done_is_promoted_and_evicted(list: Seq<Episode>, i: int)
    requires
        unique_guids(list),
        0 <= i < list.len(),
        list[i].download_status == DownloadStatus::Done,
    ensures
        done_guids(list).contains(list[i].guid@),
        !guids_of(not_done(list)).contains(list[i].guid@),
    decreases list.len(),
{
    let g = list[i].guid@;
    let prev = list.drop_last();
    if i == list.len() - 1 {
        assert(done_guids(list) == done_guids(prev).push(g));
        assert(done_guids(list)[done_guids(prev).len() as int] == g);
    } else {
        assert(unique_guids(prev));
        assert(prev[i] == list[i]);
        lemma_done_is_promoted_and_evicted(prev, i);
        let k = choose|k: int| 0 <= k < done_guids(prev).len() && done_guids(prev)[k] == g;
        if list.last().download_status == DownloadStatus::Done {
            assert(done_guids(list)[k] == g);
        } else {
            assert(done_guids(list) == done_guids(prev));
        }
    }
    lemma_kept_are_members(list);
    if guids_of(not_done(list)).contains(g) {
        let k = choose|k: int| 0 <= k < guids_of(not_done(list)).len() && guids_of(not_done(list))[k] == g;
        assert(guids_of(not_done(list))[k] == not_done(list)[k].guid@);
        let j = choose|j: int| 0 <= j < list.len() && not_done(list)[k] == list[j]
            && list[j].download_status != DownloadStatus::Done;
        assert(j != i);
        assert(false);
    }
}

} // verus!
