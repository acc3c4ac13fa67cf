use vstd::prelude::*;

use crate::client::{UA, DEFAULT_UA};
use crate::data::config::Config;
use crate::data::episode::{status_transition, DownloadStatus, Episode};
use crate::data::history::History;
use crate::error::Error;
use crate::jsonrpc::{
    add_uri_params, call_of, get_version_params, json_plain, json_quoted, method_name,
    opt_quoted, param_quotes_plainly, param_text, params_text, quotes_plainly, request_text,
    response_outcome, strings_text, tell_status_params, token_text, JsonRPC, JsonRPCBuilder,
    JsonRPCMethod, JsonRPCResponse, ParamView,
};
use crate::text::str_eq;

verus! {

/// The guids of a worklist, in order.
pub open spec fn guids_of(list: Seq<Episode>) -> Seq<Seq<char>> {
    list.map_values(|e: Episode| e.guid@)
}

/// No two episodes of the worklist share a guid.
pub open spec fn unique_guids(list: Seq<Episode>) -> bool {
    forall|i: int, j: int|
        0 <= i < list.len() && 0 <= j < list.len() && i != j ==> list[i].guid@ != list[j].guid@
}

/// An episode holds a daemon handle exactly when it has left `Waiting`.
pub open spec fn gid_matches_status(e: Episode) -> bool {
    (e.gid is Some) <==> (e.download_status != DownloadStatus::Waiting)
}

/// Every episode of the worklist holds a handle exactly when it has left
/// `Waiting`.
pub open spec fn gids_consistent(list: Seq<Episode>) -> bool {
    forall|i: int| 0 <= i < list.len() ==> gid_matches_status(#[trigger] list[i])
}

/// Whether an episode with `guid` is admitted into the worklist `list`: its
/// guid is neither downloaded (durable set or delta) nor in the worklist.
pub open spec fn admissible(history: History, list: Seq<Episode>, guid: Seq<char>) -> bool {
    !history.has(guid) && !guids_of(list).contains(guid)
}

/// The worklist after the discovered episodes are offered one by one, in
/// order; each admitted one is appended.
pub open spec fn add_all(history: History, list: Seq<Episode>, new: Seq<Episode>) -> Seq<Episode>
    decreases new.len(),
{
    if new.len() == 0 {
        list
    } else {
        let prev = add_all(history, list, new.drop_last());
        if admissible(history, prev, new.last().guid@) {
            prev.push(new.last())
        } else {
            prev
        }
    }
}

/// The guids of the `Done` episodes of a worklist, in order.
pub open spec fn done_guids(list: Seq<Episode>) -> Seq<Seq<char>>
    decreases list.len(),
{
    if list.len() == 0 {
        Seq::empty()
    } else if list.last().download_status == DownloadStatus::Done {
        done_guids(list.drop_last()).push(list.last().guid@)
    } else {
        done_guids(list.drop_last())
    }
}

/// The episodes of a worklist that are not `Done`, in order.
pub open spec fn not_done(list: Seq<Episode>) -> Seq<Episode>
    decreases list.len(),
{
    if list.len() == 0 {
        Seq::empty()
    } else if list.last().download_status == DownloadStatus::Done {
        not_done(list.drop_last())
    } else {
        not_done(list.drop_last()).push(list.last())
    }
}

/// `after` is `before` with only its status changed, to `status`.
pub open spec fn with_status(before: Episode, after: Episode, status: DownloadStatus) -> bool {
    &&& after.guid == before.guid
    &&& after.title == before.title
    &&& after.torrent_link == before.torrent_link
    &&& after.gid == before.gid
    &&& after.download_status == status
}

/// `after` is `before` submitted: it holds the daemon's handle `gid` and is
/// `Sent`.
pub open spec fn submitted(before: Episode, after: Episode, gid: Seq<char>) -> bool {
    &&& after.guid == before.guid
    &&& after.title == before.title
    &&& after.torrent_link == before.torrent_link
    &&& after.gid matches Some(g) && g@ == gid
    &&& after.download_status == DownloadStatus::Sent
}

/// `after` has the length of `before` and the same episodes except perhaps
/// the one at `i`.
pub open spec fn same_but(before: Seq<Episode>, after: Seq<Episode>, i: int) -> bool {
    &&& after.len() == before.len()
    &&& forall|j: int| 0 <= j < before.len() && j != i ==> after[j] == before[j]
}

/// The orchestrator: the two durable stores, the worklist of episodes being
/// tracked, and the identifier sent with each request. Each step of a tick
/// is one method; the caller performs the I/O between them.
pub struct App {
    pub config: Config,
    pub history: History,
    pub download_list: Vec<Episode>,
    pub ua: UA,
}

impl App {
    /// The worklist, in order of discovery.
    pub open spec fn worklist(&self) -> Seq<Episode> {
        self.download_list@
    }

    /// The identifier sent with each request.
    pub open spec fn spec_ua(&self) -> Seq<char> {
        self.ua@
    }

    /// An orchestrator with an empty worklist that identifies itself with
    /// the library's name and version.
    pub fn new(config: Config, history: History) -> (r: Self)
        ensures
            r.config == config,
            r.history == history,
            r.worklist().len() == 0,
            r.spec_ua() == DEFAULT_UA@,
    {
        Self::with_ua(config, history, UA::default())
    }

    /// An orchestrator with an empty worklist that identifies itself with
    /// `ua`.
    pub fn with_ua(config: Config, history: History, ua: UA) -> (r: Self)
        ensures
            r.config == config,
            r.history == history,
            r.worklist().len() == 0,
            r.spec_ua() == ua@,
    {
        Self { config, history, download_list: Vec::new(), ua }
    }

    /// The worklist.
    pub fn download_list(&self) -> (r: &Vec<Episode>)
        ensures
            r@ == self.worklist(),
    {
        &self.download_list
    }

    /// The get-version request of the connectivity probe.
    pub fn version_request(&self) -> (r: JsonRPC)
        ensures
            r@ == call_of(self.spec_ua(), JsonRPCMethod::GetVersion, get_version_params(None)),
    {
        let built = JsonRPCBuilder::new(self.ua.as_str()).aria2_get_version(None).build();
        match built {
            Ok(r) => r,
            Err(_) => vstd::pervasive::unreached(),
        }
    }

    /// The outcome of the connectivity probe, given the daemon's response
    /// to the get-version request, or `None` when it could not be sent or
    /// read: the daemon's version, else `Aria2ConnectionError`.
    pub fn check_aria2_connection(response: Option<JsonRPCResponse>) -> (r: Result<String, Error>)
        requires
            response matches Some(resp) ==> resp.method == JsonRPCMethod::GetVersion,
        ensures
            match response {
                Some(resp) => match response_outcome(resp.value, resp.method) {
                    Ok((_, version)) => r is Ok && r->Ok_0@ == version,
                    Err(_) => r == Err::<String, Error>(Error::Aria2ConnectionError),
                },
                None => r == Err::<String, Error>(Error::Aria2ConnectionError),
            },
    {
        match response {
            Some(resp) => match resp.unwrap_response() {
                Ok((_, version)) => Ok(version),
                Err(_) => Err(Error::Aria2ConnectionError),
            },
            None => Err(Error::Aria2ConnectionError),
        }
    }
}


/// Whether some episode of `list` has guid `guid`.
fn contains_guid(list: &Vec<Episode>, guid: &str) -> (r: bool)
    ensures
        r == guids_of(list@).contains(guid@),
{
    let mut i: usize = 0;
    while i < list.len()
        invariant
            i <= list@.len(),
            forall|j: int| 0 <= j < i ==> list@[j].guid@ != guid@,
        decreases list@.len() - i,
    {
        if str_eq(list[i].guid.as_str(), guid) {
            assert(guids_of(list@)[i as int] == guid@);
            return true;
        }
        i += 1;
    }
    assert(!guids_of(list@).contains(guid@)) by {
        assert forall|j: int| 0 <= j < list@.len() implies guids_of(list@)[j] != guid@ by {
            assert(guids_of(list@)[j] == list@[j].guid@);
        }
    }
    false
}

/// Appending an episode whose guid the worklist lacks keeps its guids
/// unique.
proof fn lemma_push_unique(list: Seq<Episode>, e: Episode)
    requires
        unique_guids(list),
        !guids_of(list).contains(e.guid@),
    ensures
        unique_guids(list.push(e)),
{
    let l2 = list.push(e);
    assert forall|i: int, j: int|
        0 <= i < l2.len() && 0 <= j < l2.len() && i != j implies l2[i].guid@ != l2[j].guid@ by {
        if i == list.len() {
            assert(guids_of(list)[j] == list[j].guid@);
        } else if j == list.len() {
            assert(guids_of(list)[i] == list[i].guid@);
        }
    }
}

impl App {
    /// Offers one discovered episode to the worklist: it is appended when
    /// its guid is neither downloaded (durable set or delta) nor already in
    /// the worklist, and dropped otherwise.
    pub fn add_episode(&mut self, episode: Episode) -> (r: bool)
        ensures
            r == admissible(old(self).history, old(self).worklist(), episode.guid@),
            final(self).worklist() == (if r {
                old(self).worklist().push(episode)
            } else {
                old(self).worklist()
            }),
            unique_guids(old(self).worklist()) ==> unique_guids(final(self).worklist()),
            gids_consistent(old(self).worklist()) && gid_matches_status(episode) ==> gids_consistent(final(self).worklist()),
            final(self).history == old(self).history,
            final(self).config == old(self).config,
            final(self).ua == old(self).ua,
    {
        if self.history.query(episode.guid.as_str()) || contains_guid(&self.download_list, episode.guid.as_str()) {
            return false;
        }
        proof {
            if unique_guids(self.download_list@) {
                lemma_push_unique(self.download_list@, episode);
            }
        }
        let ghost before = self.download_list@;
        self.download_list.push(episode);
        proof {
            if gids_consistent(before) && gid_matches_status(episode) {
                assert forall|i: int| 0 <= i < self.download_list@.len() implies gid_matches_status(
                    #[trigger] self.download_list@[i],
                ) by {
                    if i < before.len() {
                        assert(self.download_list@[i] == before[i]);
                    }
                }
            }
        }
        true
    }

    /// Offers the discovered episodes to the worklist one by one, in order
    /// of discovery (see `add_episode`).
    pub fn add_episodes(&mut self, discovered: Vec<Episode>)
        ensures
            final(self).worklist() == add_all(old(self).history, old(self).worklist(), discovered@),
            unique_guids(old(self).worklist()) ==> unique_guids(final(self).worklist()),
            gids_consistent(old(self).worklist()) && gids_consistent(discovered@) ==> gids_consistent(final(self).worklist()),
            final(self).history == old(self).history,
            final(self).config == old(self).config,
            final(self).ua == old(self).ua,
    {
        let ghost start = self.download_list@;
        let ghost all = discovered@;
        let mut rest = discovered;
        let mut i: usize = 0;
        assert(all.len() == rest.len());
        while rest.len() > 0
            invariant
                all.len() <= usize::MAX,
                i + rest@.len() == all.len(),
                rest@ == all.subrange(i as int, all.len() as int),
                self.download_list@ == add_all(self.history, start, all.subrange(0, i as int)),
                unique_guids(start) ==> unique_guids(self.download_list@),
                gids_consistent(start) && gids_consistent(all) ==> gids_consistent(self.download_list@),
                self.history == old(self).history,
                self.config == old(self).config,
                self.ua == old(self).ua,
            decreases rest@.len(),
        {
            let e = rest.remove(0);
            proof {
                assert(all.subrange(0, i + 1).drop_last() =~= all.subrange(0, i as int));
                assert(all.subrange(0, i + 1).last() == e);
                assert(rest@ =~= all.subrange(i + 1, all.len() as int));
            }
            self.add_episode(e);
            i += 1;
        }
        assert(all.subrange(0, all.len() as int) =~= all);
    }

    /// The add-uri request for the episode at `i`, when it is `Waiting`.
    pub fn submit_request(&self, i: usize) -> (r: Option<JsonRPC>)
        requires
            i < self.worklist().len(),
        ensures
            r is Some <==> self.worklist()[i as int].download_status == DownloadStatus::Waiting,
            r matches Some(req) ==> req@ == call_of(
                self.spec_ua(),
                JsonRPCMethod::AddUri,
                add_uri_params(None, self.worklist()[i as int].torrent_link@),
            ),
    {
        let episode = &self.download_list[i];
        if !episode.is_waiting() {
            return None;
        }
        let built = JsonRPCBuilder::new(self.ua.as_str()).aria2_add_uri(None, episode.torrent_link.as_str()).build();
        match built {
            Ok(r) => Some(r),
            Err(_) => vstd::pervasive::unreached(),
        }
    }

    /// Applies the daemon's response to the add-uri request of the episode
    /// at `i`: on success the episode records the returned handle and
    /// becomes `Sent`. An episode that is not `Waiting` fails with
    /// `ImpossibleEpisodeState`, a failed response with the daemon's error;
    /// a failure changes nothing.
    pub fn apply_submission(&mut self, i: usize, response: JsonRPCResponse) -> (r: Result<(), Error>)
        requires
            i < old(self).worklist().len(),
            response.method == JsonRPCMethod::AddUri,
        ensures
            old(self).worklist()[i as int].download_status != DownloadStatus::Waiting ==> r == Err::<(), Error>(Error::ImpossibleEpisodeState),
            old(self).worklist()[i as int].download_status == DownloadStatus::Waiting ==> match response_outcome(response.value, response.method) {
                Ok((_, gid)) => r is Ok && submitted(old(self).worklist()[i as int], final(self).worklist()[i as int], gid),
                Err(e) => r == Err::<(), Error>(Error::RPCServerError(e)),
            },
            r is Err ==> final(self).worklist() == old(self).worklist(),
            same_but(old(self).worklist(), final(self).worklist(), i as int),
            unique_guids(old(self).worklist()) ==> unique_guids(final(self).worklist()),
            gids_consistent(old(self).worklist()) ==> gids_consistent(final(self).worklist()),
            final(self).history == old(self).history,
            final(self).config == old(self).config,
            final(self).ua == old(self).ua,
    {
        if !self.download_list[i].is_waiting() {
            return Err(Error::ImpossibleEpisodeState);
        }
        match response.unwrap_response() {
            Ok((_, gid)) => {
                let ghost before = self.download_list@;
                self.download_list[i].gid = Some(gid);
                self.download_list[i].set_sent();
                proof {
                    if gids_consistent(before) {
                        assert forall|a: int| 0 <= a < before.len() implies gid_matches_status(
                            #[trigger] self.download_list@[a],
                        ) by {
                            if a != i {
                                assert(self.download_list@[a] == before[a]);
                            } else {
                                assert(gid_matches_status(before[a]));
                            }
                        }
                    }
                    assert forall|a: int, b: int|
                        0 <= a < before.len() && 0 <= b < before.len() && a != b
                        && unique_guids(before) implies self.download_list@[a].guid@ != self.download_list@[b].guid@ by {
                        assert(self.download_list@[a].guid == before[a].guid);
                        assert(self.download_list@[b].guid == before[b].guid);
                    }
                }
                Ok(())
            },
            Err(e) => Err(Error::RPCServerError(e)),
        }
    }
}


/// The episodes kept by eviction are episodes of the worklist.
proof fn lemma_not_done_from(list: Seq<Episode>, g: Seq<char>)
    requires
        guids_of(not_done(list)).contains(g),
    ensures
        guids_of(list).contains(g),
    decreases list.len(),
{
    let kept = not_done(list);
    let k = choose|k: int| 0 <= k < guids_of(kept).len() && guids_of(kept)[k] == g;
    assert(guids_of(kept)[k] == kept[k].guid@);
    if list.len() > 0 {
        let prev = list.drop_last();
        if list.last().download_status != DownloadStatus::Done && k == kept.len() - 1 {
            assert(guids_of(list)[list.len() - 1] == g);
        } else {
            assert(kept[k] == not_done(prev)[k]);
            assert(guids_of(not_done(prev))[k] == g);
            lemma_not_done_from(prev, g);
            let m = choose|m: int| 0 <= m < guids_of(prev).len() && guids_of(prev)[m] == g;
            assert(guids_of(list)[m] == guids_of(prev)[m]);
        }
    }
}

/// Eviction keeps the worklist's guids unique.
proof fn lemma_not_done_unique(list: Seq<Episode>)
    requires
        unique_guids(list),
    ensures
        unique_guids(not_done(list)),
    decreases list.len(),
{
    if list.len() > 0 {
        let prev = list.drop_last();
        assert(unique_guids(prev));
        lemma_not_done_unique(prev);
        if list.last().download_status != DownloadStatus::Done {
            if guids_of(not_done(prev)).contains(list.last().guid@) {
                lemma_not_done_from(prev, list.last().guid@);
                let m = choose|m: int| 0 <= m < guids_of(prev).len() && guids_of(prev)[m] == list.last().guid@;
                assert(list[m] == prev[m]);
                assert(false);
            }
            lemma_push_unique(not_done(prev), list.last());
        }
    }
}

impl App {
    /// The tell-status request for the episode at `i`, when it is `Sent`;
    /// a `Sent` episode without a handle fails with
    /// `ImpossibleEpisodeState`.
    pub fn poll_request(&self, i: usize) -> (r: Result<Option<JsonRPC>, Error>)
        requires
            i < self.worklist().len(),
        ensures
            ({
                let e = self.worklist()[i as int];
                if e.download_status != DownloadStatus::Sent {
                    r == Ok::<Option<JsonRPC>, Error>(None)
                } else {
                    match e.gid {
                        Some(g) => r matches Ok(Some(req)) && req@ == call_of(
                            self.spec_ua(),
                            JsonRPCMethod::TellStatus,
                            tell_status_params(None, g@),
                        ),
                        None => r == Err::<Option<JsonRPC>, Error>(Error::ImpossibleEpisodeState),
                    }
                }
            }),
    {
        let episode = &self.download_list[i];
        if !episode.is_sent() {
            return Ok(None);
        }
        let gid = match episode.gid() {
            Ok(g) => g,
            Err(e) => return Err(e),
        };
        let built = JsonRPCBuilder::new(self.ua.as_str()).aria2_tell_status(None, gid.as_str()).build();
        match built {
            Ok(r) => Ok(Some(r)),
            Err(_) => vstd::pervasive::unreached(),
        }
    }

    /// Applies the daemon's response to the tell-status request of the
    /// episode at `i` through the status transition table. An episode that
    /// is not `Sent`, or a status the table does not know, fails with
    /// `ImpossibleEpisodeState`; a failed response with the daemon's error;
    /// a failure changes nothing.
    pub fn apply_status(&mut self, i: usize, response: JsonRPCResponse) -> (r: Result<(), Error>)
        requires
            i < old(self).worklist().len(),
            response.method == JsonRPCMethod::TellStatus,
        ensures
            old(self).worklist()[i as int].download_status != DownloadStatus::Sent ==> r == Err::<(), Error>(Error::ImpossibleEpisodeState),
            old(self).worklist()[i as int].download_status == DownloadStatus::Sent ==> match response_outcome(response.value, response.method) {
                Ok((_, status)) => match status_transition(status) {
                    Some(s) => r is Ok && with_status(old(self).worklist()[i as int], final(self).worklist()[i as int], s),
                    None => r == Err::<(), Error>(Error::ImpossibleEpisodeState),
                },
                Err(e) => r == Err::<(), Error>(Error::RPCServerError(e)),
            },
            r is Err ==> final(self).worklist() == old(self).worklist(),
            same_but(old(self).worklist(), final(self).worklist(), i as int),
            unique_guids(old(self).worklist()) ==> unique_guids(final(self).worklist()),
            gids_consistent(old(self).worklist()) ==> gids_consistent(final(self).worklist()),
            final(self).history == old(self).history,
            final(self).config == old(self).config,
            final(self).ua == old(self).ua,
    {
        if !self.download_list[i].is_sent() {
            return Err(Error::ImpossibleEpisodeState);
        }
        match response.unwrap_response() {
            Ok((_, status)) => {
                let ghost before = self.download_list@;
                let applied = self.download_list[i].set_download_status(status.as_str());
                proof {
                    if applied is Err {
                        assert(self.download_list@[i as int] == before[i as int]);
                        assert(self.download_list@ =~= before);
                    }
                    assert forall|a: int, b: int|
                        0 <= a < before.len() && 0 <= b < before.len() && a != b
                        && unique_guids(before) implies self.download_list@[a].guid@ != self.download_list@[b].guid@ by {
                        assert(self.download_list@[a].guid == before[a].guid);
                        assert(self.download_list@[b].guid == before[b].guid);
                    }
                }
                applied
            },
            Err(e) => Err(Error::RPCServerError(e)),
        }
    }

    /// Ends the per-episode work of a tick: the guid of every `Done`
    /// episode is appended to the history's delta, in worklist order, and
    /// those episodes leave the worklist; all others stay, in order.
    pub fn promote_and_evict(&mut self)
        ensures
            final(self).worklist() == not_done(old(self).worklist()),
            final(self).history.delta() == old(self).history.delta() + done_guids(old(self).worklist()),
            final(self).history.downloaded() == old(self).history.downloaded(),
            final(self).history.spec_path() == old(self).history.spec_path(),
            final(self).history.spec_modified_time() == old(self).history.spec_modified_time(),
            unique_guids(old(self).worklist()) ==> unique_guids(final(self).worklist()),
            gids_consistent(old(self).worklist()) ==> gids_consistent(final(self).worklist()),
            final(self).config == old(self).config,
            final(self).ua == old(self).ua,
    {
        let ghost all = self.download_list@;
        let ghost delta0 = self.history.delta();
        let mut rest: Vec<Episode> = Vec::new();
        std::mem::swap(&mut rest, &mut self.download_list);
        let mut i: usize = 0;
        assert(all.len() == rest.len());
        assert(all.subrange(0, 0) =~= Seq::<Episode>::empty());
        assert(self.history.delta() =~= delta0 + done_guids(all.subrange(0, 0)));
        while rest.len() > 0
            invariant
                all.len() <= usize::MAX,
                i + rest@.len() == all.len(),
                rest@ == all.subrange(i as int, all.len() as int),
                self.download_list@ == not_done(all.subrange(0, i as int)),
                gids_consistent(all) ==> gids_consistent(self.download_list@),
                self.history.delta() == delta0 + done_guids(all.subrange(0, i as int)),
                self.history.downloaded() == old(self).history.downloaded(),
                self.history.spec_path() == old(self).history.spec_path(),
                self.history.spec_modified_time() == old(self).history.spec_modified_time(),
                self.config == old(self).config,
                self.ua == old(self).ua,
            decreases rest@.len(),
        {
            let e = rest.remove(0);
            proof {
                assert(all.subrange(0, i + 1).drop_last() =~= all.subrange(0, i as int));
                assert(all.subrange(0, i + 1).last() == e);
                assert(rest@ =~= all.subrange(i + 1, all.len() as int));
            }
            if e.is_done() {
                self.history.push(e.guid.as_str());
                proof {
                    assert(self.history.delta() =~= delta0 + done_guids(all.subrange(0, i + 1)));
                }
            } else {
                let ghost before = self.download_list@;
                self.download_list.push(e);
                proof {
                    if gids_consistent(all) {
                        assert(gid_matches_status(all[i as int]));
                        assert forall|a: int| 0 <= a < self.download_list@.len() implies gid_matches_status(
                            #[trigger] self.download_list@[a],
                        ) by {
                            if a < before.len() {
                                assert(self.download_list@[a] == before[a]);
                            }
                        }
                    }
                }
            }
            i += 1;
        }
        assert(all.subrange(0, all.len() as int) =~= all);
        proof {
            if unique_guids(all) {
                lemma_not_done_unique(all);
            }
        }
    }
}


/// The positions of the `Waiting` episodes of a worklist, in order.
pub open spec fn waiting_indices(list: Seq<Episode>) -> Seq<int>
    decreases list.len(),
{
    if list.len() == 0 {
        Seq::empty()
    } else if list.last().download_status == DownloadStatus::Waiting {
        waiting_indices(list.drop_last()).push(list.len() - 1)
    } else {
        waiting_indices(list.drop_last())
    }
}

/// Whether an episode is polled: it is `Sent` and holds a handle.
pub open spec fn pollable(e: Episode) -> bool {
    e.download_status == DownloadStatus::Sent && e.gid is Some
}

/// The positions of the pollable episodes of a worklist, in order.
pub open spec fn pollable_indices(list: Seq<Episode>) -> Seq<int>
    decreases list.len(),
{
    if list.len() == 0 {
        Seq::empty()
    } else if pollable(list.last()) {
        pollable_indices(list.drop_last()).push(list.len() - 1)
    } else {
        pollable_indices(list.drop_last())
    }
}

impl App {
    /// The submit step's requests: for each `Waiting` episode, in worklist
    /// order, its position and its add-uri request.
    pub fn submit_requests(&self) -> (r: Vec<(usize, JsonRPC)>)
        ensures
            r@.len() == waiting_indices(self.worklist()).len(),
            forall|k: int| 0 <= k < r@.len() ==> {
                &&& #[trigger] r@[k].0 as int == waiting_indices(self.worklist())[k]
                &&& r@[k].0 < self.worklist().len()
                &&& r@[k].1@ == call_of(
                    self.spec_ua(),
                    JsonRPCMethod::AddUri,
                    add_uri_params(None, self.worklist()[r@[k].0 as int].torrent_link@),
                )
            },
    {
        let ghost wl = self.download_list@;
        let mut out: Vec<(usize, JsonRPC)> = Vec::new();
        let mut i: usize = 0;
        assert(wl.subrange(0, 0) =~= Seq::<Episode>::empty());
        while i < self.download_list.len()
            invariant
                wl == self.worklist(),
                i <= wl.len(),
                out@.len() == waiting_indices(wl.subrange(0, i as int)).len(),
                forall|k: int| 0 <= k < out@.len() ==> {
                    &&& #[trigger] out@[k].0 as int == waiting_indices(wl.subrange(0, i as int))[k]
                    &&& out@[k].0 < i
                    &&& out@[k].1@ == call_of(
                        self.spec_ua(),
                        JsonRPCMethod::AddUri,
                        add_uri_params(None, wl[out@[k].0 as int].torrent_link@),
                    )
                },
            decreases wl.len() - i,
        {
            proof {
                assert(wl.subrange(0, i + 1).drop_last() =~= wl.subrange(0, i as int));
                assert(wl.subrange(0, i + 1).last() == wl[i as int]);
            }
            match self.submit_request(i) {
                Some(req) => out.push((i, req)),
                None => {},
            }
            i += 1;
        }
        assert(wl.subrange(0, wl.len() as int) =~= wl);
        out
    }

    /// The poll step's requests: for each `Sent` episode that holds a
    /// handle, in worklist order, its position and its tell-status request.
    pub fn poll_requests(&self) -> (r: Vec<(usize, JsonRPC)>)
        ensures
            r@.len() == pollable_indices(self.worklist()).len(),
            forall|k: int| 0 <= k < r@.len() ==> {
                &&& #[trigger] r@[k].0 as int == pollable_indices(self.worklist())[k]
                &&& r@[k].0 < self.worklist().len()
                &&& r@[k].1@ == call_of(
                    self.spec_ua(),
                    JsonRPCMethod::TellStatus,
                    tell_status_params(None, self.worklist()[r@[k].0 as int].gid->0@),
                )
            },
    {
        let ghost wl = self.download_list@;
        let mut out: Vec<(usize, JsonRPC)> = Vec::new();
        let mut i: usize = 0;
        assert(wl.subrange(0, 0) =~= Seq::<Episode>::empty());
        while i < self.download_list.len()
            invariant
                wl == self.worklist(),
                i <= wl.len(),
                out@.len() == pollable_indices(wl.subrange(0, i as int)).len(),
                forall|k: int| 0 <= k < out@.len() ==> {
                    &&& #[trigger] out@[k].0 as int == pollable_indices(wl.subrange(0, i as int))[k]
                    &&& out@[k].0 < i
                    &&& out@[k].1@ == call_of(
                        self.spec_ua(),
                        JsonRPCMethod::TellStatus,
                        tell_status_params(None, wl[out@[k].0 as int].gid->0@),
                    )
                },
            decreases wl.len() - i,
        {
            proof {
                assert(wl.subrange(0, i + 1).drop_last() =~= wl.subrange(0, i as int));
                assert(wl.subrange(0, i + 1).last() == wl[i as int]);
            }
            match self.poll_request(i) {
                Ok(Some(req)) => out.push((i, req)),
                _ => {},
            }
            i += 1;
        }
        assert(wl.subrange(0, wl.len() as int) =~= wl);
        out
    }
}


/// `t` occurs in `s`.
pub open spec fn has_infix(s: Seq<char>, t: Seq<char>) -> bool {
    exists|i: int| 0 <= i && i + t.len() <= s.len() && #[trigger] s.subrange(i, i + t.len()) == t
}

/// The serialized add-uri request names the method and, where it needs no
/// escaping, holds the link as it stands.
proof fn lemma_add_uri_text(ua: Seq<char>, uri: Seq<char>)
    requires
        quotes_plainly(method_name(JsonRPCMethod::AddUri)),
        quotes_plainly(uri),
    ensures
        has_infix(request_text(call_of(ua, JsonRPCMethod::AddUri, add_uri_params(None, uri))), "aria2.addUri"@),
        json_plain(uri) ==> has_infix(
            request_text(call_of(ua, JsonRPCMethod::AddUri, add_uri_params(None, uri))),
            uri,
        ),
{
    let name = method_name(JsonRPCMethod::AddUri);
    reveal_strlit("aria2.addUri");
    assert(json_plain(name));
    let ps = add_uri_params(None, uri);
    let text = request_text(call_of(ua, JsonRPCMethod::AddUri, ps));
    let head = "{\"jsonrpc\":"@ + json_quoted("2.0"@) + ",\"method\":"@;
    let tail = ",\"id\":"@ + opt_quoted(Some(ua)) + ",\"params\":"@ + "["@ + params_text(ps) + "]"@ + "}"@;
    let p1 = head + seq!['"'];
    assert(text =~= p1 + name + (seq!['"'] + tail));
    assert(text.subrange(p1.len() as int, (p1.len() + name.len()) as int) =~= name);
    if json_plain(uri) {
        assert(ps.drop_last() =~= seq![ParamView::Text(token_text(None))]);
        assert(params_text(ps.drop_last()) == json_quoted(token_text(None)));
        assert(strings_text(seq![uri]) == json_quoted(uri));
        assert(param_text(ps.last()) == "["@ + json_quoted(uri) + "]"@);
        assert(params_text(ps) == json_quoted(token_text(None)) + ","@ + ("["@ + json_quoted(uri) + "]"@));
        let p2 = head + json_quoted(name) + ",\"id\":"@ + opt_quoted(Some(ua)) + ",\"params\":"@ + "["@
            + json_quoted(token_text(None)) + ","@ + "["@ + seq!['"'];
        let rest = seq!['"'] + "]"@ + "]"@ + "}"@;
        assert(text =~= p2 + uri + rest);
        assert(text.subrange(p2.len() as int, (p2.len() + uri.len()) as int) =~= uri);
    }
}

impl App {
    /// The submit step of a dry run: for each `Waiting` episode, in
    /// worklist order, its position and its serialized add-uri request.
    /// Nothing is sent and nothing changes. Each text names `aria2.addUri`
    /// and holds the episode's link (as it stands, where the link needs no
    /// escaping).
    pub fn dry_submissions(&self) -> (r: Vec<(usize, String)>)
        ensures
            r@.len() == waiting_indices(self.worklist()).len(),
            forall|k: int| 0 <= k < r@.len() ==> {
                &&& #[trigger] r@[k].0 as int == waiting_indices(self.worklist())[k]
                &&& r@[k].0 < self.worklist().len()
                &&& r@[k].1@ == request_text(call_of(
                    self.spec_ua(),
                    JsonRPCMethod::AddUri,
                    add_uri_params(None, self.worklist()[r@[k].0 as int].torrent_link@),
                ))
                &&& has_infix(r@[k].1@, "aria2.addUri"@)
                &&& json_plain(self.worklist()[r@[k].0 as int].torrent_link@) ==> has_infix(
                    r@[k].1@,
                    self.worklist()[r@[k].0 as int].torrent_link@,
                )
            },
    {
        let requests = self.submit_requests();
        let mut out: Vec<(usize, String)> = Vec::new();
        let mut j: usize = 0;
        while j < requests.len()
            invariant
                j <= requests@.len(),
                requests@.len() == waiting_indices(self.worklist()).len(),
                forall|k: int| 0 <= k < requests@.len() ==> {
                    &&& #[trigger] requests@[k].0 as int == waiting_indices(self.worklist())[k]
                    &&& requests@[k].0 < self.worklist().len()
                    &&& requests@[k].1@ == call_of(
                        self.spec_ua(),
                        JsonRPCMethod::AddUri,
                        add_uri_params(None, self.worklist()[requests@[k].0 as int].torrent_link@),
                    )
                },
                out@.len() == j,
                forall|k: int| 0 <= k < j ==> {
                    &&& #[trigger] out@[k].0 == requests@[k].0
                    &&& out@[k].1@ == request_text(requests@[k].1@)
                    &&& has_infix(out@[k].1@, "aria2.addUri"@)
                    &&& json_plain(self.worklist()[out@[k].0 as int].torrent_link@) ==> has_infix(
                        out@[k].1@,
                        self.worklist()[out@[k].0 as int].torrent_link@,
                    )
                },
            decreases requests@.len() - j,
        {
            let text = requests[j].1.to_string();
            proof {
                let link = self.worklist()[requests@[j as int].0 as int].torrent_link@;
                let req = requests@[j as int].1@;
                assert(req.params == add_uri_params(None, link));
                assert(param_quotes_plainly(req.params[1]));
                assert(req.params[1] == ParamView::List(seq![link]));
                assert(quotes_plainly(seq![link][0]));
                lemma_add_uri_text(self.spec_ua(), link);
            }
            out.push((requests[j].0, text));
            j += 1;
        }
        out
    }
}

} // verus!
