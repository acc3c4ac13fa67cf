use arni::data::config::{Config, SerdeConfig};
use arni::data::episode::{DownloadStatus, Episode, FeedItem};
use arni::data::history::{History, SerdeHistory};
use arni::data::SyncAction;
use arni::engine::App;
use arni::error::Error;
use arni::jsonrpc::{JsonRPCError, JsonRPCMethod, JsonRPCResponse, JsonValue};

fn obj(entries: Vec<(&str, JsonValue)>) -> JsonValue {
    JsonValue::Object(entries.into_iter().map(|(k, v)| (k.to_string(), v)).collect())
}

fn text(s: &str) -> JsonValue {
    JsonValue::Str(s.to_string())
}

fn app_with_history(guids: &[&str]) -> App {
    let config = Config::new("config.toml", SerdeConfig::default(), 0);
    let history = History::new(
        "history.toml",
        SerdeHistory { downloaded: guids.iter().map(|g| g.to_string()).collect() },
        0,
    );
    App::new(config, history)
}

fn episode(guid: &str) -> Episode {
    Episode::new(guid.to_string(), None, format!("http://example.org/{guid}.torrent"))
}

fn gid_response(gid: &str) -> JsonRPCResponse {
    JsonRPCResponse { value: obj(vec![("result", text(gid))]), method: JsonRPCMethod::AddUri }
}

fn status_response(status: &str) -> JsonRPCResponse {
    JsonRPCResponse { value: obj(vec![("result", obj(vec![("status", text(status))]))]), method: JsonRPCMethod::TellStatus }
}

#[test]
fn end_to_end_tick() {
    let mut app = app_with_history(&["B"]);
    let items = vec![
        FeedItem { guid: Some("A".to_string()), title: Some("a".to_string()), enclosure: Some("http://t/a.torrent".to_string()) },
        FeedItem { guid: Some("B".to_string()), title: Some("b".to_string()), enclosure: Some("http://t/b.torrent".to_string()) },
    ];
    let discovered: Vec<Episode> = items.into_iter().map(|i| Episode::try_from(i).unwrap()).collect();
    app.add_episodes(discovered);
    assert_eq!(app.download_list().len(), 1);
    assert_eq!(app.download_list()[0].guid, "A");

    let request = app.submit_request(0).unwrap();
    assert_eq!(
        request.to_string(),
        r#"{"jsonrpc":"2.0","method":"aria2.addUri","id":"arni/0.1.0","params":["token:",["http://t/a.torrent"]]}"#
    );
    let method = request.get_method();
    app.apply_submission(0, JsonRPCResponse { value: obj(vec![("result", text("g1"))]), method }).unwrap();
    assert_eq!(app.download_list()[0].gid, Some("g1".to_string()));
    assert_eq!(app.download_list()[0].download_status, DownloadStatus::Sent);
    assert!(app.submit_request(0).is_none());

    let poll = app.poll_request(0).unwrap().unwrap();
    assert_eq!(
        poll.to_string(),
        r#"{"jsonrpc":"2.0","method":"aria2.tellStatus","id":"arni/0.1.0","params":["token:","g1",["status"]]}"#
    );
    app.apply_status(0, status_response("complete")).unwrap();
    assert_eq!(app.download_list()[0].download_status, DownloadStatus::Done);

    app.promote_and_evict();
    assert!(app.download_list().is_empty());
    assert!(app.history.query("A"));

    assert_eq!(app.history.sync_action(0), SyncAction::WriteBack);
    app.history.absorb_delta();
    app.history.record_write_back(1);
    assert_eq!(app.history.contents().downloaded, vec!["B".to_string(), "A".to_string()]);
}

#[test]
fn dry_run_submission_changes_nothing() {
    let mut app = app_with_history(&[]);
    app.add_episodes(vec![episode("w")]);
    let request = app.submit_request(0).unwrap();
    let text = request.to_string();
    assert!(text.contains("\"aria2.addUri\""));
    assert!(text.contains("http://example.org/w.torrent"));
    assert_eq!(app.download_list()[0].gid, None);
    assert_eq!(app.download_list()[0].download_status, DownloadStatus::Waiting);
}

#[test]
fn dry_submissions_name_method_and_link() {
    let mut app = app_with_history(&[]);
    app.add_episodes(vec![episode("a"), episode("b")]);
    app.apply_submission(0, gid_response("ga")).unwrap();
    let texts = app.dry_submissions();
    assert_eq!(texts.len(), 1);
    assert_eq!(texts[0].0, 1);
    assert!(texts[0].1.contains("\"aria2.addUri\""));
    assert!(texts[0].1.contains("http://example.org/b.torrent"));
    assert_eq!(app.download_list()[1].gid, None);
    assert_eq!(app.download_list()[1].download_status, DownloadStatus::Waiting);
}

#[test]
fn admission_rejects_history_delta_and_worklist() {
    let mut app = app_with_history(&["old"]);
    app.history.push("pending");
    assert!(!app.add_episode(episode("old")));
    assert!(!app.add_episode(episode("pending")));
    assert!(app.add_episode(episode("new")));
    assert!(!app.add_episode(episode("new")));
    assert_eq!(app.download_list().len(), 1);
}

#[test]
fn batch_admission_keeps_order_and_drops_repeats() {
    let mut app = app_with_history(&["x"]);
    app.add_episodes(vec![episode("c"), episode("x"), episode("a"), episode("c"), episode("b")]);
    let guids: Vec<&str> = app.download_list().iter().map(|e| e.guid.as_str()).collect();
    assert_eq!(guids, vec!["c", "a", "b"]);
    app.add_episodes(vec![episode("a"), episode("d")]);
    let guids: Vec<&str> = app.download_list().iter().map(|e| e.guid.as_str()).collect();
    assert_eq!(guids, vec!["c", "a", "b", "d"]);
}

#[test]
fn failed_submission_changes_nothing() {
    let mut app = app_with_history(&[]);
    app.add_episodes(vec![episode("a")]);
    let err = JsonRPCResponse {
        value: obj(vec![("error", obj(vec![("code", JsonValue::Int(-32602))]))]),
        method: JsonRPCMethod::AddUri,
    };
    assert_eq!(app.apply_submission(0, err), Err(Error::RPCServerError(JsonRPCError::InvalidParams)));
    assert_eq!(app.download_list()[0].download_status, DownloadStatus::Waiting);
    assert_eq!(app.download_list()[0].gid, None);
    app.apply_submission(0, gid_response("g")).unwrap();
    assert_eq!(app.apply_submission(0, gid_response("h")), Err(Error::ImpossibleEpisodeState));
    assert_eq!(app.download_list()[0].gid, Some("g".to_string()));
}

#[test]
fn polling_applies_the_table() {
    let mut app = app_with_history(&[]);
    app.add_episodes(vec![episode("a"), episode("b"), episode("c")]);
    assert!(matches!(app.poll_request(0), Ok(None)));
    for i in 0..3 {
        app.apply_submission(i, gid_response(&format!("g{i}"))).unwrap();
    }
    assert_eq!(app.apply_status(0, status_response("bogus")), Err(Error::ImpossibleEpisodeState));
    assert_eq!(app.download_list()[0].download_status, DownloadStatus::Sent);
    app.apply_status(0, status_response("active")).unwrap();
    app.apply_status(1, status_response("error")).unwrap();
    app.apply_status(2, status_response("removed")).unwrap();
    assert_eq!(app.download_list()[0].download_status, DownloadStatus::Sent);
    assert_eq!(app.download_list()[1].download_status, DownloadStatus::Error);
    assert_eq!(app.download_list()[2].download_status, DownloadStatus::Done);
    assert_eq!(app.apply_status(1, status_response("complete")), Err(Error::ImpossibleEpisodeState));
    app.promote_and_evict();
    let guids: Vec<&str> = app.download_list().iter().map(|e| e.guid.as_str()).collect();
    assert_eq!(guids, vec!["a", "b"]);
    assert!(app.history.query("c"));
    assert!(!app.history.query("b"));
}

#[test]
fn sent_episode_without_gid_cannot_be_polled() {
    let mut app = app_with_history(&[]);
    let mut e = episode("a");
    e.set_sent();
    app.add_episodes(vec![e]);
    assert!(matches!(app.poll_request(0), Err(Error::ImpossibleEpisodeState)));
}

#[test]
fn connectivity_probe() {
    let app = app_with_history(&[]);
    let request = app.version_request();
    assert_eq!(
        request.to_string(),
        r#"{"jsonrpc":"2.0","method":"aria2.getVersion","id":"arni/0.1.0","params":["token:"]}"#
    );
    let ok = JsonRPCResponse {
        value: obj(vec![("result", obj(vec![("version", text("1.37.0"))]))]),
        method: JsonRPCMethod::GetVersion,
    };
    assert_eq!(App::check_aria2_connection(Some(ok)), Ok("\"1.37.0\"".to_string()));
    let bad = JsonRPCResponse { value: obj(vec![]), method: JsonRPCMethod::GetVersion };
    assert_eq!(App::check_aria2_connection(Some(bad)), Err(Error::Aria2ConnectionError));
    assert_eq!(App::check_aria2_connection(None), Err(Error::Aria2ConnectionError));
}

#[test]
fn step_requests_follow_worklist_order() {
    let mut app = app_with_history(&[]);
    app.add_episodes(vec![episode("a"), episode("b"), episode("c"), episode("d")]);
    app.apply_submission(1, gid_response("gb")).unwrap();
    app.apply_submission(3, gid_response("gd")).unwrap();
    let mut sent_without_gid = episode("e");
    sent_without_gid.set_sent();
    app.add_episodes(vec![sent_without_gid]);

    let submits = app.submit_requests();
    let positions: Vec<usize> = submits.iter().map(|(i, _)| *i).collect();
    assert_eq!(positions, vec![0, 2]);
    assert!(submits[1].1.to_string().contains("http://example.org/c.torrent"));

    let polls = app.poll_requests();
    let positions: Vec<usize> = polls.iter().map(|(i, _)| *i).collect();
    assert_eq!(positions, vec![1, 3]);
    assert!(polls[0].1.to_string().contains("\"gb\""));
    assert!(polls[1].1.to_string().contains("\"gd\""));
}
