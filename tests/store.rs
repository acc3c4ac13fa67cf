use arni::client::UA;
use arni::config::Config as RecordConfig;
use arni::data::config::{Config, SerdeConfig};
use arni::data::history::{History, SerdeHistory};
use arni::data::{sync_action, SyncAction};
use arni::novel_config::NovelConfig;

fn record(guids: &[&str]) -> SerdeHistory {
    SerdeHistory { downloaded: guids.iter().map(|g| g.to_string()).collect() }
}

#[test]
fn sync_decision_compares_times() {
    assert_eq!(sync_action(10, 10), SyncAction::WriteBack);
    assert_eq!(sync_action(11, 10), SyncAction::WriteBack);
    assert_eq!(sync_action(9, 10), SyncAction::MergeThenWriteBack);
    assert_eq!(sync_action(0, u128::MAX), SyncAction::MergeThenWriteBack);
}

#[test]
fn default_records() {
    let c = SerdeConfig::default();
    assert_eq!(c.aria2_address, "127.0.0.1:6800");
    assert_eq!(c.url, None);
    assert_eq!(c.file, None);
    assert!(SerdeHistory::default().downloaded.is_empty());
    let legacy = RecordConfig::new_empty();
    assert_eq!(legacy.jsonrpc_address, String::new());
    assert_eq!(legacy.uri, Some(vec![]));
    assert_eq!(legacy.file, Some(vec![]));
    let novel = NovelConfig { jsonrpc_address: "127.0.0.1:16800".to_string(), uri: None, file: Some(vec![]) };
    assert_eq!(novel.jsonrpc_address, "127.0.0.1:16800");
}

#[test]
fn config_store_reload_replaces_record() {
    let mut c = Config::new("config.toml", SerdeConfig::default(), 100);
    assert_eq!(c.path(), "config.toml");
    assert_eq!(c.modified_time(), 100);
    assert_eq!(c.sync_action(100), SyncAction::WriteBack);
    assert_eq!(c.sync_action(200), SyncAction::MergeThenWriteBack);
    c.merge(SerdeConfig {
        aria2_address: "http://host:6800/jsonrpc".to_string(),
        url: Some(vec!["http://feed".to_string()]),
        file: None,
    });
    assert_eq!(c.aria2_address(), "http://host:6800/jsonrpc");
    assert_eq!(c.url(), &Some(vec!["http://feed".to_string()]));
    assert_eq!(c.file(), &None);
    assert_eq!(c.modified_time(), 100);
    c.record_write_back(250);
    assert_eq!(c.modified_time(), 250);
    assert_eq!(c.contents().aria2_address, "http://host:6800/jsonrpc");
}

#[test]
fn history_query_sees_durable_and_delta() {
    let mut h = History::new("history.toml", record(&["a"]), 5);
    assert!(h.query("a"));
    assert!(!h.query("b"));
    h.push("b");
    assert!(h.query("b"));
    assert!(!h.query("c"));
    assert_eq!(h.contents().downloaded, vec!["a".to_string()]);
}

#[test]
fn write_back_path_absorbs_delta() {
    let mut h = History::new("history.toml", record(&["a"]), 5);
    h.push("b");
    assert_eq!(h.sync_action(5), SyncAction::WriteBack);
    h.absorb_delta();
    h.record_write_back(7);
    assert_eq!(h.contents().downloaded, vec!["a".to_string(), "b".to_string()]);
    assert!(h.query("a"));
    assert!(h.query("b"));
    assert_eq!(h.modified_time(), 7);
    assert_eq!(h.path(), "history.toml");
}

#[test]
fn merge_path_replays_delta_over_external_edit() {
    let mut h = History::new("history.toml", record(&["a"]), 5);
    h.push("c");
    assert_eq!(h.sync_action(9), SyncAction::MergeThenWriteBack);
    h.merge(record(&["x", "y"]));
    h.record_write_back(9);
    assert_eq!(h.contents().downloaded, vec!["x".to_string(), "y".to_string(), "c".to_string()]);
    assert!(!h.query("a"));
    assert!(h.query("c"));
    assert_eq!(h.modified_time(), 9);
    h.absorb_delta();
    assert_eq!(h.contents().downloaded.len(), 3);
}

#[test]
fn user_agent() {
    let ua = UA::new("me/1");
    assert_eq!(ua.as_str(), "me/1");
    assert_eq!(ua.into_string(), "me/1".to_string());
    assert_eq!(UA::default().as_str(), "arni/0.1.0");
}
