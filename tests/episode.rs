use arni::data::episode::{DownloadStatus, Episode, FeedItem};
use arni::error::Error;

fn item(guid: Option<&str>, title: Option<&str>, enclosure: Option<&str>) -> FeedItem {
    FeedItem {
        guid: guid.map(|s| s.to_string()),
        title: title.map(|s| s.to_string()),
        enclosure: enclosure.map(|s| s.to_string()),
    }
}

fn waiting(guid: &str) -> Episode {
    Episode::new(guid.to_string(), None, format!("http://example.org/{guid}.torrent"))
}

#[test]
fn new_episode_is_waiting_without_gid() {
    let e = Episode::new("g".to_string(), Some("t".to_string()), "http://x/t.torrent".to_string());
    assert!(e.is_waiting());
    assert!(!e.is_sent());
    assert!(!e.is_done());
    assert_eq!(e.gid, None);
    assert_eq!(e.title, Some("t".to_string()));
    assert_eq!(e.gid(), Err(Error::ImpossibleEpisodeState));
}

#[test]
fn item_with_guid_keeps_it() {
    let e = Episode::try_from(item(Some("id-1"), Some("Title"), Some("http://x/1.torrent"))).unwrap();
    assert_eq!(e.guid, "id-1");
    assert_eq!(e.torrent_link, "http://x/1.torrent");
    assert_eq!(e.title, Some("Title".to_string()));
    assert_eq!(e.download_status, DownloadStatus::Waiting);
}

#[test]
fn item_without_guid_uses_enclosure_url() {
    let e = Episode::try_from(item(None, None, Some("http://x/2.torrent"))).unwrap();
    assert_eq!(e.guid, "http://x/2.torrent");
    assert_eq!(e.title, None);
}

#[test]
fn item_without_enclosure_is_bad_link() {
    let r = Episode::try_from(item(Some("id-3"), Some("T"), None));
    assert!(matches!(r, Err(Error::BadTorrentLink)));
}

#[test]
fn same_link_without_identifier_collides() {
    let a = Episode::try_from(item(None, Some("one"), Some("http://x/same.torrent"))).unwrap();
    let b = Episode::try_from(item(None, Some("two"), Some("http://x/same.torrent"))).unwrap();
    assert!(a == b);
}

#[test]
fn equality_is_by_guid_only() {
    let a = Episode::new("g".to_string(), Some("a".to_string()), "http://x/a".to_string());
    let mut b = Episode::new("g".to_string(), None, "http://x/b".to_string());
    b.set_sent();
    assert!(a == b);
    let c = Episode::new("h".to_string(), Some("a".to_string()), "http://x/a".to_string());
    assert!(a != c);
}

#[test]
fn status_table() {
    let cases = [
        ("active", DownloadStatus::Sent),
        ("waiting", DownloadStatus::Sent),
        ("paused", DownloadStatus::Sent),
        ("error", DownloadStatus::Error),
        ("complete", DownloadStatus::Done),
        ("removed", DownloadStatus::Done),
    ];
    for (status, expected) in cases {
        let mut e = waiting("g");
        e.set_sent();
        assert_eq!(e.set_download_status(status), Ok(()));
        assert_eq!(e.download_status, expected);
    }
}

#[test]
fn unknown_status_fails_without_change() {
    for status in ["", "Complete", "done", "\"complete\"", "unknown"] {
        let mut e = waiting("g");
        e.set_sent();
        assert_eq!(e.set_download_status(status), Err(Error::ImpossibleEpisodeState));
        assert_eq!(e.download_status, DownloadStatus::Sent);
    }
}

#[test]
fn gid_after_submission() {
    let mut e = waiting("g");
    e.gid = Some("2089b05ecca3d829".to_string());
    e.set_sent();
    assert_eq!(e.gid(), Ok("2089b05ecca3d829".to_string()));
}
