use aw_rss::com::{Action, Feed, UtcDateTime};
use aw_rss::fetcher::fetch::{Status};
use aw_rss::fetcher::task::{Begin};
use aw_rss::fetcher::host::{HostKind, HostRegistry};
use aw_rss::fetcher::{ActiveFeeds, Change, Dispatch, Manager, Ready, Turn};
use aw_rss::time::Duration;

fn feed(id: i64, url: &str, disabled: bool) -> Feed {
    Feed {
        id,
        url: url.to_string(),
        disabled,
        title: String::new(),
        site_url: String::new(),
        user_title: String::new(),
        category_id: None,
        failing_since: None,
        commit_timestamp: UtcDateTime::new(0, 0),
        create_timestamp: UtcDateTime::new(0, 0),
    }
}

fn ids<H>(active: &ActiveFeeds<H>, candidates: &[i64]) -> Vec<i64> {
    candidates.iter().copied().filter(|id| active.contains_key(*id)).collect()
}

#[test]
fn new_manager_is_empty() {
    let m: Manager<u8> = Manager::new();
    assert_eq!(m.active_feeds.len(), 0);
    assert_eq!(m.host_map.len(), 0);
    assert_eq!(m.poll_deadline, Duration::from_secs(0));
}

#[test]
fn active_set_holds_one_entry_per_feed() {
    let mut active: ActiveFeeds<&str> = ActiveFeeds::new();
    active.insert(3, "three");
    active.insert(1, "one");
    assert_eq!(active.len(), 2);
    assert_eq!(active.get(3), Some(&"three"));
    assert_eq!(active.get(2), None);
    assert_eq!(active.position(1), Some(1));
    let gone = active.remove(3).unwrap();
    assert_eq!((gone.id, gone.rerun), (3, "three"));
    assert!(active.remove(3).is_none());
    assert!(!active.contains_key(3));
    assert_eq!(active.len(), 1);
    active.insert(3, "again");
    assert_eq!(active.get(3), Some(&"again"));
}

#[test]
fn first_poll_starts_every_listed_feed() {
    let mut m: Manager<u32> = Manager::new();
    let listed = vec![feed(1, "https://a.example/x", false), feed(2, "!cmd", false)];
    let rec = m.poll_db::<()>(Ok(listed)).unwrap();
    assert!(rec.cancelled.is_empty());
    assert_eq!(rec.fresh.iter().map(|f| f.id).collect::<Vec<_>>(), vec![2, 1]);
    assert_eq!(m.active_feeds.len(), 0);
    assert_eq!(m.poll_deadline, Duration::from_secs(300));
    for (n, f) in rec.fresh.into_iter().enumerate() {
        assert!(!m.active_feeds.contains_key(f.id));
        let id = f.id;
        let fetcher = m.start(f, n as u32);
        assert_eq!(fetcher.feed.id, id);
        assert!(matches!(&fetcher.status, Status::Success(h) if h.etag.is_none() && h.ttl.is_none()));
    }
    assert_eq!(ids(&m.active_feeds, &[1, 2, 3]), vec![1, 2]);
    assert_eq!(m.host_map.len(), 2);
}

#[test]
fn poll_cancels_what_is_no_longer_listed() {
    let mut m: Manager<&str> = Manager::new();
    let a = m.start(feed(1, "https://a.example/x", false), "a");
    let _b = m.start(feed(2, "https://b.example/x", false), "b");
    let _c = m.start(feed(3, "https://c.example/x", false), "c");
    assert!(matches!(a.begin(&mut m.host_map), Begin::Go(_)));
    assert_eq!(m.host_map.holder(a.host), Some(1));

    let listed = vec![
        feed(3, "https://c.example/x", false),
        feed(4, "https://d.example/x", false),
        feed(5, "https://e.example/x", false),
    ];
    let rec = m.poll_db::<()>(Ok(listed)).unwrap();
    assert_eq!(rec.cancelled.iter().map(|e| (e.id, e.rerun)).collect::<Vec<_>>(), vec![(1, "a"), (2, "b")]);
    assert_eq!(rec.fresh.iter().map(|f| f.id).collect::<Vec<_>>(), vec![5, 4]);
    assert_eq!(ids(&m.active_feeds, &[1, 2, 3, 4, 5]), vec![3]);
    // The cancelled task held its host: the host is free again.
    assert_eq!(m.host_map.holder(a.host), None);
    assert_eq!(m.poll_deadline, Duration::from_secs(300));
}

#[test]
fn poll_lists_a_feed_once() {
    let mut m: Manager<()> = Manager::new();
    let mut second = feed(7, "https://a.example/second", false);
    second.title = "second".to_string();
    let listed = vec![feed(7, "https://a.example/first", false), feed(8, "!x", false), second];
    let rec = m.poll_db::<()>(Ok(listed)).unwrap();
    assert_eq!(rec.fresh.len(), 2);
    assert_eq!(rec.fresh[0].title, "second");
    assert_eq!(rec.fresh[1].id, 8);
}

#[test]
fn failed_poll_changes_nothing_but_the_deadline() {
    let mut m: Manager<()> = Manager::new();
    let _ = m.start(feed(1, "https://a.example/x", false), ());
    assert_eq!(m.poll_db(Err("store is down")).unwrap_err(), "store is down");
    assert!(m.active_feeds.contains_key(1));
    assert_eq!(m.poll_deadline, Duration::from_secs(300));
    let _ = m.poll_db::<()>(Ok(vec![feed(1, "https://a.example/x", false)]));
    assert_eq!(m.poll_deadline, Duration::from_secs(600));
}

#[test]
fn poll_deadline_saturates() {
    let mut m: Manager<()> = Manager::new();
    m.poll_deadline = Duration::from_nanos(u128::MAX - 5);
    let _ = m.poll_db::<()>(Ok(Vec::new()));
    assert_eq!(m.poll_deadline, Duration::from_nanos(u128::MAX));
}

#[test]
fn messages_are_dispatched() {
    let mut m: Manager<()> = Manager::new();
    let _ = m.start(feed(1, "https://a.example/x", false), ());
    assert_eq!(m.handle(Action::RerunFailing), Dispatch::WakeFailing);
    assert_eq!(m.handle(Action::Rerun(1)), Dispatch::Wake(1));
    assert_eq!(m.handle(Action::Rerun(2)), Dispatch::Absent(2));
    assert_eq!(m.handle(Action::FeedChanged(1)), Dispatch::Reload(1));
    assert_eq!(m.handle(Action::FeedChanged(9)), Dispatch::Reload(9));
}

#[test]
fn disabled_feed_is_cancelled_and_then_unknown() {
    let mut m: Manager<&str> = Manager::new();
    let f = m.start(feed(1, "https://a.example/x", false), "one");
    let _ = m.start(feed(2, "https://a.example/y", false), "two");
    assert!(matches!(f.begin(&mut m.host_map), Begin::Go(_)));

    assert_eq!(m.handle(Action::FeedChanged(1)), Dispatch::Reload(1));
    match m.feed_changed(feed(1, "https://a.example/x", true)) {
        Change::Cancelled(entry) => assert_eq!((entry.id, entry.rerun), (1, "one")),
        other => panic!("expected a cancellation, got {other:?}"),
    }
    assert!(!m.active_feeds.contains_key(1));
    assert!(m.active_feeds.contains_key(2));
    assert_eq!(m.host_map.holder(f.host), None);
    assert_eq!(m.handle(Action::Rerun(1)), Dispatch::Absent(1));
    // A second notice of the same change is a no-op.
    assert!(matches!(m.feed_changed(feed(1, "https://a.example/x", true)), Change::Unchanged));
}

#[test]
fn enabled_feed_without_task_is_started() {
    let mut m: Manager<()> = Manager::new();
    match m.feed_changed(feed(4, "https://a.example/x", false)) {
        Change::Start(f) => {
            assert_eq!(f.id, 4);
            let _ = m.start(f, ());
        }
        other => panic!("expected a start, got {other:?}"),
    }
    assert!(m.active_feeds.contains_key(4));
    assert!(matches!(m.feed_changed(feed(4, "https://a.example/x", false)), Change::Unchanged));
    assert_eq!(m.active_feeds.len(), 1);
}

#[test]
fn hosts_are_shared_by_key() {
    let mut m: Manager<()> = Manager::new();
    let a = m.build_fetcher(feed(1, "https://www.example.com/feed", false));
    let b = m.build_fetcher(feed(2, "https://example.com/x", false));
    let c = m.build_fetcher(feed(3, "!rss-scrapers foo bar", false));
    let d = m.build_fetcher(feed(4, "!rss-scrapers foo baz", false));
    let e = m.build_fetcher(feed(5, "!rss-scrapers other", false));
    let bad1 = m.build_fetcher(feed(6, "::nonsense::", false));
    let bad2 = m.build_fetcher(feed(7, "also nonsense", false));
    assert_eq!(a.host, b.host);
    assert_eq!(c.host, d.host);
    assert_ne!(c.host, e.host);
    assert_eq!(bad1.host, bad2.host);
    assert_eq!(m.host_map.len(), 4);
    assert_eq!(m.host_map.key(a.host), "example.com");
    assert_eq!(m.host_map.key(c.host), "!rss-scrapers foo");
    assert_eq!(m.host_map.key(e.host), "!rss-scrapers other");
    assert_eq!(m.host_map.key(bad1.host), "");
    assert_eq!(m.host_map.kind(a.host), HostKind::Http);
    assert_eq!(m.host_map.kind(c.host), HostKind::Executable);
    assert_eq!(m.insert_host(&feed(8, "http://example.com:8080/z", false)), a.host);
}

#[test]
fn registry_admits_and_releases() {
    let mut hosts = HostRegistry::new();
    let at = hosts.insert("https://example.com/");
    assert_eq!(hosts.find("example.com"), Some(at));
    assert_eq!(hosts.find("example.org"), None);
    assert_eq!(hosts.failing_feeds(at), 0);
    assert!(hosts.acquire(at, 1));
    assert!(!hosts.acquire(at, 2));
    assert!(!hosts.acquire(at, 1));
    assert!(!hosts.release(at, 2));
    assert_eq!(hosts.holder(at), Some(1));
    assert!(hosts.release(at, 1));
    assert!(!hosts.release(at, 1));
    assert!(hosts.acquire(at, 2));
    let other = hosts.insert("https://example.org/");
    assert!(hosts.acquire(other, 2));
    hosts.release_all(2);
    assert_eq!(hosts.holder(at), None);
    assert_eq!(hosts.holder(other), None);
}

#[test]
fn shutdown_goes_first_and_tasks_last() {
    let none = Ready { shutdown: false, poll_due: false, message: false, task_ended: false };
    assert_eq!(Manager::<()>::turn(none), None);
    let all = Ready { shutdown: true, poll_due: true, message: true, task_ended: true };
    assert_eq!(Manager::<()>::turn(all), Some(Turn::Exit));
    assert_eq!(Manager::<()>::turn(Ready { shutdown: false, ..all }), Some(Turn::Reconcile));
    assert_eq!(
        Manager::<()>::turn(Ready { shutdown: false, poll_due: false, ..all }),
        Some(Turn::Message)
    );
    assert_eq!(Manager::<()>::turn(Ready { task_ended: true, ..none }), Some(Turn::TaskEnded));
}

#[test]
fn a_feed_is_not_started_twice() {
    let mut m: Manager<&str> = Manager::new();
    let first = m.try_start(feed(1, "https://a.example/x", false), "first");
    assert!(matches!(first, Ok(f) if f.feed.id == 1));
    let hosts = m.host_map.len();
    match m.try_start(feed(1, "https://b.example/x", false), "second") {
        Err((back, handle)) => {
            assert_eq!(back.url, "https://b.example/x");
            assert_eq!(handle, "second");
        }
        Ok(_) => panic!("the feed has a task"),
    }
    assert_eq!(m.active_feeds.len(), 1);
    assert_eq!(m.active_feeds.get(1), Some(&"first"));
    assert_eq!(m.host_map.len(), hosts);
    assert!(m.try_start(feed(2, "https://b.example/x", false), "other").is_ok());
    assert_eq!(m.active_feeds.len(), 2);
}
