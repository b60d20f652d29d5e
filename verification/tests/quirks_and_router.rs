use aw_rss::com::{Feed, HttpError, UtcDateTime};
use aw_rss::quirks::{item_key, item_url, site_url};
use aw_rss::router::api::add_feed::{choose_link, feed_link, parse_url};
use aw_rss::com::Value;
use aw_rss::router::api::get_items::{ReadBefore, Request};
use aw_rss::router::api::must_refresh;
use aw_rss::router::api::reorder_categories;

fn feed(url: &str, site_url: &str) -> Feed {
    Feed {
        id: 7,
        url: url.to_string(),
        disabled: false,
        title: String::new(),
        site_url: site_url.to_string(),
        user_title: String::new(),
        category_id: None,
        failing_since: None,
        commit_timestamp: UtcDateTime::new(0, 0),
        create_timestamp: UtcDateTime::new(0, 0),
    }
}

fn bad(r: Result<String, HttpError>) -> &'static str {
    match r {
        Err(HttpError::Status(400, msg)) => msg,
        other => panic!("expected a bad request, got {other:?}"),
    }
}

#[test]
fn site_url_rewrites() {
    let f = feed("https://konachan.com/post/piclens/atom?tags=a/atom", "");
    assert_eq!(
        site_url("https://konachan.com/".to_string(), &f),
        "https://konachan.com/post?tags=a/atom"
    );
    assert_eq!(
        site_url("https://www.royalroad.com/fiction/syndication/123/syndication/".to_string(), &f),
        "https://www.royalroad.com/fiction/123/syndication/"
    );
    assert_eq!(
        site_url("https://www.novelupdates.com/favicon.ico".to_string(), &f),
        "https://www.novelupdates.com/reading-list/"
    );
    let thread = feed("https://forums.spacebattles.com/threads/x.1/threadmarks.rss?category=1", "");
    assert_eq!(
        site_url("https://forums.spacebattles.com/".to_string(), &thread),
        "https://forums.spacebattles.com/threads/x.1"
    );
    assert_eq!(
        site_url("https://forums.sufficientvelocity.com/".to_string(), &f),
        "https://konachan.com/post/piclens/atom?tags=a/atom"
    );
    assert_eq!(site_url("https://example.com/".to_string(), &f), "https://example.com/");
    assert_eq!(site_url(String::new(), &f), "");
}

#[test]
fn absolute_item_url_stands() {
    let f = feed("", "https://example.com/blog/");
    assert_eq!(item_url("https://other.example/x".to_string(), &f), "https://other.example/x");
    assert_eq!(item_url("relative/x".to_string(), &f), "relative/x");
    assert_eq!(item_url(String::new(), &f), "");
}

#[test]
fn relative_item_url_is_resolved_against_the_site() {
    let f = feed("", "https://example.com/blog/index.html?q=1#top");
    assert_eq!(item_url("/posts/1?page=2#c".to_string(), &f), "https://example.com/posts/1?page=2#c");
    let f = feed("", "http://example.com:8080/a");
    assert_eq!(item_url("/b".to_string(), &f), "http://example.com:8080/b");
}

#[test]
fn relative_item_url_stands_without_a_usable_site() {
    assert_eq!(item_url("/x".to_string(), &feed("", "")), "/x");
    assert_eq!(item_url("/x".to_string(), &feed("", "not a url")), "/x");
    assert_eq!(item_url("/x".to_string(), &feed("", "ftp://example.com/")), "/x");
}

#[test]
fn forum_post_links_lose_page_and_query() {
    let f = feed("", "https://forums.spacebattles.com/threads/x.1/");
    assert_eq!(
        item_url("/threads/x.1/page-1257#post-103747651".to_string(), &f),
        "https://forums.spacebattles.com/threads/x.1/post-103747651"
    );
    assert_eq!(
        item_url("/threads/x.1/post-103747651?page=1234".to_string(), &f),
        "https://forums.spacebattles.com/threads/x.1/post-103747651"
    );
    let f = feed("", "https://forums.sufficientvelocity.com/threads/y.2/");
    assert_eq!(
        item_url("/threads/y.2/page-3".to_string(), &f),
        "https://forums.sufficientvelocity.com/threads/y.2/page-3"
    );
    let other = feed("", "https://example.com/");
    assert_eq!(
        item_url("/t/page-1#post-2?x=1".to_string(), &other),
        "https://example.com/t/page-1#post-2?x=1"
    );
}

#[test]
fn item_keys() {
    let at = UtcDateTime::new(1057049557, 0);
    let forum = feed("", "https://forums.spacebattles.com/threads/x.1/");
    assert_eq!(
        item_key("/threads/x.1/page-2#post-5".to_string(), &forum, at),
        "https://forums.spacebattles.com/threads/x.1/post-5"
    );
    assert_eq!(item_key("guid".to_string(), &forum, at), "guid");
    let rs = feed("", "https://secure.runescape.com/m=news/");
    assert_eq!(item_key("guid".to_string(), &rs, at), "guid2003-07-01T08:52:37+00:00");
    assert_eq!(
        item_key("k".to_string(), &rs, UtcDateTime::new(0, 500_000_000)),
        "k1970-01-01T00:00:00.500+00:00"
    );
    assert_eq!(item_key("k".to_string(), &rs, UtcDateTime::new(i64::MAX, 0)), "k");
    let plain = feed("", "https://example.com/");
    assert_eq!(item_key("/x".to_string(), &plain, at), "/x");
}

#[test]
fn urls_to_add_are_checked() {
    assert_eq!(parse_url("https://example.com").unwrap(), "https://example.com/");
    assert_eq!(parse_url("HTTP://Example.COM/a b").unwrap(), "http://example.com/a%20b");
    assert_eq!(bad(parse_url("example.com")), "Invalid URL");
    assert_eq!(bad(parse_url("")), "Invalid URL");
    assert_eq!(bad(parse_url("ftp://example.com/")), "URL scheme must be http or https");
    assert_eq!(bad(parse_url("!command")), "Invalid URL");
}

#[test]
fn board_posts_are_asked_for_as_a_feed() {
    assert_eq!(
        parse_url("https://yande.re/post?tags=x").unwrap(),
        "https://yande.re/post/atom?tags=x"
    );
    assert_eq!(parse_url("https://konachan.com/post").unwrap(), "https://konachan.com/post/atom");
    assert_eq!(parse_url("https://konachan.com/post/").unwrap(), "https://konachan.com/post/");
    assert_eq!(parse_url("https://example.com/post").unwrap(), "https://example.com/post");
}

#[test]
fn page_must_name_exactly_one_feed() {
    let one = r#"<html><head><title>t</title>
        <link rel="stylesheet" href="/style.css">
        <link rel="alternate" type="application/rss+xml" href="/feed.xml">
        </head><body><a href="/x">x</a></body></html>"#;
    assert_eq!(feed_link(one).unwrap(), "/feed.xml");
    let atom = r#"<html><head><link type="application/atom+xml" href="https://e.example/a"></head></html>"#;
    assert_eq!(feed_link(atom).unwrap(), "https://e.example/a");
    let none = "<html><head><title>t</title></head><body></body></html>";
    assert_eq!(bad(feed_link(none)), "Could not parse feed or find feed in HTML");
    let unaddressed = r#"<html><head><link type="application/rss+xml"></head></html>"#;
    assert_eq!(bad(feed_link(unaddressed)), "Could not parse feed or find feed in HTML");
    let two = r#"<html><head>
        <link type="application/rss+xml" href="/a">
        <link type="application/atom+xml" href="/b">
        </head></html>"#;
    assert_eq!(bad(feed_link(two)), "Found multiple feeds in HTML, TODO Candidates");
}

fn request() -> Request {
    Request { category_id: None, feed_ids: Vec::new(), unread: false, before: None, read_after: None }
}

fn before() -> Option<ReadBefore> {
    Some(ReadBefore { date: UtcDateTime::new(5, 0), count: 10 })
}

#[test]
fn item_requests_are_validated() {
    assert_eq!(request().validate(), Err("Empty or invalid GetItems request"));
    let r = Request { category_id: Some(1), feed_ids: vec![2], unread: true, ..request() };
    assert_eq!(r.validate(), Err("Can't get by both categoryId and feedIds"));
    let r = Request { unread: true, ..request() };
    assert_eq!(r.validate(), Err("Can only request unread items by feedIds"));
    let r = Request { category_id: Some(1), unread: true, ..request() };
    assert_eq!(r.validate(), Err("Can only request unread items by feedIds"));
    let r = Request { read_after: Some(UtcDateTime::new(1, 0)), before: before(), ..request() };
    assert_eq!(r.validate(), Err("Can't get both readAfter and readBefore"));
    let r = Request { feed_ids: vec![1], unread: true, before: before(), ..request() };
    assert_eq!(r.validate(), Err("Can't get both unread and readBefore"));
    assert_eq!(Request { feed_ids: vec![1], unread: true, ..request() }.validate(), Ok(()));
    assert_eq!(Request { before: before(), ..request() }.validate(), Ok(()));
    assert_eq!(
        Request { category_id: Some(3), read_after: Some(UtcDateTime::new(1, 0)), ..request() }.validate(),
        Ok(())
    );
}

const SELECT: &str = "\nSELECT items.*\nFROM feeds CROSS JOIN items ON items.feed_id = feeds.id\nWHERE\n";

#[test]
fn unread_items_of_feeds_are_selected() {
    let r = Request { feed_ids: vec![4, 9, 2], unread: true, ..request() };
    let s = r.query();
    assert_eq!(
        s.sql,
        format!("{SELECT} feeds.id IN (?,?,?)  AND items.read = 0  ORDER BY items.id ASC")
    );
    assert_eq!(s.binds, vec![Value::Integer(4), Value::Integer(9), Value::Integer(2)]);
    let s = Request { feed_ids: vec![4], unread: true, ..request() }.query();
    assert_eq!(s.sql, format!("{SELECT} feeds.id IN (?)  AND items.read = 0  ORDER BY items.id ASC"));
}

#[test]
fn read_items_after_a_time_are_selected() {
    let r = Request { category_id: Some(3), read_after: Some(UtcDateTime::new(1, 0)), ..request() };
    let s = r.query();
    assert_eq!(
        s.sql,
        format!("{SELECT} feeds.category_id = ? AND items.read = 1 AND items.timestamp >= ? ORDER BY items.id ASC")
    );
    assert_eq!(s.binds, vec![Value::Integer(3), Value::Time(UtcDateTime::new(1, 0))]);
}

#[test]
fn read_items_before_a_time_are_selected() {
    let s = Request { before: before(), ..request() }.query();
    let inner = "\nAND items.timestamp >= (\n    SELECT MIN(timestamp)\n    FROM (\n        SELECT items.timestamp\n        FROM feeds CROSS JOIN items ON items.feed_id = feeds.id\n        WHERE ";
    assert_eq!(
        s.sql,
        format!(
            "{SELECT} feeds.disabled = 0  AND items.read = 1 AND items.timestamp < ?{inner} feeds.disabled = 0  AND items.read = 1 AND items.timestamp < ? ORDER BY items.timestamp DESC LIMIT ? ))  ORDER BY items.id ASC"
        )
    );
    let date = Value::Time(UtcDateTime::new(5, 0));
    assert_eq!(s.binds, vec![date.clone(), date, Value::Integer(10)]);
    let s = Request { feed_ids: vec![8], before: before(), ..request() }.query();
    assert_eq!(s.sql.matches('?').count(), 5);
    assert_eq!(
        s.binds,
        vec![
            Value::Integer(8),
            Value::Time(UtcDateTime::new(5, 0)),
            Value::Integer(8),
            Value::Time(UtcDateTime::new(5, 0)),
            Value::Integer(10),
        ]
    );
}

#[test]
fn stale_clients_must_refresh() {
    assert!(!must_refresh(0, 604800));
    assert!(must_refresh(0, 604801));
    assert!(!must_refresh(1000, 1000));
    assert!(!must_refresh(i64::MAX, i64::MAX));
    assert!(must_refresh(i64::MIN, 0));
}

#[test]
fn categories_get_their_place_in_the_request() {
    let r = reorder_categories::Request { category_ids: vec![9, -4, 7] };
    assert_eq!(
        r.execute().unwrap(),
        "\nWITH updates(id, sort_position) AS (\n    VALUES (9,0),(-4,1),(7,2))\nUPDATE categories\nSET\n    sort_position = updates.sort_position\nFROM\n    updates\nWHERE\n    categories.id = updates.id\nRETURNING *"
    );
    let one = reorder_categories::Request { category_ids: vec![5] };
    assert!(one.execute().unwrap().contains("VALUES (5,0))"));
    assert_eq!(reorder_categories::Request { category_ids: Vec::new() }.execute(), None);
}

#[test]
fn one_address_among_the_links_is_chosen() {
    assert_eq!(choose_link(vec![Some("/feed.xml".to_string())]).unwrap(), "/feed.xml");
    assert_eq!(choose_link(vec![None, Some("/a".to_string()), None]).unwrap(), "/a");
    assert_eq!(choose_link(vec![Some(String::new())]).unwrap(), "");
    assert_eq!(bad(choose_link(Vec::new())), "Could not parse feed or find feed in HTML");
    assert_eq!(bad(choose_link(vec![None, None])), "Could not parse feed or find feed in HTML");
    assert_eq!(
        bad(choose_link(vec![Some("/a".to_string()), None, Some("/a".to_string())])),
        "Found multiple feeds in HTML, TODO Candidates"
    );
}
