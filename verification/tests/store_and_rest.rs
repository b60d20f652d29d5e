use aw_rss::closing::{close, CloseOnDrop, Closer};
use aw_rss::com::feed::{Failing, ParsedUpdate};
use aw_rss::com::item::{Item, ParsedInsert};
use aw_rss::com::{category, Assignment, Category, Column, Feed, HttpError, Outcome, UtcDateTime, Value};
use aw_rss::database::sql::{insert_conflict, insert_statement, start_insert, update_statement};
use aw_rss::config::{empty_path_is_none, Config};
use aw_rss::database::{
    bulk_insert, handle_parsed, rows_per_statement, single_edit, timestamp, update, Ending, Planned,
};
use aw_rss::logger::{RequestSpan, ResponseFormat};
use aw_rss::text::{chars_of, remove_first, string_from, to_decimal, trim_bounds};
use aw_rss::time::Duration;

fn a_feed() -> Feed {
    Feed {
        id: 7,
        url: "https://example.com/feed".to_string(),
        disabled: false,
        title: "Old".to_string(),
        site_url: "https://example.com/".to_string(),
        user_title: String::new(),
        category_id: None,
        failing_since: None,
        commit_timestamp: UtcDateTime::new(0, 0),
        create_timestamp: UtcDateTime::new(0, 0),
    }
}

fn insert(n: i64) -> ParsedInsert {
    ParsedInsert {
        feed_id: 7,
        key: n.to_string(),
        title: String::new(),
        url: String::new(),
        timestamp: UtcDateTime::new(n, 0),
    }
}

#[test]
fn single_edit_commits_changes_only() {
    assert_eq!(single_edit(&Outcome::Update(1)), Ending::Commit);
    assert_eq!(single_edit(&Outcome::NoOp(1)), Ending::Rollback);
}

#[test]
fn cycle_without_news_is_rolled_back() {
    let (out, ending) = handle_parsed(Outcome::NoOp(a_feed()), 0);
    assert!(matches!(out, Outcome::NoOp((f, 0)) if f.id == 7));
    assert_eq!(ending, Ending::Rollback);
    let (out, ending) = handle_parsed(Outcome::NoOp(a_feed()), 3);
    assert!(matches!(out, Outcome::Update((_, 3))));
    assert_eq!(ending, Ending::Commit);
    let (out, ending) = handle_parsed(Outcome::Update(a_feed()), 0);
    assert!(matches!(out, Outcome::Update((_, 0))));
    assert_eq!(ending, Ending::Commit);
}

#[test]
fn edits_are_planned() {
    let planned = update(a_feed(), Failing { since: UtcDateTime::new(3, 0) }).unwrap();
    assert!(matches!(planned, Planned::Write { id: 7, changes } if changes.len() == 1));
    let mut failing = a_feed();
    failing.failing_since = Some(UtcDateTime::new(1, 0));
    let planned = update(failing.clone(), Failing { since: UtcDateTime::new(3, 0) }).unwrap();
    assert!(matches!(planned, Planned::NoOp(row) if row == failing));
    let same = ParsedUpdate { title: "Old".to_string(), link: Some("https://example.com/".to_string()) };
    assert!(matches!(update(a_feed(), same).unwrap(), Planned::NoOp(_)));
}

#[test]
fn refused_edit_is_not_planned() {
    let row = Category {
        id: 1,
        disabled: true,
        name: "n".to_string(),
        title: "t".to_string(),
        hidden_nav: false,
        hidden_main: false,
        commit_timestamp: UtcDateTime::new(0, 0),
        sort_position: None,
    };
    let edit = category::UserEdit {
        name: None,
        title: None,
        hidden_nav: Some(true),
        hidden_main: None,
        disabled: false,
    };
    assert!(matches!(
        update(row, edit),
        Err(HttpError::Status(400, "Categories cannot be re-enabled"))
    ));
}

#[test]
fn rows_per_statement_respects_the_bind_limit() {
    assert_eq!(rows_per_statement(10, 7), 10);
    assert_eq!(rows_per_statement(4680, 7), 4680);
    assert_eq!(rows_per_statement(4681, 7), 4680);
    assert_eq!(rows_per_statement(usize::MAX, 7), 4680);
    assert_eq!(rows_per_statement(usize::MAX, usize::MAX), 0);
    assert_eq!(rows_per_statement(usize::MAX, 0), usize::MAX);
    assert_eq!(rows_per_statement(32766, 1), 32766);
    assert_eq!(rows_per_statement(32767, 1), 32766);
    assert_eq!(rows_per_statement(0, 5), 0);
}

#[test]
fn bulk_insert_keeps_order_and_limit() {
    let rows = bulk_insert::<Item, ParsedInsert>(vec![insert(1), insert(2), insert(3)], false).unwrap();
    assert_eq!(rows.len(), 3);
    assert_eq!(rows[0][1], Value::Text("1".to_string()));
    assert_eq!(rows[2][1], Value::Text("3".to_string()));
    assert_eq!(rows[0].len(), 5);
    let rows = bulk_insert::<Item, ParsedInsert>(vec![insert(1)], true).unwrap();
    assert_eq!(rows[0].len(), 6);
    assert!(bulk_insert::<Item, ParsedInsert>(Vec::new(), true).unwrap().is_empty());
    let many: Vec<ParsedInsert> = (0..5000).map(insert).collect();
    let rows = bulk_insert::<Item, ParsedInsert>(many, true).unwrap();
    assert_eq!(rows.len(), 4680);
    assert_eq!(rows[4679][1], Value::Text("4679".to_string()));
}

#[test]
fn bulk_insert_is_refused_as_a_whole() {
    let good = || category::UserInsert {
        name: "ok".to_string(),
        title: "Ok".to_string(),
        hidden_nav: false,
        hidden_main: false,
    };
    let bad = category::UserInsert { title: String::new(), ..good() };
    let worse = category::UserInsert { name: "Bad".to_string(), ..good() };
    let r = bulk_insert::<Category, category::UserInsert>(vec![good(), bad, worse], false);
    assert!(matches!(r, Err(HttpError::Status(400, "Category title cannot be empty"))));
    let r = bulk_insert::<Category, category::UserInsert>(vec![good(), good()], false).unwrap();
    assert_eq!(r.len(), 2);
}

#[test]
fn store_timestamp_is_one_second_back() {
    assert_eq!(timestamp(UtcDateTime::new(100, 999)), 99);
    assert_eq!(timestamp(UtcDateTime::new(i64::MIN, 0)), i64::MIN);
    assert_eq!(UtcDateTime::new(5, 6).timestamp(), 5);
}

#[test]
fn close_signals_once() {
    let mut closer = Closer::new("sender");
    assert!(!closer.closed());
    assert!(close(&mut closer));
    assert!(closer.closed());
    assert!(!close(&mut closer));
    assert!(closer.closed());
}

#[test]
fn guard_reports_untimely_end() {
    let mut closer = Closer::new(());
    assert!(CloseOnDrop::default().release(&mut closer));
    assert!(!CloseOnDrop::default().release(&mut closer));
}

#[test]
fn empty_path_means_none() {
    assert_eq!(empty_path_is_none(String::new()), None);
    assert_eq!(empty_path_is_none("/var/log/x".to_string()), Some("/var/log/x".to_string()));
    let config = Config::default();
    assert!(!config.in_memory());
    assert!(Config { database: ":memory:".to_string(), ..config }.in_memory());
}

#[test]
fn log_texts() {
    assert_eq!(RequestSpan {}.make_span("GET", "/api/current"), "GET:/api/current");
    assert_eq!(ResponseFormat {}.on_response(None), "no body");
    assert_eq!(ResponseFormat {}.on_response(Some("1.2 kB".to_string())), "1.2 kB");
}

#[test]
fn decimal_text() {
    for n in [0, 7, 10, -1, 42, -120, 1_000_000, i64::MAX, i64::MIN] {
        assert_eq!(to_decimal(n), n.to_string());
    }
}

#[test]
fn trim_matches_std() {
    for text in ["", " ", "a", "  a b \n", "\u{a0}x\u{3000}", "\tnot modified\r\n", "\u{200b}x", "x\u{85}"] {
        let chars = chars_of(text);
        let (from, to) = trim_bounds(&chars);
        let trimmed: String = chars[from..to].iter().collect();
        assert_eq!(trimmed, text.trim(), "{text:?}");
    }
}

#[test]
fn first_occurrence_is_removed() {
    let s = chars_of("a/atom/b/atom");
    assert_eq!(string_from(&remove_first(&s, &chars_of("/atom"))), "a/b/atom");
    assert_eq!(string_from(&remove_first(&s, &chars_of("zzz"))), "a/atom/b/atom");
    assert_eq!(string_from(&remove_first(&s, &chars_of(""))), "a/atom/b/atom");
    assert_eq!(string_from(&remove_first(&chars_of("aaa"), &chars_of("aa"))), "a");
}

#[test]
fn durations() {
    let d = Duration::new(3, 1_500_000_000);
    assert_eq!(d.as_secs(), 4);
    assert_eq!(d.subsec_nanos(), 500_000_000);
    assert_eq!(d.as_nanos(), 4_500_000_000);
    assert_eq!(Duration::from_secs(u64::MAX).as_secs(), u64::MAX);
    assert_eq!(Duration::from_nanos(u128::MAX).as_secs(), u64::MAX);
    assert_eq!(Duration::from_secs(1).min(Duration::from_secs(2)), Duration::from_secs(1));
    assert_eq!(Duration::from_secs(1).max(Duration::from_secs(2)), Duration::from_secs(2));
    assert_eq!(
        Duration::from_secs(5).clamp(Duration::from_secs(1), Duration::from_secs(3)),
        Duration::from_secs(3)
    );
    assert_eq!(
        Duration::from_secs(1).saturating_add(Duration::new(0, 5)),
        Duration::new(1, 5)
    );
    assert_eq!(
        Duration::from_nanos(u128::MAX).saturating_add(Duration::from_secs(1)),
        Duration::from_nanos(u128::MAX)
    );
}

#[test]
fn update_statement_sets_and_binds_in_order() {
    let changes = vec![
        Assignment { column: Column::Title, value: Value::Text("New".to_string()) },
        Assignment { column: Column::FailingSince, value: Value::Null },
        Assignment { column: Column::Disabled, value: Value::Bool(true) },
    ];
    let s = update_statement::<Feed>(7, changes);
    assert_eq!(
        s.sql,
        "UPDATE feeds SET title = ?, failing_since = ?, disabled = ? WHERE id = ? RETURNING *"
    );
    assert_eq!(
        s.binds,
        vec![Value::Text("New".to_string()), Value::Null, Value::Bool(true), Value::Integer(7)]
    );
    let one = vec![Assignment { column: Column::Read, value: Value::Bool(false) }];
    let s = update_statement::<Item>(-3, one);
    assert_eq!(s.sql, "UPDATE items SET read = ? WHERE id = ? RETURNING *");
    assert_eq!(s.binds, vec![Value::Bool(false), Value::Integer(-3)]);
}

#[test]
fn insert_statement_for_one_row() {
    let row = category::UserInsert {
        name: "n".to_string(),
        title: "T".to_string(),
        hidden_nav: false,
        hidden_main: true,
    };
    let rows = bulk_insert::<Category, category::UserInsert>(vec![row], false).unwrap();
    let s = insert_statement::<Category, category::UserInsert>(rows, false, true);
    assert_eq!(
        s.sql,
        "INSERT INTO categories(name, title, hidden_nav, hidden_main) VALUES (?, ?, ?, ?) RETURNING *"
    );
    assert_eq!(s.binds.len(), 4);
    assert_eq!(s.binds[3], Value::Bool(true));
}

#[test]
fn insert_statement_for_many_rows() {
    let rows = bulk_insert::<Item, ParsedInsert>(vec![insert(1), insert(2)], false).unwrap();
    let s = insert_statement::<Item, ParsedInsert>(rows, false, false);
    assert_eq!(
        s.sql,
        "INSERT INTO items(feed_id, key, title, url, timestamp) VALUES (?, ?, ?, ?, ?), (?, ?, ?, ?, ?) ON CONFLICT(feed_id, key) DO NOTHING "
    );
    assert_eq!(s.binds.len(), 10);
    assert_eq!(s.binds[6], Value::Text("2".to_string()));
}

#[test]
fn insert_statement_marks_duplicates() {
    let mut one = insert(1);
    one.url = "u".to_string();
    let rows = bulk_insert::<Item, ParsedInsert>(vec![one], true).unwrap();
    let s = insert_statement::<Item, ParsedInsert>(rows, true, false);
    assert_eq!(
        s.sql,
        "INSERT INTO items(feed_id, key, title, url, timestamp, read) VALUES (?, ?, ?, ?, ?,  (SELECT EXISTS (SELECT url FROM items WHERE url = ? AND feed_id != ?)) ) ON CONFLICT(feed_id, key) DO NOTHING "
    );
    assert_eq!(s.binds.len(), 7);
    assert_eq!(s.binds[5], Value::Text("u".to_string()));
    assert_eq!(s.binds[6], Value::Integer(7));
}

#[test]
fn insert_head_and_conflict() {
    assert_eq!(
        start_insert::<Feed, aw_rss::com::feed::UserInsert>(false),
        "INSERT INTO feeds(url, user_title, category_id) "
    );
    let mut sql = String::from("x");
    insert_conflict::<Feed, aw_rss::com::feed::UserInsert>(&mut sql);
    assert_eq!(sql, "x");
    insert_conflict::<Item, ParsedInsert>(&mut sql);
    assert_eq!(sql, "x ON CONFLICT(feed_id, key) DO NOTHING ");
}
