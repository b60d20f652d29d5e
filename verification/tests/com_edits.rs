use aw_rss::com::category::{validate_name, Category};
use aw_rss::com::feed::{Failing, ParsedUpdate};
use aw_rss::com::item::{Item, ParsedInsert};
use aw_rss::com::{
    category, feed, item, Assignment, Column, Feed, HttpError, Insert, OnConflict, Outcome,
    RssStruct, Update, UtcDateTime, Value,
};

fn a_feed() -> Feed {
    Feed {
        id: 7,
        url: "https://example.com/feed".to_string(),
        disabled: false,
        title: "Old".to_string(),
        site_url: "https://example.com/".to_string(),
        user_title: String::new(),
        category_id: Some(2),
        failing_since: None,
        commit_timestamp: UtcDateTime::new(0, 0),
        create_timestamp: UtcDateTime::new(0, 0),
    }
}

fn a_category() -> Category {
    Category {
        id: -12,
        disabled: false,
        name: "news".to_string(),
        title: "News".to_string(),
        hidden_nav: false,
        hidden_main: false,
        commit_timestamp: UtcDateTime::new(0, 0),
        sort_position: None,
    }
}

fn set(column: Column, value: Value) -> Assignment {
    Assignment { column, value }
}

fn message(r: Result<(), HttpError>) -> &'static str {
    match r {
        Err(HttpError::Status(400, msg)) => msg,
        other => panic!("expected a bad request, got {other:?}"),
    }
}

#[test]
fn outcome_take_and_if_update() {
    assert_eq!(Outcome::NoOp(1).take(), 1);
    assert_eq!(Outcome::Update(2).take(), 2);
    let mut seen = Vec::new();
    let out = Outcome::Update(3).if_update(|v| seen.push(*v));
    assert!(matches!(out, Outcome::Update(3)));
    let out = Outcome::NoOp(4).if_update(|v| seen.push(*v));
    assert!(matches!(out, Outcome::NoOp(4)));
    assert_eq!(seen, vec![3]);
}

#[test]
fn table_names_and_ids() {
    assert_eq!(Feed::table_name(), "feeds");
    assert_eq!(Item::table_name(), "items");
    assert_eq!(Category::table_name(), "categories");
    assert_eq!(a_feed().id(), 7);
    assert_eq!(a_category().id(), -12);
}

#[test]
fn http_error_status() {
    assert!(matches!(HttpError::bad("no"), HttpError::Status(400, "no")));
    assert_eq!(HttpError::bad("no").status(), 400);
    assert_eq!(HttpError::Report("x".to_string()).status(), 500);
    assert_eq!(HttpError::Status(404, "gone").status(), 404);
}

#[test]
fn column_names() {
    assert_eq!(Column::FailingSince.name(), "failing_since");
    assert_eq!(Column::SiteUrl.name(), "site_url");
    assert_eq!(Column::HiddenMain.name(), "hidden_main");
    assert_eq!(Column::CategoryId.name(), "category_id");
}

#[test]
fn failing_mark_is_written_once_per_streak() {
    let mut row = a_feed();
    let first = Failing { since: UtcDateTime::new(100, 0) };
    assert_eq!(
        first.build_updates(&row),
        vec![set(Column::FailingSince, Value::Time(UtcDateTime::new(100, 0)))]
    );
    row.failing_since = Some(UtcDateTime::new(100, 0));
    let later = Failing { since: UtcDateTime::new(200, 0) };
    assert_eq!(later.build_updates(&row), Vec::new());
    assert!(later.validate(&row).is_ok());
}

#[test]
fn content_clears_the_failing_mark() {
    let mut row = a_feed();
    row.failing_since = Some(UtcDateTime::new(100, 0));
    let update = ParsedUpdate { title: "Old".to_string(), link: Some("https://example.com/".to_string()) };
    assert_eq!(update.build_updates(&row), vec![set(Column::FailingSince, Value::Null)]);
    row.failing_since = None;
    let update = ParsedUpdate { title: "Old".to_string(), link: Some("https://example.com/".to_string()) };
    assert_eq!(update.build_updates(&row), Vec::new());
}

#[test]
fn parsed_update_sets_what_differs() {
    let row = a_feed();
    let update = ParsedUpdate { title: "New".to_string(), link: Some("https://example.org/".to_string()) };
    assert_eq!(
        update.build_updates(&row),
        vec![
            set(Column::Title, Value::Text("New".to_string())),
            set(Column::SiteUrl, Value::Text("https://example.org/".to_string())),
        ]
    );
}

#[test]
fn parsed_update_falls_back_to_feed_url() {
    let mut row = a_feed();
    row.site_url = String::new();
    let update = ParsedUpdate { title: "Old".to_string(), link: None };
    assert_eq!(
        update.build_updates(&row),
        vec![set(Column::SiteUrl, Value::Text("https://example.com/feed".to_string()))]
    );
    row.url = "!scraper".to_string();
    let update = ParsedUpdate { title: "Old".to_string(), link: None };
    assert_eq!(update.build_updates(&row), Vec::new());
    row.url = "https://example.com/feed".to_string();
    row.site_url = "https://example.com/".to_string();
    let update = ParsedUpdate { title: "Old".to_string(), link: None };
    assert_eq!(update.build_updates(&row), Vec::new());
}

#[test]
fn parsed_update_rewrites_the_site_link() {
    let mut row = a_feed();
    row.url = "https://konachan.com/post/piclens?tags=x".to_string();
    let update = ParsedUpdate { title: "Old".to_string(), link: Some("https://konachan.com/".to_string()) };
    assert_eq!(
        update.build_updates(&row),
        vec![set(Column::SiteUrl, Value::Text("https://konachan.com/post?tags=x".to_string()))]
    );
}

#[test]
fn feed_user_edit() {
    let row = a_feed();
    let edit = feed::UserEdit {
        category_id: Some(3),
        clear_category: true,
        disabled: Some(true),
        user_title: Some("Mine".to_string()),
    };
    assert!(edit.validate(&row).is_ok());
    assert_eq!(
        edit.build_updates(&row),
        vec![
            set(Column::CategoryId, Value::Integer(3)),
            set(Column::Disabled, Value::Bool(true)),
            set(Column::UserTitle, Value::Text("Mine".to_string())),
        ]
    );
    let same = feed::UserEdit {
        category_id: Some(2),
        clear_category: false,
        disabled: Some(false),
        user_title: Some(String::new()),
    };
    assert_eq!(same.build_updates(&row), Vec::new());
    let clear =
        feed::UserEdit { category_id: None, clear_category: true, disabled: None, user_title: None };
    assert_eq!(clear.build_updates(&row), vec![set(Column::CategoryId, Value::Null)]);
    let mut bare = a_feed();
    bare.category_id = None;
    let clear =
        feed::UserEdit { category_id: None, clear_category: true, disabled: None, user_title: None };
    assert_eq!(clear.build_updates(&bare), Vec::new());
}

#[test]
fn feed_user_insert() {
    assert_eq!(
        <feed::UserInsert as Insert<Feed>>::columns(false),
        vec![Column::Url, Column::UserTitle, Column::CategoryId]
    );
    assert_eq!(<feed::UserInsert as Insert<Feed>>::binds_count_hint(), 0);
    assert!(matches!(<feed::UserInsert as Insert<Feed>>::on_conflict(), OnConflict::Error));
    let insert = feed::UserInsert { url: "u".to_string(), user_title: "t".to_string(), category_id: None };
    assert!(insert.validate().is_ok());
    assert_eq!(
        insert.push_values(true),
        vec![Value::Text("u".to_string()), Value::Text("t".to_string()), Value::Null]
    );
    let insert = feed::UserInsert { url: "u".to_string(), user_title: "t".to_string(), category_id: Some(4) };
    assert_eq!(insert.push_values(false)[2], Value::Integer(4));
}

#[test]
fn item_user_edit() {
    let row = Item {
        id: 1,
        feed_id: 7,
        title: String::new(),
        url: String::new(),
        timestamp: UtcDateTime::new(0, 0),
        read: false,
        commit_timestamp: UtcDateTime::new(0, 0),
    };
    assert_eq!(
        item::UserEdit { read: true }.build_updates(&row),
        vec![set(Column::Read, Value::Bool(true))]
    );
    assert_eq!(item::UserEdit { read: false }.build_updates(&row), Vec::new());
}

#[test]
fn parsed_insert_rows() {
    let insert = ParsedInsert {
        feed_id: 7,
        key: "k".to_string(),
        title: "t".to_string(),
        url: "u".to_string(),
        timestamp: UtcDateTime::new(9, 1),
    };
    let plain = vec![
        Value::Integer(7),
        Value::Text("k".to_string()),
        Value::Text("t".to_string()),
        Value::Text("u".to_string()),
        Value::Time(UtcDateTime::new(9, 1)),
    ];
    assert_eq!(insert.clone().push_values(false), plain);
    let mut marked = plain;
    marked.push(Value::UrlInOtherFeed { url: "u".to_string(), feed_id: 7 });
    assert_eq!(insert.push_values(true), marked);
    assert_eq!(<ParsedInsert as Insert<Item>>::columns(false).len(), 5);
    assert_eq!(
        <ParsedInsert as Insert<Item>>::columns(true),
        vec![Column::FeedId, Column::Key, Column::Title, Column::Url, Column::Timestamp, Column::Read]
    );
    assert_eq!(<ParsedInsert as Insert<Item>>::binds_count_hint(), 7);
    assert!(matches!(
        <ParsedInsert as Insert<Item>>::on_conflict(),
        OnConflict::Ignore("(feed_id, key)")
    ));
}

#[test]
fn category_names() {
    assert!(validate_name("news").is_ok());
    assert!(validate_name("a-1-b").is_ok());
    assert!(validate_name("z").is_ok());
    let start = "Category name must start with a lowercase ASCII character";
    let chars = "Category names must only contain lowercase alphanumeric characters and hyphens";
    assert_eq!(message(validate_name("")), start);
    assert_eq!(message(validate_name("1abc")), start);
    assert_eq!(message(validate_name("-abc")), start);
    assert_eq!(message(validate_name("News")), start);
    assert_eq!(message(validate_name("éa")), start);
    assert_eq!(message(validate_name("neWs")), chars);
    assert_eq!(message(validate_name("a b")), chars);
    assert_eq!(message(validate_name("a_b")), chars);
    assert_eq!(message(validate_name("aé")), chars);
}

#[test]
fn category_insert_is_validated() {
    let insert = |name: &str, title: &str| category::UserInsert {
        name: name.to_string(),
        title: title.to_string(),
        hidden_nav: true,
        hidden_main: false,
    };
    assert!(insert("news", "News").validate().is_ok());
    assert_eq!(message(insert("news", "").validate()), "Category title cannot be empty");
    assert_eq!(message(insert("", "").validate()), "Category title cannot be empty");
    assert_eq!(
        message(insert("", "News").validate()),
        "Category name must start with a lowercase ASCII character"
    );
    assert_eq!(
        insert("news", "News").push_values(false),
        vec![
            Value::Text("news".to_string()),
            Value::Text("News".to_string()),
            Value::Bool(true),
            Value::Bool(false),
        ]
    );
    assert_eq!(
        <category::UserInsert as Insert<Category>>::columns(false),
        vec![Column::Name, Column::Title, Column::HiddenNav, Column::HiddenMain]
    );
}

fn no_edit() -> category::UserEdit {
    category::UserEdit { name: None, title: None, hidden_nav: None, hidden_main: None, disabled: false }
}

#[test]
fn category_edit_is_validated() {
    let row = a_category();
    assert!(no_edit().validate(&row).is_ok());
    let edit = category::UserEdit { name: Some("Bad".to_string()), ..no_edit() };
    assert_eq!(
        message(edit.validate(&row)),
        "Category name must start with a lowercase ASCII character"
    );
    let edit = category::UserEdit { title: Some(String::new()), ..no_edit() };
    assert_eq!(message(edit.validate(&row)), "Category title cannot be empty");
    let mut gone = a_category();
    gone.disabled = true;
    assert_eq!(message(no_edit().validate(&gone)), "Categories cannot be re-enabled");
    let edit = category::UserEdit { disabled: true, ..no_edit() };
    assert!(edit.validate(&gone).is_ok());
}

#[test]
fn category_edit_changes() {
    let row = a_category();
    let edit = category::UserEdit {
        name: Some("tech".to_string()),
        title: Some("News".to_string()),
        hidden_nav: Some(true),
        hidden_main: Some(false),
        disabled: false,
    };
    assert_eq!(
        edit.build_updates(&row),
        vec![
            set(Column::Name, Value::Text("tech".to_string())),
            set(Column::HiddenNav, Value::Bool(true)),
        ]
    );
    assert_eq!(no_edit().build_updates(&row), Vec::new());
}

#[test]
fn disabling_a_category_retires_its_name() {
    let row = a_category();
    let edit = category::UserEdit {
        name: Some("tech".to_string()),
        title: Some("Tech".to_string()),
        disabled: true,
        ..no_edit()
    };
    assert_eq!(
        edit.build_updates(&row),
        vec![
            set(Column::Disabled, Value::Bool(true)),
            set(Column::Name, Value::Text("-12".to_string())),
        ]
    );
}

#[test]
fn feed_label_shows_twenty_characters_of_the_title() {
    let mut f = a_feed();
    f.title = "A title that is rather long".to_string();
    assert_eq!(f.label(), "[Feed 7: https://example.com/feed (A title that is rath)]");
    f.user_title = "Müne".to_string();
    f.disabled = true;
    assert_eq!(f.label(), "[Feed 7: https://example.com/feed (Müne) disabled]");
    f.user_title = "12345678901234567890".to_string();
    assert_eq!(f.label(), "[Feed 7: https://example.com/feed (12345678901234567890) disabled]");
}

#[test]
fn http_error_answers() {
    assert_eq!(HttpError::bad("no").into_response(), (400, "no".to_string()));
    assert_eq!(HttpError::Report("broke".to_string()).into_response(), (500, "broke".to_string()));
    assert_eq!(aw_rss::com::empty_string_is_none(String::new()), None);
    assert_eq!(aw_rss::com::empty_string_is_none("x".to_string()), Some("x".to_string()));
}
