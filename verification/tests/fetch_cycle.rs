use aw_rss::com::feed::Failing;
use aw_rss::com::{Feed, Outcome, UtcDateTime};
use aw_rss::fetcher::fetch::{
    read_exec, read_http, time_between, Body, Conditional, ExecOutput, FetchError, Headers, HttpReply, Plan, Response, Status,
};
use aw_rss::fetcher::task::{command, Begin, Request, Signal, Wait};
use aw_rss::fetcher::host::{HostKind, HostRegistry};
use aw_rss::fetcher::FeedFetcher;
use aw_rss::time::Duration;

fn feed(id: i64, url: &str) -> Feed {
    Feed {
        id,
        url: url.to_string(),
        disabled: false,
        title: String::new(),
        site_url: String::new(),
        user_title: String::new(),
        category_id: None,
        failing_since: None,
        commit_timestamp: UtcDateTime::new(0, 0),
        create_timestamp: UtcDateTime::new(0, 0),
    }
}

fn headers() -> Headers {
    Headers { expires: None, ttl: None, last_modified: None, etag: None }
}

fn reply(status: u16) -> HttpReply {
    HttpReply { status, expires: None, last_modified: None, etag: None, body: String::new() }
}

// 2003-07-01 08:52:37 UTC
const JULY_FIRST: i64 = 1057049557;

#[test]
fn default_delay_is_thirty_minutes() {
    assert_eq!(headers().next_fetch(), Duration::from_secs(1800));
}

#[test]
fn ttl_goes_before_expires() {
    let h = Headers {
        expires: Some(Duration::from_secs(7200)),
        ttl: Some(Duration::from_secs(3600)),
        last_modified: None,
        etag: None,
    };
    assert_eq!(h.next_fetch(), Duration::from_secs(3600));
    let h = Headers { expires: Some(Duration::from_secs(7200)), ..headers() };
    assert_eq!(h.next_fetch(), Duration::from_secs(7200));
}

#[test]
fn delay_is_clamped_to_bounds() {
    let short = Headers { ttl: Some(Duration::from_secs(60)), ..headers() };
    assert_eq!(short.next_fetch(), Duration::from_secs(900));
    let long = Headers { ttl: Some(Duration::from_secs(86400)), ..headers() };
    assert_eq!(long.next_fetch(), Duration::from_secs(21600));
    let edge = Headers { expires: Some(Duration::new(899, 999_999_999)), ..headers() };
    assert_eq!(edge.next_fetch(), Duration::from_secs(900));
    let fine = Headers { expires: Some(Duration::new(900, 1)), ..headers() };
    assert_eq!(fine.next_fetch(), Duration::new(900, 1));
}

#[test]
fn etag_alone_is_sent_when_both_are_cached() {
    let h = Headers {
        last_modified: Some("Tue, 1 Jul 2003 10:52:37 +0200".to_string()),
        etag: Some("\"abc\"".to_string()),
        ..headers()
    };
    assert!(matches!(h.apply(), Conditional::IfNoneMatch(e) if e == "\"abc\""));
}

#[test]
fn last_modified_is_sent_without_etag() {
    let h = Headers {
        last_modified: Some("Tue, 1 Jul 2003 10:52:37 +0200".to_string()),
        ..headers()
    };
    assert!(matches!(h.apply(), Conditional::IfModifiedSince(d) if d == "Tue, 1 Jul 2003 10:52:37 +0200"));
    assert!(matches!(headers().apply(), Conditional::Unconditional));
}

#[test]
fn take_headers_leaves_none_cached() {
    let mut status = Status::Success(Headers { etag: Some("x".to_string()), ..headers() });
    let taken = status.take_headers();
    assert_eq!(taken.etag, Some("x".to_string()));
    assert!(matches!(&status, Status::Success(h) if h.etag.is_none()));
    assert_eq!(status.failing_timeout(), None);

    let mut failing = Status::Failing(Duration::from_secs(120));
    assert_eq!(failing.failing_timeout(), Some(Duration::from_secs(120)));
    let taken = failing.take_headers();
    assert!(taken.etag.is_none() && taken.expires.is_none());
    assert_eq!(failing.failing_timeout(), Some(Duration::from_secs(120)));
}

#[test]
fn successful_reply_replaces_validators() {
    let mut h = Headers { etag: Some("old".to_string()), ..headers() };
    let r = HttpReply {
        status: 200,
        expires: Some("Tue, 1 Jul 2003 10:52:37 +0200".to_string()),
        last_modified: Some("Tue, 1 Jul 2003 09:00:00 +0200".to_string()),
        etag: Some("new".to_string()),
        body: String::new(),
    };
    h.merge_at(&r, UtcDateTime::new(JULY_FIRST - 3600, 500_000_000));
    assert_eq!(h.etag, Some("new".to_string()));
    assert_eq!(h.last_modified, Some("Tue, 1 Jul 2003 09:00:00 +0200".to_string()));
    assert_eq!(h.expires, Some(Duration::new(3599, 500_000_000)));
}

#[test]
fn expires_in_the_past_counts_as_distance() {
    let mut h = headers();
    let r = HttpReply {
        expires: Some("Tue, 1 Jul 2003 10:52:37 +0200".to_string()),
        ..reply(200)
    };
    h.merge_at(&r, UtcDateTime::new(JULY_FIRST + 10, 0));
    assert_eq!(h.expires, Some(Duration::from_secs(10)));
}

#[test]
fn successful_reply_without_validators_clears_them() {
    let mut h = Headers {
        last_modified: Some("Tue, 1 Jul 2003 09:00:00 +0200".to_string()),
        etag: Some("old".to_string()),
        expires: Some(Duration::from_secs(5)),
        ..headers()
    };
    let r = HttpReply {
        last_modified: Some("yesterday".to_string()),
        etag: Some(String::new()),
        expires: Some("soon".to_string()),
        ..reply(204)
    };
    h.merge_at(&r, UtcDateTime::new(0, 0));
    assert_eq!(h.etag, None);
    assert_eq!(h.last_modified, None);
    assert_eq!(h.expires, Some(Duration::from_secs(5)));
}

#[test]
fn not_modified_keeps_validators_and_takes_expires() {
    let cached = Headers {
        last_modified: Some("Tue, 1 Jul 2003 09:00:00 +0200".to_string()),
        etag: Some("old".to_string()),
        ..headers()
    };
    let r = HttpReply {
        status: 304,
        expires: Some("Tue, 1 Jul 2003 10:52:37 +0200".to_string()),
        last_modified: Some("Tue, 1 Jul 2003 10:00:00 +0200".to_string()),
        etag: Some("fresh".to_string()),
        body: String::new(),
    };
    let response = read_http(cached, r, UtcDateTime::new(JULY_FIRST - 1200, 0)).unwrap();
    assert!(matches!(response.body, Body::NotModified));
    assert_eq!(response.headers.etag, Some("old".to_string()));
    assert_eq!(
        response.headers.last_modified,
        Some("Tue, 1 Jul 2003 09:00:00 +0200".to_string())
    );
    assert_eq!(response.headers.expires, Some(Duration::from_secs(1200)));
    match response.plan() {
        Plan::Rest { headers } => assert_eq!(headers.next_fetch(), Duration::from_secs(1200)),
        Plan::Store { .. } => panic!("nothing is stored for an unchanged feed"),
    }
}

#[test]
fn success_reply_carries_its_body() {
    let r = HttpReply { body: "<rss/>".to_string(), ..reply(200) };
    let response = read_http(headers(), r, UtcDateTime::new(0, 0)).unwrap();
    assert!(matches!(&response.body, Body::Success(b) if b == "<rss/>"));
    assert!(matches!(response.plan(), Plan::Store { body, .. } if body == "<rss/>"));
}

#[test]
fn error_status_fails_with_status_and_body() {
    let r = HttpReply { body: "gone".to_string(), etag: Some("e".to_string()), ..reply(410) };
    let e = read_http(headers(), r, UtcDateTime::new(0, 0)).unwrap_err();
    assert!(matches!(e, FetchError::Http { status: 410, body } if body == "gone"));
    let e = read_http(headers(), reply(301), UtcDateTime::new(0, 0)).unwrap_err();
    assert!(matches!(e, FetchError::Http { status: 301, .. }));
}

#[test]
fn command_notice_is_recognised() {
    for text in ["not modified", "  Not Modified\n", "NOT MODIFIED", "\tnot MODIFIED \r\n"] {
        let out = ExecOutput { success: true, stdout: text.to_string(), stderr: String::new() };
        let r = read_exec(headers(), out).unwrap();
        assert!(matches!(r.body, Body::NotModified), "{text:?}");
    }
}

#[test]
fn command_output_is_content_otherwise() {
    let long = format!("not modified{}", " ".repeat(100));
    for text in ["not modified!", "", "<rss/>", long.as_str()] {
        let out = ExecOutput { success: true, stdout: text.to_string(), stderr: String::new() };
        let cached = Headers { etag: Some("t".to_string()), ..headers() };
        let r = read_exec(cached, out).unwrap();
        assert!(matches!(&r.body, Body::Success(b) if b == text), "{text:?}");
        assert_eq!(r.headers.etag, Some("t".to_string()));
    }
}

#[test]
fn failed_command_keeps_both_streams() {
    let out = ExecOutput {
        success: false,
        stdout: "not modified".to_string(),
        stderr: "boom".to_string(),
    };
    let e = read_exec(headers(), out).unwrap_err();
    assert!(matches!(e, FetchError::Command { stdout, stderr } if stdout == "not modified" && stderr == "boom"));
}

#[test]
fn time_between_is_symmetric() {
    let a = UtcDateTime::new(10, 250);
    let b = UtcDateTime::new(-5, 750);
    assert_eq!(time_between(a, b), Duration::new(14, 999_999_500));
    assert_eq!(time_between(b, a), Duration::new(14, 999_999_500));
    assert_eq!(time_between(a, a), Duration::from_secs(0));
    let far = time_between(UtcDateTime::new(i64::MAX, 0), UtcDateTime::new(i64::MIN, 0));
    assert_eq!(far.as_nanos(), (u64::MAX as u128) * 1_000_000_000);
}

#[test]
fn http_request_carries_url_and_conditional() {
    let mut f = FeedFetcher::new(feed(1, "https://example.com/feed"), 0);
    assert_eq!(f.kind(), HostKind::Http);
    f.status = Status::Success(Headers { etag: Some("v1".to_string()), ..headers() });
    match f.request().unwrap() {
        Request::Http { url, conditional } => {
            assert_eq!(url, "https://example.com/feed");
            assert!(matches!(conditional, Conditional::IfNoneMatch(e) if e == "v1"));
        }
        Request::Command { .. } => panic!("a URL is fetched over HTTP"),
    }
    f.status = Status::Failing(Duration::from_secs(60));
    assert!(matches!(
        f.request().unwrap(),
        Request::Http { conditional: Conditional::Unconditional, .. }
    ));
}

#[test]
fn command_is_split_like_a_shell_line() {
    let mut f = FeedFetcher::new(feed(1, "!scraper --site 'a b' \"c\\\"d\" e\\ f"), 0);
    assert_eq!(f.kind(), HostKind::Executable);
    match f.request().unwrap() {
        Request::Command { program, args } => {
            assert_eq!(program, "scraper");
            assert_eq!(args, vec!["--site", "a b", "c\"d", "e f"]);
        }
        Request::Http { .. } => panic!("a command is run"),
    }
    f.status = Status::Success(Headers { etag: Some("v2".to_string()), ..headers() });
    match f.request().unwrap() {
        Request::Command { program, args } => {
            assert_eq!(program, "scraper");
            assert_eq!(args, vec!["--site", "a b", "c\"d", "e f", "--etag", "v2"]);
        }
        Request::Http { .. } => panic!("a command is run"),
    }
}

#[test]
fn empty_command_line_is_invalid() {
    for url in ["!", "!   ", "! # only a comment"] {
        let f = FeedFetcher::new(feed(1, url), 0);
        assert!(matches!(f.request(), Err(FetchError::InvalidCommand)), "{url:?}");
    }
}

#[test]
fn begin_admits_one_feed_per_host() {
    let mut hosts = HostRegistry::new();
    let a = FeedFetcher::new(feed(1, "https://example.com/a"), hosts.insert("https://example.com/a"));
    let b = FeedFetcher::new(
        feed(2, "https://www.example.com/b"),
        hosts.insert("https://www.example.com/b"),
    );
    assert_eq!(a.host, b.host);
    assert!(matches!(a.begin(&mut hosts), Begin::Go(_)));
    assert_eq!(hosts.holder(a.host), Some(1));
    assert!(matches!(b.begin(&mut hosts), Begin::Busy));
    assert!(matches!(a.begin(&mut hosts), Begin::Busy));
    assert_eq!(hosts.holder(a.host), Some(1));
}

#[test]
fn begin_leaves_host_free_for_invalid_command() {
    let mut hosts = HostRegistry::new();
    let f = FeedFetcher::new(feed(1, "!"), hosts.insert("!"));
    assert!(matches!(f.begin(&mut hosts), Begin::Invalid(FetchError::InvalidCommand)));
    assert_eq!(hosts.holder(f.host), None);
}

#[test]
fn answer_frees_the_host() {
    let mut hosts = HostRegistry::new();
    let mut a = FeedFetcher::new(feed(1, "https://example.com/a"), hosts.insert("https://example.com/a"));
    let b = FeedFetcher::new(feed(2, "https://example.com/b"), hosts.insert("https://example.com/b"));
    assert!(matches!(a.begin(&mut hosts), Begin::Go(_)));
    a.status = Status::Success(Headers { etag: Some("keep".to_string()), ..headers() });
    let response = a.fetch_http_at(&mut hosts, reply(304), UtcDateTime::new(0, 0)).unwrap();
    assert_eq!(response.headers.etag, Some("keep".to_string()));
    assert_eq!(hosts.holder(a.host), None);
    assert!(matches!(b.begin(&mut hosts), Begin::Go(_)));
    // An answer that comes for a feed that does not hold the host frees nothing.
    let _ = a.fetch_http_at(&mut hosts, reply(500), UtcDateTime::new(0, 0));
    assert_eq!(hosts.holder(b.host), Some(2));
}

#[test]
fn command_output_frees_the_host() {
    let mut hosts = HostRegistry::new();
    let mut f = FeedFetcher::new(feed(1, "!cmd"), hosts.insert("!cmd"));
    assert!(matches!(f.begin(&mut hosts), Begin::Go(_)));
    let out = ExecOutput { success: true, stdout: "body".to_string(), stderr: String::new() };
    let r = f.run_executable(&mut hosts, out).unwrap();
    assert!(matches!(r.body, Body::Success(_)));
    assert_eq!(hosts.holder(f.host), None);
}

#[test]
fn success_caches_headers_and_lowers_the_count() {
    let mut hosts = HostRegistry::new();
    let at = hosts.insert("https://example.com/a");
    for id in [8, 9] {
        let _ = FeedFetcher::new(feed(id, "https://example.com/a"), at)
            .fail_at(&mut hosts, UtcDateTime::new(0, 0));
    }
    let mut f = FeedFetcher::new(feed(1, "https://example.com/a"), at);
    let h = Headers { ttl: Some(Duration::from_secs(1000)), etag: Some("e".to_string()), ..headers() };
    let wait = f.succeed(&mut hosts, h);
    assert_eq!(wait, Wait::Idle(Duration::from_secs(1000)));
    assert_eq!(hosts.failing_feeds(at), 1);
    assert!(matches!(&f.status, Status::Success(h) if h.etag.as_deref() == Some("e")));
    f.succeed(&mut hosts, headers());
    f.succeed(&mut hosts, headers());
    assert_eq!(hosts.failing_feeds(at), 0);
}

#[test]
fn backoff_doubles_up_to_six_hours() {
    let mut hosts = HostRegistry::new();
    let at = hosts.insert("https://example.com/a");
    let mut f = FeedFetcher::new(feed(1, "https://example.com/a"), at);
    let now = UtcDateTime::new(1_700_000_000, 0);
    let expected = [60u64, 120, 240, 480, 960, 1920, 3840, 7680, 15360, 21600, 21600, 21600];
    for secs in expected {
        let failure = f.fail_at(&mut hosts, now);
        assert_eq!(failure.wait, Wait::Backoff(Duration::from_secs(secs)));
        assert_eq!(failure.failing, Failing { since: now });
        assert_eq!(f.status.failing_timeout(), Some(Duration::from_secs(secs)));
    }
    assert_eq!(hosts.failing_feeds(at), 1);
}

#[test]
fn first_backoff_grows_with_failing_feeds_on_host() {
    let mut hosts = HostRegistry::new();
    let at = hosts.insert("https://example.com/a");
    let mut a = FeedFetcher::new(feed(1, "https://example.com/a"), at);
    let mut b = FeedFetcher::new(feed(2, "https://example.com/b"), at);
    let mut c = FeedFetcher::new(feed(3, "https://example.com/c"), at);
    let now = UtcDateTime::new(0, 0);
    assert_eq!(a.fail_at(&mut hosts, now).wait, Wait::Backoff(Duration::from_secs(60)));
    assert_eq!(b.fail_at(&mut hosts, now).wait, Wait::Backoff(Duration::from_secs(120)));
    assert_eq!(c.fail_at(&mut hosts, now).wait, Wait::Backoff(Duration::from_secs(180)));
    assert_eq!(hosts.failing_feeds(at), 3);
    assert_eq!(a.fail_at(&mut hosts, now).wait, Wait::Backoff(Duration::from_secs(120)));
    assert_eq!(hosts.failing_feeds(at), 3);
    let _ = a.succeed(&mut hosts, headers());
    assert_eq!(hosts.failing_feeds(at), 2);
    assert_eq!(a.fail_at(&mut hosts, now).wait, Wait::Backoff(Duration::from_secs(180)));
}

#[test]
fn first_backoff_is_not_capped_but_state_is() {
    let mut hosts = HostRegistry::new();
    let at = hosts.insert("https://example.com/a");
    for id in 1000..1399 {
        let _ = FeedFetcher::new(feed(id, "https://example.com/a"), at)
            .fail_at(&mut hosts, UtcDateTime::new(0, 0));
    }
    assert_eq!(hosts.failing_feeds(at), 399);
    let mut f = FeedFetcher::new(feed(1, "https://example.com/a"), at);
    let failure = f.fail_at(&mut hosts, UtcDateTime::new(0, 0));
    assert_eq!(failure.wait, Wait::Backoff(Duration::from_secs(24000)));
    assert_eq!(f.status.failing_timeout(), Some(Duration::from_secs(21600)));
    let again = f.fail_at(&mut hosts, UtcDateTime::new(0, 0));
    assert_eq!(again.wait, Wait::Backoff(Duration::from_secs(21600)));
}

#[test]
fn failure_frees_the_host() {
    let mut hosts = HostRegistry::new();
    let mut f = FeedFetcher::new(feed(1, "https://example.com/a"), hosts.insert("https://example.com/a"));
    assert!(matches!(f.begin(&mut hosts), Begin::Go(_)));
    let _ = f.fail_at(&mut hosts, UtcDateTime::new(0, 0));
    assert_eq!(hosts.holder(f.host), None);
}

#[test]
fn rerun_failing_wakes_only_failing_feeds() {
    let idle = Wait::Idle(Duration::from_secs(1800));
    let backoff = Wait::Backoff(Duration::from_secs(60));
    assert!(!idle.wakes(Signal::RerunFailing));
    assert!(backoff.wakes(Signal::RerunFailing));
    for wait in [idle, backoff] {
        assert!(wait.wakes(Signal::Rerun));
        assert!(wait.wakes(Signal::Deadline));
    }
    assert_eq!(idle.duration(), Duration::from_secs(1800));
    assert_eq!(backoff.duration(), Duration::from_secs(60));
}

#[test]
fn marked_takes_the_row_from_the_store() {
    let mut f = FeedFetcher::new(feed(1, "https://example.com/a"), 0);
    let mut row = feed(1, "https://example.com/a");
    row.failing_since = Some(UtcDateTime::new(5, 0));
    f.marked(Outcome::Update(row.clone()));
    assert_eq!(f.feed, row);
    f.marked(Outcome::NoOp(feed(1, "https://example.com/b")));
    assert_eq!(f.feed.url, "https://example.com/b");
}

#[test]
fn merge_from_uses_the_clock() {
    let mut h = headers();
    let r = HttpReply {
        expires: Some("Tue, 1 Jul 2003 10:52:37 +0200".to_string()),
        etag: Some("e".to_string()),
        ..reply(200)
    };
    h.merge_from(&r);
    // The test runs long after 2003: the distance is large, and positive.
    assert!(h.expires.unwrap().as_secs() > 600_000_000);
    assert_eq!(h.etag, Some("e".to_string()));
}

#[test]
fn response_debug_is_available() {
    let r = Response { body: Body::NotModified, headers: headers() };
    assert!(format!("{r:?}").contains("NotModified"));
}

#[test]
fn words_of_a_command_line_make_the_run() {
    let words = vec!["scraper".to_string(), "--site".to_string(), "a b".to_string()];
    match command(words.clone(), None).unwrap() {
        Request::Command { program, args } => {
            assert_eq!(program, "scraper");
            assert_eq!(args, vec!["--site", "a b"]);
        }
        Request::Http { .. } => panic!("a command is run"),
    }
    match command(words, Some("v3".to_string())).unwrap() {
        Request::Command { program, args } => {
            assert_eq!(program, "scraper");
            assert_eq!(args, vec!["--site", "a b", "--etag", "v3"]);
        }
        Request::Http { .. } => panic!("a command is run"),
    }
    match command(vec!["alone".to_string()], Some(String::new())).unwrap() {
        Request::Command { program, args } => {
            assert_eq!(program, "alone");
            assert_eq!(args, vec!["--etag", ""]);
        }
        Request::Http { .. } => panic!("a command is run"),
    }
}

#[test]
fn no_words_make_no_run() {
    assert!(matches!(command(Vec::new(), None), Err(FetchError::InvalidCommand)));
    assert!(matches!(
        command(Vec::new(), Some("v3".to_string())),
        Err(FetchError::InvalidCommand)
    ));
}
