use aw_rss::fetcher::host::{command_key_from, host_key, host_key_from};

#[test]
fn www_prefix_is_stripped_from_url_host() {
    assert_eq!(host_key("https://www.example.com/feed"), "example.com");
    assert_eq!(host_key("https://example.com/x"), "example.com");
}

#[test]
fn command_key_is_first_word_without_marker() {
    assert_eq!(host_key("!mycommand a b"), "mycommand");
}

#[test]
fn launcher_key_keeps_second_word() {
    assert_eq!(host_key("!rss-scrapers foo bar"), "!rss-scrapers foo");
}

#[test]
fn unparsable_url_gives_empty_key() {
    assert_eq!(host_key("not a url"), "");
}

#[test]
fn only_one_leading_www_is_stripped() {
    assert_eq!(host_key("https://www.www.example.com/"), "www.example.com");
    assert_eq!(host_key("https://wwwexample.com/"), "wwwexample.com");
    assert_eq!(host_key("http://www./"), "");
}

#[test]
fn host_is_read_as_the_parser_writes_it() {
    assert_eq!(host_key("HTTPS://WWW.Example.COM:8443/a?b#c"), "example.com");
    assert_eq!(host_key("http://user:pw@sub.example.org/"), "sub.example.org");
    assert_eq!(host_key("http://127.0.0.1/feed"), "127.0.0.1");
    assert_eq!(host_key("mailto:someone@example.com"), "");
    assert_eq!(host_key(""), "");
}

#[test]
fn command_words_are_parted_by_space_tab_and_line_feed() {
    assert_eq!(host_key("!cmd\targ"), "cmd");
    assert_eq!(host_key("!cmd\narg"), "cmd");
    assert_eq!(host_key("!cmd"), "cmd");
    assert_eq!(host_key("!"), "");
    assert_eq!(host_key("! cmd"), "");
    assert_eq!(host_key("!/usr/bin/fetch --all"), "/usr/bin/fetch");
}

#[test]
fn launcher_without_second_word_is_a_plain_command() {
    assert_eq!(host_key("!rss-scrapers"), "rss-scrapers");
    assert_eq!(host_key("!rss-scrapers   "), "rss-scrapers");
    assert_eq!(host_key("!rss-scrapers foo"), "!rss-scrapers foo");
    assert_eq!(host_key("!rss-scrapers \t foo   bar"), "!rss-scrapers foo");
    assert_eq!(host_key("!rss-scrapersx foo bar"), "rss-scrapersx");
}

#[test]
fn command_words_are_parted_by_any_white_space() {
    assert_eq!(host_key("!cmd\rarg"), "cmd");
    assert_eq!(host_key("!cmd\u{b}arg"), "cmd");
    assert_eq!(host_key("!cmd\u{c}arg"), "cmd");
    assert_eq!(host_key("!cmd\u{a0}arg"), "cmd");
    assert_eq!(host_key("!cmd\u{3000}arg"), "cmd");
    assert_eq!(host_key("!rss-scrapers\r\nfoo\u{2003}bar"), "!rss-scrapers foo");
    assert_eq!(host_key("!cmd\u{200b}arg"), "cmd\u{200b}arg");
}

#[test]
fn key_of_a_host_that_was_read() {
    assert_eq!(host_key_from(Some("www.example.com".to_string())), "example.com");
    assert_eq!(host_key_from(Some("example.com".to_string())), "example.com");
    assert_eq!(host_key_from(Some("www.www.example.com".to_string())), "www.example.com");
    assert_eq!(host_key_from(Some("WWW.example.com".to_string())), "WWW.example.com");
    assert_eq!(host_key_from(Some("www.".to_string())), "");
    assert_eq!(host_key_from(Some(String::new())), "");
    assert_eq!(host_key_from(None), "");
}

#[test]
fn key_of_a_command_line() {
    assert_eq!(command_key_from("!mycommand a b"), "mycommand");
    assert_eq!(command_key_from("!rss-scrapers foo bar"), "!rss-scrapers foo");
    assert_eq!(command_key_from("!rss-scrapers"), "rss-scrapers");
    assert_eq!(command_key_from("!"), "");
    assert_eq!(command_key_from("!https://www.example.com/"), "https://www.example.com/");
}
