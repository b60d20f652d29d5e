//! From the text of a feed to what is stored of it.
//!
//! The text is read as RSS by the `rss` crate and, failing that, as Atom by
//! the `atom_syndication` crate. What the readers find comes here as plain
//! values; what is made of it is decided here.

use vstd::prelude::*;
use vstd::string::StringExecFns;
use crate::com::feed::ParsedUpdate;
use crate::com::item::ParsedInsert;
use crate::com::{Feed, UtcDateTime};
use crate::fetcher::fetch::rfc2822_instant;
use crate::markup::{nesting, nesting_of, MAX_NESTING};
use crate::text::{chars_of, opt_view, str_eq};
use crate::time::{secs, Duration};

verus! {

/// What a fetch has found in the text of a feed.
#[derive(Debug)]
pub struct ParsedFeed {
    pub update: ParsedUpdate,
    /// The items, the last of the text first: items with equal times then
    /// keep the order of the text when they are sorted by time.
    pub items: Vec<ParsedInsert>,
    /// The time to live that the feed declares.
    pub ttl: Option<Duration>,
    /// The entity tag that the feed declares in its own text.
    pub extension_etag: Option<String>,
}

/// Why a text is no feed. The text is kept for the log.
#[derive(Debug, Clone, PartialEq, Eq)]
pub enum ParseError {
    /// The elements of the text are nested more deeply than a reader is
    /// trusted with: the text was not read.
    TooDeep { body: String },
    /// Neither reader could read the text: what the reader of RSS and the
    /// reader of Atom said of it.
    NoFeed { rss: String, atom: String, body: String },
}

/// An item of an RSS channel.
#[derive(Debug, Clone, PartialEq, Eq)]
pub struct RssItem {
    pub title: Option<String>,
    pub link: Option<String>,
    pub guid: Option<String>,
    pub pub_date: Option<String>,
    pub description: Option<String>,
}

/// An RSS channel.
#[derive(Debug, Clone, PartialEq, Eq)]
pub struct RssChannel {
    pub title: String,
    pub link: String,
    pub ttl: Option<String>,
    /// The values of the channel's extension elements with the asked name,
    /// in the order of the text.
    pub extension: Vec<Option<String>>,
    pub items: Vec<RssItem>,
}

/// A link of an Atom feed or entry.
#[derive(Debug, Clone, PartialEq, Eq)]
pub struct AtomLink {
    pub rel: String,
    pub href: String,
}

/// A time as an Atom entry gives it: the point in time, and the time as
/// RFC 3339 writes it in the entry's own offset.
#[derive(Debug, Clone, PartialEq, Eq)]
pub struct Moment {
    pub at: UtcDateTime,
    pub text: String,
}

/// An entry of an Atom feed.
#[derive(Debug, Clone, PartialEq, Eq)]
pub struct AtomEntry {
    pub title: String,
    pub links: Vec<AtomLink>,
    pub id: String,
    pub published: Option<Moment>,
    pub updated: UtcDateTime,
    pub content: Option<String>,
}

/// An Atom feed without its entries.
#[derive(Debug, Clone, PartialEq, Eq)]
pub struct AtomHead {
    pub title: String,
    pub links: Vec<AtomLink>,
    /// The values of the feed's extension elements with the asked name, in
    /// the order of the text.
    pub extension: Vec<Option<String>>,
}

/// An Atom feed.
#[derive(Debug, Clone, PartialEq, Eq)]
pub struct AtomFeed {
    pub head: AtomHead,
    pub entries: Vec<AtomEntry>,
}

/// The namespace of the extension elements that a feed may carry for this
/// reader.
pub open spec fn extension_namespace() -> &'static str {
    "aw-rss"
}

/// The name of the extension element that declares an entity tag.
pub open spec fn etag_extension() -> &'static str {
    "etag"
}

/// What `rss::Channel::read_from` reads from `body`, with the extension
/// elements `name` of the namespace `namespace` looked up: the channel, or
/// the reader's error as text.
pub uninterp spec fn rss_document(body: Seq<char>, namespace: Seq<char>, name: Seq<char>) -> Result<
    RssChannel,
    String,
>;

/// What `atom_syndication::Feed::read_from` reads from `body` of the feed
/// itself, with the extension elements `name` of the namespace `namespace`
/// looked up: title, links and those elements, or the reader's error as text.
pub uninterp spec fn atom_document(body: Seq<char>, namespace: Seq<char>, name: Seq<char>) -> Result<
    AtomHead,
    String,
>;

/// The entries that `atom_syndication::Feed::read_from` reads from `body`,
/// in the order of the text; none where the reader fails.
pub uninterp spec fn atom_entries(body: Seq<char>) -> Seq<AtomEntry>;

/// The SHA-256 digest of the UTF-8 bytes of `text`, in upper-case
/// hexadecimal, as the `sha2` crate computes and formats it.
pub uninterp spec fn sha256_hex(text: Seq<char>) -> Seq<char>;

/// Reads `body` with `rss::Channel::read_from` and copies out the fields
/// that this library uses: title, link, `ttl`, the items with their title,
/// link, GUID, date and description, and the values of the extension
/// elements `name` in the namespace `namespace`. An error of the reader
/// comes back as its text. The reader descends once for every element that
/// is open, so only a text of bounded nesting is read.
#[verifier::external_body]
fn read_rss(body: &str, namespace: &str, name: &str) -> (r: Result<RssChannel, String>)
    requires
        nesting(body@) <= MAX_NESTING,
    ensures
        r == rss_document(body@, namespace@, name@),
{
    let c = rss::Channel::read_from(body.as_bytes()).map_err(|e| e.to_string())?;
    let found = c.extensions.get(namespace).and_then(|m| m.get(name));
    let extension = found.into_iter().flatten().map(|e| e.value.clone()).collect();
    let item = |i: rss::Item| RssItem {
        title: i.title,
        link: i.link,
        guid: i.guid.map(|g| g.value),
        pub_date: i.pub_date,
        description: i.description,
    };
    let items = c.items.into_iter().map(item).collect();
    Ok(RssChannel { title: c.title, link: c.link, ttl: c.ttl, extension, items })
}

/// Reads `body` with `atom_syndication::Feed::read_from` and copies out the
/// feed's title, its links with relation and address, and the values of the
/// extension elements `name` in the namespace `namespace`. An error of the
/// reader comes back as its text. The reader descends once for every
/// element that is open, so only a text of bounded nesting is read.
#[verifier::external_body]
fn read_atom(body: &str, namespace: &str, name: &str) -> (r: Result<AtomHead, String>)
    requires
        nesting(body@) <= MAX_NESTING,
    ensures
        r == atom_document(body@, namespace@, name@),
{
    let f = atom_syndication::Feed::read_from(body.as_bytes()).map_err(|e| e.to_string())?;
    let found = f.extensions.get(namespace).and_then(|m| m.get(name));
    let extension = found.into_iter().flatten().map(|e| e.value.clone()).collect();
    let links = f.links.into_iter().map(|l| AtomLink { rel: l.rel, href: l.href }).collect();
    Ok(AtomHead { title: f.title.value, links, extension })
}

/// Reads `body` with `atom_syndication::Feed::read_from` and copies out of
/// each entry its title, links, ID, content and times. A time is given as
/// chrono's `timestamp` and `timestamp_subsec_nanos`, the time of
/// publication also as `to_rfc3339` writes it. Where the reader fails there
/// are no entries. Only a text of bounded nesting is read.
#[verifier::external_body]
fn read_atom_entries(body: &str) -> (entries: Vec<AtomEntry>)
    requires
        nesting(body@) <= MAX_NESTING,
    ensures
        entries@ == atom_entries(body@),
{
    let f = atom_syndication::Feed::read_from(body.as_bytes()).unwrap_or_default();
    let at = |d: atom_syndication::FixedDateTime| UtcDateTime {
        secs: d.timestamp(),
        nanos: d.timestamp_subsec_nanos(),
    };
    let entry = |e: atom_syndication::Entry| AtomEntry {
        title: e.title.value,
        links: e.links.into_iter().map(|l| AtomLink { rel: l.rel, href: l.href }).collect(),
        id: e.id,
        published: e.published.map(|p| Moment { at: at(p), text: p.to_rfc3339() }),
        updated: at(e.updated),
        content: e.content.and_then(|c| c.value),
    };
    f.entries.into_iter().map(entry).collect()
}

/// Computes the SHA-256 digest of the bytes of `text` with `sha2::Sha256`
/// and writes it in upper-case hexadecimal.
#[verifier::external_body]
fn sha256_upper_hex(text: &str) -> (hex: String)
    ensures
        hex@ == sha256_hex(text@),
{
    format!("{:X}", <sha2::Sha256 as sha2::Digest>::digest(text))
}

/// Whether a sign stands at `at` before two digits that make 24 or more.
pub open spec fn wide_offset_at(s: Seq<char>, at: int) -> bool {
    &&& 0 <= at && at + 2 < s.len()
    &&& s[at] == '+' || s[at] == '-'
    &&& '0' <= s[at + 1] <= '9' && '0' <= s[at + 2] <= '9'
    &&& (s[at + 1] as u32 - 48) * 10 + (s[at + 2] as u32 - 48) >= 24
}

/// Whether a date may end in a zone offset of 24 hours or more: a sign and
/// two such digits stand five or six characters before its end, where an
/// offset of hours and minutes begins.
pub open spec fn has_wide_offset(s: Seq<char>) -> bool {
    wide_offset_at(s, s.len() - 6) || wide_offset_at(s, s.len() - 5)
}

fn wide_offset_in(v: &Vec<char>, before_end: usize) -> (wide: bool)
    ensures
        wide == wide_offset_at(v@, v.len() - before_end),
{
    if before_end > v.len() || before_end < 3 {
        return false;
    }
    let at = v.len() - before_end;
    let (sign, tens, ones) = (v[at], v[at + 1], v[at + 2]);
    (sign == '+' || sign == '-') && '0' <= tens && tens <= '9' && '0' <= ones && ones <= '9' && (
    tens as u32 - 48) * 10 + (ones as u32 - 48) >= 24
}

/// Whether the date `text` may end in a zone offset of 24 hours or more.
pub fn ends_in_wide_offset(text: &str) -> (wide: bool)
    ensures
        wide == has_wide_offset(text@),
{
    let v = chars_of(text);
    wide_offset_in(&v, 6) || wide_offset_in(&v, 5)
}

/// Reads a date in any of the forms that `dateparser::parse` accepts.
///
/// dateparser builds a zone offset of up to 99 hours with a chrono function
/// that panics from 24 hours on. It does so only for a date that ends in a
/// sign, two digits of hours and two of minutes, with or without a colon
/// between, so a date that may end so is not read.
///
/// dateparser tries a number of seconds first, which is all digits, and
/// RFC 2822 next: a date that `chrono::DateTime::parse_from_rfc2822` reads
/// is read as the same point in time. Of any other date nothing is
/// promised: one without a time zone is read in the machine's own.
#[verifier::external_body]
fn parse_date(text: &str) -> (stamp: Option<UtcDateTime>)
    requires
        !has_wide_offset(text@),
    ensures
        rfc2822_instant(text@) matches Some(at) ==> stamp == Some(at),
{
    dateparser::parse(text).ok().map(
        |d| UtcDateTime { secs: d.timestamp(), nanos: d.timestamp_subsec_nanos() },
    )
}

/// Whether `stamp` is what the date `date` of an item is read as: nothing
/// without a date and for a date that is not read, and the point in time
/// that RFC 2822 gives it for a date in that form.
pub open spec fn is_read_as(date: Option<String>, stamp: Option<UtcDateTime>) -> bool {
    match date {
        Some(text) => if has_wide_offset(text@) {
            stamp is None
        } else {
            rfc2822_instant(text@) matches Some(at) ==> stamp == Some(at)
        },
        None => stamp is None,
    }
}

/// Reads the date of an item, if it has one that is read.
pub fn item_date(date: &Option<String>) -> (stamp: Option<UtcDateTime>)
    ensures
        is_read_as(*date, stamp),
{
    match date {
        Some(text) => if ends_in_wide_offset(text.as_str()) {
            None
        } else {
            parse_date(text.as_str())
        },
        None => None,
    }
}

/// The entity tag that a feed declares: the value of the last of its
/// extension elements of that name.
pub open spec fn declared_etag(extension: Seq<Option<String>>) -> Option<Seq<char>> {
    if extension.len() > 0 {
        opt_view(extension.last())
    } else {
        None
    }
}

fn etag_of(extension: Vec<Option<String>>) -> (etag: Option<String>)
    ensures
        opt_view(etag) == declared_etag(extension@),
{
    let mut extension = extension;
    match extension.pop() {
        Some(value) => value,
        None => None,
    }
}

/// The view of an optional string, the empty text standing for none.
pub open spec fn or_empty(s: Option<String>) -> Seq<char> {
    match s {
        Some(s) => s@,
        None => Seq::empty(),
    }
}

/// The place of the link that is taken as the address: the first with the
/// relation `alternate`; where there is none, the first with `self`; where
/// there is none, the first without a relation; where there is none, the
/// first of all.
pub open spec fn chosen_link(links: Seq<AtomLink>) -> Option<int> {
    if first_with_rel(links, "alternate"@, 0) is Some {
        first_with_rel(links, "alternate"@, 0)
    } else if first_with_rel(links, "self"@, 0) is Some {
        first_with_rel(links, "self"@, 0)
    } else if first_with_rel(links, Seq::empty(), 0) is Some {
        first_with_rel(links, Seq::empty(), 0)
    } else if links.len() > 0 {
        Some(0)
    } else {
        None
    }
}

/// The place of the first link from `from` on whose relation is `rel`.
pub open spec fn first_with_rel(links: Seq<AtomLink>, rel: Seq<char>, from: int) -> Option<int>
    decreases links.len() - from,
{
    if from < 0 || from >= links.len() {
        None
    } else if links[from].rel@ == rel {
        Some(from)
    } else {
        first_with_rel(links, rel, from + 1)
    }
}

/// The address that a list of links gives.
pub open spec fn atom_url(links: Seq<AtomLink>) -> Option<Seq<char>> {
    match chosen_link(links) {
        Some(i) => Some(links[i].href@),
        None => None,
    }
}

fn position(links: &Vec<AtomLink>, rel: &str) -> (at: Option<usize>)
    ensures
        match at {
            Some(i) => first_with_rel(links@, rel@, 0) == Some(i as int) && i < links.len(),
            None => first_with_rel(links@, rel@, 0) is None,
        },
{
    let mut i: usize = 0;
    while i < links.len()
        invariant
            i <= links.len(),
            first_with_rel(links@, rel@, 0) == first_with_rel(links@, rel@, i as int),
        decreases links.len() - i,
    {
        if str_eq(links[i].rel.as_str(), rel) {
            return Some(i);
        }
        i += 1;
    }
    None
}

pub fn extract_atom_url(links: Vec<AtomLink>) -> (url: Option<String>)
    ensures
        opt_view(url) == atom_url(links@),
{
    let mut links = links;
    proof {
        reveal_strlit("");
        assert(""@ =~= Seq::<char>::empty());
    }
    let at = match position(&links, "alternate") {
        Some(i) => Some(i),
        None => match position(&links, "self") {
            Some(i) => Some(i),
            None => match position(&links, "") {
                Some(i) => Some(i),
                None => if links.len() > 0 {
                    Some(0)
                } else {
                    None
                },
            },
        },
    };
    match at {
        Some(i) => {
            let link = links.swap_remove(i);
            Some(link.href)
        },
        None => None,
    }
}

/// The number that a text of decimal digits names.
pub open spec fn digits_value(s: Seq<char>) -> nat
    decreases s.len(),
{
    if s.len() == 0 {
        0
    } else {
        digits_value(s.drop_last()) * 10 + ((s.last() as u32 - 48) as nat)
    }
}

pub open spec fn all_digits(s: Seq<char>) -> bool {
    forall|i: int| 0 <= i < s.len() ==> '0' <= #[trigger] s[i] <= '9'
}

/// The number that a text names if it is a number below 2^64: decimal
/// digits, at least one, after a plus sign or none.
pub open spec fn parsed_u64(s: Seq<char>) -> Option<u64> {
    let body = if s.len() > 0 && s[0] == '+' {
        s.skip(1)
    } else {
        s
    };
    if body.len() > 0 && all_digits(body) && digits_value(body) <= u64::MAX {
        Some(digits_value(body) as u64)
    } else {
        None
    }
}

/// A number grows with every digit that is written after it.
proof fn lemma_digits_grow(s: Seq<char>, n: int)
    requires
        0 <= n <= s.len(),
        all_digits(s),
    ensures
        digits_value(s.take(n)) <= digits_value(s),
    decreases s.len() - n,
{
    if n < s.len() {
        lemma_digits_grow(s, n + 1);
        assert(s.take(n + 1).drop_last() =~= s.take(n));
        assert(s.take(n + 1).last() == s[n]);
    } else {
        assert(s.take(n) =~= s);
    }
}

pub fn parse_u64(text: &str) -> (n: Option<u64>)
    ensures
        n == parsed_u64(text@),
{
    let chars = chars_of(text);
    let start: usize = if chars.len() > 0 && chars[0] == '+' {
        1
    } else {
        0
    };
    let ghost body = chars@.skip(start as int);
    if chars.len() == start {
        return None;
    }
    let mut value: u64 = 0;
    let mut i: usize = start;
    while i < chars.len()
        invariant
            start <= i <= chars.len(),
            chars@ == text@,
            start == if chars@.len() > 0 && chars@[0] == '+' {
                1int
            } else {
                0int
            },
            body == chars@.skip(start as int),
            chars@.skip(0) == chars@,
            all_digits(body.take(i - start)),
            value == digits_value(body.take(i - start)),
        decreases chars.len() - i,
    {
        let c = chars[i];
        assert(body[i - start] == c);
        if !('0' <= c && c <= '9') {
            return None;
        }
        let d: u64 = (c as u32 - 48) as u64;
        proof {
            assert(body.take(i - start + 1).drop_last() =~= body.take(i - start));
        }
        if value > (u64::MAX - d) / 10 {
            proof {
                let rest = body.take(i - start + 1);
                if all_digits(body) {
                    lemma_digits_grow(body, i - start + 1);
                }
            }
            return None;
        }
        value = value * 10 + d;
        i += 1;
    }
    assert(body.take(chars.len() - start) =~= body);
    Some(value)
}

/// The time to live that a channel declares: its `ttl`, where that is a
/// number, taken as minutes.
pub open spec fn declared_ttl(ttl: Option<String>) -> Option<nat> {
    match ttl {
        Some(t) => match parsed_u64(t@) {
            Some(minutes) => Some(secs(60 * (minutes as nat))),
            None => None,
        },
        None => None,
    }
}

fn ttl_of(ttl: &Option<String>) -> (d: Option<Duration>)
    ensures
        crate::fetcher::fetch::opt_nanos(d) == declared_ttl(*ttl),
{
    match ttl {
        Some(t) => match parse_u64(t.as_str()) {
            Some(minutes) => Some(Duration::from_nanos((minutes as u128) * 60_000_000_000)),
            None => None,
        },
        None => None,
    }
}

/// What tells an item of an RSS channel from the others: its GUID, where it
/// has one that is not empty; else its title and date in one, where it has
/// both; else the digest of its description, or of its link where it has no
/// description.
pub open spec fn rss_key(item: RssItem) -> Seq<char> {
    if item.guid is Some && item.guid->0@.len() > 0 {
        item.guid->0@
    } else if item.title is Some && item.pub_date is Some {
        item.title->0@ + item.pub_date->0@
    } else {
        match item.description {
            Some(d) => sha256_hex(d@),
            None => sha256_hex(or_empty(item.link)),
        }
    }
}

/// Whether `insert` is what is stored of the item `item` of the feed
/// `feed_id`, its date having been read as `stamp`, at the time `now`.
pub open spec fn is_rss_insert(
    insert: ParsedInsert,
    feed_id: i64,
    item: RssItem,
    stamp: Option<UtcDateTime>,
    now: UtcDateTime,
) -> bool {
    &&& insert.feed_id == feed_id
    &&& insert.key@ == rss_key(item)
    &&& insert.title@ == or_empty(item.title)
    &&& insert.url@ == or_empty(item.link)
    &&& insert.timestamp == match stamp {
        Some(t) => t,
        None => now,
    }
}

/// Whether `insert` is what is stored of `item`, its date being read as
/// `is_read_as` says: an item without a date, or with one that may end in
/// an offset of a day or more, has the time `now`; one with a date in the
/// form of RFC 2822 has the time that this names; any other has the time
/// that its date was read as, or `now` where it was not read.
pub open spec fn is_stored_rss(insert: ParsedInsert, feed_id: i64, item: RssItem, now: UtcDateTime) -> bool {
    exists|stamp: Option<UtcDateTime>|
        #[trigger] is_rss_insert(insert, feed_id, item, stamp, now) && is_read_as(
            item.pub_date,
            stamp,
        )
}

/// What is stored of an item of an RSS channel. `stamp` is the item's date
/// as it was read, if it has one that can be read; an item without takes
/// the time `now`.
pub fn insert_from_rss(feed: &Feed, item: RssItem, stamp: Option<UtcDateTime>, now: UtcDateTime) -> (insert:
    ParsedInsert)
    ensures
        is_rss_insert(insert, feed.id, item, stamp, now),
{
    let title = match &item.title {
        Some(t) => t.clone(),
        None => String::new(),
    };
    let url = match item.link {
        Some(l) => l,
        None => String::new(),
    };
    let guid = match item.guid {
        Some(g) => if g.as_str().unicode_len() > 0 {
            Some(g)
        } else {
            None
        },
        None => None,
    };
    let key = match guid {
        Some(g) => g,
        None => match (item.title, &item.pub_date) {
            (Some(t), Some(p)) => t.concat(p.as_str()),
            _ => match &item.description {
                Some(d) => sha256_upper_hex(d.as_str()),
                None => sha256_upper_hex(url.as_str()),
            },
        },
    };
    let timestamp = match stamp {
        Some(t) => t,
        None => now,
    };
    ParsedInsert { feed_id: feed.id, key, title, url, timestamp }
}

/// What tells an entry of an Atom feed from the others: its ID, where that
/// is not empty; else its title and time of publication in one, where it
/// has both; else the digest of its content, or of its address where it has
/// no content.
pub open spec fn atom_key(entry: AtomEntry) -> Seq<char> {
    if entry.id@.len() > 0 {
        entry.id@
    } else if entry.published is Some && entry.title@.len() > 0 {
        entry.title@ + entry.published->0.text@
    } else {
        match entry.content {
            Some(c) => sha256_hex(c@),
            None => sha256_hex(
                match atom_url(entry.links@) {
                    Some(u) => u,
                    None => Seq::empty(),
                },
            ),
        }
    }
}

/// Whether `insert` is what is stored of the entry `entry` of the feed
/// `feed_id`.
pub open spec fn is_atom_insert(insert: ParsedInsert, feed_id: i64, entry: AtomEntry) -> bool {
    &&& insert.feed_id == feed_id
    &&& insert.key@ == atom_key(entry)
    &&& insert.title@ == entry.title@
    &&& insert.url@ == match atom_url(entry.links@) {
        Some(u) => u,
        None => Seq::empty(),
    }
    &&& insert.timestamp == match entry.published {
        Some(p) => p.at,
        None => entry.updated,
    }
}

/// What is stored of an entry of an Atom feed. An entry is as old as its
/// publication, or as its last update where it names no publication.
pub fn insert_from_atom(feed: &Feed, entry: AtomEntry) -> (insert: ParsedInsert)
    ensures
        is_atom_insert(insert, feed.id, entry),
{
    let title = entry.title.clone();
    let url = match extract_atom_url(entry.links) {
        Some(u) => u,
        None => String::new(),
    };
    let timestamp = match &entry.published {
        Some(p) => p.at,
        None => entry.updated,
    };
    let key = if entry.id.as_str().unicode_len() > 0 {
        entry.id
    } else {
        let dated = match entry.published {
            Some(p) => if entry.title.as_str().unicode_len() > 0 {
                Some(entry.title.concat(p.text.as_str()))
            } else {
                None
            },
            None => None,
        };
        match dated {
            Some(k) => k,
            None => match &entry.content {
                Some(c) => sha256_upper_hex(c.as_str()),
                None => sha256_upper_hex(url.as_str()),
            },
        }
    };
    ParsedInsert { feed_id: feed.id, key, title, url, timestamp }
}

/// Whether `parsed` is what an RSS channel gives for the feed `feed`, at the
/// time `now`: the channel's title and link, the entity tag and the time to
/// live that it declares, and its items, the last first, each with its date
/// as it was read. Without a feed only the first three are taken.
pub open spec fn is_from_rss(parsed: ParsedFeed, channel: RssChannel, feed: Option<&Feed>, now: UtcDateTime) -> bool {
    &&& parsed.update.title@ == channel.title@
    &&& opt_view(parsed.update.link) == Some(channel.link@)
    &&& opt_view(parsed.extension_etag) == declared_etag(channel.extension@)
    &&& match feed {
        Some(f) => {
            &&& crate::fetcher::fetch::opt_nanos(parsed.ttl) == declared_ttl(channel.ttl)
            &&& parsed.items@.len() == channel.items@.len()
            &&& forall|k: int|
                0 <= k < parsed.items@.len() ==> is_stored_rss(
                    #[trigger] parsed.items@[k],
                    f.id,
                    channel.items@[channel.items@.len() - 1 - k],
                    now,
                )
        },
        None => parsed.ttl is None && parsed.items@.len() == 0,
    }
}

/// Whether `parsed` is what an Atom feed gives for the feed `feed`: the
/// feed's title and address, the entity tag that it declares, and its
/// entries, the last first. Without a feed only the first three are taken.
pub open spec fn is_from_atom(
    parsed: ParsedFeed,
    head: AtomHead,
    entries: Seq<AtomEntry>,
    feed: Option<&Feed>,
) -> bool {
    &&& parsed.update.title@ == head.title@
    &&& opt_view(parsed.update.link) == atom_url(head.links@)
    &&& opt_view(parsed.extension_etag) == declared_etag(head.extension@)
    &&& parsed.ttl is None
    &&& match feed {
        Some(f) => {
            &&& parsed.items@.len() == entries.len()
            &&& forall|k: int|
                0 <= k < parsed.items@.len() ==> is_atom_insert(
                    #[trigger] parsed.items@[k],
                    f.id,
                    entries[entries.len() - 1 - k],
                )
        },
        None => parsed.items@.len() == 0,
    }
}

/// What is stored of an RSS channel, at the time `now`.
pub fn from_rss(channel: RssChannel, feed: Option<&Feed>, now: UtcDateTime) -> (parsed: ParsedFeed)
    ensures
        is_from_rss(parsed, channel, feed, now),
{
    let ttl = ttl_of(&channel.ttl);
    let update = ParsedUpdate { title: channel.title, link: Some(channel.link) };
    let extension_etag = etag_of(channel.extension);
    let mut out = ParsedFeed { update, items: Vec::new(), ttl: None, extension_etag };
    let feed = match feed {
        Some(f) => f,
        None => {
            return out;
        },
    };
    let ghost all = channel.items@;
    let mut rest = channel.items;
    let mut items: Vec<ParsedInsert> = Vec::new();
    while rest.len() > 0
        invariant
            rest@ == all.take(rest.len() as int),
            rest.len() <= all.len(),
            items.len() == all.len() - rest.len(),
            forall|k: int|
                0 <= k < items.len() ==> is_stored_rss(
                    #[trigger] items@[k],
                    feed.id,
                    all[all.len() - 1 - k],
                    now,
                ),
        decreases rest.len(),
    {
        let item = rest.pop().unwrap();
        let stamp = item_date(&item.pub_date);
        let insert = insert_from_rss(feed, item, stamp, now);
        items.push(insert);
    }
    out.items = items;
    out.ttl = ttl;
    out
}

/// What is stored of an Atom feed.
pub fn from_atom(atom: AtomFeed, feed: Option<&Feed>) -> (parsed: ParsedFeed)
    ensures
        is_from_atom(parsed, atom.head, atom.entries@, feed),
{
    let update = ParsedUpdate { title: atom.head.title, link: extract_atom_url(atom.head.links) };
    let extension_etag = etag_of(atom.head.extension);
    let mut out = ParsedFeed { update, items: Vec::new(), ttl: None, extension_etag };
    let feed = match feed {
        Some(f) => f,
        None => {
            return out;
        },
    };
    let ghost all = atom.entries@;
    let mut rest = atom.entries;
    let mut items: Vec<ParsedInsert> = Vec::new();
    while rest.len() > 0
        invariant
            rest@ == all.take(rest.len() as int),
            rest.len() <= all.len(),
            items.len() == all.len() - rest.len(),
            forall|k: int|
                0 <= k < items.len() ==> is_atom_insert(
                    #[trigger] items@[k],
                    feed.id,
                    all[all.len() - 1 - k],
                ),
        decreases rest.len(),
    {
        let entry = rest.pop().unwrap();
        items.push(insert_from_atom(feed, entry));
    }
    out.items = items;
    out
}

/// Whether the text `body` is read at all: its elements are nested no more
/// deeply than a reader is trusted with.
pub open spec fn is_readable(body: Seq<char>) -> bool {
    nesting(body) <= MAX_NESTING
}

/// Whether `e` is the error that the text `body` gets as a text that is no
/// feed.
pub open spec fn is_no_feed(e: ParseError, body: Seq<char>) -> bool {
    e matches ParseError::NoFeed { rss, atom, body: kept } && kept@ == body && rss_document(
        body,
        extension_namespace()@,
        etag_extension()@,
    ) == Err::<RssChannel, String>(rss) && atom_document(
        body,
        extension_namespace()@,
        etag_extension()@,
    ) == Err::<AtomHead, String>(atom)
}

/// Whether `e` is the error that the text `body` gets as a text that is not
/// read.
pub open spec fn is_too_deep(e: ParseError, body: Seq<char>) -> bool {
    e matches ParseError::TooDeep { body: kept } && kept@ == body
}

/// Whether `r` is what the text `body` gives for `feed` at the time `now`.
///
/// A text that is nested too deeply is not read, and is an error. Any
/// other text gives what its reading as RSS gives where that succeeds, else
/// what its reading as Atom gives where that succeeds, else the two
/// readers' errors.
pub open spec fn is_parsed(r: Result<ParsedFeed, ParseError>, body: Seq<char>, feed: Option<&Feed>, now: UtcDateTime) -> bool {
    if !is_readable(body) {
        r matches Err(e) && is_too_deep(e, body)
    } else {
        match rss_document(body, extension_namespace()@, etag_extension()@) {
            Ok(channel) => r matches Ok(parsed) && is_from_rss(parsed, channel, feed, now),
            Err(_) => match atom_document(body, extension_namespace()@, etag_extension()@) {
                Ok(head) => r matches Ok(parsed) && is_from_atom(
                    parsed,
                    head,
                    match feed {
                        Some(_) => atom_entries(body),
                        None => Seq::empty(),
                    },
                    feed,
                ),
                Err(_) => r matches Err(e) && is_no_feed(e, body),
            },
        }
    }
}

/// Reads the text of the feed `feed`.
pub fn parse_feed(feed: &Feed, body: &str) -> (r: Result<ParsedFeed, ParseError>)
    ensures
        exists|now: UtcDateTime| is_parsed(r, body@, Some(feed), now),
{
    let now = UtcDateTime::now();
    parse(body, Some(feed), now)
}

/// Whether a text is a feed at all.
pub fn check_valid_feed(body: &str) -> (r: Result<(), ParseError>)
    ensures
        match r {
            Ok(_) => is_readable(body@) && (rss_document(
                body@,
                extension_namespace()@,
                etag_extension()@,
            ) is Ok || atom_document(body@, extension_namespace()@, etag_extension()@) is Ok),
            Err(e) => if is_readable(body@) {
                is_no_feed(e, body@)
            } else {
                is_too_deep(e, body@)
            },
        },
{
    match parse(body, None, UtcDateTime::new(0, 0)) {
        Ok(_) => Ok(()),
        Err(e) => Err(e),
    }
}

/// Reads the text `body` at the time `now`, for `feed` or for no feed.
pub fn parse(body: &str, feed: Option<&Feed>, now: UtcDateTime) -> (r: Result<ParsedFeed, ParseError>)
    ensures
        is_parsed(r, body@, feed, now),
{
    if nesting_of(body) > MAX_NESTING {
        return Err(ParseError::TooDeep { body: body.to_owned() });
    }
    let rss = match read_rss(body, "aw-rss", "etag") {
        Ok(channel) => {
            return Ok(from_rss(channel, feed, now));
        },
        Err(e) => e,
    };
    match read_atom(body, "aw-rss", "etag") {
        Ok(head) => {
            // The entries are read apart from the feed itself, and only where
            // they are stored: a text that is merely checked is read once.
            let entries = if feed.is_some() {
                read_atom_entries(body)
            } else {
                Vec::new()
            };
            Ok(from_atom(AtomFeed { head, entries }, feed))
        },
        Err(atom) => Err(ParseError::NoFeed { rss, atom, body: body.to_owned() }),
    }
}

} // verus!
