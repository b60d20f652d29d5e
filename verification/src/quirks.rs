//! Rewrites for sites whose feeds need them.

use vstd::prelude::*;
use vstd::string::StringExecFns;
use crate::com::{Feed, UtcDateTime};
use crate::links::{
    self, url_joined, url_parts, url_with_path, url_without_fragment, url_without_query, LONGEST,
};
use crate::text::opt_view;
use crate::text::{
    before_first, chars_of, find, has_prefix, push_range, remove_first, starts_with_at,
    find_from, occurs_at, starts_with, str_eq, string_from, without_first,
};

verus! {

/// The address of the site that a feed belongs to, given the link `new_link`
/// that the feed's own text names.
///
/// - A feed of konachan.com names the site's front page: the address is the
///   feed's own URL without its first `/piclens` and, after that, its first
///   `/atom`.
/// - A story of royalroad.com: the link without its first `syndication/`.
/// - novelupdates.com names its icon: the address is the reading list.
/// - The two forums name their front page: the address is the feed's own
///   URL up to `/threadmarks.rss`.
/// - Any other link stands as it is.
pub open spec fn site_url_of(new_link: Seq<char>, feed_url: Seq<char>) -> Seq<char> {
    if has_prefix(new_link, "https://konachan.com/"@) {
        without_first(without_first(feed_url, "/piclens"@), "/atom"@)
    } else if has_prefix(new_link, "https://www.royalroad.com/fiction"@) {
        without_first(new_link, "syndication/"@)
    } else if new_link == "https://www.novelupdates.com/favicon.ico"@ {
        "https://www.novelupdates.com/reading-list/"@
    } else if new_link == "https://forums.spacebattles.com/"@ || new_link
        == "https://forums.sufficientvelocity.com/"@ {
        before_first(feed_url, "/threadmarks.rss"@)
    } else {
        new_link
    }
}

pub fn site_url(new_link: String, feed: &Feed) -> (url: String)
    ensures
        url@ == site_url_of(new_link@, feed.url@),
{
    let link = chars_of(new_link.as_str());
    assert(link@.skip(0) =~= link@);
    if starts_with_at(&link, 0, &chars_of("https://konachan.com/")) {
        let own = chars_of(feed.url.as_str());
        let first = remove_first(&own, &chars_of("/piclens"));
        let second = remove_first(&first, &chars_of("/atom"));
        string_from(&second)
    } else if starts_with_at(&link, 0, &chars_of("https://www.royalroad.com/fiction")) {
        let rest = remove_first(&link, &chars_of("syndication/"));
        string_from(&rest)
    } else if str_eq(new_link.as_str(), "https://www.novelupdates.com/favicon.ico") {
        "https://www.novelupdates.com/reading-list/".to_owned()
    } else if str_eq(new_link.as_str(), "https://forums.spacebattles.com/") || str_eq(
        new_link.as_str(),
        "https://forums.sufficientvelocity.com/",
    ) {
        let own = chars_of(feed.url.as_str());
        match find(&own, &chars_of("/threadmarks.rss"), 0) {
            Some(at) => {
                let mut head: Vec<char> = Vec::new();
                push_range(&mut head, &own, 0, at);
                string_from(&head)
            },
            None => string_from(&own),
        }
    } else {
        new_link
    }
}

/// Whether a host is one of the two forums.
pub open spec fn is_forum(host: Option<Seq<char>>) -> bool {
    host == Some("forums.spacebattles.com"@) || host == Some("forums.sufficientvelocity.com"@)
}

/// The link to a post of a forum's thread without the page that the post
/// stands on: `/page-1257#post-103747651` becomes `/post-103747651`. A link
/// of another shape stands as it is.
pub open spec fn post_link(item: Seq<char>) -> Seq<char> {
    match find_from(item, "/page-"@, 0) {
        Some(page) => {
            let rest = item.skip(page + "/page-"@.len());
            match find_from(rest, "#post-"@, 0) {
                Some(post) => item.subrange(0, page) + "/post-"@ + rest.skip(
                    post + "#post-"@.len(),
                ),
                None => item,
            }
        },
        None => item,
    }
}

/// The URL `site` cut down to its scheme and host: without path, query and
/// fragment. A URL too long for that has no such form.
pub open spec fn origin_of(site: Seq<char>) -> Option<Seq<char>> {
    if site.len() <= LONGEST {
        match url_with_path(site, Seq::empty()) {
            Some(a) => match url_without_query(a) {
                Some(b) => url_without_fragment(b),
                None => None,
            },
            None => None,
        }
    } else {
        None
    }
}

/// The link `item` resolved against the origin of `site`, and without its
/// query where `forum` holds; `None` where it cannot be resolved.
pub open spec fn resolved(site: Seq<char>, item: Seq<char>, forum: bool) -> Option<Seq<char>> {
    match origin_of(site) {
        Some(origin) => match url_joined(origin, item) {
            Some(url) => if forum {
                url_without_query(url)
            } else {
                Some(url)
            },
            None => None,
        },
        None => None,
    }
}

/// The address of an item, given the link `item` that the feed names for it
/// and the address `site` of the feed's site.
///
/// A link that does not begin with `/` stands as it is. One that does is
/// taken as a path on the site: it is resolved against the site's address,
/// if that is a URL with the scheme `http` or `https`. On the two forums
/// the page is taken out of a link to a post, and the query off the result.
/// A link that cannot be resolved stands as it is, for the forums after the
/// page was taken out.
pub open spec fn item_url_of(item: Seq<char>, site: Seq<char>) -> Seq<char> {
    if !has_prefix(item, "/"@) {
        item
    } else {
        match url_parts(site) {
            Some(parts) => if parts.scheme != "https"@ && parts.scheme != "http"@ {
                item
            } else {
                let forum = is_forum(parts.host);
                let link = if forum {
                    post_link(item)
                } else {
                    item
                };
                match resolved(parts.text, link, forum) {
                    Some(url) => url,
                    None => link,
                }
            },
            None => item,
        }
    }
}

fn post_link_of(item: String) -> (link: String)
    ensures
        link@ == post_link(item@),
{
    let chars = chars_of(item.as_str());
    let page_mark = chars_of("/page-");
    let post_mark = chars_of("#post-");
    match find(&chars, &page_mark, 0) {
        Some(page) => {
            assert(page + page_mark.len() <= chars.len());
            let mut rest: Vec<char> = Vec::new();
            push_range(&mut rest, &chars, page + page_mark.len(), chars.len());
            match find(&rest, &post_mark, 0) {
                Some(post) => {
                    let infix = chars_of("/post-");
                    let mut link: Vec<char> = Vec::new();
                    push_range(&mut link, &chars, 0, page);
                    push_range(&mut link, &infix, 0, infix.len());
                    push_range(&mut link, &rest, post + post_mark.len(), rest.len());
                    string_from(&link)
                },
                None => item,
            }
        },
        None => item,
    }
}

fn resolve(site: &str, item: &str, forum: bool) -> (url: Option<String>)
    ensures
        opt_view(url) == resolved(site@, item@, forum),
{
    proof {
        reveal_strlit("");
        assert(""@ =~= Seq::<char>::empty());
    }
    if site.unicode_len() > LONGEST {
        return None;
    }
    let a = match links::with_path(site, "") {
        Some(a) => a,
        None => {
            return None;
        },
    };
    let b = match links::without_query(a.as_str()) {
        Some(b) => b,
        None => {
            return None;
        },
    };
    let origin = match links::without_fragment(b.as_str()) {
        Some(o) => o,
        None => {
            return None;
        },
    };
    match links::join(origin.as_str(), item) {
        Some(url) => if forum {
            links::without_query(url.as_str())
        } else {
            Some(url)
        },
        None => None,
    }
}

pub fn item_url(link: String, feed: &Feed) -> (url: String)
    ensures
        url@ == item_url_of(link@, feed.site_url@),
{
    if !starts_with(link.as_str(), "/") {
        return link;
    }
    let parts = match links::parse(feed.site_url.as_str()) {
        Some(parts) => parts,
        None => {
            return link;
        },
    };
    if !str_eq(parts.scheme.as_str(), "https") && !str_eq(parts.scheme.as_str(), "http") {
        return link;
    }
    let forum = match &parts.host {
        Some(h) => str_eq(h.as_str(), "forums.spacebattles.com") || str_eq(
            h.as_str(),
            "forums.sufficientvelocity.com",
        ),
        None => false,
    };
    let link = if forum {
        post_link_of(link)
    } else {
        link
    };
    match resolve(parts.text.as_str(), link.as_str(), forum) {
        Some(url) => url,
        None => link,
    }
}

/// The point in time `(secs, nanos)` written as RFC 3339 in UTC, as
/// `chrono::DateTime::to_rfc3339` writes it; `None` where chrono cannot hold
/// the point.
pub uninterp spec fn rfc3339_text(secs: int, nanos: int) -> Option<Seq<char>>;

/// Makes the point in time with `chrono::DateTime::from_timestamp` and writes
/// it with `DateTime::to_rfc3339`. The result is `None` where the seconds
/// are out of chrono's range or the nanoseconds are no valid count.
#[verifier::external_body]
pub(crate) fn to_rfc3339(at: UtcDateTime) -> (text: Option<String>)
    ensures
        opt_view(text) == rfc3339_text(at.secs as int, at.nanos as int),
{
    chrono::DateTime::from_timestamp(at.secs, at.nanos).map(|d| d.to_rfc3339())
}

/// Whether a feed's site is one of the two forums, going by its address.
pub open spec fn is_forum_site(site: Seq<char>) -> bool {
    has_prefix(site, "https://forums.spacebattles.com/"@) || has_prefix(
        site,
        "https://forums.sufficientvelocity.com/"@,
    )
}

/// What tells an item from the others of its feed, given the key `key` that
/// the feed names for it.
///
/// The forums use the links of posts as keys, so a key that begins with `/`
/// is treated as the item's link is. A feed of secure.runescape.com uses one
/// key for several items, so the item's time is added to it. Any other key
/// stands as it is.
pub open spec fn item_key_of(key: Seq<char>, site: Seq<char>, at: UtcDateTime) -> Seq<char> {
    if has_prefix(key, "/"@) && is_forum_site(site) {
        item_url_of(key, site)
    } else if has_prefix(site, "https://secure.runescape.com"@) {
        match rfc3339_text(at.secs as int, at.nanos as int) {
            Some(text) => key + text,
            None => key,
        }
    } else {
        key
    }
}

pub fn item_key(key: String, feed: &Feed, timestamp: UtcDateTime) -> (out: String)
    ensures
        out@ == item_key_of(key@, feed.site_url@, timestamp),
{
    let site = feed.site_url.as_str();
    if starts_with(key.as_str(), "/") && (starts_with(site, "https://forums.spacebattles.com/")
        || starts_with(site, "https://forums.sufficientvelocity.com/")) {
        return item_url(key, feed);
    }
    if starts_with(site, "https://secure.runescape.com") {
        return match to_rfc3339(timestamp) {
            Some(text) => key.concat(text.as_str()),
            None => key,
        };
    }
    key
}

} // verus!
