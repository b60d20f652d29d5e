//! The request to add a feed.

use vstd::prelude::*;
use crate::com::{Feed, HttpError, BAD_REQUEST};
use crate::links::{self, url_parts, url_with_path, UrlParts, UrlPartsView, LONGEST};
use crate::text::{opt_view, str_eq, views};

verus! {

/// A feed to add.
#[derive(Debug, Clone, PartialEq, Eq)]
pub struct Request {
    pub url: String,
    pub user_title: String,
    /// Whether the URL is taken as it is, without a look at what it serves.
    pub force: bool,
}

/// The answer to a request to add a feed.
#[derive(Debug)]
pub enum Response {
    Success { feed: Feed },
}

/// The links to feeds in a page: those of `head` and `body` that are typed
/// as RSS or Atom.
pub open spec fn feed_selector() -> &'static str {
    "body > link[type='application/rss+xml'],body > link[type='application/atom+xml'],head > link[type='application/rss+xml'],head > link[type='application/atom+xml']"
}

/// The elements of the page `html` that match the CSS selector `selector`,
/// each given by its attribute `attr` where it has one, as the `scraper`
/// crate finds them; `None` where the selector is none.
pub uninterp spec fn selected_attrs(html: Seq<char>, selector: Seq<char>, attr: Seq<char>) -> Option<
    Seq<Option<Seq<char>>>,
>;

/// The views of optional strings.
pub open spec fn opt_views(attrs: Seq<Option<String>>) -> Seq<Option<Seq<char>>> {
    attrs.map_values(|a: Option<String>| opt_view(a))
}

/// Parses `selector` with `scraper::Selector::parse` and `html` with
/// `scraper::Html::parse_document`, and reads the attribute `attr` of each
/// element that `Html::select` yields, in that order. The result is `None`
/// where the selector does not parse.
#[verifier::external_body]
fn select_attrs(html: &str, selector: &str, attr: &str) -> (attrs: Option<Vec<Option<String>>>)
    ensures
        match attrs {
            Some(found) => selected_attrs(html@, selector@, attr@) == Some(opt_views(found@)),
            None => selected_attrs(html@, selector@, attr@) is None,
        },
{
    let sel = scraper::Selector::parse(selector).ok()?;
    let doc = scraper::Html::parse_document(html);
    Some(doc.select(&sel).map(|e| e.value().attr(attr).map(|a| a.to_string())).collect())
}

/// The attributes that are there, in their order.
pub open spec fn present(attrs: Seq<Option<Seq<char>>>) -> Seq<Seq<char>>
    decreases attrs.len(),
{
    if attrs.len() == 0 {
        Seq::empty()
    } else {
        match attrs.last() {
            Some(a) => present(attrs.drop_last()).push(a),
            None => present(attrs.drop_last()),
        }
    }
}

/// The addresses that the page `html` names as its feeds.
pub open spec fn feed_links_of(html: Seq<char>) -> Seq<Seq<char>> {
    match selected_attrs(html, feed_selector()@, "href"@) {
        Some(attrs) => present(attrs),
        None => Seq::empty(),
    }
}

/// The one feed that a page names: a page that names none, or more than
/// one, is refused.
pub open spec fn chosen_link(links: Seq<Seq<char>>) -> Result<Seq<char>, &'static str> {
    if links.len() == 0 {
        Err("Could not parse feed or find feed in HTML")
    } else if links.len() > 1 {
        Err("Found multiple feeds in HTML, TODO Candidates")
    } else {
        Ok(links[0])
    }
}

/// The one address among the attributes `attrs` of the links that a page
/// names as its feeds: the elements without the attribute are passed over,
/// and a page that then names no feed, or more than one, is refused.
pub fn choose_link(attrs: Vec<Option<String>>) -> (r: Result<String, HttpError>)
    ensures
        match r {
            Ok(link) => chosen_link(present(opt_views(attrs@))) == Ok::<Seq<char>, &'static str>(
                link@,
            ),
            Err(e) => e matches HttpError::Status(code, msg) && code == BAD_REQUEST && chosen_link(
                present(opt_views(attrs@)),
            ) == Err::<Seq<char>, &'static str>(msg),
        },
{
    let ghost all = opt_views(attrs@);
    let mut links: Vec<String> = Vec::new();
    let mut i: usize = 0;
    assert(all.take(0) =~= Seq::<Option<Seq<char>>>::empty());
    while i < attrs.len()
        invariant
            i <= attrs.len(),
            all == opt_views(attrs@),
            views(links@) == present(all.take(i as int)),
        decreases attrs.len() - i,
    {
        proof {
            assert(all.take(i + 1).drop_last() =~= all.take(i as int));
            assert(all.take(i + 1).last() == opt_view(attrs@[i as int]));
        }
        if let Some(a) = &attrs[i] {
            let ghost before = views(links@);
            links.push(a.clone());
            assert(views(links@) =~= before.push(a@));
        }
        i += 1;
    }
    assert(all.take(attrs.len() as int) =~= all);
    if links.len() == 0 {
        Err(HttpError::bad("Could not parse feed or find feed in HTML"))
    } else if links.len() > 1 {
        Err(HttpError::bad("Found multiple feeds in HTML, TODO Candidates"))
    } else {
        Ok(links.remove(0))
    }
}

/// The address of the feed that the page `html` names.
pub fn feed_link(html: &str) -> (r: Result<String, HttpError>)
    ensures
        match r {
            Ok(link) => chosen_link(feed_links_of(html@)) == Ok::<Seq<char>, &'static str>(link@),
            Err(e) => e matches HttpError::Status(code, msg) && code == BAD_REQUEST && chosen_link(
                feed_links_of(html@),
            ) == Err::<Seq<char>, &'static str>(msg),
        },
{
    let attrs = match select_attrs(
        html,
        "body > link[type='application/rss+xml'],body > link[type='application/atom+xml'],head > link[type='application/rss+xml'],head > link[type='application/atom+xml']",
        "href",
    ) {
        Some(attrs) => attrs,
        None => Vec::new(),
    };
    choose_link(attrs)
}

/// Whether a URL asks a picture board for its posts as a page, where the
/// board also serves them as a feed.
pub open spec fn is_board_posts(parts: UrlPartsView) -> bool {
    parts.path == "/post"@ && parts.domain && (parts.host == Some("yande.re"@) || parts.host
        == Some("konachan.com"@))
}

/// The URL as it is stored: the posts of a picture board are asked for as a
/// feed, and any other URL stands as the parser writes it. So does a URL too
/// long to be rewritten.
pub open spec fn rewritten(parts: UrlPartsView) -> Seq<char> {
    if is_board_posts(parts) && parts.text.len() <= LONGEST {
        match url_with_path(parts.text, "/post/atom"@) {
            Some(url) => url,
            None => parts.text,
        }
    } else {
        parts.text
    }
}

/// What `parse_url` makes of `url`: the text must be a URL, and its scheme
/// `http` or `https`.
pub open spec fn parsed_url(url: Seq<char>) -> Result<Seq<char>, &'static str> {
    match url_parts(url) {
        Some(parts) => if parts.scheme != "http"@ && parts.scheme != "https"@ {
            Err("URL scheme must be http or https")
        } else {
            Ok(rewritten(parts))
        },
        None => Err("Invalid URL"),
    }
}

pub fn parse_url(url: &str) -> (r: Result<String, HttpError>)
    ensures
        match r {
            Ok(out) => parsed_url(url@) == Ok::<Seq<char>, &'static str>(out@),
            Err(e) => e matches HttpError::Status(code, msg) && code == BAD_REQUEST && parsed_url(url@)
                == Err::<Seq<char>, &'static str>(msg),
        },
{
    let parts = match links::parse(url) {
        Some(parts) => parts,
        None => {
            return Err(HttpError::bad("Invalid URL"));
        },
    };
    if !str_eq(parts.scheme.as_str(), "http") && !str_eq(parts.scheme.as_str(), "https") {
        return Err(HttpError::bad("URL scheme must be http or https"));
    }
    Ok(unconditional_url_rewrites(parts))
}

pub fn unconditional_url_rewrites(parts: UrlParts) -> (url: String)
    ensures
        url@ == rewritten(parts@),
{
    let board = match &parts.host {
        Some(h) => str_eq(h.as_str(), "yande.re") || str_eq(h.as_str(), "konachan.com"),
        None => false,
    };
    if str_eq(parts.path.as_str(), "/post") && parts.domain && board
        && parts.text.as_str().unicode_len() <= LONGEST {
        proof {
            reveal_strlit("/post/atom");
        }
        match links::with_path(parts.text.as_str(), "/post/atom") {
            Some(url) => url,
            None => parts.text,
        }
    } else {
        parts.text
    }
}

} // verus!
