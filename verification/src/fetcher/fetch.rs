//! What a feed carries from one fetch to the next, and how the answer to a
//! fetch is read.

use vstd::prelude::*;
use crate::com::UtcDateTime;
use crate::text::{
    byte_len, byte_len_of, chars_of, eq_ignore_ascii_case, opt_view, range_eq_ignore_ascii_case,
    trim_bounds, trimmed,
};
use crate::time::{clamp_spec, secs, Duration};

verus! {

/// The pause between two fetches of a feed that names none: 30 minutes.
pub const DEFAULT_POLL_SECS: u64 = 1800;

/// The longest pause between two fetches, and the longest backoff: 6 hours.
pub const MAX_POLL_SECS: u64 = 21600;

/// The shortest pause between two fetches: 15 minutes.
pub const MIN_POLL_SECS: u64 = 900;

/// The status code of an answer that says the feed has not changed.
pub const NOT_MODIFIED: u16 = 304;

/// Output of a command at least this long, in bytes, is never read as the
/// notice that nothing has changed.
pub const NOTICE_LIMIT: usize = 100;

/// What a feed's last cycle left behind.
#[derive(Debug)]
pub enum Status {
    /// The cycle succeeded; these are the caching headers it ended with.
    Success(Headers),
    /// The cycle failed; this is the backoff that the feed was given.
    Failing(Duration),
}

/// What a fetch brought.
#[derive(Debug)]
pub enum Body {
    /// The text of the feed.
    Success(String),
    /// The notice that the feed has not changed since the last fetch.
    NotModified,
}

/// The caching metadata that a feed carries from one cycle to the next.
#[derive(Debug)]
pub struct Headers {
    /// How far in the future the `Expires` header lay when it was read.
    pub expires: Option<Duration>,
    /// The time to live that the feed itself declares.
    pub ttl: Option<Duration>,
    pub last_modified: Option<String>,
    pub etag: Option<String>,
}

/// The outcome of a fetch that reached the source.
#[derive(Debug)]
pub struct Response {
    pub body: Body,
    pub headers: Headers,
}

/// The header that makes a request conditional.
#[derive(Debug)]
pub enum Conditional {
    /// No validator is cached: the request is sent as it is.
    Unconditional,
    /// `If-None-Match`, with the cached entity tag.
    IfNoneMatch(String),
    /// `If-Modified-Since`, with the cached date.
    IfModifiedSince(String),
}

/// What an HTTP answer holds of interest: the status code, the three caching
/// headers where they are present and readable as text, and the body.
#[derive(Debug)]
pub struct HttpReply {
    pub status: u16,
    pub expires: Option<String>,
    pub last_modified: Option<String>,
    pub etag: Option<String>,
    pub body: String,
}

/// What a finished command left: whether it exited with success, and its two
/// output streams as text.
#[derive(Debug)]
pub struct ExecOutput {
    pub success: bool,
    pub stdout: String,
    pub stderr: String,
}

/// Why a fetch that reached the source counts as failed. The texts are kept
/// for the log.
#[derive(Debug)]
pub enum FetchError {
    /// The server answered with a status that is neither a success nor 304.
    Http { status: u16, body: String },
    /// The command exited with a failure.
    Command { stdout: String, stderr: String },
    /// The command line holds no word to run.
    InvalidCommand,
}

/// The mathematical content of `Headers`.
pub struct HeadersView {
    pub expires: Option<nat>,
    pub ttl: Option<nat>,
    pub last_modified: Option<Seq<char>>,
    pub etag: Option<Seq<char>>,
}

/// The mathematical content of `Body`.
pub enum BodyView {
    Success(Seq<char>),
    NotModified,
}

/// The mathematical content of `Conditional`.
pub enum ConditionalView {
    Unconditional,
    IfNoneMatch(Seq<char>),
    IfModifiedSince(Seq<char>),
}

/// The mathematical content of `Status`.
pub enum StatusView {
    Success(HeadersView),
    Failing(nat),
}

/// The mathematical content of `HttpReply`.
pub struct HttpReplyView {
    pub status: u16,
    pub expires: Option<Seq<char>>,
    pub last_modified: Option<Seq<char>>,
    pub etag: Option<Seq<char>>,
    pub body: Seq<char>,
}

/// The mathematical content of `FetchError`.
pub enum FetchErrorView {
    Http { status: u16, body: Seq<char> },
    Command { stdout: Seq<char>, stderr: Seq<char> },
    InvalidCommand,
}

pub open spec fn opt_nanos(d: Option<Duration>) -> Option<nat> {
    match d {
        Some(d) => Some(d@),
        None => None,
    }
}

impl View for Headers {
    type V = HeadersView;

    open spec fn view(&self) -> HeadersView {
        HeadersView {
            expires: opt_nanos(self.expires),
            ttl: opt_nanos(self.ttl),
            last_modified: opt_view(self.last_modified),
            etag: opt_view(self.etag),
        }
    }
}

impl View for Body {
    type V = BodyView;

    open spec fn view(&self) -> BodyView {
        match *self {
            Body::Success(s) => BodyView::Success(s@),
            Body::NotModified => BodyView::NotModified,
        }
    }
}

impl View for Conditional {
    type V = ConditionalView;

    open spec fn view(&self) -> ConditionalView {
        match *self {
            Conditional::Unconditional => ConditionalView::Unconditional,
            Conditional::IfNoneMatch(s) => ConditionalView::IfNoneMatch(s@),
            Conditional::IfModifiedSince(s) => ConditionalView::IfModifiedSince(s@),
        }
    }
}

impl View for Status {
    type V = StatusView;

    open spec fn view(&self) -> StatusView {
        match *self {
            Status::Success(h) => StatusView::Success(h@),
            Status::Failing(d) => StatusView::Failing(d@),
        }
    }
}

impl View for HttpReply {
    type V = HttpReplyView;

    open spec fn view(&self) -> HttpReplyView {
        HttpReplyView {
            status: self.status,
            expires: opt_view(self.expires),
            last_modified: opt_view(self.last_modified),
            etag: opt_view(self.etag),
            body: self.body@,
        }
    }
}

impl View for FetchError {
    type V = FetchErrorView;

    open spec fn view(&self) -> FetchErrorView {
        match *self {
            FetchError::Http { status, body } => FetchErrorView::Http { status, body: body@ },
            FetchError::Command { stdout, stderr } => FetchErrorView::Command {
                stdout: stdout@,
                stderr: stderr@,
            },
            FetchError::InvalidCommand => FetchErrorView::InvalidCommand,
        }
    }
}

/// The headers of a feed that has not been fetched yet: nothing is cached.
pub open spec fn no_headers() -> HeadersView {
    HeadersView { expires: None, ttl: None, last_modified: None, etag: None }
}

impl Default for Headers {
    fn default() -> (h: Headers)
        ensures
            h@ == no_headers(),
    {
        Headers { expires: None, ttl: None, last_modified: None, etag: None }
    }
}

/// The pause before the next fetch: the feed's own time to live, else the
/// distance to `Expires`, else the default; held within the bounds.
pub open spec fn poll_delay(h: HeadersView) -> nat {
    let wish = match h.ttl {
        Some(t) => t,
        None => match h.expires {
            Some(e) => e,
            None => secs(DEFAULT_POLL_SECS as nat),
        },
    };
    clamp_spec(wish, secs(MIN_POLL_SECS as nat), secs(MAX_POLL_SECS as nat))
}

/// The header that a request carries for the cached `h`: the entity tag
/// alone where there is one, else the date of last modification.
pub open spec fn conditional_for(h: HeadersView) -> ConditionalView {
    match h.etag {
        Some(e) => ConditionalView::IfNoneMatch(e),
        None => match h.last_modified {
            Some(l) => ConditionalView::IfModifiedSince(l),
            None => ConditionalView::Unconditional,
        },
    }
}

/// Whether a status code reports success: 200 to 299.
pub open spec fn is_success(status: u16) -> bool {
    200 <= status < 300
}

/// The point in time that `text` names when read as an RFC 2822 date, as
/// `chrono::DateTime::parse_from_rfc2822` reads it; `None` where it is no such
/// date.
pub uninterp spec fn rfc2822_instant(text: Seq<char>) -> Option<UtcDateTime>;

/// Reads a date of the form `Tue, 1 Jul 2003 10:52:37 +0200` with
/// `chrono::DateTime::parse_from_rfc2822`. The result is the point in time
/// that chrono reports for it (`timestamp` and `timestamp_subsec_nanos`), and
/// `None` where chrono rejects the text.
#[verifier::external_body]
fn parse_rfc2822(text: &str) -> (t: Option<UtcDateTime>)
    ensures
        t == rfc2822_instant(text@),
{
    chrono::DateTime::parse_from_rfc2822(text).ok().map(
        |d| UtcDateTime { secs: d.timestamp(), nanos: d.timestamp_subsec_nanos() },
    )
}

/// The distance between two points in time, in nanoseconds.
pub open spec fn distance(a: UtcDateTime, b: UtcDateTime) -> nat {
    if a.epoch_nanos() >= b.epoch_nanos() {
        (a.epoch_nanos() - b.epoch_nanos()) as nat
    } else {
        (b.epoch_nanos() - a.epoch_nanos()) as nat
    }
}

/// How far from `now` the date in an `Expires` header lies, if the header is
/// there and holds a date.
pub open spec fn fresh_expires(header: Option<Seq<char>>, now: UtcDateTime) -> Option<nat> {
    match header {
        Some(text) => match rfc2822_instant(text) {
            Some(at) => Some(distance(at, now)),
            None => None,
        },
        None => None,
    }
}

/// A `Last-Modified` header as it is cached: kept only if it holds a date.
pub open spec fn valid_last_modified(header: Option<Seq<char>>) -> Option<Seq<char>> {
    match header {
        Some(text) => if rfc2822_instant(text) is Some {
            Some(text)
        } else {
            None
        },
        None => None,
    }
}

/// An `ETag` header as it is cached: kept only if it is not empty.
pub open spec fn valid_etag(header: Option<Seq<char>>) -> Option<Seq<char>> {
    match header {
        Some(text) => if text.len() > 0 {
            Some(text)
        } else {
            None
        },
        None => None,
    }
}

/// The cached headers after the answer `reply`, read at `now`.
///
/// A date in `Expires` is taken from any answer. The validators are taken
/// from a successful answer only, and then replace what was cached even where
/// the answer has none: not from a 304, not from a failure.
pub open spec fn merged(h: HeadersView, reply: HttpReplyView, now: UtcDateTime) -> HeadersView {
    let expires = match fresh_expires(reply.expires, now) {
        Some(d) => Some(d),
        None => h.expires,
    };
    if is_success(reply.status) {
        HeadersView {
            expires,
            ttl: h.ttl,
            last_modified: valid_last_modified(reply.last_modified),
            etag: valid_etag(reply.etag),
        }
    } else {
        HeadersView { expires, ttl: h.ttl, last_modified: h.last_modified, etag: h.etag }
    }
}

/// How an HTTP answer is read, with the headers `h` cached before it.
pub open spec fn http_outcome(h: HeadersView, reply: HttpReplyView, now: UtcDateTime) -> Result<
    (BodyView, HeadersView),
    FetchErrorView,
> {
    if reply.status == NOT_MODIFIED {
        Ok((BodyView::NotModified, merged(h, reply, now)))
    } else if is_success(reply.status) {
        Ok((BodyView::Success(reply.body), merged(h, reply, now)))
    } else {
        Err(FetchErrorView::Http { status: reply.status, body: reply.body })
    }
}

/// Whether the output of a command that succeeded is the notice that nothing
/// has changed: under 100 bytes, and `not modified` in any case once the
/// white space at its ends is taken off.
pub open spec fn is_unchanged_notice(stdout: Seq<char>) -> bool {
    byte_len(stdout) < NOTICE_LIMIT && eq_ignore_ascii_case(trimmed(stdout), "not modified"@)
}

/// How the output of a finished command is read. The cached headers are
/// handed on as they are: a command sends no headers.
pub open spec fn exec_outcome(stdout: Seq<char>, stderr: Seq<char>, success: bool) -> Result<
    BodyView,
    FetchErrorView,
> {
    if !success {
        Err(FetchErrorView::Command { stdout, stderr })
    } else if is_unchanged_notice(stdout) {
        Ok(BodyView::NotModified)
    } else {
        Ok(BodyView::Success(stdout))
    }
}

impl Status {
    /// The backoff that the feed was last given, if its last cycle failed.
    pub fn failing_timeout(&self) -> (t: Option<Duration>)
        ensures
            t == match *self {
                Status::Success(_) => None,
                Status::Failing(d) => Some(d),
            },
    {
        match self {
            Self::Success(_) => None,
            Self::Failing(dur) => Some(*dur),
        }
    }

    /// Takes the cached headers out, leaving none cached. A feed whose last
    /// cycle failed has none, and stays as it is.
    pub fn take_headers(&mut self) -> (h: Headers)
        ensures
            h@ == match old(self)@ {
                StatusView::Success(cached) => cached,
                StatusView::Failing(_) => no_headers(),
            },
            final(self)@ == match old(self)@ {
                StatusView::Success(_) => StatusView::Success(no_headers()),
                StatusView::Failing(d) => StatusView::Failing(d),
            },
    {
        let mut taken = Status::Success(Headers::default());
        core::mem::swap(self, &mut taken);
        match taken {
            Status::Success(h) => h,
            Status::Failing(d) => {
                *self = Status::Failing(d);
                Headers::default()
            },
        }
    }
}

impl Headers {
    /// Takes in the caching headers of `reply`, read now.
    ///
    /// The result is `merged` for the time at which the call was made, which
    /// no caller can name: `merge_at` is the same step with the time given.
    pub fn merge_from(&mut self, reply: &HttpReply)
        ensures
            exists|now: UtcDateTime| final(self)@ == merged(old(self)@, reply@, now),
    {
        let now = UtcDateTime::now();
        self.merge_at(reply, now);
    }

    /// Takes in the caching headers of `reply`, read at `now`.
    pub fn merge_at(&mut self, reply: &HttpReply, now: UtcDateTime)
        ensures
            final(self)@ == merged(old(self)@, reply@, now),
    {
        if let Some(text) = &reply.expires {
            if let Some(at) = parse_rfc2822(text.as_str()) {
                self.expires = Some(time_between(at, now));
            }
        }
        if !status_is_success(reply.status) {
            return ;
        }
        self.last_modified = match &reply.last_modified {
            Some(text) => if parse_rfc2822(text.as_str()).is_some() {
                Some(text.clone())
            } else {
                None
            },
            None => None,
        };
        self.etag = match &reply.etag {
            Some(text) => if text.as_str().unicode_len() > 0 {
                Some(text.clone())
            } else {
                None
            },
            None => None,
        };
    }

    /// The header that makes the next request conditional. Of the two
    /// validators only one is ever sent, and the entity tag goes first.
    pub fn apply(&self) -> (c: Conditional)
        ensures
            c@ == conditional_for(self@),
    {
        if let Some(etag) = &self.etag {
            Conditional::IfNoneMatch(etag.clone())
        } else if let Some(last_modified) = &self.last_modified {
            Conditional::IfModifiedSince(last_modified.clone())
        } else {
            Conditional::Unconditional
        }
    }

    /// How long from now the next fetch is due.
    pub fn next_fetch(&self) -> (d: Duration)
        ensures
            d@ == poll_delay(self@),
            secs(MIN_POLL_SECS as nat) <= d@ <= secs(MAX_POLL_SECS as nat),
    {
        let wish = match self.ttl {
            Some(t) => t,
            None => match self.expires {
                Some(e) => e,
                None => Duration::from_secs(DEFAULT_POLL_SECS),
            },
        };
        wish.clamp(Duration::from_secs(MIN_POLL_SECS), Duration::from_secs(MAX_POLL_SECS))
    }

    /// Takes in what the feed's own text declares: its time to live and its
    /// entity tag replace the cached ones where the text has them.
    pub fn absorb(&mut self, ttl: Option<Duration>, extension_etag: Option<String>)
        ensures
            final(self)@ == declared(old(self)@, opt_nanos(ttl), opt_view(extension_etag)),
    {
        if ttl.is_some() {
            self.ttl = ttl;
        }
        if extension_etag.is_some() {
            self.etag = extension_etag;
        }
    }
}

/// The cached headers once the feed's own declarations are taken in.
pub open spec fn declared(h: HeadersView, ttl: Option<nat>, etag: Option<Seq<char>>) -> HeadersView {
    HeadersView {
        expires: h.expires,
        ttl: if ttl is Some { ttl } else { h.ttl },
        last_modified: h.last_modified,
        etag: if etag is Some { etag } else { h.etag },
    }
}

pub fn status_is_success(status: u16) -> (b: bool)
    ensures
        b == is_success(status),
{
    200 <= status && status < 300
}

/// The length of time between two points.
pub fn time_between(a: UtcDateTime, b: UtcDateTime) -> (d: Duration)
    ensures
        d@ == distance(a, b),
{
    let x: i128 = (a.secs as i128) * 1_000_000_000 + (a.nanos as i128);
    let y: i128 = (b.secs as i128) * 1_000_000_000 + (b.nanos as i128);
    if x >= y {
        Duration::from_nanos((x - y) as u128)
    } else {
        Duration::from_nanos((y - x) as u128)
    }
}

/// Reads an HTTP answer: takes in its headers and tells a changed feed, an
/// unchanged one and a failure apart.
pub fn read_http(cached: Headers, reply: HttpReply, now: UtcDateTime) -> (r: Result<
    Response,
    FetchError,
>)
    ensures
        match r {
            Ok(resp) => http_outcome(cached@, reply@, now) == Ok::<
                (BodyView, HeadersView),
                FetchErrorView,
            >((resp.body@, resp.headers@)),
            Err(e) => http_outcome(cached@, reply@, now) == Err::<
                (BodyView, HeadersView),
                FetchErrorView,
            >(e@),
        },
{
    let mut headers = cached;
    headers.merge_at(&reply, now);
    if reply.status == NOT_MODIFIED {
        Ok(Response { body: Body::NotModified, headers })
    } else if status_is_success(reply.status) {
        Ok(Response { body: Body::Success(reply.body), headers })
    } else {
        Err(FetchError::Http { status: reply.status, body: reply.body })
    }
}

/// Reads the output of a finished command.
pub fn read_exec(cached: Headers, output: ExecOutput) -> (r: Result<Response, FetchError>)
    ensures
        match r {
            Ok(resp) => resp.headers@ == cached@ && exec_outcome(
                output.stdout@,
                output.stderr@,
                output.success,
            ) == Ok::<BodyView, FetchErrorView>(resp.body@),
            Err(e) => exec_outcome(
                output.stdout@,
                output.stderr@,
                output.success,
            ) == Err::<BodyView, FetchErrorView>(e@),
        },
{
    if !output.success {
        return Err(FetchError::Command { stdout: output.stdout, stderr: output.stderr });
    }
    let short = byte_len_of(output.stdout.as_str()) < NOTICE_LIMIT;
    if short {
        let text = chars_of(output.stdout.as_str());
        let notice = chars_of("not modified");
        let (from, to) = trim_bounds(&text);
        if range_eq_ignore_ascii_case(&text, from, to, &notice) {
            return Ok(Response { body: Body::NotModified, headers: cached });
        }
    }
    Ok(Response { body: Body::Success(output.stdout), headers: cached })
}

/// What is left to do of a cycle once the source has answered.
#[derive(Debug)]
pub enum Plan {
    /// The text of the feed is to be parsed and its content stored.
    Store { body: String, headers: Headers },
    /// The feed has not changed: nothing is parsed and nothing stored.
    Rest { headers: Headers },
}

/// Whether what a fetch brought is parsed and stored.
pub open spec fn is_stored(body: BodyView) -> bool {
    body is Success
}

impl Response {
    /// Whether the answer carries content to store. A feed that has not
    /// changed is not parsed, and nothing of it is written.
    pub fn plan(self) -> (p: Plan)
        ensures
            p is Store == is_stored(self.body@),
            match p {
                Plan::Store { body, headers } => self.body@ == BodyView::Success(body@) && headers@
                    == self.headers@,
                Plan::Rest { headers } => self.body@ == BodyView::NotModified && headers@
                    == self.headers@,
            },
    {
        match self.body {
            Body::Success(body) => Plan::Store { body, headers: self.headers },
            Body::NotModified => Plan::Rest { headers: self.headers },
        }
    }
}

/// An answer that the feed has not changed leaves nothing to store and keeps
/// the cached validators and time to live, yet a date in its `Expires`
/// header is taken in, and the next fetch is timed by it where the feed
/// declares no time to live.
pub proof fn lemma_not_modified(h: HeadersView, reply: HttpReplyView, now: UtcDateTime)
    requires
        reply.status == NOT_MODIFIED,
    ensures
        http_outcome(h, reply, now) == Ok::<(BodyView, HeadersView), FetchErrorView>(
            (BodyView::NotModified, merged(h, reply, now)),
        ),
        !is_stored(BodyView::NotModified),
        merged(h, reply, now).etag == h.etag,
        merged(h, reply, now).last_modified == h.last_modified,
        merged(h, reply, now).ttl == h.ttl,
        fresh_expires(reply.expires, now) matches Some(d) ==> merged(h, reply, now).expires == Some(
            d,
        ) && (h.ttl is None ==> poll_delay(merged(h, reply, now)) == clamp_spec(
            d,
            secs(MIN_POLL_SECS as nat),
            secs(MAX_POLL_SECS as nat),
        )),
        fresh_expires(reply.expires, now) is None ==> merged(h, reply, now) == h,
{
}

/// A failed answer changes no cached validator.
pub proof fn lemma_validators_from_success_only(h: HeadersView, reply: HttpReplyView, now: UtcDateTime)
    requires
        !is_success(reply.status),
    ensures
        merged(h, reply, now).etag == h.etag,
        merged(h, reply, now).last_modified == h.last_modified,
{
}

/// The next fetch is never due in less than 15 minutes nor in more than 6
/// hours, and a time to live that the feed declares goes before `Expires`.
pub proof fn lemma_poll_delay(h: HeadersView)
    ensures
        secs(MIN_POLL_SECS as nat) <= poll_delay(h) <= secs(MAX_POLL_SECS as nat),
        h.ttl matches Some(t) ==> poll_delay(h) == clamp_spec(
            t,
            secs(MIN_POLL_SECS as nat),
            secs(MAX_POLL_SECS as nat),
        ),
        h.ttl is None && h.expires is None ==> poll_delay(h) == secs(DEFAULT_POLL_SECS as nat),
{
}

} // verus!
