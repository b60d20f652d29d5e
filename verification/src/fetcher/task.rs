//! The task of one feed: how a cycle starts, what a fetch leaves of it, and
//! how long the feed rests after a success and after a failure.

use vstd::prelude::*;
use super::fetch::{
    conditional_for, declared, exec_outcome, http_outcome, no_headers, opt_nanos, poll_delay,
    read_exec, read_http, Body, BodyView, Conditional, ConditionalView, ExecOutput, FetchError,
    FetchErrorView, Headers, HeadersView, HttpReply, HttpReplyView, Plan, Response, Status,
    StatusView, MAX_POLL_SECS,
};
use super::host::{
    counting, held_by, idle, is_command, is_command_line, kind_of, HostKind, HostRegistry,
    HostView,
};
use super::FeedFetcher;
use crate::com::feed::{Failing, ParsedUpdate};
use crate::com::item::ParsedInsert;
use crate::com::{Feed, Outcome, UtcDateTime};
use crate::parsing::{is_parsed, parse, ParseError, ParsedFeed};
use crate::text::{chars_of, opt_view, string_of, views};
use crate::time::{secs, Duration};

verus! {

/// How long a command may run before it is killed: 10 minutes.
pub const EXECUTABLE_TIMEOUT_SECS: u64 = 600;

/// The backoff after the first failure on a host with one failing feed.
pub const BASE_BACKOFF_SECS: u64 = 60;

/// What is sent to fetch a feed.
#[derive(Debug)]
pub enum Request {
    /// A GET of `url`, made conditional by `conditional`.
    Http { url: String, conditional: Conditional },
    /// A run of `program` with `args`.
    Command { program: String, args: Vec<String> },
}

/// The mathematical content of `Request`.
pub enum RequestView {
    Http { url: Seq<char>, conditional: ConditionalView },
    Command { program: Seq<char>, args: Seq<Seq<char>> },
}

impl View for Request {
    type V = RequestView;

    open spec fn view(&self) -> RequestView {
        match *self {
            Request::Http { url, conditional } => RequestView::Http {
                url: url@,
                conditional: conditional@,
            },
            Request::Command { program, args } => RequestView::Command {
                program: program@,
                args: views(args@),
            },
        }
    }
}

/// How a cycle starts.
#[derive(Debug)]
pub enum Begin {
    /// Another feed's fetch is in flight on the host: nothing is sent.
    Busy,
    /// The feed is admitted to its host, and this is to be sent.
    Go(Request),
    /// The feed's source cannot be fetched at all: the cycle has failed.
    Invalid(FetchError),
}

/// What a cycle has brought, once the answer is read through.
#[derive(Debug)]
pub enum Fetched {
    /// The feed has not changed: nothing is to be stored.
    Unchanged { headers: Headers },
    /// The feed's text was read: this is to be stored in one transaction.
    Changed { update: ParsedUpdate, items: Vec<ParsedInsert>, headers: Headers },
}

/// The rest of a task between two cycles.
#[derive(Debug, Clone, Copy, PartialEq, Eq, Structural)]
pub enum Wait {
    /// After a success: until the time has passed or the feed is rerun.
    Idle(Duration),
    /// After a failure: until the time has passed, the feed is rerun, or all
    /// failing feeds are.
    Backoff(Duration),
}

/// What may end a task's rest.
#[derive(Debug, Clone, Copy, PartialEq, Eq, Structural)]
pub enum Signal {
    /// The time of the rest has passed.
    Deadline,
    /// The feed was asked to run again.
    Rerun,
    /// All failing feeds were asked to run again.
    RerunFailing,
}

/// What a failed cycle asks for.
#[derive(Debug, Clone, Copy, PartialEq, Eq, Structural)]
pub struct Failure {
    /// The edit to make to the feed's row.
    pub failing: Failing,
    /// The rest before the next try.
    pub wait: Wait,
}

/// The words of a command line as `shlex::Shlex` splits it: the words that
/// the iterator yields before it ends.
pub uninterp spec fn shell_words(line: Seq<char>) -> Seq<Seq<char>>;

/// The arguments that hand a cached entity tag to a command.
pub open spec fn etag_args(etag: Option<Seq<char>>) -> Seq<Seq<char>> {
    match etag {
        Some(e) => seq!["--etag"@, e],
        None => Seq::empty(),
    }
}

/// The headers that a feed in the state `status` has cached.
pub open spec fn cached(status: StatusView) -> HeadersView {
    match status {
        StatusView::Success(h) => h,
        StatusView::Failing(_) => no_headers(),
    }
}

/// The run that the words of a command line ask for, with the entity tag
/// `etag` cached: the first word is the program, the others are its
/// arguments, and the tag follows them as `--etag` and the tag. A line
/// without a word asks for nothing that can be run.
pub open spec fn command_for(words: Seq<Seq<char>>, etag: Option<Seq<char>>) -> Result<
    RequestView,
    FetchErrorView,
> {
    if words.len() == 0 {
        Err(FetchErrorView::InvalidCommand)
    } else {
        Ok(RequestView::Command { program: words[0], args: words.skip(1) + etag_args(etag) })
    }
}

/// What is sent for the source `url` with the headers `h` cached.
///
/// A URL is fetched with the one conditional header that `h` calls for. A
/// command line is what follows the marker; it is split into words, the
/// first is the program, the others are its arguments, and a cached entity
/// tag follows them as `--etag` and the tag.
pub open spec fn request_for(url: Seq<char>, h: HeadersView) -> Result<RequestView, FetchErrorView> {
    if is_command(url) {
        command_for(shell_words(url.skip(1)), h.etag)
    } else {
        Ok(RequestView::Http { url, conditional: conditional_for(h) })
    }
}

/// The longest backoff, in nanoseconds.
pub open spec fn max_backoff() -> nat {
    secs(MAX_POLL_SECS as nat)
}

/// The backoff of a feed that starts to fail, on a host that with it has
/// `failing_feeds` failing feeds: a minute for each, and a minute at least.
pub open spec fn first_backoff(failing_feeds: nat) -> nat {
    if failing_feeds >= 1 {
        secs(failing_feeds * (BASE_BACKOFF_SECS as nat))
    } else {
        secs(BASE_BACKOFF_SECS as nat)
    }
}

/// The backoff of a feed that fails again: twice the last, up to the limit.
pub open spec fn next_backoff(previous: nat) -> nat {
    if 2 * previous <= max_backoff() {
        2 * previous
    } else {
        max_backoff()
    }
}

/// `x` plus one, held within `u64`.
pub open spec fn saturating_inc(x: nat) -> nat {
    if x < u64::MAX {
        x + 1
    } else {
        x
    }
}

/// `x` minus one, held at zero.
pub open spec fn saturating_dec(x: nat) -> nat {
    if x > 0 {
        (x - 1) as nat
    } else {
        x
    }
}

/// The entry `host` once `feed` no longer holds it.
pub open spec fn let_go(host: HostView, feed: i64) -> HostView {
    if host.holder == Some(feed) {
        idle(host)
    } else {
        host
    }
}

/// The state that taking the cached headers out leaves.
pub open spec fn taken(status: StatusView) -> StatusView {
    match status {
        StatusView::Success(_) => StatusView::Success(no_headers()),
        StatusView::Failing(d) => StatusView::Failing(d),
    }
}

/// What `fetch_http` does, for the time `now` at which the answer is read.
pub open spec fn fetched_http(
    before: FeedFetcher,
    after: FeedFetcher,
    hosts_before: Seq<HostView>,
    hosts_after: Seq<HostView>,
    reply: HttpReplyView,
    now: UtcDateTime,
    r: Result<Response, FetchError>,
) -> bool {
    &&& after.feed == before.feed
    &&& after.host == before.host
    &&& after.status@ == taken(before.status@)
    &&& hosts_after == hosts_before.update(
        before.host as int,
        let_go(hosts_before[before.host as int], before.feed.id),
    )
    &&& match r {
        Ok(resp) => http_outcome(cached(before.status@), reply, now) == Ok::<
            (BodyView, HeadersView),
            FetchErrorView,
        >((resp.body@, resp.headers@)),
        Err(e) => http_outcome(cached(before.status@), reply, now) == Err::<
            (BodyView, HeadersView),
            FetchErrorView,
        >(e@),
    }
}

/// What `fetch` and `fetch_at` do, for the time `now` of the reading.
pub open spec fn fetched(
    feed: Feed,
    response: Response,
    now: UtcDateTime,
    r: Result<Fetched, ParseError>,
) -> bool {
    match response.body {
        Body::NotModified => r matches Ok(Fetched::Unchanged { headers }) && headers@
            == response.headers@,
        Body::Success(body) => match r {
            Ok(Fetched::Changed { update, items, headers }) => exists|parsed: ParsedFeed| #[trigger]
                is_parsed(Ok(parsed), body@, Some(&feed), now) && update == parsed.update && items
                    == parsed.items && headers@ == declared(
                    response.headers@,
                    opt_nanos(parsed.ttl),
                    opt_view(parsed.extension_etag),
                ),
            Ok(Fetched::Unchanged { .. }) => false,
            Err(e) => is_parsed(Err(e), body@, Some(&feed), now),
        },
    }
}

/// A host's entry after a cycle of `feed` succeeded.
pub open spec fn succeeded_on(host: HostView, feed: i64) -> HostView {
    counting(let_go(host, feed), saturating_dec(host.failing_feeds))
}

/// A host's entry after a cycle of `feed` failed, the feed being in the
/// state `status` before.
pub open spec fn failed_on(host: HostView, feed: i64, status: StatusView) -> HostView {
    match status {
        StatusView::Success(_) => counting(let_go(host, feed), saturating_inc(host.failing_feeds)),
        StatusView::Failing(_) => let_go(host, feed),
    }
}

/// The backoff that a failure gives a feed in the state `status`, on a host
/// that counted `failing_feeds` failing feeds before.
pub open spec fn backoff_after(status: StatusView, failing_feeds: nat) -> nat {
    match status {
        StatusView::Success(_) => first_backoff(saturating_inc(failing_feeds)),
        StatusView::Failing(previous) => next_backoff(previous),
    }
}

/// What `fail` and `fail_at` do.
pub open spec fn failed(
    before: FeedFetcher,
    after: FeedFetcher,
    hosts_before: Seq<HostView>,
    hosts_after: Seq<HostView>,
    f: Failure,
) -> bool {
    let host = hosts_before[before.host as int];
    let backoff = backoff_after(before.status@, host.failing_feeds);
    &&& after.feed == before.feed
    &&& after.host == before.host
    &&& f.wait is Backoff
    &&& f.wait.length() == backoff
    &&& after.status@ == StatusView::Failing(
        if backoff <= max_backoff() {
            backoff
        } else {
            max_backoff()
        },
    )
    &&& hosts_after == hosts_before.update(
        before.host as int,
        failed_on(host, before.feed.id, before.status@),
    )
}

/// Splits a command line into words with `shlex::Shlex`, by the rules of a
/// POSIX shell. The result holds the words in the order in which the
/// iterator yields them.
#[verifier::external_body]
fn split_command(line: &str) -> (words: Vec<String>)
    ensures
        views(words@) == shell_words(line@),
{
    shlex::Shlex::new(line).collect()
}

fn clone_opt(s: &Option<String>) -> (c: Option<String>)
    ensures
        opt_view(c) == opt_view(*s),
{
    match s {
        Some(s) => Some(s.clone()),
        None => None,
    }
}

impl Wait {
    /// The length of the rest in nanoseconds.
    pub open spec fn length(self) -> nat {
        match self {
            Wait::Idle(d) => d@,
            Wait::Backoff(d) => d@,
        }
    }

    /// How long the rest lasts if nothing ends it before.
    pub fn duration(&self) -> (d: Duration)
        ensures
            d@ == self.length(),
    {
        match self {
            Wait::Idle(d) => *d,
            Wait::Backoff(d) => *d,
        }
    }

    /// Whether `signal` ends the rest. The call to all failing feeds reaches
    /// only those that rest after a failure.
    pub fn wakes(&self, signal: Signal) -> (woken: bool)
        ensures
            woken == (signal != Signal::RerunFailing || *self is Backoff),
    {
        match signal {
            Signal::Deadline => true,
            Signal::Rerun => true,
            Signal::RerunFailing => match self {
                Wait::Idle(_) => false,
                Wait::Backoff(_) => true,
            },
        }
    }
}

/// The run that the words `words` of a command line ask for, with the
/// entity tag `etag` cached.
pub fn command(words: Vec<String>, etag: Option<String>) -> (r: Result<Request, FetchError>)
    ensures
        match r {
            Ok(request) => command_for(views(words@), opt_view(etag)) == Ok::<
                RequestView,
                FetchErrorView,
            >(request@),
            Err(e) => command_for(views(words@), opt_view(etag)) == Err::<
                RequestView,
                FetchErrorView,
            >(e@),
        },
{
    let mut words = words;
    if words.len() == 0 {
        return Err(FetchError::InvalidCommand);
    }
    let ghost all = views(words@);
    let program = words.remove(0);
    assert(views(words@) =~= all.skip(1));
    if let Some(tag) = etag {
        let ghost before = views(words@);
        words.push("--etag".to_owned());
        words.push(tag);
        assert(views(words@) =~= before + seq!["--etag"@, tag@]);
    }
    Ok(Request::Command { program, args: words })
}

impl FeedFetcher {
    /// The task of a feed that has not been fetched yet.
    pub fn new(feed: Feed, host: usize) -> (f: FeedFetcher)
        ensures
            f.feed == feed,
            f.host == host,
            f.status@ == StatusView::Success(no_headers()),
    {
        FeedFetcher { feed, host, status: Status::Success(Headers::default()) }
    }

    /// How the feed is fetched, which its source decides.
    pub fn kind(&self) -> (k: HostKind)
        ensures
            k == kind_of(self.feed.url@),
    {
        if is_command_line(self.feed.url.as_str()) {
            HostKind::Executable
        } else {
            HostKind::Http
        }
    }

    /// Starts a cycle: admits the feed to its host and says what to send.
    ///
    /// Nothing is sent while another feed's fetch is in flight on the host.
    /// Where the source is a command line without a word, the host is left
    /// free and the cycle has failed.
    pub fn begin(&self, hosts: &mut HostRegistry) -> (b: Begin)
        requires
            self.host < old(hosts)@.len(),
        ensures
            final(hosts).wf(),
            match b {
                Begin::Busy => old(hosts)@[self.host as int].holder is Some && final(hosts)@ == old(hosts)@,
                Begin::Go(request) => old(hosts)@[self.host as int].holder is None && final(hosts)@
                    == old(hosts)@.update(
                    self.host as int,
                    held_by(old(hosts)@[self.host as int], self.feed.id),
                ) && request_for(self.feed.url@, cached(self.status@)) == Ok::<
                    RequestView,
                    FetchErrorView,
                >(request@),
                Begin::Invalid(e) => old(hosts)@[self.host as int].holder is None && final(hosts)@
                    == old(hosts)@ && request_for(self.feed.url@, cached(self.status@)) == Err::<
                    RequestView,
                    FetchErrorView,
                >(e@),
            },
    {
        proof {
            use_type_invariant(&*hosts);
        }
        if hosts.holder(self.host).is_some() {
            return Begin::Busy;
        }
        match self.request() {
            Ok(request) => {
                let granted = hosts.acquire(self.host, self.feed.id);
                Begin::Go(request)
            },
            Err(e) => Begin::Invalid(e),
        }
    }

    /// What is sent for the feed, with the headers that its last cycle left.
    pub fn request(&self) -> (r: Result<Request, FetchError>)
        ensures
            match r {
                Ok(request) => request_for(self.feed.url@, cached(self.status@)) == Ok::<
                    RequestView,
                    FetchErrorView,
                >(request@),
                Err(e) => request_for(self.feed.url@, cached(self.status@)) == Err::<
                    RequestView,
                    FetchErrorView,
                >(e@),
            },
    {
        let etag: Option<String> = match &self.status {
            Status::Success(h) => clone_opt(&h.etag),
            Status::Failing(_) => None,
        };
        if is_command_line(self.feed.url.as_str()) {
            let chars = chars_of(self.feed.url.as_str());
            let line = string_of(&chars, 1, chars.len());
            command(split_command(line.as_str()), etag)
        } else {
            let conditional = match &self.status {
                Status::Success(h) => h.apply(),
                Status::Failing(_) => Conditional::Unconditional,
            };
            Ok(Request::Http { url: self.feed.url.clone(), conditional })
        }
    }

    /// Takes the answer to an HTTP request: the host is free again, and the
    /// answer is read with the headers that the last cycle left.
    pub fn fetch_http(&mut self, hosts: &mut HostRegistry, reply: HttpReply) -> (r: Result<
        Response,
        FetchError,
    >)
        requires
            old(self).host < old(hosts)@.len(),
        ensures
            exists|now: UtcDateTime|
                fetched_http(*old(self), *final(self), old(hosts)@, final(hosts)@, reply@, now, r),
            final(hosts).wf(),
    {
        let now = UtcDateTime::now();
        self.fetch_http_at(hosts, reply, now)
    }

    /// `fetch_http` with the time at which the answer is read given.
    pub fn fetch_http_at(
        &mut self,
        hosts: &mut HostRegistry,
        reply: HttpReply,
        now: UtcDateTime,
    ) -> (r: Result<Response, FetchError>)
        requires
            old(self).host < old(hosts)@.len(),
        ensures
            fetched_http(*old(self), *final(self), old(hosts)@, final(hosts)@, reply@, now, r),
            final(hosts).wf(),
    {
        let ghost before = hosts@;
        hosts.release(self.host, self.feed.id);
        assert(hosts@ =~= before.update(
            self.host as int,
            let_go(before[self.host as int], self.feed.id),
        ));
        let headers = self.status.take_headers();
        read_http(headers, reply, now)
    }

    /// Takes the output of the feed's command: the host is free again, and
    /// the output is read.
    pub fn run_executable(&mut self, hosts: &mut HostRegistry, output: ExecOutput) -> (r: Result<
        Response,
        FetchError,
    >)
        requires
            old(self).host < old(hosts)@.len(),
        ensures
            final(self).feed == old(self).feed,
            final(self).host == old(self).host,
            final(self).status@ == taken(old(self).status@),
            final(hosts)@ == old(hosts)@.update(
                old(self).host as int,
                let_go(old(hosts)@[old(self).host as int], old(self).feed.id),
            ),
            final(hosts).wf(),
            match r {
                Ok(resp) => resp.headers@ == cached(old(self).status@) && exec_outcome(
                    output.stdout@,
                    output.stderr@,
                    output.success,
                ) == Ok::<BodyView, FetchErrorView>(resp.body@),
                Err(e) => exec_outcome(output.stdout@, output.stderr@, output.success) == Err::<
                    BodyView,
                    FetchErrorView,
                >(e@),
            },
    {
        hosts.release(self.host, self.feed.id);
        let headers = self.status.take_headers();
        read_exec(headers, output)
    }

    /// Reads an answer through, at the current time.
    pub fn fetch(&self, response: Response) -> (r: Result<Fetched, ParseError>)
        ensures
            exists|now: UtcDateTime| fetched(self.feed, response, now, r),
    {
        let now = UtcDateTime::now();
        self.fetch_at(response, now)
    }

    /// Reads an answer through, at the time `now`.
    ///
    /// Nothing is parsed of a feed that has not changed, and nothing is to
    /// be stored for it; its headers stand as the answer left them. The
    /// text of a changed feed is parsed, and what it declares of itself
    /// goes before the headers. A text that is no feed fails the cycle.
    pub fn fetch_at(&self, response: Response, now: UtcDateTime) -> (r: Result<Fetched, ParseError>)
        ensures
            fetched(self.feed, response, now, r),
    {
        match response.plan() {
            Plan::Rest { headers } => Ok(Fetched::Unchanged { headers }),
            Plan::Store { body, headers } => {
                let mut headers = headers;
                match parse(body.as_str(), Some(&self.feed), now) {
                    Ok(parsed) => {
                        let ParsedFeed { update, items, ttl, extension_etag } = parsed;
                        headers.absorb(ttl, extension_etag);
                        Ok(Fetched::Changed { update, items, headers })
                    },
                    Err(e) => Err(e),
                }
            },
        }
    }

    /// Ends a cycle that succeeded with the headers `headers`: they are
    /// cached, the host has one failing feed fewer, and the feed rests until
    /// its next fetch is due.
    pub fn succeed(&mut self, hosts: &mut HostRegistry, headers: Headers) -> (wait: Wait)
        requires
            old(self).host < old(hosts)@.len(),
        ensures
            final(self).feed == old(self).feed,
            final(self).host == old(self).host,
            final(self).status@ == StatusView::Success(headers@),
            wait is Idle,
            wait.length() == poll_delay(headers@),
            final(hosts)@ == old(hosts)@.update(
                old(self).host as int,
                succeeded_on(old(hosts)@[old(self).host as int], old(self).feed.id),
            ),
            final(hosts).wf(),
    {
        hosts.release(self.host, self.feed.id);
        let count = hosts.failing_feeds(self.host);
        hosts.set_failing_feeds(self.host, if count > 0 { count - 1 } else { 0 });
        let delay = headers.next_fetch();
        self.status = Status::Success(headers);
        Wait::Idle(delay)
    }

    /// Ends a cycle that failed, at the current time.
    pub fn fail(&mut self, hosts: &mut HostRegistry) -> (f: Failure)
        requires
            old(self).host < old(hosts)@.len(),
        ensures
            failed(*old(self), *final(self), old(hosts)@, final(hosts)@, f),
            final(hosts).wf(),
    {
        let now = UtcDateTime::now();
        self.fail_at(hosts, now)
    }

    /// Ends a cycle that failed at `now`.
    ///
    /// A feed that starts to fail is counted on its host and gets the first
    /// backoff; one that fails again gets twice its last, up to the limit.
    /// The host is free, whatever held it. The feed's row is to be marked as
    /// failing since `now`, which the store does only where no mark is set.
    pub fn fail_at(&mut self, hosts: &mut HostRegistry, now: UtcDateTime) -> (f: Failure)
        requires
            old(self).host < old(hosts)@.len(),
        ensures
            failed(*old(self), *final(self), old(hosts)@, final(hosts)@, f),
            f.failing.since == now,
            final(hosts).wf(),
    {
        let ghost before = hosts@;
        hosts.release(self.host, self.feed.id);
        let backoff = match self.status.failing_timeout() {
            Some(previous) => {
                assert(hosts@ =~= before.update(
                    self.host as int,
                    failed_on(before[self.host as int], self.feed.id, self.status@),
                ));
                double_backoff(previous)
            },
            None => {
                let count = hosts.failing_feeds(self.host);
                let count = if count < u64::MAX {
                    count + 1
                } else {
                    count
                };
                hosts.set_failing_feeds(self.host, count);
                assert(hosts@ =~= before.update(
                    self.host as int,
                    failed_on(before[self.host as int], self.feed.id, self.status@),
                ));
                starting_backoff(count)
            },
        };
        self.status = Status::Failing(backoff.min(Duration::from_secs(MAX_POLL_SECS)));
        Failure { failing: Failing { since: now }, wait: Wait::Backoff(backoff) }
    }

    /// Takes the feed's row as the store returned it after an edit.
    pub fn marked(&mut self, outcome: Outcome<Feed>)
        ensures
            final(self).feed == outcome.value(),
            final(self).host == old(self).host,
            final(self).status == old(self).status,
    {
        self.feed = outcome.take();
    }
}

fn double_backoff(previous: Duration) -> (d: Duration)
    ensures
        d@ == next_backoff(previous@),
{
    let limit = Duration::from_secs(MAX_POLL_SECS);
    if previous.as_nanos() <= limit.as_nanos() / 2 {
        Duration::from_nanos(previous.as_nanos() * 2)
    } else {
        limit
    }
}

fn starting_backoff(failing_feeds: u64) -> (d: Duration)
    ensures
        d@ == first_backoff(failing_feeds as nat),
{
    let minutes: u128 = if failing_feeds >= 1 {
        failing_feeds as u128
    } else {
        1
    };
    Duration::from_nanos(minutes * 60_000_000_000)
}

/// Two to the power of `n`.
pub open spec fn pow2(n: nat) -> nat
    decreases n,
{
    if n == 0 {
        1
    } else {
        2 * pow2((n - 1) as nat)
    }
}

/// The backoff of the failure that follows `n` others in a row, the first of
/// the row having got the backoff `first`.
pub open spec fn nth_backoff(first: nat, n: nat) -> nat
    decreases n,
{
    if n == 0 {
        first
    } else {
        next_backoff(nth_backoff(first, (n - 1) as nat))
    }
}

/// A feed that keeps failing, on a host on which it is the only failing
/// feed, waits 60 s, 120 s, 240 s and so on, each backoff twice the last,
/// until the backoff is 6 hours, which it then stays.
pub proof fn lemma_backoff_sequence(n: nat)
    ensures
        nth_backoff(first_backoff(1), n) == if 60 * pow2(n) <= MAX_POLL_SECS {
            secs(60 * pow2(n))
        } else {
            secs(MAX_POLL_SECS as nat)
        },
        pow2(n) >= 1,
    decreases n,
{
    if n > 0 {
        lemma_backoff_sequence((n - 1) as nat);
    }
}

/// From the second failure of a row on, no backoff is longer than 6 hours.
pub proof fn lemma_backoff_bounded(first: nat, n: nat)
    requires
        n >= 1,
    ensures
        nth_backoff(first, n) <= max_backoff(),
{
}

/// A failure after a failure gives the next backoff of the row, and the feed
/// is left with it: the state of a failing feed holds its last backoff.
pub proof fn lemma_backoff_continues(previous: nat, failing_feeds: nat)
    ensures
        backoff_after(StatusView::Failing(previous), failing_feeds) == nth_backoff(previous, 1),
        backoff_after(StatusView::Failing(previous), failing_feeds) <= max_backoff(),
{
    assert(nth_backoff(previous, 1) == next_backoff(nth_backoff(previous, 0)));
}

/// With an entity tag cached, `If-None-Match` is the header that is sent,
/// whatever else is cached; `If-Modified-Since` is sent only without a tag.
pub proof fn lemma_etag_preferred(h: HeadersView)
    ensures
        h.etag matches Some(e) ==> conditional_for(h) == ConditionalView::IfNoneMatch(e),
        conditional_for(h) is IfModifiedSince ==> h.etag is None,
        h.etag matches Some(e) ==> etag_args(h.etag) == seq!["--etag"@, e],
{
}

} // verus!
