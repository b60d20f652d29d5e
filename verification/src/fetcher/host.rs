//! Hosts: the domains within which only one fetch runs at a time.
//!
//! Every feed belongs to one host, found from its source by `host_key`. The
//! registry holds one entry per key, made when the key is first met and kept
//! from then on. An entry admits one feed at a time and counts the feeds of
//! the host that are failing.

use vstd::prelude::*;
use crate::links::{self, url_parts};
use crate::text::{
    char_is_whitespace, chars_of, has_prefix, is_whitespace, opt_view, range_eq, starts_with_at,
    str_eq, string_of,
};

verus! {

/// How the feeds of a host are fetched.
#[derive(Debug, Clone, Copy, PartialEq, Eq, Structural)]
pub enum HostKind {
    /// By an HTTP request.
    Http,
    /// By running a command.
    Executable,
}

/// What a host's lock guards.
#[derive(Debug, Clone, Copy, PartialEq, Eq, Structural)]
pub struct HostData {
    /// Goes up by one each time a feed of the host starts failing and down by
    /// one, but not below zero, each time one succeeds. It makes the first
    /// backoff longer while many feeds of one host fail.
    pub failing_feeds: u64,
}

impl Default for HostData {
    fn default() -> (d: HostData)
        ensures
            d.failing_feeds == 0,
    {
        HostData { failing_feeds: 0 }
    }
}

/// One entry of the registry.
#[derive(Debug)]
pub struct Host {
    pub key: String,
    /// The kind of the feed that the entry was made for.
    pub kind: HostKind,
    /// The feed whose fetch is in flight, if one is.
    pub holder: Option<i64>,
    pub data: HostData,
}

/// The mathematical content of `Host`.
pub struct HostView {
    pub key: Seq<char>,
    pub kind: HostKind,
    pub holder: Option<i64>,
    pub failing_feeds: nat,
}

impl View for Host {
    type V = HostView;

    open spec fn view(&self) -> HostView {
        HostView {
            key: self.key@,
            kind: self.kind,
            holder: self.holder,
            failing_feeds: self.data.failing_feeds as nat,
        }
    }
}

/// Whether a source is a command line: it begins with the marker `!`.
pub open spec fn is_command(url: Seq<char>) -> bool {
    url.len() > 0 && url[0] == '!'
}

/// The kind of host that a source belongs to.
pub open spec fn kind_of(url: Seq<char>) -> HostKind {
    if is_command(url) {
        HostKind::Executable
    } else {
        HostKind::Http
    }
}

/// The first position from `from` on that holds white space; the length
/// where none does.
pub open spec fn word_end(s: Seq<char>, from: int) -> int
    decreases s.len() - from,
{
    if from < 0 || from >= s.len() {
        s.len() as int
    } else if is_whitespace(s[from]) {
        from
    } else {
        word_end(s, from + 1)
    }
}

/// The first position from `from` on that holds no white space; the length
/// where all do.
pub open spec fn word_start(s: Seq<char>, from: int) -> int
    decreases s.len() - from,
{
    if from < 0 || from >= s.len() {
        s.len() as int
    } else if !is_whitespace(s[from]) {
        from
    } else {
        word_start(s, from + 1)
    }
}

/// The launcher whose second word is part of the key.
pub open spec fn launcher() -> Seq<char> {
    "!rss-scrapers"@
}

/// The key of a command line: its first word without the marker. For the
/// launcher the key is the first word as it stands, a space and the second
/// word, where there is a second word: each of its scrapers is a host of its
/// own.
pub open spec fn command_key(url: Seq<char>) -> Seq<char> {
    let first_end = word_end(url, 0);
    let first = url.subrange(0, first_end);
    let second_start = word_start(url, first_end);
    if first == launcher() && second_start < url.len() {
        first + seq![' '] + url.subrange(second_start, word_end(url, second_start))
    } else {
        first.skip(1)
    }
}

/// The host of `url`; `None` where the text is no URL or the URL has no
/// host.
pub open spec fn url_host(url: Seq<char>) -> Option<Seq<char>> {
    match url_parts(url) {
        Some(parts) => parts.host,
        None => None,
    }
}

/// A host name without a leading `www.`.
pub open spec fn strip_www(host: Seq<char>) -> Seq<char> {
    if has_prefix(host, "www."@) {
        host.skip("www."@.len() as int)
    } else {
        host
    }
}

/// The key of a host as it was read from a URL: the host without a leading
/// `www.`, and the empty key where none was read.
pub open spec fn key_of_host(host: Option<Seq<char>>) -> Seq<char> {
    match host {
        Some(host) => strip_www(host),
        None => Seq::<char>::empty(),
    }
}

/// The key of a URL: that of its host.
pub open spec fn http_key(url: Seq<char>) -> Seq<char> {
    key_of_host(url_host(url))
}

/// The key of the host that a source belongs to.
pub open spec fn host_key_of(url: Seq<char>) -> Seq<char> {
    if is_command(url) {
        command_key(url)
    } else {
        http_key(url)
    }
}

fn find_word_end(v: &Vec<char>, from: usize) -> (end: usize)
    requires
        from <= v.len(),
    ensures
        from <= end <= v.len(),
        end == word_end(v@, from as int),
{
    let mut i: usize = from;
    while i < v.len() && !char_is_whitespace(v[i])
        invariant
            from <= i <= v.len(),
            word_end(v@, from as int) == word_end(v@, i as int),
        decreases v.len() - i,
    {
        i += 1;
    }
    i
}

fn find_word_start(v: &Vec<char>, from: usize) -> (start: usize)
    requires
        from <= v.len(),
    ensures
        from <= start <= v.len(),
        start == word_start(v@, from as int),
{
    let mut i: usize = from;
    while i < v.len() && char_is_whitespace(v[i])
        invariant
            from <= i <= v.len(),
            word_start(v@, from as int) == word_start(v@, i as int),
        decreases v.len() - i,
    {
        i += 1;
    }
    i
}

/// Whether `url` is a command line.
pub fn is_command_line(url: &str) -> (b: bool)
    ensures
        b == is_command(url@),
{
    url.unicode_len() > 0 && url.get_char(0) == '!'
}

/// The key of a host as it was read from a URL.
pub fn host_key_from(host: Option<String>) -> (key: String)
    ensures
        key@ == key_of_host(opt_view(host)),
{
    match host {
        Some(host) => {
            let h = chars_of(host.as_str());
            let www = chars_of("www.");
            assert(h@.skip(0) =~= h@);
            if starts_with_at(&h, 0, &www) {
                string_of(&h, www.len(), h.len())
            } else {
                host
            }
        },
        None => String::new(),
    }
}

/// The key of a command line.
pub fn command_key_from(line: &str) -> (key: String)
    requires
        is_command(line@),
    ensures
        key@ == command_key(line@),
{
    let chars = chars_of(line);
    assert(word_end(chars@, 0) == word_end(chars@, 1));
    let first_end = find_word_end(&chars, 1);
    let second_start = find_word_start(&chars, first_end);
    let name = chars_of("!rss-scrapers");
    if range_eq(&chars, 0, first_end, &name) && second_start < chars.len() {
        let second_end = find_word_end(&chars, second_start);
        let mut key = string_of(&chars, 0, first_end);
        key.push(' ');
        let mut i: usize = second_start;
        while i < second_end
            invariant
                second_start <= i <= second_end <= chars.len(),
                key@ == chars@.subrange(0, first_end as int) + seq![' '] + chars@.subrange(
                    second_start as int,
                    i as int,
                ),
            decreases second_end - i,
        {
            key.push(chars[i]);
            i += 1;
        }
        key
    } else {
        assert(chars@.subrange(0, first_end as int).skip(1) =~= chars@.subrange(
            1,
            first_end as int,
        ));
        string_of(&chars, 1, first_end)
    }
}

/// The key of the host that the source `url` belongs to.
pub fn host_key(url: &str) -> (key: String)
    ensures
        key@ == host_key_of(url@),
{
    if is_command_line(url) {
        command_key_from(url)
    } else {
        let host = match links::parse(url) {
            Some(parts) => parts.host,
            None => None,
        };
        host_key_from(host)
    }
}

/// Whether no two entries have the same key.
pub open spec fn distinct_keys(hosts: Seq<HostView>) -> bool {
    forall|i: int, j: int| 0 <= i < j < hosts.len() ==> hosts[i].key != hosts[j].key
}

/// Whether an entry of `hosts` has the key `key`.
pub open spec fn has_key(hosts: Seq<HostView>, key: Seq<char>) -> bool {
    exists|i: int| 0 <= i < hosts.len() && #[trigger] hosts[i].key == key
}

/// Whether the fetch of `feed` is in flight on the host with the key `key`.
pub open spec fn in_flight(hosts: Seq<HostView>, key: Seq<char>, feed: i64) -> bool {
    exists|i: int| 0 <= i < hosts.len() && #[trigger] hosts[i].key == key && hosts[i].holder == Some(feed)
}

/// The entry that a source gets when its key is met for the first time.
pub open spec fn fresh_host(url: Seq<char>) -> HostView {
    HostView { key: host_key_of(url), kind: kind_of(url), holder: None, failing_feeds: 0 }
}

/// The entry `host` while the fetch of `feed` is in flight.
pub open spec fn held_by(host: HostView, feed: i64) -> HostView {
    HostView { holder: Some(feed), ..host }
}

/// The entry `host` with no fetch in flight.
pub open spec fn idle(host: HostView) -> HostView {
    HostView { holder: None, ..host }
}

/// The entry `host` with the count of failing feeds set to `count`.
pub open spec fn counting(host: HostView, count: nat) -> HostView {
    HostView { failing_feeds: count, ..host }
}

/// The entries once `feed` holds none of them.
pub open spec fn without_holder(hosts: Seq<HostView>, feed: i64) -> Seq<HostView> {
    Seq::new(
        hosts.len(),
        |i: int|
            if hosts[i].holder == Some(feed) {
                idle(hosts[i])
            } else {
                hosts[i]
            },
    )
}

/// The views of the entries `hosts`, in their order.
pub open spec fn host_views(hosts: Seq<Host>) -> Seq<HostView> {
    Seq::new(hosts.len(), |i: int| hosts[i]@)
}

/// The hosts met so far, one entry for each key. An entry is never removed,
/// so the place of an entry stands for it from then on. A key is found by
/// comparing its characters.
#[derive(Debug)]
pub struct HostRegistry {
    hosts: Vec<Host>,
}

impl View for HostRegistry {
    type V = Seq<HostView>;

    closed spec fn view(&self) -> Seq<HostView> {
        host_views(self.hosts@)
    }
}

impl HostRegistry {
    /// One entry per key: this holds of every registry that there is, at
    /// any time.
    #[verifier::type_invariant]
    pub open spec fn wf(self) -> bool {
        distinct_keys(self@)
    }

    /// Takes the entries out, leaving none.
    fn take(&mut self) -> (hosts: Vec<Host>)
        ensures
            host_views(hosts@) == old(self)@,
            distinct_keys(host_views(hosts@)),
            final(self)@ == Seq::<HostView>::empty(),
    {
        proof {
            use_type_invariant(&*self);
        }
        let mut taken = HostRegistry { hosts: Vec::new() };
        core::mem::swap(self, &mut taken);
        assert(self@ =~= Seq::<HostView>::empty());
        let HostRegistry { hosts } = taken;
        hosts
    }

    pub fn new() -> (r: HostRegistry)
        ensures
            r@ == Seq::<HostView>::empty(),
            r.wf(),
    {
        HostRegistry { hosts: Vec::new() }
    }

    pub fn len(&self) -> (n: usize)
        ensures
            n == self@.len(),
            self.wf(),
    {
        proof {
            use_type_invariant(self);
        }
        self.hosts.len()
    }

    /// The place of the entry with the key `key`.
    pub fn find(&self, key: &str) -> (at: Option<usize>)
        ensures
            match at {
                Some(i) => i < self@.len() && self@[i as int].key == key@,
                None => !has_key(self@, key@),
            },
    {
        let mut i: usize = 0;
        while i < self.hosts.len()
            invariant
                i <= self.hosts.len(),
                forall|k: int| 0 <= k < i ==> (#[trigger] self@[k]).key != key@,
            decreases self.hosts.len() - i,
        {
            if str_eq(self.hosts[i].key.as_str(), key) {
                return Some(i);
            }
            i += 1;
        }
        None
    }

    /// The place of the host that the source `url` belongs to; the entry is
    /// made if the key is new. No other entry changes, and none moves.
    pub fn insert(&mut self, url: &str) -> (at: usize)
        ensures
            at < final(self)@.len(),
            final(self)@[at as int].key == host_key_of(url@),
            has_key(old(self)@, host_key_of(url@)) ==> final(self)@ == old(self)@,
            !has_key(old(self)@, host_key_of(url@)) ==> final(self)@ == old(self)@.push(
                fresh_host(url@),
            ) && at == old(self)@.len(),
            final(self).wf(),
    {
        let key = host_key(url);
        match self.find(key.as_str()) {
            Some(at) => {
                proof {
                    use_type_invariant(&*self);
                }
                at
            },
            None => {
                let kind = if is_command_line(url) {
                    HostKind::Executable
                } else {
                    HostKind::Http
                };
                let ghost before = self@;
                let mut hosts = self.take();
                hosts.push(Host { key, kind, holder: None, data: HostData::default() });
                assert(host_views(hosts@) =~= before.push(fresh_host(url@)));
                let at = hosts.len() - 1;
                *self = HostRegistry { hosts };
                at
            },
        }
    }

    pub fn key(&self, at: usize) -> (key: &str)
        requires
            at < self@.len(),
        ensures
            key@ == self@[at as int].key,
    {
        self.hosts[at].key.as_str()
    }

    pub fn kind(&self, at: usize) -> (kind: HostKind)
        requires
            at < self@.len(),
        ensures
            kind == self@[at as int].kind,
    {
        self.hosts[at].kind
    }

    /// The feed whose fetch is in flight on the host, if one is.
    pub fn holder(&self, at: usize) -> (holder: Option<i64>)
        requires
            at < self@.len(),
        ensures
            holder == self@[at as int].holder,
    {
        self.hosts[at].holder
    }

    pub fn failing_feeds(&self, at: usize) -> (count: u64)
        requires
            at < self@.len(),
        ensures
            count == self@[at as int].failing_feeds,
    {
        self.hosts[at].data.failing_feeds
    }

    /// Admits `feed` to the host if no fetch is in flight there.
    pub fn acquire(&mut self, at: usize, feed: i64) -> (granted: bool)
        requires
            at < old(self)@.len(),
        ensures
            granted == (old(self)@[at as int].holder is None),
            granted ==> final(self)@ == old(self)@.update(
                at as int,
                held_by(old(self)@[at as int], feed),
            ),
            !granted ==> final(self)@ == old(self)@,
            final(self).wf(),
    {
        if self.hosts[at].holder.is_some() {
            proof {
                use_type_invariant(&*self);
            }
            return false;
        }
        let ghost before = self@;
        let mut hosts = self.take();
        hosts[at].holder = Some(feed);
        assert(host_views(hosts@) =~= before.update(at as int, held_by(before[at as int], feed)));
        *self = HostRegistry { hosts };
        true
    }

    /// Ends the fetch of `feed` on the host, if it is the one in flight.
    pub fn release(&mut self, at: usize, feed: i64) -> (released: bool)
        requires
            at < old(self)@.len(),
        ensures
            released == (old(self)@[at as int].holder == Some(feed)),
            released ==> final(self)@ == old(self)@.update(at as int, idle(old(self)@[at as int])),
            !released ==> final(self)@ == old(self)@,
            final(self).wf(),
    {
        if self.hosts[at].holder != Some(feed) {
            proof {
                use_type_invariant(&*self);
            }
            return false;
        }
        let ghost before = self@;
        let mut hosts = self.take();
        hosts[at].holder = None;
        assert(host_views(hosts@) =~= before.update(at as int, idle(before[at as int])));
        *self = HostRegistry { hosts };
        true
    }

    /// Ends whatever fetch of `feed` is in flight, on any host: the feed's
    /// task is gone.
    pub fn release_all(&mut self, feed: i64)
        ensures
            final(self)@ == without_holder(old(self)@, feed),
            final(self).wf(),
    {
        let ghost before = self@;
        let mut hosts = self.take();
        let mut i: usize = 0;
        while i < hosts.len()
            invariant
                i <= hosts.len(),
                hosts.len() == before.len(),
                forall|k: int|
                    0 <= k < i ==> #[trigger] host_views(hosts@)[k] == without_holder(before, feed)[k],
                forall|k: int| i <= k < before.len() ==> #[trigger] host_views(hosts@)[k] == before[k],
            decreases hosts.len() - i,
        {
            let ghost current = host_views(hosts@);
            if hosts[i].holder == Some(feed) {
                hosts[i].holder = None;
                assert(host_views(hosts@) =~= current.update(i as int, idle(current[i as int])));
            }
            i += 1;
        }
        assert(host_views(hosts@) =~= without_holder(before, feed));
        *self = HostRegistry { hosts };
    }

    /// Sets the host's count of failing feeds.
    pub(crate) fn set_failing_feeds(&mut self, at: usize, count: u64)
        requires
            at < old(self)@.len(),
        ensures
            final(self)@ == old(self)@.update(
                at as int,
                counting(old(self)@[at as int], count as nat),
            ),
            final(self).wf(),
    {
        let ghost before = self@;
        let mut hosts = self.take();
        hosts[at].data.failing_feeds = count;
        assert(host_views(hosts@) =~= before.update(
            at as int,
            counting(before[at as int], count as nat),
        ));
        *self = HostRegistry { hosts };
    }
}

/// No two fetches are in flight on one host key at a time: whichever feeds
/// hold the key, they are one and the same.
pub proof fn lemma_one_in_flight(hosts: Seq<HostView>, key: Seq<char>, a: i64, b: i64)
    requires
        distinct_keys(hosts),
        in_flight(hosts, key, a),
        in_flight(hosts, key, b),
    ensures
        a == b,
{
    let i = choose|i: int| 0 <= i < hosts.len() && #[trigger] hosts[i].key == key && hosts[i].holder == Some(a);
    let j = choose|j: int| 0 <= j < hosts.len() && #[trigger] hosts[j].key == key && hosts[j].holder == Some(b);
    if i < j {
        assert(hosts[i].key != hosts[j].key);
    } else if j < i {
        assert(hosts[j].key != hosts[i].key);
    }
}

/// Admitting a feed to a free host puts its fetch in flight there, and no
/// other: until the host is free again, every fetch in flight on the host's
/// key is that feed's.
pub proof fn lemma_admission_is_exclusive(hosts: Seq<HostView>, at: int, feed: i64, other: i64)
    requires
        distinct_keys(hosts),
        0 <= at < hosts.len(),
        hosts[at].holder is None,
    ensures
        distinct_keys(hosts.update(at, held_by(hosts[at], feed))),
        in_flight(hosts.update(at, held_by(hosts[at], feed)), hosts[at].key, feed),
        in_flight(hosts.update(at, held_by(hosts[at], feed)), hosts[at].key, other) ==> other == feed,
{
    let after = hosts.update(at, held_by(hosts[at], feed));
    assert forall|i: int, j: int| 0 <= i < j < after.len() implies after[i].key != after[j].key by {
        assert(hosts[i].key != hosts[j].key);
    }
    assert(after[at].key == hosts[at].key && after[at].holder == Some(feed));
    if in_flight(after, hosts[at].key, other) {
        lemma_one_in_flight(after, hosts[at].key, feed, other);
    }
}

} // verus!
