//! The fetch scheduler: which feeds have a running task, and what the
//! scheduler does when the store is polled or a message arrives.

use vstd::prelude::*;
use crate::com::{Action, Feed};
use crate::time::{secs, Duration};
use fetch::Status;
use host::{idle, without_holder, HostRegistry, HostView};

pub mod fetch;
pub mod host;
pub mod task;

verus! {

/// The time between two full reconciliations with the store: 5 minutes.
pub const POLL_SECS: u64 = 300;

/// The task of one feed: the feed's row as last read, the place of its host
/// in the registry, and what its last cycle left behind.
#[derive(Debug)]
pub struct FeedFetcher {
    pub feed: Feed,
    pub host: usize,
    pub status: Status,
}

/// A feed with a running task, and the handle by which the task is woken.
#[derive(Debug)]
pub struct ActiveFeed<H> {
    pub id: i64,
    pub rerun: H,
}

/// Whether no feed has two entries.
pub open spec fn distinct_ids<H>(entries: Seq<ActiveFeed<H>>) -> bool {
    forall|i: int, j: int| 0 <= i < j < entries.len() ==> entries[i].id != entries[j].id
}

/// Whether the feed `id` has an entry.
pub open spec fn is_active<H>(entries: Seq<ActiveFeed<H>>, id: i64) -> bool {
    exists|i: int| 0 <= i < entries.len() && #[trigger] entries[i].id == id
}

/// Whether a feed with the ID `id` is among `feeds`.
pub open spec fn is_listed(feeds: Seq<Feed>, id: i64) -> bool {
    exists|i: int| 0 <= i < feeds.len() && #[trigger] feeds[i].id == id
}

/// The test for an entry whose feed is among `feeds`.
pub open spec fn listed_in<H>(feeds: Seq<Feed>) -> spec_fn(ActiveFeed<H>) -> bool {
    |e: ActiveFeed<H>| is_listed(feeds, e.id)
}

/// The test for an entry whose feed is not among `feeds`.
pub open spec fn not_listed_in<H>(feeds: Seq<Feed>) -> spec_fn(ActiveFeed<H>) -> bool {
    |e: ActiveFeed<H>| !is_listed(feeds, e.id)
}

/// Whether the feed at `at` is one to start: it has no entry, and it is the
/// last in the list with its ID.
pub open spec fn is_fresh<H>(feeds: Seq<Feed>, entries: Seq<ActiveFeed<H>>, at: int) -> bool {
    &&& !is_active(entries, feeds[at].id)
    &&& forall|j: int| at < j < feeds.len() ==> (#[trigger] feeds[j]).id != feeds[at].id
}

/// The feeds to start among those from `from` on, the last first.
pub open spec fn fresh_from<H>(feeds: Seq<Feed>, entries: Seq<ActiveFeed<H>>, from: int) -> Seq<Feed>
    decreases feeds.len() - from,
{
    if from < 0 || from >= feeds.len() {
        Seq::empty()
    } else if is_fresh(feeds, entries, from) {
        fresh_from(feeds, entries, from + 1).push(feeds[from])
    } else {
        fresh_from(feeds, entries, from + 1)
    }
}

/// The feeds with a running task, one entry for each. The entries are kept
/// in the order in which the feeds were started, so that what a
/// reconciliation hands out has an order that can be stated.
#[derive(Debug)]
pub struct ActiveFeeds<H> {
    entries: Vec<ActiveFeed<H>>,
}

impl<H> View for ActiveFeeds<H> {
    type V = Seq<ActiveFeed<H>>;

    closed spec fn view(&self) -> Seq<ActiveFeed<H>> {
        self.entries@
    }
}

impl<H> ActiveFeeds<H> {
    /// At most one entry per feed: this holds of every set that there is,
    /// at any time.
    #[verifier::type_invariant]
    closed spec fn inv(self) -> bool {
        distinct_ids(self.entries@)
    }

    /// The set's invariant, as its view shows it: at most one entry per
    /// feed.
    pub open spec fn wf(self) -> bool {
        distinct_ids(self@)
    }

    /// Takes the entries out, leaving none.
    fn take(&mut self) -> (entries: Vec<ActiveFeed<H>>)
        ensures
            entries@ == old(self)@,
            distinct_ids(entries@),
            final(self)@ == Seq::<ActiveFeed<H>>::empty(),
    {
        proof {
            use_type_invariant(&*self);
        }
        let mut taken = ActiveFeeds { entries: Vec::new() };
        core::mem::swap(self, &mut taken);
        let ActiveFeeds { entries } = taken;
        entries
    }

    pub fn new() -> (a: ActiveFeeds<H>)
        ensures
            a@ == Seq::<ActiveFeed<H>>::empty(),
            a.wf(),
    {
        ActiveFeeds { entries: Vec::new() }
    }

    pub fn len(&self) -> (n: usize)
        ensures
            n == self@.len(),
            self.wf(),
    {
        proof {
            use_type_invariant(self);
        }
        self.entries.len()
    }

    /// The place of the entry of the feed `id`, which is its only one.
    pub fn position(&self, id: i64) -> (at: Option<usize>)
        ensures
            self.wf(),
            match at {
                Some(i) => i < self@.len() && self@[i as int].id == id && forall|k: int|
                    0 <= k < self@.len() && k != i ==> (#[trigger] self@[k]).id != id,
                None => !is_active(self@, id),
            },
    {
        proof {
            use_type_invariant(self);
        }
        let mut i: usize = 0;
        while i < self.entries.len()
            invariant
                i <= self.entries.len(),
                distinct_ids(self@),
                forall|k: int| 0 <= k < i ==> (#[trigger] self@[k]).id != id,
            decreases self.entries.len() - i,
        {
            if self.entries[i].id == id {
                assert forall|k: int| 0 <= k < self@.len() && k != i implies (#[trigger] self@[k]).id
                    != id by {
                    if k > i {
                        assert(self@[i as int].id != self@[k].id);
                    }
                }
                return Some(i);
            }
            i += 1;
        }
        None
    }

    pub fn contains_key(&self, id: i64) -> (b: bool)
        ensures
            b == is_active(self@, id),
            self.wf(),
    {
        self.position(id).is_some()
    }

    /// The handle of the feed `id`, if it has a task.
    pub fn get(&self, id: i64) -> (rerun: Option<&H>)
        ensures
            self.wf(),
            match rerun {
                Some(h) => exists|i: int| 0 <= i < self@.len() && #[trigger] self@[i].id == id && self@[i].rerun == *h,
                None => !is_active(self@, id),
            },
    {
        match self.position(id) {
            Some(i) => Some(&self.entries[i].rerun),
            None => None,
        }
    }

    /// Enters a feed that has no entry yet.
    pub fn insert(&mut self, id: i64, rerun: H)
        requires
            !is_active(old(self)@, id),
        ensures
            final(self)@ == old(self)@.push(ActiveFeed { id, rerun }),
            final(self).wf(),
    {
        let mut entries = self.take();
        entries.push(ActiveFeed { id, rerun });
        *self = ActiveFeeds { entries };
    }

    /// Takes the entry of the feed `id` out, if it has one.
    pub fn remove(&mut self, id: i64) -> (entry: Option<ActiveFeed<H>>)
        ensures
            match entry {
                Some(e) => exists|i: int| 0 <= i < old(self)@.len() && #[trigger] old(self)@[i] == e && e.id == id
                    && final(self)@ == old(self)@.remove(i),
                None => !is_active(old(self)@, id) && final(self)@ == old(self)@,
            },
            final(self).wf(),
            !is_active(final(self)@, id),
    {
        match self.position(id) {
            Some(i) => {
                let mut entries = self.take();
                let e = entries.remove(i);
                *self = ActiveFeeds { entries };
                Some(e)
            },
            None => {
                proof {
                    use_type_invariant(&*self);
                }
                None
            },
        }
    }
}

/// One more element of a sequence put through a filter.
proof fn lemma_filter_next<A>(s: Seq<A>, pred: spec_fn(A) -> bool, n: int)
    requires
        0 <= n < s.len(),
    ensures
        s.take(n + 1).filter(pred) == if pred(s[n]) {
            s.take(n).filter(pred).push(s[n])
        } else {
            s.take(n).filter(pred)
        },
{
    reveal(Seq::filter);
    assert(s.take(n + 1).drop_last() =~= s.take(n));
    assert(s.take(n + 1).last() == s[n]);
}

/// What a filter keeps is an element of what it was given, and passes the test.
proof fn lemma_filter_source<H>(s: Seq<ActiveFeed<H>>, pred: spec_fn(ActiveFeed<H>) -> bool, k: int) -> (m: int)
    requires
        0 <= k < s.filter(pred).len(),
    ensures
        0 <= m < s.len(),
        s[m] == s.filter(pred)[k],
        pred(s[m]),
    decreases s.len(),
{
    reveal(Seq::filter);
    let rest = s.drop_last();
    if k < rest.filter(pred).len() {
        let m = lemma_filter_source(rest, pred, k);
        assert(rest[m] == s[m]);
        m
    } else {
        s.len() - 1
    }
}

/// What passes the test is kept by the filter.
proof fn lemma_filter_keeps<H>(s: Seq<ActiveFeed<H>>, pred: spec_fn(ActiveFeed<H>) -> bool, m: int) -> (k: int)
    requires
        0 <= m < s.len(),
        pred(s[m]),
    ensures
        0 <= k < s.filter(pred).len(),
        s.filter(pred)[k] == s[m],
    decreases s.len(),
{
    reveal(Seq::filter);
    let rest = s.drop_last();
    if m < rest.len() {
        assert(rest[m] == s[m]);
        lemma_filter_keeps(rest, pred, m)
    } else {
        rest.filter(pred).len() as int
    }
}

/// A filter keeps the entries apart: where no feed had two, none has two after.
proof fn lemma_filter_distinct<H>(s: Seq<ActiveFeed<H>>, pred: spec_fn(ActiveFeed<H>) -> bool)
    requires
        distinct_ids(s),
    ensures
        distinct_ids(s.filter(pred)),
    decreases s.len(),
{
    reveal(Seq::filter);
    if s.len() > 0 {
        let rest = s.drop_last();
        let kept = rest.filter(pred);
        assert(distinct_ids(rest)) by {
            assert forall|i: int, j: int| 0 <= i < j < rest.len() implies rest[i].id != rest[j].id by {
                assert(s[i].id != s[j].id);
            }
        }
        lemma_filter_distinct(rest, pred);
        if pred(s.last()) {
            assert forall|i: int, j: int| 0 <= i < j < s.filter(pred).len() implies s.filter(
                pred,
            )[i].id != s.filter(pred)[j].id by {
                if j == kept.len() {
                    let m = lemma_filter_source(rest, pred, i);
                    assert(s[m].id != s[s.len() - 1].id);
                } else {
                    assert(kept[i].id != kept[j].id);
                }
            }
        }
    }
}

/// The entries of the registry once the feeds of `gone` hold none of them.
pub open spec fn freed<H>(hosts: Seq<HostView>, gone: Seq<ActiveFeed<H>>) -> Seq<HostView> {
    Seq::new(
        hosts.len(),
        |i: int|
            match hosts[i].holder {
                Some(feed) => if is_active(gone, feed) {
                    idle(hosts[i])
                } else {
                    hosts[i]
                },
                None => hosts[i],
            },
    )
}

/// Whether a feed with the ID `id` is in `feeds` at `from` or after.
fn listed_from(feeds: &Vec<Feed>, from: usize, id: i64) -> (found: bool)
    ensures
        found == exists|j: int| from <= j < feeds.len() && (#[trigger] feeds[j]).id == id,
{
    let mut j: usize = from;
    while j < feeds.len()
        invariant
            from <= j || j == from,
            forall|k: int| from <= k < j ==> (#[trigger] feeds[k]).id != id,
        decreases feeds.len() - j,
    {
        if feeds[j].id == id {
            return true;
        }
        j += 1;
    }
    false
}

impl<H> ActiveFeeds<H> {
    /// Keeps the entries whose feeds are among `feeds`, in their order, and
    /// hands out the others.
    pub fn retain_listed(&mut self, feeds: &Vec<Feed>) -> (cancelled: Vec<ActiveFeed<H>>)
        ensures
            final(self)@ == old(self)@.filter(listed_in(feeds@)),
            cancelled@ == old(self)@.filter(not_listed_in(feeds@)),
            final(self).wf(),
    {
        let ghost all = self@;
        let mut entries = self.take();
        let ghost keep = listed_in::<H>(feeds@);
        let ghost drop = not_listed_in::<H>(feeds@);
        let mut cancelled: Vec<ActiveFeed<H>> = Vec::new();
        let mut i: usize = 0;
        let ghost mut done: int = 0;
        proof {
            reveal(Seq::filter);
            assert(all.skip(0) =~= all);
        }
        while i < entries.len()
            invariant
                0 <= done <= all.len(),
                keep == listed_in::<H>(feeds@),
                drop == not_listed_in::<H>(feeds@),
                i == all.take(done).filter(keep).len(),
                entries@ == all.take(done).filter(keep) + all.skip(done),
                cancelled@ == all.take(done).filter(drop),
            decreases all.len() - done,
        {
            proof {
                lemma_filter_next(all, keep, done);
                lemma_filter_next(all, drop, done);
                assert(entries@[i as int] == all[done]);
                assert(all.skip(done + 1) =~= all.skip(done).skip(1));
            }
            if listed_from(feeds, 0, entries[i].id) {
                assert(keep(all[done]) && !drop(all[done]));
                assert(entries@ =~= all.take(done + 1).filter(keep) + all.skip(done + 1));
                i += 1;
            } else {
                assert(!keep(all[done]) && drop(all[done]));
                let e = entries.remove(i);
                cancelled.push(e);
                assert(entries@ =~= all.take(done + 1).filter(keep) + all.skip(done + 1));
            }
            proof {
                done = done + 1;
            }
        }
        proof {
            all.take(done).lemma_filter_len(keep);
            assert(all.take(done) =~= all);
            assert(entries@ =~= all.filter(keep));
            lemma_filter_distinct(all, keep);
        }
        *self = ActiveFeeds { entries };
        cancelled
    }
}

/// The scheduler's own state: the hosts, the feeds with a running task, and
/// when the store is polled next.
#[derive(Debug)]
pub struct Manager<H> {
    pub host_map: HostRegistry,
    pub active_feeds: ActiveFeeds<H>,
    /// When the next reconciliation is due, counted from the scheduler's start.
    pub poll_deadline: Duration,
}

/// What a reconciliation asks for.
#[derive(Debug)]
pub struct Reconciled<H> {
    /// The feeds to start a task for, the last listed first.
    pub fresh: Vec<Feed>,
    /// The entries of the tasks to cancel; they are entries no longer.
    pub cancelled: Vec<ActiveFeed<H>>,
}

/// What a message asks for.
#[derive(Debug, Clone, Copy, PartialEq, Eq, Structural)]
pub enum Dispatch {
    /// All tasks that rest after a failure are to be woken.
    WakeFailing,
    /// The task of this feed is to be woken.
    Wake(i64),
    /// The feed to rerun has no task: to be logged, and nothing else.
    Absent(i64),
    /// The feed's row is to be read and handed to `feed_changed`.
    Reload(i64),
}

/// What a changed feed asks for.
#[derive(Debug)]
pub enum Change<H> {
    /// The feed's task is to be cancelled; its entry is gone.
    Cancelled(ActiveFeed<H>),
    /// A task is to be started for the feed.
    Start(Feed),
    /// Nothing: the feed is as the scheduler has it.
    Unchanged,
}

/// What the scheduler turns to next.
#[derive(Debug, Clone, Copy, PartialEq, Eq, Structural)]
pub enum Turn {
    /// The process shuts down: the loop ends.
    Exit,
    /// The store is due to be polled.
    Reconcile,
    /// A message waits to be handled.
    Message,
    /// A task has ended, which no task ever should.
    TaskEnded,
}

/// What has happened that the scheduler may turn to.
#[derive(Debug, Clone, Copy, PartialEq, Eq, Structural)]
pub struct Ready {
    pub shutdown: bool,
    pub poll_due: bool,
    pub message: bool,
    pub task_ended: bool,
}

/// The sum of two lengths of time, held within what a length can hold.
pub open spec fn saturating_sum(a: nat, b: nat) -> nat {
    if a + b <= u128::MAX {
        a + b
    } else {
        u128::MAX as nat
    }
}

/// What the scheduler turns to: shutdown goes before reconciliation, that
/// before a message, and that before a task that has ended.
pub open spec fn turn_for(ready: Ready) -> Option<Turn> {
    if ready.shutdown {
        Some(Turn::Exit)
    } else if ready.poll_due {
        Some(Turn::Reconcile)
    } else if ready.message {
        Some(Turn::Message)
    } else if ready.task_ended {
        Some(Turn::TaskEnded)
    } else {
        None
    }
}

/// What a message asks for, the feeds in `entries` having a task.
pub open spec fn dispatch_for<H>(entries: Seq<ActiveFeed<H>>, action: Action) -> Dispatch {
    match action {
        Action::RerunFailing => Dispatch::WakeFailing,
        Action::Rerun(id) => if is_active(entries, id) {
            Dispatch::Wake(id)
        } else {
            Dispatch::Absent(id)
        },
        Action::FeedChanged(id) => Dispatch::Reload(id),
    }
}

impl<H> Manager<H> {
    /// One entry per host key, and one per feed: both hold of every
    /// scheduler, at any time.
    pub open spec fn wf(self) -> bool {
        self.host_map.wf() && self.active_feeds.wf()
    }

    /// A scheduler without hosts and without tasks, whose first
    /// reconciliation is due at once.
    pub fn new() -> (m: Manager<H>)
        ensures
            m.wf(),
            m.host_map@ == Seq::<HostView>::empty(),
            m.active_feeds@ == Seq::<ActiveFeed<H>>::empty(),
            m.poll_deadline@ == 0,
    {
        Manager {
            host_map: HostRegistry::new(),
            active_feeds: ActiveFeeds::new(),
            poll_deadline: Duration::from_nanos(0),
        }
    }

    /// What the scheduler turns to, of what is ready; `None` if nothing is.
    pub fn turn(ready: Ready) -> (t: Option<Turn>)
        ensures
            t == turn_for(ready),
    {
        if ready.shutdown {
            Some(Turn::Exit)
        } else if ready.poll_due {
            Some(Turn::Reconcile)
        } else if ready.message {
            Some(Turn::Message)
        } else if ready.task_ended {
            Some(Turn::TaskEnded)
        } else {
            None
        }
    }

    /// Reconciles the tasks with the feeds that the store lists as enabled.
    ///
    /// The next reconciliation is due one period later, whatever the store
    /// answered. Where it answered with an error, nothing else changes.
    /// Else the entries of the feeds that are listed stay, the others are
    /// handed out to be cancelled and hold no host any more, and the listed
    /// feeds without an entry are handed out to be started, each once.
    pub fn poll_db<E>(&mut self, listed: Result<Vec<Feed>, E>) -> (r: Result<Reconciled<H>, E>)
        ensures
            final(self).poll_deadline@ == saturating_sum(
                old(self).poll_deadline@,
                secs(POLL_SECS as nat),
            ),
            final(self).wf(),
            match listed {
                Ok(feeds) => r matches Ok(rec) && {
                    &&& final(self).active_feeds@ == old(self).active_feeds@.filter(
                        listed_in(feeds@),
                    )
                    &&& rec.cancelled@ == old(self).active_feeds@.filter(not_listed_in(feeds@))
                    &&& rec.fresh@ == fresh_from(feeds@, old(self).active_feeds@, 0)
                    &&& final(self).host_map@ == freed(old(self).host_map@, rec.cancelled@)
                },
                Err(e) => r == Err::<Reconciled<H>, E>(e) && final(self).active_feeds@ == old(self).active_feeds@ && final(self).host_map@ == old(self).host_map@,
            },
    {
        self.poll_deadline = self.poll_deadline.saturating_add(Duration::from_secs(POLL_SECS));
        let mut feeds = match listed {
            Ok(feeds) => feeds,
            Err(e) => {
                proof {
                    use_type_invariant(&self.active_feeds);
                    use_type_invariant(&self.host_map);
                }
                return Err(e);
            },
        };
        let ghost all = feeds@;
        let ghost entries = self.active_feeds@;
        let ghost hosts = self.host_map@;
        let cancelled = self.active_feeds.retain_listed(&feeds);
        proof {
            use_type_invariant(&self.host_map);
        }
        let ghost deadline = self.poll_deadline;
        let ghost kept_entries = self.active_feeds;
        let mut k: usize = 0;
        while k < cancelled.len()
            invariant
                k <= cancelled.len(),
                self.host_map@ == freed(hosts, cancelled@.take(k as int)),
                hosts == old(self).host_map@,
                self.host_map.wf(),
                self.poll_deadline == deadline,
                self.active_feeds == kept_entries,
            decreases cancelled.len() - k,
        {
            self.host_map.release_all(cancelled[k].id);
            proof {
                let now = cancelled@.take(k as int);
                let next = cancelled@.take(k + 1);
                assert forall|f: i64| is_active(next, f) <==> (is_active(now, f) || f
                    == cancelled[k as int].id) by {
                    if is_active(next, f) {
                        let w = choose|w: int| 0 <= w < next.len() && #[trigger] next[w].id == f;
                        if w < k {
                            assert(now[w].id == f);
                        }
                    }
                    if is_active(now, f) {
                        let w = choose|w: int| 0 <= w < now.len() && #[trigger] now[w].id == f;
                        assert(next[w].id == f);
                    }
                    if f == cancelled[k as int].id {
                        assert(next[k as int].id == f);
                    }
                }
            }
            k += 1;
        }
        assert(cancelled@.take(cancelled.len() as int) =~= cancelled@);
        let mut fresh: Vec<Feed> = Vec::new();
        while feeds.len() > 0
            invariant
                feeds@ == all.take(feeds.len() as int),
                feeds.len() <= all.len(),
                fresh@ == fresh_from(all, entries, feeds.len() as int),
                self.active_feeds@ == entries.filter(listed_in(all)),
                self.poll_deadline == deadline,
                self.active_feeds == kept_entries,
                self.host_map@ == freed(hosts, cancelled@),
                self.host_map.wf(),
            decreases feeds.len(),
        {
            let at = feeds.len() - 1;
            let id = feeds[at].id;
            let kept = self.active_feeds.contains_key(id);
            let feed = feeds.pop().unwrap();
            let later = id_from(&fresh, id);
            proof {
                if is_active(entries, id) {
                    let m = choose|m: int| 0 <= m < entries.len() && #[trigger] entries[m].id == id;
                    lemma_filter_keeps(entries, listed_in(all), m);
                }
                if kept {
                    let w = choose|w: int|
                        0 <= w < self.active_feeds@.len() && #[trigger] self.active_feeds@[w].id == id;
                    lemma_filter_source(entries, listed_in(all), w);
                }
                lemma_fresh_ids(all, entries, at + 1, id);
            }
            if !kept && !later {
                fresh.push(feed);
            }
        }
        Ok(Reconciled { fresh, cancelled })
    }

    /// What the message `action` asks for.
    pub fn handle(&self, action: Action) -> (d: Dispatch)
        ensures
            d == dispatch_for(self.active_feeds@, action),
    {
        match action {
            Action::RerunFailing => Dispatch::WakeFailing,
            Action::Rerun(id) => if self.active_feeds.contains_key(id) {
                Dispatch::Wake(id)
            } else {
                Dispatch::Absent(id)
            },
            Action::FeedChanged(id) => Dispatch::Reload(id),
        }
    }

    /// Takes in the row of a feed that was created or edited.
    ///
    /// A disabled feed with a task loses its entry and whatever host it
    /// holds. An enabled feed without a task is to be started. In every
    /// other case nothing changes.
    pub fn feed_changed(&mut self, feed: Feed) -> (c: Change<H>)
        ensures
            final(self).wf(),
            final(self).poll_deadline == old(self).poll_deadline,
            match c {
                Change::Cancelled(e) => feed.disabled && e.id == feed.id && exists|i: int|
                    0 <= i < old(self).active_feeds@.len() && #[trigger] old(self).active_feeds@[i]
                        == e && final(self).active_feeds@ == old(self).active_feeds@.remove(i)
                    && final(self).host_map@ == without_holder(
                    old(self).host_map@,
                    feed.id,
                ),
                Change::Start(f) => !feed.disabled && !is_active(old(self).active_feeds@, feed.id)
                    && f == feed && final(self).active_feeds@ == old(self).active_feeds@
                    && final(self).host_map@ == old(self).host_map@,
                Change::Unchanged => feed.disabled == !is_active(old(self).active_feeds@, feed.id)
                    && final(self).active_feeds@ == old(self).active_feeds@ && final(self).host_map@ == old(self).host_map@,
            },
            feed.disabled ==> !is_active(final(self).active_feeds@, feed.id),
    {
        proof {
            use_type_invariant(&self.host_map);
        }
        if feed.disabled {
            match self.active_feeds.remove(feed.id) {
                Some(e) => {
                    self.host_map.release_all(feed.id);
                    Change::Cancelled(e)
                },
                None => Change::Unchanged,
            }
        } else if !self.active_feeds.contains_key(feed.id) {
            Change::Start(feed)
        } else {
            Change::Unchanged
        }
    }

    /// The place of the feed's host in the registry; the entry is made if
    /// the feed is the first of its host.
    pub fn insert_host(&mut self, feed: &Feed) -> (at: usize)
        ensures
            at < final(self).host_map@.len(),
            final(self).host_map@[at as int].key == host::host_key_of(feed.url@),
            host::has_key(old(self).host_map@, host::host_key_of(feed.url@)) ==> final(self).host_map@ == old(self).host_map@,
            !host::has_key(old(self).host_map@, host::host_key_of(feed.url@)) ==> final(self).host_map@ == old(self).host_map@.push(host::fresh_host(feed.url@)),
            final(self).active_feeds == old(self).active_feeds,
            final(self).poll_deadline == old(self).poll_deadline,
            final(self).wf(),
    {
        proof {
            use_type_invariant(&self.active_feeds);
        }
        self.host_map.insert(feed.url.as_str())
    }

    /// The task of a feed that is to be started: it belongs to its host, and
    /// nothing is cached for it.
    pub fn build_fetcher(&mut self, feed: Feed) -> (f: FeedFetcher)
        ensures
            f.feed == feed,
            f.status@ == fetch::StatusView::Success(fetch::no_headers()),
            f.host < final(self).host_map@.len(),
            final(self).host_map@[f.host as int].key == host::host_key_of(feed.url@),
            host::has_key(old(self).host_map@, host::host_key_of(feed.url@)) ==> final(self).host_map@ == old(self).host_map@,
            !host::has_key(old(self).host_map@, host::host_key_of(feed.url@)) ==> final(self).host_map@ == old(self).host_map@.push(host::fresh_host(feed.url@)),
            final(self).active_feeds == old(self).active_feeds,
            final(self).poll_deadline == old(self).poll_deadline,
            final(self).wf(),
    {
        let host = self.insert_host(&feed);
        FeedFetcher::new(feed, host)
    }

    /// Starts the task of a feed unless the feed has one already.
    ///
    /// A feed with an entry keeps it: nothing is entered and nothing
    /// replaced, the scheduler stays as it is, and the feed and the handle
    /// are handed back. Two tasks for one feed would spoil the scheduler's
    /// books, so whoever runs the tasks stops there.
    pub fn try_start(&mut self, feed: Feed, rerun: H) -> (r: Result<FeedFetcher, (Feed, H)>)
        ensures
            final(self).wf(),
            final(self).poll_deadline == old(self).poll_deadline,
            match r {
                Ok(f) => {
                    &&& !is_active(old(self).active_feeds@, feed.id)
                    &&& f.feed == feed
                    &&& f.status@ == fetch::StatusView::Success(fetch::no_headers())
                    &&& f.host < final(self).host_map@.len()
                    &&& final(self).host_map@[f.host as int].key == host::host_key_of(feed.url@)
                    &&& final(self).active_feeds@ == old(self).active_feeds@.push(
                        ActiveFeed { id: feed.id, rerun },
                    )
                },
                Err(back) => {
                    &&& is_active(old(self).active_feeds@, feed.id)
                    &&& back == (feed, rerun)
                    &&& final(self).active_feeds@ == old(self).active_feeds@
                    &&& final(self).host_map@ == old(self).host_map@
                },
            },
    {
        proof {
            use_type_invariant(&self.host_map);
        }
        if self.active_feeds.contains_key(feed.id) {
            Err((feed, rerun))
        } else {
            Ok(self.start(feed, rerun))
        }
    }

    /// Starts the task of a feed that has none: the feed gets its entry, with
    /// `rerun` as the handle that wakes it, and its task is built.
    pub fn start(&mut self, feed: Feed, rerun: H) -> (f: FeedFetcher)
        requires
            !is_active(old(self).active_feeds@, feed.id),
        ensures
            f.feed == feed,
            f.status@ == fetch::StatusView::Success(fetch::no_headers()),
            f.host < final(self).host_map@.len(),
            final(self).host_map@[f.host as int].key == host::host_key_of(feed.url@),
            host::has_key(old(self).host_map@, host::host_key_of(feed.url@)) ==> final(self).host_map@ == old(self).host_map@,
            !host::has_key(old(self).host_map@, host::host_key_of(feed.url@)) ==> final(self).host_map@ == old(self).host_map@.push(host::fresh_host(feed.url@)),
            final(self).active_feeds@ == old(self).active_feeds@.push(
                ActiveFeed { id: feed.id, rerun },
            ),
            final(self).poll_deadline == old(self).poll_deadline,
            final(self).wf(),
    {
        self.active_feeds.insert(feed.id, rerun);
        self.build_fetcher(feed)
    }
}

/// Whether a feed with the ID `id` is in `feeds`.
fn id_from(feeds: &Vec<Feed>, id: i64) -> (found: bool)
    ensures
        found == is_listed(feeds@, id),
{
    let found = listed_from(feeds, 0, id);
    proof {
        if is_listed(feeds@, id) {
            let w = choose|w: int| 0 <= w < feeds@.len() && #[trigger] feeds@[w].id == id;
            assert(feeds[w].id == id);
        }
    }
    found
}

/// A feed to start from `from` on has the ID `id` exactly if `id` has no
/// entry and is the ID of a feed listed from `from` on.
proof fn lemma_fresh_ids<H>(feeds: Seq<Feed>, entries: Seq<ActiveFeed<H>>, from: int, id: i64)
    requires
        0 <= from <= feeds.len(),
    ensures
        is_listed(fresh_from(feeds, entries, from), id) <==> (!is_active(entries, id) && exists|j: int|
            from <= j < feeds.len() && (#[trigger] feeds[j]).id == id),
    decreases feeds.len() - from,
{
    if from < feeds.len() {
        lemma_fresh_ids(feeds, entries, from + 1, id);
        let later = fresh_from(feeds, entries, from + 1);
        let here = fresh_from(feeds, entries, from);
        if is_listed(here, id) {
            let w = choose|w: int| 0 <= w < here.len() && #[trigger] here[w].id == id;
            if w < later.len() {
                assert(later[w].id == id);
                assert(is_listed(later, id));
                let j = choose|j: int| from + 1 <= j < feeds.len() && (#[trigger] feeds[j]).id == id;
                assert(from <= j < feeds.len() && feeds[j].id == id);
            } else {
                assert(feeds[from].id == id);
            }
        }
        if !is_active(entries, id) && exists|j: int| from <= j < feeds.len() && (#[trigger] feeds[j]).id == id {
            let j = choose|j: int| from <= j < feeds.len() && (#[trigger] feeds[j]).id == id;
            if j > from {
                assert(is_listed(later, id));
                let w = choose|w: int| 0 <= w < later.len() && #[trigger] later[w].id == id;
                assert(here[w].id == id);
            } else if is_fresh(feeds, entries, from) {
                assert(here[later.len() as int].id == id);
            } else {
                let j2 = choose|j2: int| from < j2 < feeds.len() && (#[trigger] feeds[j2]).id == feeds[from].id;
                assert(from + 1 <= j2 < feeds.len() && feeds[j2].id == id);
                assert(is_listed(later, id));
                let w = choose|w: int| 0 <= w < later.len() && #[trigger] later[w].id == id;
                assert(here[w].id == id);
            }
        }
    } else {
        assert(fresh_from(feeds, entries, from) =~= Seq::<Feed>::empty());
    }
}

/// No feed has two tasks: two entries of one feed are one entry.
pub proof fn lemma_single_entry<H>(entries: Seq<ActiveFeed<H>>, i: int, j: int)
    requires
        distinct_ids(entries),
        0 <= i < entries.len(),
        0 <= j < entries.len(),
        entries[i].id == entries[j].id,
    ensures
        i == j,
{
    if i < j {
        assert(entries[i].id != entries[j].id);
    } else if j < i {
        assert(entries[j].id != entries[i].id);
    }
}

/// The feeds that a reconciliation hands out to be started can each be
/// started: none has an entry after it, and no two are the same feed.
pub proof fn lemma_fresh_startable<H>(feeds: Seq<Feed>, entries: Seq<ActiveFeed<H>>, a: int, b: int)
    requires
        0 <= a < fresh_from(feeds, entries, 0).len(),
        0 <= b < fresh_from(feeds, entries, 0).len(),
    ensures
        !is_active(entries.filter(listed_in(feeds)), fresh_from(feeds, entries, 0)[a].id),
        a != b ==> fresh_from(feeds, entries, 0)[a].id != fresh_from(feeds, entries, 0)[b].id,
{
    let fresh = fresh_from(feeds, entries, 0);
    let id = fresh[a].id;
    assert(is_listed(fresh, id));
    lemma_fresh_ids(feeds, entries, 0, id);
    let kept = entries.filter(listed_in(feeds));
    if is_active(kept, id) {
        let w = choose|w: int| 0 <= w < kept.len() && #[trigger] kept[w].id == id;
        let m = lemma_filter_source(entries, listed_in(feeds), w);
        assert(entries[m].id == id);
    }
    if a != b {
        lemma_fresh_distinct(feeds, entries, 0, a, b);
    }
}

/// Once the feeds that a reconciliation hands out are started, the feeds
/// with a task are the feeds that the store listed: a feed has an entry
/// left, or is one to start, exactly if it is listed.
pub proof fn lemma_reconciled<H>(feeds: Seq<Feed>, entries: Seq<ActiveFeed<H>>, id: i64)
    ensures
        (is_active(entries.filter(listed_in(feeds)), id) || is_listed(
            fresh_from(feeds, entries, 0),
            id,
        )) <==> is_listed(feeds, id),
        is_active(entries.filter(not_listed_in(feeds)), id) <==> is_active(entries, id)
            && !is_listed(feeds, id),
{
    let kept = entries.filter(listed_in(feeds));
    let gone = entries.filter(not_listed_in(feeds));
    lemma_fresh_ids(feeds, entries, 0, id);
    if is_active(kept, id) {
        let w = choose|w: int| 0 <= w < kept.len() && #[trigger] kept[w].id == id;
        let m = lemma_filter_source(entries, listed_in(feeds), w);
        assert(is_listed(feeds, entries[m].id));
    }
    if is_listed(feeds, id) {
        let j = choose|j: int| 0 <= j < feeds.len() && #[trigger] feeds[j].id == id;
        assert(0 <= j < feeds.len() && feeds[j].id == id);
        if is_active(entries, id) {
            let m = choose|m: int| 0 <= m < entries.len() && #[trigger] entries[m].id == id;
            let w = lemma_filter_keeps(entries, listed_in(feeds), m);
            assert(kept[w].id == id);
        }
    }
    if is_active(gone, id) {
        let w = choose|w: int| 0 <= w < gone.len() && #[trigger] gone[w].id == id;
        let m = lemma_filter_source(entries, not_listed_in(feeds), w);
        assert(entries[m].id == id);
    }
    if is_active(entries, id) && !is_listed(feeds, id) {
        let m = choose|m: int| 0 <= m < entries.len() && #[trigger] entries[m].id == id;
        let w = lemma_filter_keeps(entries, not_listed_in(feeds), m);
        assert(gone[w].id == id);
    }
}

/// The tasks mirror the entries through a reconciliation: where every feed
/// with an entry had a task and no other had, cancelling the tasks that are
/// handed out to be cancelled leaves the tasks of exactly the feeds that
/// keep their entry, each once.
pub proof fn lemma_tasks_mirror_entries<H>(feeds: Seq<Feed>, entries: Seq<ActiveFeed<H>>, id: i64)
    requires
        distinct_ids(entries),
    ensures
        is_active(entries.filter(listed_in(feeds)), id) <==> is_active(entries, id) && !is_active(
            entries.filter(not_listed_in(feeds)),
            id,
        ),
        distinct_ids(entries.filter(listed_in(feeds))),
        distinct_ids(entries.filter(not_listed_in(feeds))),
{
    let kept = entries.filter(listed_in(feeds));
    lemma_reconciled(feeds, entries, id);
    lemma_filter_distinct(entries, listed_in(feeds));
    lemma_filter_distinct(entries, not_listed_in(feeds));
    if is_active(kept, id) {
        let w = choose|w: int| 0 <= w < kept.len() && #[trigger] kept[w].id == id;
        let m = lemma_filter_source(entries, listed_in(feeds), w);
        assert(entries[m].id == id);
        assert(is_listed(feeds, id));
    }
    if is_active(entries, id) && is_listed(feeds, id) {
        let m = choose|m: int| 0 <= m < entries.len() && #[trigger] entries[m].id == id;
        let w = lemma_filter_keeps(entries, listed_in(feeds), m);
        assert(kept[w].id == id);
    }
}

/// No two of the feeds to start from `from` on are the same feed.
proof fn lemma_fresh_distinct<H>(feeds: Seq<Feed>, entries: Seq<ActiveFeed<H>>, from: int, a: int, b: int)
    requires
        0 <= from <= feeds.len(),
        0 <= a < fresh_from(feeds, entries, from).len(),
        0 <= b < fresh_from(feeds, entries, from).len(),
        a != b,
    ensures
        fresh_from(feeds, entries, from)[a].id != fresh_from(feeds, entries, from)[b].id,
    decreases feeds.len() - from,
{
    if from < feeds.len() {
        let later = fresh_from(feeds, entries, from + 1);
        let here = fresh_from(feeds, entries, from);
        if a < later.len() && b < later.len() {
            lemma_fresh_distinct(feeds, entries, from + 1, a, b);
        } else {
            let other = if a < later.len() {
                a
            } else {
                b
            };
            assert(is_fresh(feeds, entries, from));
            let id = later[other].id;
            assert(is_listed(later, id));
            lemma_fresh_ids(feeds, entries, from + 1, id);
            let j = choose|j: int| from + 1 <= j < feeds.len() && (#[trigger] feeds[j]).id == id;
            assert(feeds[j].id != feeds[from].id);
        }
    }
}

} // verus!
