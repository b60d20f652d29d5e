//! What the store is asked to do: how an edit or an insert is planned, and
//! how a transaction ends.

use vstd::prelude::*;
use crate::com::{
    values, Assignment, Feed, HttpError, Insert, Outcome, RssStruct, Update, UtcDateTime, Value,
    ValueView, BAD_REQUEST,
};

pub mod sql;

verus! {

/// The most values that one statement may bind.
pub const MAX_BINDS: usize = 32766;

/// How a transaction ends.
#[derive(Debug, Clone, Copy, PartialEq, Eq, Structural)]
pub enum Ending {
    /// What was written stays.
    Commit,
    /// Nothing was written, or nothing is to stay.
    Rollback,
}

/// An edit as it is planned for a row.
#[derive(Debug)]
pub enum Planned<T> {
    /// The edit changes nothing: nothing is written, and the row is handed
    /// back.
    NoOp(T),
    /// The row with the ID `id` gets `changes`.
    Write { id: i64, changes: Vec<Assignment> },
}

/// How the transaction of a single edit ends: it is committed if the edit
/// changed the row, and rolled back if it was a no-op.
pub fn single_edit<T>(edited: &Outcome<T>) -> (e: Ending)
    ensures
        e == if *edited is Update {
            Ending::Commit
        } else {
            Ending::Rollback
        },
{
    match edited {
        Outcome::NoOp(_) => Ending::Rollback,
        Outcome::Update(_) => Ending::Commit,
    }
}

/// What a cycle that brought content has changed, and how its transaction
/// ends. Where the feed's row stayed as it was and no item was new, nothing
/// has changed and the transaction is rolled back; else it is committed.
pub fn handle_parsed(updated: Outcome<Feed>, num_inserted: u64) -> (r: (Outcome<(Feed, u64)>, Ending))
    ensures
        r.0.value() == (updated.value(), num_inserted),
        r.0 is NoOp == (updated is NoOp && num_inserted == 0),
        r.1 == if updated is NoOp && num_inserted == 0 {
            Ending::Rollback
        } else {
            Ending::Commit
        },
{
    match updated {
        Outcome::NoOp(feed) => if num_inserted == 0 {
            (Outcome::NoOp((feed, 0)), Ending::Rollback)
        } else {
            (Outcome::Update((feed, num_inserted)), Ending::Commit)
        },
        Outcome::Update(feed) => (Outcome::Update((feed, num_inserted)), Ending::Commit),
    }
}

/// Plans the edit `edit` of `row`: the edit is refused where it is not
/// allowed, and is a no-op where it asks for no change.
pub fn update<T: RssStruct, E: Update<T>>(row: T, edit: E) -> (r: Result<Planned<T>, HttpError>)
    ensures
        match r {
            Ok(Planned::NoOp(same)) => edit.rejection(&row) is None && edit.changes(&row).len() == 0
                && same == row,
            Ok(Planned::Write { id, changes }) => edit.rejection(&row) is None && id
                == row.spec_id() && changes@.len() > 0 && crate::com::assignments(changes@)
                == edit.changes(&row),
            Err(e) => e matches HttpError::Status(code, msg) && code == BAD_REQUEST
                && edit.rejection(&row) == Some(msg@),
        },
{
    match edit.validate(&row) {
        Ok(_) => {},
        Err(e) => {
            return Err(e);
        },
    }
    let changes = edit.build_updates(&row);
    if changes.len() == 0 {
        Ok(Planned::NoOp(row))
    } else {
        Ok(Planned::Write { id: row.id(), changes })
    }
}

/// How many of `count` rows one statement takes, each binding `hint` values
/// at most: all of them while they bind no more than the store allows, else
/// as many as it allows.
pub open spec fn bulk_limit(count: nat, hint: nat) -> nat {
    if count * hint > MAX_BINDS {
        MAX_BINDS as nat / hint
    } else {
        count
    }
}

pub fn rows_per_statement(count: usize, hint: usize) -> (limit: usize)
    ensures
        limit == bulk_limit(count as nat, hint as nat),
        limit <= count,
{
    if hint == 0 {
        assert(count * hint == 0) by (nonlinear_arith)
            requires
                hint == 0,
        ;
        return count;
    }
    let most = MAX_BINDS / hint;
    proof {
        lemma_product_exceeds(count as int, hint as int, MAX_BINDS as int);
    }
    if count > most {
        most
    } else {
        count
    }
}

/// A product exceeds a bound exactly if one factor exceeds the bound divided
/// by the other.
proof fn lemma_product_exceeds(count: int, hint: int, bound: int)
    requires
        count >= 0,
        hint > 0,
        bound >= 0,
    ensures
        (count * hint > bound) == (count > bound / hint),
{
    let q = bound / hint;
    let r = bound % hint;
    assert(bound == q * hint + r && 0 <= r < hint) by (nonlinear_arith)
        requires
            q == bound / hint,
            r == bound % hint,
            hint > 0,
    ;
    if count > q {
        assert(count * hint >= (q + 1) * hint) by (nonlinear_arith)
            requires
                count >= q + 1,
                hint > 0,
        ;
        assert((q + 1) * hint == q * hint + hint) by (nonlinear_arith);
    } else {
        assert(count * hint <= q * hint) by (nonlinear_arith)
            requires
                count <= q,
                hint > 0,
        ;
    }
}

/// The rows of `inserts` before `n`, as they are written.
pub open spec fn rows_of<T: RssStruct, I: Insert<T>>(inserts: Seq<I>, n: int, dedupe: bool) -> Seq<
    Seq<ValueView>,
> {
    Seq::new(n as nat, |i: int| inserts[i].row(dedupe))
}

/// The views of rows of values.
pub open spec fn row_views(rows: Seq<Vec<Value>>) -> Seq<Seq<ValueView>> {
    rows.map_values(|r: Vec<Value>| values(r@))
}

/// Plans the insert of many rows by one statement.
///
/// Nothing is written for no rows. One row that is refused has the whole
/// insert refused. Where the rows would bind more values than the store
/// allows, the first that fit are written and the others left out.
pub fn bulk_insert<T: RssStruct, I: Insert<T>>(inserts: Vec<I>, dedupe: bool) -> (r: Result<
    Vec<Vec<Value>>,
    HttpError,
>)
    ensures
        match r {
            Ok(rows) => (forall|i: int|
                0 <= i < inserts@.len() ==> (#[trigger] inserts@[i]).rejection() is None)
                && row_views(rows@) == rows_of::<T, I>(
                inserts@,
                bulk_limit(inserts@.len(), I::spec_binds_count_hint() as nat) as int,
                dedupe,
            ),
            Err(e) => e matches HttpError::Status(code, msg) && code == BAD_REQUEST && exists|i: int|
                0 <= i < inserts@.len() && (#[trigger] inserts@[i]).rejection() == Some(msg@)
                    && forall|j: int| 0 <= j < i ==> (#[trigger] inserts@[j]).rejection() is None,
        },
{
    let mut i: usize = 0;
    while i < inserts.len()
        invariant
            i <= inserts.len(),
            forall|k: int| 0 <= k < i ==> (#[trigger] inserts@[k]).rejection() is None,
        decreases inserts.len() - i,
    {
        match inserts[i].validate() {
            Ok(_) => {},
            Err(e) => {
                return Err(e);
            },
        }
        i += 1;
    }
    let limit = rows_per_statement(inserts.len(), I::binds_count_hint());
    let ghost all = inserts@;
    let mut inserts = inserts;
    inserts.truncate(limit);
    let ghost kept = inserts@;
    let mut rows: Vec<Vec<Value>> = Vec::new();
    for insert in it: inserts
        invariant
            it.seq() == kept,
            kept == all.take(limit as int),
            limit <= all.len(),
            rows.len() == it.index(),
            forall|k: int| 0 <= k < rows.len() ==> values((#[trigger] rows@[k])@) == all[k].row(dedupe),
    {
        rows.push(insert.push_values(dedupe));
    }
    Ok(rows)
}

/// The time up to which a client has seen the store's changes, of which
/// `now` is the store's own time: one second before it, so that what is
/// written in the second of the reading is not missed.
pub fn timestamp(now: UtcDateTime) -> (seen: i64)
    ensures
        seen == if now.secs > i64::MIN {
            now.secs - 1
        } else {
            now.secs as int
        },
{
    if now.secs > i64::MIN {
        now.secs - 1
    } else {
        now.secs
    }
}

} // verus!
