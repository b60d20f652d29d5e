//! The request for items.

use vstd::prelude::*;
use vstd::string::StringExecFns;
use crate::com::{values, UtcDateTime, Value, ValueView};
use crate::database::sql::Statement;

verus! {

/// Which items a client asks for.
#[derive(Debug, Clone, PartialEq, Eq)]
pub struct Request {
    pub category_id: Option<i64>,
    pub feed_ids: Vec<i64>,
    pub unread: bool,
    pub before: Option<ReadBefore>,
    /// All read items from this time on.
    pub read_after: Option<UtcDateTime>,
}

/// At least `count` read items from before `date`, and with them all that
/// are as old as the oldest of those.
#[derive(Debug, Clone, Copy, PartialEq, Eq, Structural)]
pub struct ReadBefore {
    pub date: UtcDateTime,
    /// Never zero.
    pub count: u32,
}

/// What is wrong with a request; `None` where nothing is. The first of
/// these that holds is named:
///
/// 1. the request asks for nothing;
/// 2. it names a category and feeds;
/// 3. it asks for unread items without naming feeds;
/// 4. it asks for read items both after and before a time;
/// 5. it asks for unread items and for read items before a time.
pub open spec fn request_rejection(r: Request) -> Option<&'static str> {
    if !r.unread && r.read_after is None && r.before is None {
        Some("Empty or invalid GetItems request")
    } else if r.category_id is Some && r.feed_ids@.len() > 0 {
        Some("Can't get by both categoryId and feedIds")
    } else if r.unread && r.feed_ids@.len() == 0 {
        Some("Can only request unread items by feedIds")
    } else if r.read_after is Some && r.before is Some {
        Some("Can't get both readAfter and readBefore")
    } else if r.unread && r.before is Some {
        Some("Can't get both unread and readBefore")
    } else {
        None
    }
}

impl Request {
    pub fn validate(&self) -> (r: Result<(), &'static str>)
        ensures
            match r {
                Ok(_) => request_rejection(*self) is None,
                Err(msg) => request_rejection(*self) == Some(msg),
            },
    {
        if !self.unread && self.read_after.is_none() && self.before.is_none() {
            return Err("Empty or invalid GetItems request");
        }
        if self.category_id.is_some() && self.feed_ids.len() > 0 {
            return Err("Can't get by both categoryId and feedIds");
        }
        if self.unread && self.feed_ids.len() == 0 {
            return Err("Can only request unread items by feedIds");
        }
        if self.read_after.is_some() && self.before.is_some() {
            return Err("Can't get both readAfter and readBefore");
        }
        if self.unread && self.before.is_some() {
            return Err("Can't get both unread and readBefore");
        }
        Ok(())
    }
}

/// `n` question marks with commas between.
pub open spec fn marks(n: nat) -> Seq<char>
    decreases n,
{
    if n == 0 {
        Seq::empty()
    } else if n == 1 {
        "?"@
    } else {
        marks((n - 1) as nat) + ",?"@
    }
}

/// The condition that picks the feeds of a request.
pub open spec fn target_sql(r: Request) -> Seq<char> {
    if r.category_id is Some {
        " feeds.category_id = ?"@
    } else if r.feed_ids@.len() > 0 {
        " feeds.id IN ("@ + marks(r.feed_ids@.len()) + ") "@
    } else {
        " feeds.disabled = 0 "@
    }
}

/// What the condition that picks the feeds binds.
pub open spec fn target_binds(r: Request) -> Seq<ValueView> {
    match r.category_id {
        Some(c) => seq![ValueView::Integer(c)],
        None => r.feed_ids@.map_values(|id: i64| ValueView::Integer(id)),
    }
}

/// What the statement begins with.
pub open spec fn select_head() -> &'static str {
    "\nSELECT items.*\nFROM feeds CROSS JOIN items ON items.feed_id = feeds.id\nWHERE\n"
}

/// The condition for read items before a time, as far as the oldest of the
/// newest `count` of them: it opens the query that finds that oldest one.
pub open spec fn floor_head() -> &'static str {
    "\nAND items.timestamp >= (\n    SELECT MIN(timestamp)\n    FROM (\n        SELECT items.timestamp\n        FROM feeds CROSS JOIN items ON items.feed_id = feeds.id\n        WHERE "
}

/// The text of the statement that selects the items of a request.
pub open spec fn items_sql(r: Request) -> Seq<char> {
    let pick = if r.read_after is Some {
        " AND items.read = 1 AND items.timestamp >= ?"@
    } else if r.before is Some {
        " AND items.read = 1 AND items.timestamp < ?"@ + floor_head()@ + target_sql(r)
            + " AND items.read = 1 AND items.timestamp < ?"@
            + " ORDER BY items.timestamp DESC LIMIT ?"@ + " )) "@
    } else {
        " AND items.read = 0 "@
    };
    select_head()@ + target_sql(r) + pick + " ORDER BY items.id ASC"@
}

/// What the statement that selects the items of a request binds.
pub open spec fn items_binds(r: Request) -> Seq<ValueView> {
    let pick = match (r.read_after, r.before) {
        (Some(after), _) => seq![ValueView::Time(after)],
        (None, Some(b)) => seq![ValueView::Time(b.date)] + target_binds(r) + seq![
            ValueView::Time(b.date),
            ValueView::Integer(b.count as i64),
        ],
        (None, None) => Seq::empty(),
    };
    target_binds(r) + pick
}

impl Request {
    /// Adds to a statement the condition that picks the feeds of the
    /// request: those of its category if it names one, else those it lists,
    /// else all that are enabled.
    pub fn target_clause(&self, sql: &mut String, binds: &mut Vec<Value>)
        ensures
            final(sql)@ == old(sql)@ + target_sql(*self),
            values(final(binds)@) == values(old(binds)@) + target_binds(*self),
    {
        let ghost held = values(binds@);
        if let Some(cat) = self.category_id {
            sql.append(" feeds.category_id = ?");
            binds.push(Value::Integer(cat));
        } else if self.feed_ids.len() > 0 {
            sql.append(" feeds.id IN (");
            let ghost head = sql@;
            let ghost ids = target_binds(*self);
            let mut i: usize = 0;
            while i < self.feed_ids.len()
                invariant
                    i <= self.feed_ids.len(),
                    self.category_id is None,
                    ids == target_binds(*self),
                    sql@ == head + marks(i as nat),
                    values(binds@) == held + ids.take(i as int),
                decreases self.feed_ids.len() - i,
            {
                if i > 0 {
                    sql.append(",?");
                } else {
                    sql.append("?");
                }
                let ghost before = values(binds@);
                binds.push(Value::Integer(self.feed_ids[i]));
                assert(values(binds@) =~= before.push(ValueView::Integer(self.feed_ids@[i as int])));
                i += 1;
            }
            sql.append(") ");
        } else {
            sql.append(" feeds.disabled = 0 ");
        }
    }

    /// The statement that selects the items that the request asks for, in
    /// the order of their IDs: read ones from a time on if it names that
    /// time, else read ones before a time if it names that, else the unread
    /// ones.
    pub fn query(&self) -> (s: Statement)
        ensures
            s.sql@ == items_sql(*self),
            values(s.binds@) == items_binds(*self),
    {
        let mut sql =
            "\nSELECT items.*\nFROM feeds CROSS JOIN items ON items.feed_id = feeds.id\nWHERE\n".to_owned();
        let mut binds: Vec<Value> = Vec::new();
        self.target_clause(&mut sql, &mut binds);
        if let Some(after) = self.read_after {
            sql.append(" AND items.read = 1 AND items.timestamp >= ?");
            binds.push(Value::Time(after));
        } else if let Some(before) = self.before {
            sql.append(" AND items.read = 1 AND items.timestamp < ?");
            binds.push(Value::Time(before.date));
            sql.append(
                "\nAND items.timestamp >= (\n    SELECT MIN(timestamp)\n    FROM (\n        SELECT items.timestamp\n        FROM feeds CROSS JOIN items ON items.feed_id = feeds.id\n        WHERE ",
            );
            self.target_clause(&mut sql, &mut binds);
            sql.append(" AND items.read = 1 AND items.timestamp < ?");
            let ghost mid = values(binds@);
            binds.push(Value::Time(before.date));
            sql.append(" ORDER BY items.timestamp DESC LIMIT ?");
            binds.push(Value::Integer(before.count as i64));
            sql.append(" )) ");
            assert(values(binds@) =~= mid + seq![
                ValueView::Time(before.date),
                ValueView::Integer(before.count as i64),
            ]);
        } else {
            sql.append(" AND items.read = 0 ");
        }
        sql.append(" ORDER BY items.id ASC");
        Statement { sql, binds }
    }
}

} // verus!
