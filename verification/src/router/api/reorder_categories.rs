//! The request to put the categories in an order.

use vstd::prelude::*;
use vstd::string::StringExecFns;
use crate::com::Category;
use crate::text::{decimal, digits, push_decimal, to_decimal};

verus! {

/// The categories in the order that they are to have.
#[derive(Debug, Clone, PartialEq, Eq)]
pub struct Request {
    pub category_ids: Vec<i64>,
}

/// The categories whose position has changed.
#[derive(Debug)]
pub struct Response {
    pub categories: Vec<Category>,
}

/// The pairs of a category and its position as they stand in the
/// statement: `id,position`, with `),(` between the pairs. A category's
/// position is its place in the request, counted from zero.
pub open spec fn pairs(ids: Seq<i64>) -> Seq<char>
    decreases ids.len(),
{
    if ids.len() == 0 {
        Seq::empty()
    } else if ids.len() == 1 {
        decimal(ids[0] as int) + ","@ + digits(0)
    } else {
        pairs(ids.drop_last()) + "),("@ + decimal(ids.last() as int) + ","@ + digits(
            (ids.len() - 1) as nat,
        )
    }
}

/// The text of the statement that gives the categories `ids` their
/// positions and hands back the rows that it changed.
pub open spec fn reorder_sql(ids: Seq<i64>) -> Seq<char> {
    "\nWITH updates(id, sort_position) AS (\n    VALUES ("@ + pairs(ids)
        + "))\nUPDATE categories\nSET\n    sort_position = updates.sort_position\nFROM\n    updates\nWHERE\n    categories.id = updates.id\nRETURNING *"@
}

impl Request {
    /// The statement that puts the categories in their order; none for an
    /// empty request, for which nothing is written.
    pub fn execute(&self) -> (sql: Option<String>)
        ensures
            match sql {
                Some(text) => self.category_ids@.len() > 0 && text@ == reorder_sql(
                    self.category_ids@,
                ),
                None => self.category_ids@.len() == 0,
            },
    {
        if self.category_ids.len() == 0 {
            return None;
        }
        let mut sql = "\nWITH updates(id, sort_position) AS (\n    VALUES (".to_owned();
        let ghost head = sql@;
        let ghost ids = self.category_ids@;
        let mut i: usize = 0;
        while i < self.category_ids.len()
            invariant
                i <= self.category_ids.len(),
                ids == self.category_ids@,
                sql@ == head + pairs(ids.take(i as int)),
            decreases self.category_ids.len() - i,
        {
            proof {
                assert(ids.take(i + 1).drop_last() =~= ids.take(i as int));
            }
            if i > 0 {
                sql.append("),(");
            }
            let id = to_decimal(self.category_ids[i]);
            sql.append(id.as_str());
            sql.append(",");
            push_decimal(&mut sql, i as u64);
            i += 1;
        }
        assert(ids.take(self.category_ids.len() as int) =~= ids);
        sql.append(
            "))\nUPDATE categories\nSET\n    sort_position = updates.sort_position\nFROM\n    updates\nWHERE\n    categories.id = updates.id\nRETURNING *",
        );
        Some(sql)
    }
}

} // verus!
