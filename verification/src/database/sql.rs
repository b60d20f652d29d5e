//! The statements that the store runs, written out.
//!
//! A statement is its text and the values that it binds, in the order of the
//! `?` in the text.

use vstd::prelude::*;
use vstd::string::StringExecFns;
use crate::com::{
    assignments, values, Assignment, AssignmentView, Column, Insert, OnConflict, RssStruct, Value,
    ValueView,
};

verus! {

/// A statement as it is handed to the store.
#[derive(Debug, Clone, PartialEq, Eq)]
pub struct Statement {
    pub sql: String,
    pub binds: Vec<Value>,
}

/// How a value stands in a statement: as one bound value, or, where the
/// store computes it, as the query that does.
pub open spec fn placeholder(v: ValueView) -> Seq<char> {
    match v {
        ValueView::UrlInOtherFeed { .. } => " (SELECT EXISTS (SELECT url FROM items WHERE url = ? AND feed_id != ?)) "@,
        _ => "?"@,
    }
}

/// What a value binds.
pub open spec fn bound(v: ValueView) -> Seq<ValueView> {
    match v {
        ValueView::UrlInOtherFeed { url, feed_id } => seq![
            ValueView::Text(url),
            ValueView::Integer(feed_id),
        ],
        _ => seq![v],
    }
}

/// What a row of values binds.
pub open spec fn all_bound(row: Seq<ValueView>) -> Seq<ValueView>
    decreases row.len(),
{
    if row.len() == 0 {
        Seq::empty()
    } else {
        all_bound(row.drop_last()) + bound(row.last())
    }
}

/// The values of a row as they stand in a statement, with commas between.
pub open spec fn placeholders(row: Seq<ValueView>) -> Seq<char>
    decreases row.len(),
{
    if row.len() == 0 {
        Seq::empty()
    } else if row.len() == 1 {
        placeholder(row[0])
    } else {
        placeholders(row.drop_last()) + ", "@ + placeholder(row.last())
    }
}

/// The assignments of an edit as they stand in a statement.
pub open spec fn set_clause(changes: Seq<AssignmentView>) -> Seq<char>
    decreases changes.len(),
{
    if changes.len() == 0 {
        Seq::empty()
    } else if changes.len() == 1 {
        changes[0].column.spec_name()@ + " = "@ + placeholder(changes[0].value)
    } else {
        set_clause(changes.drop_last()) + ", "@ + changes.last().column.spec_name()@ + " = "@
            + placeholder(changes.last().value)
    }
}

/// The values of the assignments of an edit.
pub open spec fn assigned(changes: Seq<AssignmentView>) -> Seq<ValueView> {
    changes.map_values(|a: AssignmentView| a.value)
}

/// The text of the statement that edits the row `id` of `table`.
pub open spec fn update_sql(table: Seq<char>, changes: Seq<AssignmentView>) -> Seq<char> {
    "UPDATE "@ + table + " SET "@ + set_clause(changes) + " WHERE id = ? RETURNING *"@
}

/// The names of columns with commas between.
pub open spec fn column_list(columns: Seq<Column>) -> Seq<char>
    decreases columns.len(),
{
    if columns.len() == 0 {
        Seq::empty()
    } else if columns.len() == 1 {
        columns[0].spec_name()@
    } else {
        column_list(columns.drop_last()) + ", "@ + columns.last().spec_name()@
    }
}

/// The beginning of a statement that inserts into `table`.
pub open spec fn insert_head(table: Seq<char>, columns: Seq<Column>) -> Seq<char> {
    "INSERT INTO "@ + table + "("@ + column_list(columns) + ") "@
}

/// Rows as they stand in a statement: each in brackets, with commas
/// between.
pub open spec fn row_list(rows: Seq<Seq<ValueView>>) -> Seq<char>
    decreases rows.len(),
{
    if rows.len() == 0 {
        Seq::empty()
    } else if rows.len() == 1 {
        "("@ + placeholders(rows[0]) + ")"@
    } else {
        row_list(rows.drop_last()) + ", ("@ + placeholders(rows.last()) + ")"@
    }
}

/// What rows bind.
pub open spec fn rows_bound(rows: Seq<Seq<ValueView>>) -> Seq<ValueView>
    decreases rows.len(),
{
    if rows.len() == 0 {
        Seq::empty()
    } else {
        rows_bound(rows.drop_last()) + all_bound(rows.last())
    }
}

/// What a statement says of rows that are there already.
pub open spec fn conflict_clause(conflict: OnConflict) -> Seq<char> {
    match conflict {
        OnConflict::Error => Seq::empty(),
        OnConflict::Ignore(constraint) => " ON CONFLICT"@ + constraint@ + " DO NOTHING "@,
    }
}

/// What ends a statement: whether the rows that it wrote are handed back.
pub open spec fn returning_clause(returning: bool) -> Seq<char> {
    if returning {
        " RETURNING *"@
    } else {
        Seq::empty()
    }
}

/// The text of the statement that inserts `rows` into `table`.
pub open spec fn insert_sql(
    table: Seq<char>,
    columns: Seq<Column>,
    rows: Seq<Seq<ValueView>>,
    conflict: OnConflict,
    returning: bool,
) -> Seq<char> {
    insert_head(table, columns) + "VALUES "@ + row_list(rows) + conflict_clause(conflict)
        + returning_clause(returning)
}

fn push_value(sql: &mut String, binds: &mut Vec<Value>, value: Value)
    ensures
        final(sql)@ == old(sql)@ + placeholder(value@),
        values(final(binds)@) == values(old(binds)@) + bound(value@),
{
    match value {
        Value::UrlInOtherFeed { url, feed_id } => {
            sql.append(
                " (SELECT EXISTS (SELECT url FROM items WHERE url = ? AND feed_id != ?)) ",
            );
            binds.push(Value::Text(url));
            binds.push(Value::Integer(feed_id));
        },
        other => {
            sql.append("?");
            binds.push(other);
        },
    }
}

fn push_row(sql: &mut String, binds: &mut Vec<Value>, row: Vec<Value>)
    ensures
        final(sql)@ == old(sql)@ + placeholders(values(row@)),
        values(final(binds)@) == values(old(binds)@) + all_bound(values(row@)),
{
    let ghost all = values(row@);
    let ghost raw = row@;
    let ghost text = sql@;
    let ghost held = values(binds@);
    let mut first = true;
    for value in it: row
        invariant
            first == (it.index() == 0),
            it.seq() == raw,
            all == values(raw),
            sql@ == text + placeholders(all.take(it.index())),
            values(binds@) == held + all_bound(all.take(it.index())),
    {
        let ghost i = it.index();
        proof {
            assert(all.take(i + 1).drop_last() =~= all.take(i));
        }
        if !first {
            sql.append(", ");
        }
        first = false;
        push_value(sql, binds, value);
    }
    assert(all.take(raw.len() as int) =~= all);
}

/// The statement that edits the row `id` of the table of `T`: it sets what
/// `changes` names and hands back the row as it then is.
pub fn update_statement<T: RssStruct>(id: i64, changes: Vec<Assignment>) -> (s: Statement)
    ensures
        s.sql@ == update_sql(T::spec_table_name(), assignments(changes@)),
        values(s.binds@) == all_bound(assigned(assignments(changes@))).push(ValueView::Integer(id)),
{
    let mut sql = "UPDATE ".to_owned();
    sql.append(T::table_name());
    sql.append(" SET ");
    let mut binds: Vec<Value> = Vec::new();
    let ghost all = assignments(changes@);
    let ghost raw = changes@;
    let ghost head = sql@;
    let mut first = true;
    for change in it: changes
        invariant
            first == (it.index() == 0),
            it.seq() == raw,
            all == assignments(raw),
            head == "UPDATE "@ + T::spec_table_name() + " SET "@,
            sql@ == head + set_clause(all.take(it.index())),
            values(binds@) == all_bound(assigned(all.take(it.index()))),
    {
        let ghost i = it.index();
        proof {
            assert(all.take(i + 1).drop_last() =~= all.take(i));
            assert(assigned(all.take(i + 1)).drop_last() =~= assigned(all.take(i)));
        }
        if !first {
            sql.append(", ");
        }
        first = false;
        sql.append(change.column.name());
        sql.append(" = ");
        push_value(&mut sql, &mut binds, change.value);
    }
    assert(all.take(raw.len() as int) =~= all);
    sql.append(" WHERE id = ? RETURNING *");
    binds.push(Value::Integer(id));
    Statement { sql, binds }
}

/// The beginning of the statement that inserts rows of the kind `I`.
pub fn start_insert<T: RssStruct, I: Insert<T>>(dedupe: bool) -> (sql: String)
    ensures
        sql@ == insert_head(T::spec_table_name(), I::spec_columns(dedupe)),
{
    let mut sql = "INSERT INTO ".to_owned();
    sql.append(T::table_name());
    sql.append("(");
    let columns = I::columns(dedupe);
    let ghost head = sql@;
    let mut i: usize = 0;
    while i < columns.len()
        invariant
            i <= columns.len(),
            columns@ == I::spec_columns(dedupe),
            head == "INSERT INTO "@ + T::spec_table_name() + "("@,
            sql@ == head + column_list(columns@.take(i as int)),
        decreases columns.len() - i,
    {
        proof {
            assert(columns@.take(i + 1).drop_last() =~= columns@.take(i as int));
        }
        if i > 0 {
            sql.append(", ");
        }
        sql.append(columns[i].name());
        i += 1;
    }
    assert(columns@.take(columns.len() as int) =~= columns@);
    sql.append(") ");
    sql
}

/// Adds to a statement what it does with rows that are there already.
pub fn insert_conflict<T: RssStruct, I: Insert<T>>(sql: &mut String)
    ensures
        final(sql)@ == old(sql)@ + conflict_clause(I::spec_on_conflict()),
{
    match I::on_conflict() {
        OnConflict::Error => {
        },
        OnConflict::Ignore(constraint) => {
            sql.append(" ON CONFLICT");
            sql.append(constraint);
            sql.append(" DO NOTHING ");
        },
    }
}

/// The statement that inserts `rows` of the kind `I`, at least one, and
/// hands them back if `returning` holds.
pub fn insert_statement<T: RssStruct, I: Insert<T>>(
    rows: Vec<Vec<Value>>,
    dedupe: bool,
    returning: bool,
) -> (s: Statement)
    ensures
        s.sql@ == insert_sql(
            T::spec_table_name(),
            I::spec_columns(dedupe),
            crate::database::row_views(rows@),
            I::spec_on_conflict(),
            returning,
        ),
        values(s.binds@) == rows_bound(crate::database::row_views(rows@)),
{
    let mut sql = start_insert::<T, I>(dedupe);
    sql.append("VALUES ");
    let mut binds: Vec<Value> = Vec::new();
    let ghost all = crate::database::row_views(rows@);
    let ghost raw = rows@;
    let ghost head = sql@;
    let mut first = true;
    for row in it: rows
        invariant
            first == (it.index() == 0),
            it.seq() == raw,
            all == crate::database::row_views(raw),
            head == insert_head(T::spec_table_name(), I::spec_columns(dedupe)) + "VALUES "@,
            sql@ == head + row_list(all.take(it.index())),
            values(binds@) == rows_bound(all.take(it.index())),
    {
        let ghost i = it.index();
        proof {
            assert(all.take(i + 1).drop_last() =~= all.take(i));
        }
        if !first {
            sql.append(", (");
        } else {
            sql.append("(");
        }
        first = false;
        push_row(&mut sql, &mut binds, row);
        sql.append(")");
    }
    assert(all.take(raw.len() as int) =~= all);
    insert_conflict::<T, I>(&mut sql);
    if returning {
        sql.append(" RETURNING *");
    }
    Statement { sql, binds }
}

} // verus!
