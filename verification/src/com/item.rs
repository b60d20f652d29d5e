//! Items and the edits made to them.

use vstd::prelude::*;
use super::{
    assignments, values, Assignment, AssignmentView, Column, HttpError, Insert, OnConflict,
    RssStruct, Update, UtcDateTime, Value, ValueView,
};

verus! {

/// An entry of a feed: a row of the table of items.
#[derive(Debug, Clone, PartialEq, Eq)]
pub struct Item {
    pub id: i64,
    pub feed_id: i64,
    pub title: String,
    pub url: String,
    pub timestamp: UtcDateTime,
    pub read: bool,
    pub commit_timestamp: UtcDateTime,
}

impl RssStruct for Item {
    open spec fn spec_id(&self) -> i64 {
        self.id
    }

    open spec fn spec_table_name() -> Seq<char> {
        "items"@
    }

    fn id(&self) -> (id: i64) {
        self.id
    }

    fn table_name() -> (name: &'static str) {
        "items"
    }
}

/// What a user may change of an item: whether it is read.
#[derive(Debug, Clone, Copy, PartialEq, Eq, Structural)]
pub struct UserEdit {
    pub read: bool,
}

impl Update<Item> for UserEdit {
    open spec fn rejection(&self, row: &Item) -> Option<Seq<char>> {
        None
    }

    open spec fn changes(self, row: &Item) -> Seq<AssignmentView> {
        if row.read != self.read {
            seq![AssignmentView { column: Column::Read, value: ValueView::Bool(self.read) }]
        } else {
            Seq::empty()
        }
    }

    fn validate(&self, _item: &Item) -> (r: Result<(), HttpError>) {
        Ok(())
    }

    fn build_updates(self, item: &Item) -> (changes: Vec<Assignment>) {
        let mut changes: Vec<Assignment> = Vec::new();
        if item.read != self.read {
            changes.push(Assignment { column: Column::Read, value: Value::Bool(self.read) });
        }
        changes
    }
}

/// An item that a fetch has found.
#[derive(Debug, Clone, PartialEq, Eq)]
pub struct ParsedInsert {
    pub feed_id: i64,
    /// What tells the item from the others of its feed.
    pub key: String,
    pub title: String,
    pub url: String,
    pub timestamp: UtcDateTime,
}

/// How many values a found item binds at most.
pub const PARSED_BINDS: usize = 7;

impl Insert<Item> for ParsedInsert {
    open spec fn spec_columns(dedupe: bool) -> Seq<Column> {
        if dedupe {
            seq![
                Column::FeedId,
                Column::Key,
                Column::Title,
                Column::Url,
                Column::Timestamp,
                Column::Read,
            ]
        } else {
            seq![Column::FeedId, Column::Key, Column::Title, Column::Url, Column::Timestamp]
        }
    }

    open spec fn spec_on_conflict() -> OnConflict {
        OnConflict::Ignore("(feed_id, key)")
    }

    open spec fn spec_binds_count_hint() -> usize {
        PARSED_BINDS
    }

    open spec fn rejection(&self) -> Option<Seq<char>> {
        None
    }

    /// With duplicates marked, an item is read from the start if another
    /// feed holds an item with its URL.
    open spec fn row(self, dedupe: bool) -> Seq<ValueView> {
        let plain = seq![
            ValueView::Integer(self.feed_id),
            ValueView::Text(self.key@),
            ValueView::Text(self.title@),
            ValueView::Text(self.url@),
            ValueView::Time(self.timestamp),
        ];
        if dedupe {
            plain.push(ValueView::UrlInOtherFeed { url: self.url@, feed_id: self.feed_id })
        } else {
            plain
        }
    }

    fn columns(dedupe: bool) -> (columns: Vec<Column>) {
        let mut columns = vec![
            Column::FeedId,
            Column::Key,
            Column::Title,
            Column::Url,
            Column::Timestamp,
        ];
        if dedupe {
            columns.push(Column::Read);
        }
        columns
    }

    fn binds_count_hint() -> (hint: usize) {
        PARSED_BINDS
    }

    /// An item that its feed already holds is skipped.
    fn on_conflict() -> (c: OnConflict) {
        OnConflict::Ignore("(feed_id, key)")
    }

    fn validate(&self) -> (r: Result<(), HttpError>) {
        Ok(())
    }

    fn push_values(self, dedupe: bool) -> (row: Vec<Value>) {
        let seen = if dedupe {
            Some(Value::UrlInOtherFeed { url: self.url.clone(), feed_id: self.feed_id })
        } else {
            None
        };
        let mut row = vec![
            Value::Integer(self.feed_id),
            Value::Text(self.key),
            Value::Text(self.title),
            Value::Text(self.url),
            Value::Time(self.timestamp),
        ];
        if let Some(seen) = seen {
            row.push(seen);
        }
        row
    }
}

} // verus!
