//! Categories and the edits made to them.

use vstd::prelude::*;
use super::{
    assignments, values, Assignment, AssignmentView, Column, HttpError, Insert, OnConflict,
    RssStruct, Update, UtcDateTime, Value, ValueView,
};
use crate::text::{chars_of, decimal, to_decimal};

verus! {

/// A group of feeds: a row of the table of categories.
#[derive(Debug, Clone, PartialEq, Eq)]
pub struct Category {
    pub id: i64,
    /// A disabled category is as good as deleted; it stays so that clients
    /// are not surprised. A new category may take its place.
    pub disabled: bool,
    /// A short name: lower-case letters, digits and hyphens.
    pub name: String,
    pub title: String,
    /// Hidden in the navigation unless open.
    pub hidden_nav: bool,
    /// Left out of the counts of unread items and of the default list.
    pub hidden_main: bool,
    pub commit_timestamp: UtcDateTime,
    /// Categories without a position come last, in the order of their IDs.
    pub sort_position: Option<i64>,
}

impl RssStruct for Category {
    open spec fn spec_id(&self) -> i64 {
        self.id
    }

    open spec fn spec_table_name() -> Seq<char> {
        "categories"@
    }

    fn id(&self) -> (id: i64) {
        self.id
    }

    fn table_name() -> (name: &'static str) {
        "categories"
    }
}

/// A category that a user adds.
#[derive(Debug)]
pub struct UserInsert {
    pub name: String,
    pub title: String,
    pub hidden_nav: bool,
    pub hidden_main: bool,
}

/// What a user may change of a category.
#[derive(Debug)]
pub struct UserEdit {
    pub name: Option<String>,
    pub title: Option<String>,
    pub hidden_nav: Option<bool>,
    pub hidden_main: Option<bool>,
    pub disabled: bool,
}

pub open spec fn is_ascii_lowercase(c: char) -> bool {
    'a' <= c <= 'z'
}

pub open spec fn is_ascii_digit(c: char) -> bool {
    '0' <= c <= '9'
}

/// Whether a character may stand in a category's name.
pub open spec fn is_name_char(c: char) -> bool {
    c == '-' || is_ascii_lowercase(c) || is_ascii_digit(c)
}

/// What is said of a name that does not begin with a lower-case letter.
pub open spec fn bad_start() -> &'static str {
    "Category name must start with a lowercase ASCII character"
}

/// What is said of a name that holds a character it may not hold.
pub open spec fn bad_char() -> &'static str {
    "Category names must only contain lowercase alphanumeric characters and hyphens"
}

/// What is said of an empty title.
pub open spec fn empty_title() -> &'static str {
    "Category title cannot be empty"
}

/// What is said of an edit that would bring a disabled category back.
pub open spec fn no_return() -> &'static str {
    "Categories cannot be re-enabled"
}

/// Why `name` cannot name a category; `None` where it can. A name begins
/// with a lower-case ASCII letter and holds only such letters, digits and
/// hyphens.
pub open spec fn name_rejection(name: Seq<char>) -> Option<Seq<char>> {
    if name.len() == 0 || !is_ascii_lowercase(name[0]) {
        Some(bad_start()@)
    } else if exists|i: int| 0 <= i < name.len() && !is_name_char(#[trigger] name[i]) {
        Some(bad_char()@)
    } else {
        None
    }
}

pub fn validate_name(name: &str) -> (r: Result<(), HttpError>)
    ensures
        match r {
            Ok(_) => name_rejection(name@) is None,
            Err(e) => e matches HttpError::Status(code, msg) && code == super::BAD_REQUEST
                && name_rejection(name@) == Some(msg@),
        },
{
    let chars = chars_of(name);
    if chars.len() == 0 || !('a' <= chars[0] && chars[0] <= 'z') {
        return Err(
            HttpError::bad("Category name must start with a lowercase ASCII character"),
        );
    }
    let mut i: usize = 0;
    while i < chars.len()
        invariant
            i <= chars.len(),
            chars@ == name@,
            chars.len() > 0 && is_ascii_lowercase(chars[0]),
            forall|k: int| 0 <= k < i ==> is_name_char(#[trigger] chars[k]),
        decreases chars.len() - i,
    {
        let c = chars[i];
        if !(c == '-' || ('a' <= c && c <= 'z') || ('0' <= c && c <= '9')) {
            return Err(
                HttpError::bad(
                    "Category names must only contain lowercase alphanumeric characters and hyphens",
                ),
            );
        }
        i += 1;
    }
    Ok(())
}

impl Insert<Category> for UserInsert {
    open spec fn spec_columns(dedupe: bool) -> Seq<Column> {
        seq![Column::Name, Column::Title, Column::HiddenNav, Column::HiddenMain]
    }

    open spec fn spec_on_conflict() -> OnConflict {
        OnConflict::Error
    }

    open spec fn spec_binds_count_hint() -> usize {
        0
    }

    /// A category needs a title and a name that can name it.
    open spec fn rejection(&self) -> Option<Seq<char>> {
        if self.title@.len() == 0 {
            Some(empty_title()@)
        } else {
            name_rejection(self.name@)
        }
    }

    open spec fn row(self, dedupe: bool) -> Seq<ValueView> {
        seq![
            ValueView::Text(self.name@),
            ValueView::Text(self.title@),
            ValueView::Bool(self.hidden_nav),
            ValueView::Bool(self.hidden_main),
        ]
    }

    fn columns(dedupe: bool) -> (columns: Vec<Column>) {
        vec![Column::Name, Column::Title, Column::HiddenNav, Column::HiddenMain]
    }

    fn binds_count_hint() -> (hint: usize) {
        0
    }

    fn on_conflict() -> (c: OnConflict) {
        OnConflict::Error
    }

    fn validate(&self) -> (r: Result<(), HttpError>) {
        if self.title.as_str().unicode_len() == 0 {
            return Err(HttpError::bad("Category title cannot be empty"));
        }
        validate_name(self.name.as_str())
    }

    fn push_values(self, dedupe: bool) -> (row: Vec<Value>) {
        let row = vec![
            Value::Text(self.name),
            Value::Text(self.title),
            Value::Bool(self.hidden_nav),
            Value::Bool(self.hidden_main),
        ];
        row
    }
}

/// An optional flag as a change: set where it is given and differs.
pub open spec fn flag_change(column: Column, new: Option<bool>, old: bool) -> Seq<AssignmentView> {
    match new {
        Some(b) => if b != old {
            seq![AssignmentView { column, value: ValueView::Bool(b) }]
        } else {
            Seq::empty()
        },
        None => Seq::empty(),
    }
}

/// An optional text as a change: set where it is given and differs.
pub open spec fn text_change(column: Column, new: Option<String>, old: Seq<char>) -> Seq<
    AssignmentView,
> {
    match new {
        Some(t) => if t@ != old {
            seq![AssignmentView { column, value: ValueView::Text(t@) }]
        } else {
            Seq::empty()
        },
        None => Seq::empty(),
    }
}

/// What takes the place of the name of a category that is disabled: its ID
/// in decimal. No name is such a text, so the name is free for a new
/// category, and no two disabled categories share one.
pub open spec fn retired_name(id: i64) -> Seq<char> {
    decimal(id as int)
}

impl Update<Category> for UserEdit {
    /// A new name must be able to name a category, a new title must not be
    /// empty, and a disabled category stays disabled.
    open spec fn rejection(&self, row: &Category) -> Option<Seq<char>> {
        if self.name is Some && name_rejection(self.name->0@) is Some {
            name_rejection(self.name->0@)
        } else if self.title is Some && self.title->0@.len() == 0 {
            Some(empty_title()@)
        } else if !self.disabled && row.disabled {
            Some(no_return()@)
        } else {
            None
        }
    }

    /// An edit that disables the category does that and nothing else: the
    /// flag is set and the name given up. Any other edit sets what it names
    /// and what differs.
    open spec fn changes(self, row: &Category) -> Seq<AssignmentView> {
        if self.disabled {
            seq![
                AssignmentView { column: Column::Disabled, value: ValueView::Bool(true) },
                AssignmentView { column: Column::Name, value: ValueView::Text(retired_name(row.id)) },
            ]
        } else {
            text_change(Column::Name, self.name, row.name@) + text_change(
                Column::Title,
                self.title,
                row.title@,
            ) + flag_change(Column::HiddenNav, self.hidden_nav, row.hidden_nav) + flag_change(
                Column::HiddenMain,
                self.hidden_main,
                row.hidden_main,
            )
        }
    }

    fn validate(&self, s: &Category) -> (r: Result<(), HttpError>) {
        if let Some(name) = &self.name {
            match validate_name(name.as_str()) {
                Ok(_) => {},
                Err(e) => {
                    return Err(e);
                },
            }
        }
        if let Some(title) = &self.title {
            if title.as_str().unicode_len() == 0 {
                return Err(HttpError::bad("Category title cannot be empty"));
            }
        }
        if !self.disabled && s.disabled {
            return Err(HttpError::bad("Categories cannot be re-enabled"));
        }
        Ok(())
    }

    fn build_updates(self, s: &Category) -> (changes: Vec<Assignment>) {
        let mut changes: Vec<Assignment> = Vec::new();
        if self.disabled {
            let text = to_decimal(s.id);
            changes.push(Assignment { column: Column::Disabled, value: Value::Bool(true) });
            changes.push(Assignment { column: Column::Name, value: Value::Text(text) });
            return changes;
        }
        if let Some(name) = self.name {
            if !(s.name == name) {
                changes.push(Assignment { column: Column::Name, value: Value::Text(name) });
            }
        }
        if let Some(title) = self.title {
            if !(s.title == title) {
                changes.push(Assignment { column: Column::Title, value: Value::Text(title) });
            }
        }
        if let Some(hnav) = self.hidden_nav {
            if s.hidden_nav != hnav {
                changes.push(Assignment { column: Column::HiddenNav, value: Value::Bool(hnav) });
            }
        }
        if let Some(hmain) = self.hidden_main {
            if s.hidden_main != hmain {
                changes.push(Assignment { column: Column::HiddenMain, value: Value::Bool(hmain) });
            }
        }
        changes
    }
}

} // verus!
