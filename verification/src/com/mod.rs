//! Types shared by the scheduler, the store and the request handlers.

use vstd::prelude::*;

pub mod category;
pub mod date;
pub mod feed;
pub mod item;

pub use category::Category;
pub use date::UtcDateTime;
pub use feed::Feed;
pub use item::Item;

verus! {

/// A message to the scheduler.
#[derive(Debug, Clone, Copy, PartialEq, Eq, Structural)]
pub enum Action {
    /// Wake every feed that waits out a failure.
    RerunFailing,
    /// Wake one feed.
    Rerun(i64),
    /// The feed's row was created or edited. Only the ID travels, so that the
    /// scheduler reads the row after the edit and never an older copy.
    FeedChanged(i64),
}

/// The result of an edit: the row, and whether the edit changed it.
#[derive(Debug)]
pub enum Outcome<T> {
    NoOp(T),
    Update(T),
}

impl<T> Outcome<T> {
    /// The row, whichever way the edit went.
    pub open spec fn value(self) -> T {
        match self {
            Outcome::NoOp(t) => t,
            Outcome::Update(t) => t,
        }
    }

    pub fn take(self) -> (t: T)
        ensures
            t == self.value(),
    {
        match self {
            Self::NoOp(t) => t,
            Self::Update(t) => t,
        }
    }

    /// Calls `f` on the row if the edit changed it, and hands the outcome on.
    pub fn if_update<F: FnOnce(&T)>(self, f: F) -> (out: Self)
        requires
            self is Update ==> f.requires((&self.value(),)),
        ensures
            out == self,
            self is Update ==> f.ensures((&self.value(),), ()),
    {
        match &self {
            Self::NoOp(_) => {},
            Self::Update(t) => f(t),
        }
        self
    }
}

/// A row of one of the store's tables.
pub trait RssStruct: Sized {
    /// The row's primary key.
    spec fn spec_id(&self) -> i64;

    /// The name of the table that holds such rows.
    spec fn spec_table_name() -> Seq<char>;

    fn id(&self) -> (id: i64)
        ensures
            id == self.spec_id(),
    ;

    fn table_name() -> (name: &'static str)
        ensures
            name@ == Self::spec_table_name(),
    ;
}

/// What an insert does when a row with the same key exists.
#[derive(Debug, Clone, Copy, PartialEq, Eq)]
pub enum OnConflict {
    /// Nothing special: the insert fails.
    Error,
    /// The insert is skipped; the text names the constraint, as in `(feed_id, key)`.
    Ignore(&'static str),
}

/// An error a request handler answers with.
#[derive(Debug)]
pub enum HttpError {
    /// An internal failure, with its report.
    Report(String),
    /// A status code and a fixed message.
    Status(u16, &'static str),
}

/// The status code of a request that the client got wrong.
pub const BAD_REQUEST: u16 = 400;

/// The status code of a failure on the server's side.
pub const INTERNAL_SERVER_ERROR: u16 = 500;

impl HttpError {
    pub fn bad(err: &'static str) -> (e: Self)
        ensures
            e == HttpError::Status(BAD_REQUEST, err),
    {
        Self::Status(BAD_REQUEST, err)
    }

    /// The status code and the text that the error is answered with: those
    /// of the error itself, and for an internal failure its report under
    /// the code of a failure on the server's side.
    pub fn into_response(self) -> (r: (u16, String))
        ensures
            r.0 == self.spec_status(),
            r.1@ == match self {
                HttpError::Report(text) => text@,
                HttpError::Status(_, msg) => msg@,
            },
    {
        match self {
            Self::Report(text) => (INTERNAL_SERVER_ERROR, text),
            Self::Status(code, msg) => (code, msg.to_owned()),
        }
    }

    /// The status code that the error is answered with.
    pub open spec fn spec_status(self) -> u16 {
        match self {
            HttpError::Report(_) => INTERNAL_SERVER_ERROR,
            HttpError::Status(c, _) => c,
        }
    }

    /// The status code that the error is answered with.
    pub fn status(&self) -> (code: u16)
        ensures
            code == self.spec_status(),
    {
        match self {
            Self::Report(_) => INTERNAL_SERVER_ERROR,
            Self::Status(c, _) => *c,
        }
    }
}

/// A text as a client sends it for a field that may be left out: an empty
/// one means that it is.
pub fn empty_string_is_none(s: String) -> (o: Option<String>)
    ensures
        o == if s@.len() == 0 {
            None
        } else {
            Some(s)
        },
{
    if s.as_str().unicode_len() == 0 {
        None
    } else {
        Some(s)
    }
}

/// A column of one of the store's tables.
#[derive(Debug, Clone, Copy, PartialEq, Eq, Structural)]
pub enum Column {
    Url,
    UserTitle,
    CategoryId,
    Disabled,
    Title,
    SiteUrl,
    FailingSince,
    FeedId,
    Key,
    Timestamp,
    Read,
    Name,
    HiddenNav,
    HiddenMain,
}

impl Column {
    /// The column's name in the store.
    pub open spec fn spec_name(self) -> &'static str {
        match self {
            Column::Url => "url",
            Column::UserTitle => "user_title",
            Column::CategoryId => "category_id",
            Column::Disabled => "disabled",
            Column::Title => "title",
            Column::SiteUrl => "site_url",
            Column::FailingSince => "failing_since",
            Column::FeedId => "feed_id",
            Column::Key => "key",
            Column::Timestamp => "timestamp",
            Column::Read => "read",
            Column::Name => "name",
            Column::HiddenNav => "hidden_nav",
            Column::HiddenMain => "hidden_main",
        }
    }

    pub fn name(&self) -> (name: &'static str)
        ensures
            name == self.spec_name(),
    {
        match self {
            Column::Url => "url",
            Column::UserTitle => "user_title",
            Column::CategoryId => "category_id",
            Column::Disabled => "disabled",
            Column::Title => "title",
            Column::SiteUrl => "site_url",
            Column::FailingSince => "failing_since",
            Column::FeedId => "feed_id",
            Column::Key => "key",
            Column::Timestamp => "timestamp",
            Column::Read => "read",
            Column::Name => "name",
            Column::HiddenNav => "hidden_nav",
            Column::HiddenMain => "hidden_main",
        }
    }
}

/// A value written to a column.
#[derive(Debug, Clone, PartialEq, Eq)]
pub enum Value {
    Null,
    Integer(i64),
    Bool(bool),
    Text(String),
    Time(UtcDateTime),
    /// Whether another feed holds an item with the URL `url`: computed by the
    /// store when the row is written.
    UrlInOtherFeed { url: String, feed_id: i64 },
}

/// The mathematical content of `Value`.
pub enum ValueView {
    Null,
    Integer(i64),
    Bool(bool),
    Text(Seq<char>),
    Time(UtcDateTime),
    UrlInOtherFeed { url: Seq<char>, feed_id: i64 },
}

impl View for Value {
    type V = ValueView;

    open spec fn view(&self) -> ValueView {
        match *self {
            Value::Null => ValueView::Null,
            Value::Integer(i) => ValueView::Integer(i),
            Value::Bool(b) => ValueView::Bool(b),
            Value::Text(s) => ValueView::Text(s@),
            Value::Time(t) => ValueView::Time(t),
            Value::UrlInOtherFeed { url, feed_id } => ValueView::UrlInOtherFeed { url: url@, feed_id },
        }
    }
}

/// One column set to one value by an edit.
#[derive(Debug, Clone, PartialEq, Eq)]
pub struct Assignment {
    pub column: Column,
    pub value: Value,
}

/// The mathematical content of `Assignment`.
pub struct AssignmentView {
    pub column: Column,
    pub value: ValueView,
}

impl View for Assignment {
    type V = AssignmentView;

    open spec fn view(&self) -> AssignmentView {
        AssignmentView { column: self.column, value: self.value@ }
    }
}

/// The views of a sequence of assignments.
pub open spec fn assignments(changes: Seq<Assignment>) -> Seq<AssignmentView> {
    changes.map_values(|a: Assignment| a@)
}

/// The views of a sequence of values.
pub open spec fn values(row: Seq<Value>) -> Seq<ValueView> {
    row.map_values(|v: Value| v@)
}

/// The value of an optional integer.
pub open spec fn integer_or_null(i: Option<i64>) -> ValueView {
    match i {
        Some(i) => ValueView::Integer(i),
        None => ValueView::Null,
    }
}

/// The value that the edit `changes` leaves in `column`: what the last
/// assignment to the column sets, and `None` where the edit leaves the
/// column alone.
pub open spec fn set_to(changes: Seq<AssignmentView>, column: Column) -> Option<ValueView>
    decreases changes.len(),
{
    if changes.len() == 0 {
        None
    } else if changes.last().column == column {
        Some(changes.last().value)
    } else {
        set_to(changes.drop_last(), column)
    }
}

/// The outcome of an edit that asks for `changes`: one that changes nothing
/// is a no-op, and nothing is written for it.
pub open spec fn is_noop(changes: Seq<AssignmentView>) -> bool {
    changes.len() == 0
}

/// An edit of a row of the kind `T`.
pub trait Update<T: RssStruct>: Sized {
    /// Why the edit is refused for `row`; `None` where it is allowed.
    spec fn rejection(&self, row: &T) -> Option<Seq<char>>;

    /// What the edit sets in `row`: the columns whose new value differs from
    /// the old one, in the order in which they are written.
    spec fn changes(self, row: &T) -> Seq<AssignmentView>;

    fn validate(&self, row: &T) -> (r: Result<(), HttpError>)
        ensures
            match r {
                Ok(_) => self.rejection(row) is None,
                Err(e) => e matches HttpError::Status(code, msg) && code == BAD_REQUEST
                    && self.rejection(row) == Some(msg@),
            },
    ;

    fn build_updates(self, row: &T) -> (changes: Vec<Assignment>)
        ensures
            assignments(changes@) == self.changes(row),
    ;
}

/// A new row of the kind `T`.
pub trait Insert<T: RssStruct>: Sized {
    /// The columns that the insert fills, with duplicates of a URL in other
    /// feeds marked as read or not.
    spec fn spec_columns(dedupe: bool) -> Seq<Column>;

    /// How many values one row binds, at most; zero where rows are never
    /// inserted in bulk.
    spec fn spec_binds_count_hint() -> usize;

    /// Why the insert is refused; `None` where it is allowed.
    spec fn rejection(&self) -> Option<Seq<char>>;

    /// The values of the row, one for each column.
    spec fn row(self, dedupe: bool) -> Seq<ValueView>;

    fn columns(dedupe: bool) -> (columns: Vec<Column>)
        ensures
            columns@ == Self::spec_columns(dedupe),
    ;

    fn binds_count_hint() -> (hint: usize)
        ensures
            hint == Self::spec_binds_count_hint(),
    ;

    /// What the insert does when the row is there already.
    spec fn spec_on_conflict() -> OnConflict;

    fn on_conflict() -> (c: OnConflict)
        ensures
            c == Self::spec_on_conflict(),
    ;

    fn validate(&self) -> (r: Result<(), HttpError>)
        ensures
            match r {
                Ok(_) => self.rejection() is None,
                Err(e) => e matches HttpError::Status(code, msg) && code == BAD_REQUEST
                    && self.rejection() == Some(msg@),
            },
    ;

    fn push_values(self, dedupe: bool) -> (row: Vec<Value>)
        ensures
            values(row@) == self.row(dedupe),
            row@.len() == Self::spec_columns(dedupe).len(),
    ;
}

} // verus!
