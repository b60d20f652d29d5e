//! Feeds and the edits made to them.

use vstd::prelude::*;
use super::{
    assignments, integer_or_null, set_to, values, Assignment, AssignmentView, Column, HttpError,
    Insert, OnConflict, RssStruct, Update, UtcDateTime, Value, ValueView,
};
use crate::fetcher::host::{is_command, is_command_line};
use crate::quirks::{site_url, site_url_of};
use crate::text::{chars_of, decimal, string_of, to_decimal};
use vstd::string::StringExecFns;

verus! {

/// A subscribed source: a row of the table of feeds.
#[derive(Debug, Clone, PartialEq, Eq)]
pub struct Feed {
    pub id: i64,
    /// Where the feed is fetched from: a URL, or `!` and a command line.
    pub url: String,
    pub disabled: bool,
    pub title: String,
    pub site_url: String,
    pub user_title: String,
    pub category_id: Option<i64>,
    /// When the current run of failures began, if the feed is failing.
    pub failing_since: Option<UtcDateTime>,
    pub commit_timestamp: UtcDateTime,
    pub create_timestamp: UtcDateTime,
}

impl RssStruct for Feed {
    open spec fn spec_id(&self) -> i64 {
        self.id
    }

    open spec fn spec_table_name() -> Seq<char> {
        "feeds"@
    }

    fn id(&self) -> (id: i64) {
        self.id
    }

    fn table_name() -> (name: &'static str) {
        "feeds"
    }
}

/// How many characters of a feed's title the log shows.
pub const SHOWN_TITLE: usize = 20;

/// The title that a feed goes by: the one that the user gave, else its own.
pub open spec fn shown_title(feed: Feed) -> Seq<char> {
    let title = if feed.user_title@.len() == 0 {
        feed.title@
    } else {
        feed.user_title@
    };
    if title.len() > SHOWN_TITLE {
        title.take(SHOWN_TITLE as int)
    } else {
        title
    }
}

/// A feed as the log shows it: ID, source and the beginning of the title,
/// and whether it is disabled.
pub open spec fn feed_label(feed: Feed) -> Seq<char> {
    "[Feed "@ + decimal(feed.id as int) + ": "@ + feed.url@ + " ("@ + shown_title(feed) + ")"@
        + if feed.disabled {
        " disabled"@
    } else {
        Seq::empty()
    } + "]"@
}

impl Feed {
    /// The feed as the log shows it.
    pub fn label(&self) -> (text: String)
        ensures
            text@ == feed_label(*self),
    {
        let title = if self.user_title.as_str().unicode_len() == 0 {
            chars_of(self.title.as_str())
        } else {
            chars_of(self.user_title.as_str())
        };
        let shown = if title.len() > SHOWN_TITLE {
            string_of(&title, 0, SHOWN_TITLE)
        } else {
            string_of(&title, 0, title.len())
        };
        let mut text = "[Feed ".to_owned();
        text.append(to_decimal(self.id).as_str());
        text.append(": ");
        text.append(self.url.as_str());
        text.append(" (");
        text.append(shown.as_str());
        text.append(")");
        if self.disabled {
            text.append(" disabled");
        }
        text.append("]");
        text
    }
}

/// The edit that marks a feed as failing since a point in time.
#[derive(Debug, Clone, Copy, PartialEq, Eq, Structural)]
pub struct Failing {
    pub since: UtcDateTime,
}

/// What a user may change of a feed.
#[derive(Debug)]
pub struct UserEdit {
    pub category_id: Option<i64>,
    pub clear_category: bool,
    pub disabled: Option<bool>,
    pub user_title: Option<String>,
}

/// What a fetch has found of the feed itself.
#[derive(Debug)]
pub struct ParsedUpdate {
    pub title: String,
    pub link: Option<String>,
}

/// A feed that a user adds.
#[derive(Debug)]
pub struct UserInsert {
    pub url: String,
    pub user_title: String,
    pub category_id: Option<i64>,
}

/// `changes` and one assignment more.
pub open spec fn and_set(changes: Seq<AssignmentView>, column: Column, value: ValueView) -> Seq<
    AssignmentView,
> {
    changes.push(AssignmentView { column, value })
}

/// What a user's edit sets of the category.
pub open spec fn category_change(edit: UserEdit, feed: &Feed) -> Seq<AssignmentView> {
    match edit.category_id {
        Some(cat) => if feed.category_id != Some(cat) {
            seq![AssignmentView { column: Column::CategoryId, value: ValueView::Integer(cat) }]
        } else {
            Seq::empty()
        },
        None => if edit.clear_category && feed.category_id is Some {
            seq![AssignmentView { column: Column::CategoryId, value: ValueView::Null }]
        } else {
            Seq::empty()
        },
    }
}

/// What a user's edit sets of the flag that disables the feed.
pub open spec fn disabled_change(edit: UserEdit, feed: &Feed) -> Seq<AssignmentView> {
    match edit.disabled {
        Some(d) => if d != feed.disabled {
            seq![AssignmentView { column: Column::Disabled, value: ValueView::Bool(d) }]
        } else {
            Seq::empty()
        },
        None => Seq::empty(),
    }
}

/// What a user's edit sets of the title that the user gave.
pub open spec fn user_title_change(edit: UserEdit, feed: &Feed) -> Seq<AssignmentView> {
    match edit.user_title {
        Some(t) => if t@ != feed.user_title@ {
            seq![AssignmentView { column: Column::UserTitle, value: ValueView::Text(t@) }]
        } else {
            Seq::empty()
        },
        None => Seq::empty(),
    }
}

impl Update<Feed> for UserEdit {
    open spec fn rejection(&self, row: &Feed) -> Option<Seq<char>> {
        None
    }

    open spec fn changes(self, row: &Feed) -> Seq<AssignmentView> {
        category_change(self, row) + disabled_change(self, row) + user_title_change(self, row)
    }

    fn validate(&self, _feed: &Feed) -> (r: Result<(), HttpError>) {
        Ok(())
    }

    fn build_updates(self, feed: &Feed) -> (changes: Vec<Assignment>) {
        let mut changes: Vec<Assignment> = Vec::new();
        if let Some(cat) = self.category_id {
            if feed.category_id != Some(cat) {
                changes.push(Assignment { column: Column::CategoryId, value: Value::Integer(cat) });
            }
        } else if self.clear_category && feed.category_id.is_some() {
            changes.push(Assignment { column: Column::CategoryId, value: Value::Null });
        }
        if let Some(disable) = self.disabled {
            if disable != feed.disabled {
                changes.push(Assignment { column: Column::Disabled, value: Value::Bool(disable) });
            }
        }
        if let Some(ut) = self.user_title {
            if !(ut == feed.user_title) {
                changes.push(Assignment { column: Column::UserTitle, value: Value::Text(ut) });
            }
        }
        changes
    }
}

/// What a fetch sets of the feed's title.
pub open spec fn title_change(update: ParsedUpdate, feed: &Feed) -> Seq<AssignmentView> {
    if update.title@ != feed.title@ {
        seq![AssignmentView { column: Column::Title, value: ValueView::Text(update.title@) }]
    } else {
        Seq::empty()
    }
}

/// What a fetch sets of the address of the feed's site: the link that the
/// feed names, rewritten for its site, where it differs from what is stored;
/// for a feed that names none and has none stored, the feed's own URL, unless
/// the feed is a command.
pub open spec fn site_change(update: ParsedUpdate, feed: &Feed) -> Seq<AssignmentView> {
    match update.link {
        Some(link) => if site_url_of(link@, feed.url@) != feed.site_url@ {
            seq![
                AssignmentView {
                    column: Column::SiteUrl,
                    value: ValueView::Text(site_url_of(link@, feed.url@)),
                },
            ]
        } else {
            Seq::empty()
        },
        None => if feed.site_url@.len() == 0 && !is_command(feed.url@) {
            seq![AssignmentView { column: Column::SiteUrl, value: ValueView::Text(feed.url@) }]
        } else {
            Seq::empty()
        },
    }
}

/// What a fetch sets of the mark of failure: a fetch that brought content
/// clears a mark that is set.
pub open spec fn recovery_change(feed: &Feed) -> Seq<AssignmentView> {
    if feed.failing_since is Some {
        seq![AssignmentView { column: Column::FailingSince, value: ValueView::Null }]
    } else {
        Seq::empty()
    }
}

impl Update<Feed> for ParsedUpdate {
    open spec fn rejection(&self, row: &Feed) -> Option<Seq<char>> {
        None
    }

    open spec fn changes(self, row: &Feed) -> Seq<AssignmentView> {
        title_change(self, row) + site_change(self, row) + recovery_change(row)
    }

    fn validate(&self, _feed: &Feed) -> (r: Result<(), HttpError>) {
        Ok(())
    }

    fn build_updates(self, feed: &Feed) -> (changes: Vec<Assignment>) {
        let mut changes: Vec<Assignment> = Vec::new();
        if !(self.title == feed.title) {
            changes.push(Assignment { column: Column::Title, value: Value::Text(self.title) });
        }
        if let Some(link) = self.link {
            let link = site_url(link, feed);
            if !(link == feed.site_url) {
                changes.push(Assignment { column: Column::SiteUrl, value: Value::Text(link) });
            }
        } else if feed.site_url.as_str().unicode_len() == 0 && !is_command_line(feed.url.as_str()) {
            changes.push(
                Assignment { column: Column::SiteUrl, value: Value::Text(feed.url.clone()) },
            );
        }
        if feed.failing_since.is_some() {
            changes.push(Assignment { column: Column::FailingSince, value: Value::Null });
        }
        changes
    }
}

impl Update<Feed> for Failing {
    open spec fn rejection(&self, row: &Feed) -> Option<Seq<char>> {
        None
    }

    /// The mark is set only where none is: the start of a run of failures
    /// stays on record while the run lasts.
    open spec fn changes(self, row: &Feed) -> Seq<AssignmentView> {
        if row.failing_since is None {
            seq![AssignmentView { column: Column::FailingSince, value: ValueView::Time(self.since) }]
        } else {
            Seq::empty()
        }
    }

    fn validate(&self, _feed: &Feed) -> (r: Result<(), HttpError>) {
        Ok(())
    }

    fn build_updates(self, s: &Feed) -> (changes: Vec<Assignment>) {
        let mut changes: Vec<Assignment> = Vec::new();
        if s.failing_since.is_none() {
            changes.push(Assignment { column: Column::FailingSince, value: Value::Time(self.since) });
        }
        changes
    }
}

impl Insert<Feed> for UserInsert {
    open spec fn spec_columns(dedupe: bool) -> Seq<Column> {
        seq![Column::Url, Column::UserTitle, Column::CategoryId]
    }

    open spec fn spec_on_conflict() -> OnConflict {
        OnConflict::Error
    }

    open spec fn spec_binds_count_hint() -> usize {
        0
    }

    open spec fn rejection(&self) -> Option<Seq<char>> {
        None
    }

    open spec fn row(self, dedupe: bool) -> Seq<ValueView> {
        seq![
            ValueView::Text(self.url@),
            ValueView::Text(self.user_title@),
            integer_or_null(self.category_id),
        ]
    }

    fn columns(dedupe: bool) -> (columns: Vec<Column>) {
        vec![Column::Url, Column::UserTitle, Column::CategoryId]
    }

    fn binds_count_hint() -> (hint: usize) {
        0
    }

    fn on_conflict() -> (c: OnConflict) {
        OnConflict::Error
    }

    fn validate(&self) -> (r: Result<(), HttpError>) {
        Ok(())
    }

    fn push_values(self, dedupe: bool) -> (row: Vec<Value>) {
        let category = match self.category_id {
            Some(c) => Value::Integer(c),
            None => Value::Null,
        };
        let row = vec![Value::Text(self.url), Value::Text(self.user_title), category];
        row
    }
}

/// The mark of failure that a feed's row holds after an edit that asks for
/// `changes`.
pub open spec fn failing_since_after(feed: &Feed, changes: Seq<AssignmentView>) -> Option<
    UtcDateTime,
> {
    match set_to(changes, Column::FailingSince) {
        Some(ValueView::Time(t)) => Some(t),
        Some(_) => None,
        None => feed.failing_since,
    }
}

/// The mark of failure is written once in a run of failures: the first
/// failure sets it, and a failure of a feed that is marked writes nothing.
pub proof fn lemma_failing_since_written_once(feed: &Feed, marked: &Feed, first: Failing, later: Failing)
    requires
        feed.failing_since is None,
        marked.failing_since == failing_since_after(feed, first.changes(feed)),
    ensures
        marked.failing_since == Some(first.since),
        later.changes(marked) == Seq::<AssignmentView>::empty(),
        failing_since_after(marked, later.changes(marked)) == Some(first.since),
{
    let changes = first.changes(feed);
    assert(changes.last().column == Column::FailingSince);
}

/// A failure never clears the mark of failure, and a fetch that brought
/// content clears it.
pub proof fn lemma_failing_since_cleared_by_success(feed: &Feed, failure: Failing, update: ParsedUpdate)
    ensures
        feed.failing_since is Some ==> failing_since_after(feed, failure.changes(feed))
            == feed.failing_since,
        failing_since_after(feed, failure.changes(feed)) is Some,
        failing_since_after(feed, update.changes(feed)) is None,
{
    let marks = failure.changes(feed);
    if feed.failing_since is None {
        assert(marks.last().column == Column::FailingSince);
    }
    let changes = update.changes(feed);
    if feed.failing_since is Some {
        assert(changes.last() == AssignmentView {
            column: Column::FailingSince,
            value: ValueView::Null,
        });
    } else {
        lemma_not_set(title_change(update, feed) + site_change(update, feed));
        assert(changes =~= title_change(update, feed) + site_change(update, feed));
    }
}

/// An edit that sets only the title and the site's address leaves the mark
/// of failure alone.
proof fn lemma_not_set(changes: Seq<AssignmentView>)
    requires
        forall|i: int| 0 <= i < changes.len() ==> (#[trigger] changes[i]).column != Column::FailingSince,
    ensures
        set_to(changes, Column::FailingSince) is None,
    decreases changes.len(),
{
    if changes.len() > 0 {
        assert(changes.last() == changes[changes.len() - 1]);
        assert forall|i: int| 0 <= i < changes.drop_last().len() implies (#[trigger] changes.drop_last()[i]).column
            != Column::FailingSince by {
            assert(changes.drop_last()[i] == changes[i]);
        }
        lemma_not_set(changes.drop_last());
    }
}

} // verus!
