//! What the handlers decide before and after they ask the store.

use vstd::prelude::*;

pub mod add_feed;
pub mod get_items;
pub mod reorder_categories;

verus! {

/// How far behind a client may be and still be told what has changed: one
/// week, in seconds.
pub const MAX_STALENESS_SECS: i64 = 604800;

/// Whether a client that has seen the store's changes up to `since` must
/// load everything anew at `now`: it must if it is more than a week behind.
pub fn must_refresh(since: i64, now: i64) -> (refresh: bool)
    ensures
        refresh == (since + MAX_STALENESS_SECS < now),
{
    (since as i128) + (MAX_STALENESS_SECS as i128) < now as i128
}

} // verus!
