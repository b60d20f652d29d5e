//! The core of a feed aggregator: the fetch scheduler's state, rules and
//! decisions, and what the store and the request handlers decide around it.
//!
//! Nothing here waits, reads a socket or touches a database. The scheduler
//! is a set of steps on plain values: the program around it performs what a
//! step asks for and hands back what came of it.
//!
//! - `fetcher` holds the scheduler: the hosts on which one fetch runs at a
//!   time, the feeds with a running task, and the cycle of one feed.
//! - `parsing` turns the text of a feed into what is stored of it, and
//!   `markup` measures a text before it is read.
//! - `com` holds the rows of the store and the edits made to them,
//!   `database` what a transaction is asked to do.
//! - `router` holds the rules of the request handlers, `quirks` the
//!   rewrites that some sites need, `links` and `text` what those work on.

pub mod closing;
pub mod com;
pub mod config;
pub mod database;
pub mod fetcher;
pub mod links;
pub mod logger;
pub mod markup;
pub mod parsing;
pub mod quirks;
pub mod router;
pub mod text;
pub mod time;
