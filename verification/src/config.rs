//! The program's options and configuration, as plain values.

use vstd::prelude::*;

verus! {

/// What the command line gives.
#[derive(Debug, Clone, PartialEq, Eq)]
pub struct Opt {
    /// Where the configuration is read from, if not from its usual place.
    pub awconf: Option<String>,
    pub file_name: Option<String>,
}

/// The configuration.
#[derive(Debug, Clone, PartialEq, Eq)]
pub struct Config {
    /// The path of the database.
    pub database: String,
    pub host: String,
    pub port: u16,
    pub log_level: String,
    /// The file that the log is written to; the log goes to the terminal
    /// where there is none.
    pub log_file: Option<String>,
    /// Whether an item whose URL another feed holds is marked as read.
    pub dedupe: bool,
}

impl Default for Config {
    fn default() -> (c: Config)
        ensures
            c.database@.len() == 0,
            c.host@.len() == 0,
            c.port == 0,
            c.log_level@.len() == 0,
            c.log_file is None,
            !c.dedupe,
    {
        Config {
            database: String::new(),
            host: String::new(),
            port: 0,
            log_level: String::new(),
            log_file: None,
            dedupe: false,
        }
    }
}

/// A path as it is configured: an empty one means that none is.
pub fn empty_path_is_none(path: String) -> (p: Option<String>)
    ensures
        p == if path@.len() == 0 {
            None
        } else {
            Some(path)
        },
{
    if path.as_str().unicode_len() == 0 {
        None
    } else {
        Some(path)
    }
}

impl Config {
    /// Whether the database is kept in memory, and so lost when the program
    /// ends.
    pub fn in_memory(&self) -> (b: bool)
        ensures
            b == (self.database@ == ":memory:"@),
    {
        crate::text::str_eq(self.database.as_str(), ":memory:")
    }
}

} // verus!
