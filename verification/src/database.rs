//! Where the variable store lives.

use vstd::prelude::*;

verus! {

/// The place that stands for a store kept in memory.
pub const MEMORY_PATH: &'static str = "MEMORY";

/// The place of the store unless told otherwise.
pub const DEFAULT_PATH: &'static str = "./db.db3";

/// The place of a variable store.
#[derive(Debug)]
pub struct Database {
    pub path: String,
}

/// The place that is chosen: the one that was asked for, else the one that
/// the environment names, else the default.
pub open spec fn chosen_path(path: Option<String>, environment: Option<String>) -> Seq<char> {
    match path {
        Some(p) => p@,
        None => match environment {
            Some(e) => e@,
            None => DEFAULT_PATH@,
        },
    }
}

impl Database {
    /// The store at the place that is chosen from what was asked for and
    /// what the environment names.
    pub fn connect(path: Option<String>, environment: Option<String>) -> (r: Database)
        ensures
            r.path@ == chosen_path(path, environment),
    {
        let path = match path {
            Some(path) => path,
            None => match environment {
                Some(value) => value,
                None => Database::default_path(),
            },
        };
        Database { path }
    }

    /// Whether the store is kept in memory.
    pub fn in_memory(&self) -> (r: bool)
        ensures
            r == (self.path@ == MEMORY_PATH@),
    {
        self.path == Database::memory_path()
    }

    /// The place that stands for a store kept in memory.
    pub fn memory_path() -> (r: String)
        ensures
            r@ == MEMORY_PATH@,
    {
        MEMORY_PATH.to_string()
    }

    /// The place of the store unless told otherwise.
    pub fn default_path() -> (r: String)
        ensures
            r@ == DEFAULT_PATH@,
    {
        DEFAULT_PATH.to_string()
    }
}

} // verus!
