//! Errors of opening the database.
use vstd::prelude::*;

verus! {

/// The class of an error.
#[derive(Copy, Clone, Debug, PartialEq, Eq, Structural)]
pub enum ErrorKind {
    /// The configuration could not be read, or its path is unusable.
    Config,
}

/// Why the database could not be opened. Paths are the raw bytes of a
/// filesystem path.
#[derive(Clone, Debug)]
pub enum Error {
    /// The configuration file named does not exist.
    NoSuchFile { path: Vec<u8> },
    /// The path holds a null byte, first at `position`, so no native string
    /// can carry it.
    InvalidPath { path: Vec<u8>, position: usize },
    /// Reading the configuration failed with a nonzero status; `path` is
    /// `None` for the default location.
    ReadConfig { path: Option<Vec<u8>>, status: i32 },
}

impl Error {
    /// The class of this error: every failure to open is a configuration error.
    pub fn kind(&self) -> (r: ErrorKind)
        ensures
            r == ErrorKind::Config,
    {
        ErrorKind::Config
    }
}

} // verus!
