//! What a directory read hands to the browser: the entries found, or the
//! reason why the directory could not be read.

use vstd::prelude::*;
use crate::entry::DirectoryEntry;

verus! {

/// Why a directory could not be read or a path could not be resolved.
#[derive(Clone, Copy, Debug, PartialEq, Eq, Structural)]
pub enum IoError {
    NotFound,
    PermissionDenied,
    NotADirectory,
    Other,
}

/// The result of reading one directory: its resolved absolute path and its
/// children in the order in which they were read.
#[derive(Debug)]
pub struct DirectoryRead {
    pub canonical_path: String,
    pub entries: Vec<DirectoryEntry>,
}

impl DirectoryRead {
    /// A read of the directory at `canonical_path` that found `entries`.
    pub fn new(canonical_path: String, entries: Vec<DirectoryEntry>) -> (r: DirectoryRead)
        ensures
            r.canonical_path == canonical_path,
            r.entries == entries,
    {
        DirectoryRead { canonical_path, entries }
    }
}

} // verus!
