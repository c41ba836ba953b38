//! Directory entries, sort modes and the order that each mode puts on entries.

use vstd::prelude::*;
use crate::names::{chars_precede_or_equal, folded_chars, lex_le, lowercase, lemma_lex_le_both_ways,
    lemma_lex_le_reflexive, lemma_lex_le_total, lemma_lex_le_transitive};

verus! {

/// How a listing orders its entries.
#[derive(Clone, Copy, Debug, PartialEq, Eq, Structural)]
pub enum SortMode {
    /// Directories before everything else, each group by case-folded name.
    DirectoriesFirst,
    /// All entries together, by case-folded name.
    Ungrouped,
}

impl SortMode {
    /// The mode that follows this one in the cycle of modes.
    pub open spec fn spec_next(&self) -> SortMode {
        match *self {
            SortMode::DirectoriesFirst => SortMode::Ungrouped,
            SortMode::Ungrouped => SortMode::DirectoriesFirst,
        }
    }

    /// The mode that follows this one in the cycle of modes.
    #[verifier::when_used_as_spec(spec_next)]
    pub fn next(&self) -> (r: SortMode)
        ensures
            r == self.spec_next(),
    {
        match self {
            SortMode::DirectoriesFirst => SortMode::Ungrouped,
            SortMode::Ungrouped => SortMode::DirectoriesFirst,
        }
    }
}

/// Cycling always changes the mode, and cycling twice gives the first mode back.
pub proof fn lemma_sort_mode_cycle(mode: SortMode)
    ensures
        mode.spec_next() != mode,
        mode.spec_next().spec_next() == mode,
        SortMode::Ungrouped.spec_next() == SortMode::DirectoriesFirst,
        SortMode::DirectoriesFirst.spec_next() == SortMode::Ungrouped,
{
}

/// The mathematical content of a directory entry.
pub ghost struct EntryData {
    pub name: Seq<char>,
    pub is_directory: bool,
    pub is_symlink: bool,
}

/// A snapshot of one child of a directory, taken when the directory was read.
#[derive(Debug)]
pub struct DirectoryEntry {
    pub name: String,
    pub is_directory: bool,
    pub is_symlink: bool,
}

impl View for DirectoryEntry {
    type V = EntryData;

    open spec fn view(&self) -> EntryData {
        EntryData { name: self.name@, is_directory: self.is_directory, is_symlink: self.is_symlink }
    }
}

impl Clone for DirectoryEntry {
    fn clone(&self) -> (r: DirectoryEntry)
        ensures
            r == *self,
    {
        DirectoryEntry {
            name: self.name.clone(),
            is_directory: self.is_directory,
            is_symlink: self.is_symlink,
        }
    }
}

impl DirectoryEntry {
    /// An entry with the given name and flags.
    pub fn new(name: String, is_directory: bool, is_symlink: bool) -> (r: DirectoryEntry)
        ensures
            r.name == name,
            r.is_directory == is_directory,
            r.is_symlink == is_symlink,
    {
        DirectoryEntry { name, is_directory, is_symlink }
    }
}

/// Under `mode`, the two entries fall into different groups.
pub open spec fn in_different_groups(a: EntryData, b: EntryData, mode: SortMode) -> bool {
    mode == SortMode::DirectoriesFirst && a.is_directory != b.is_directory
}

/// `a` may stand before `b` under `mode`: with directories first a directory
/// stands before a non-directory whatever the names; otherwise the case-folded
/// names decide, in lexicographic order by code point.
pub open spec fn entry_le(a: EntryData, b: EntryData, mode: SortMode) -> bool {
    if in_different_groups(a, b, mode) {
        a.is_directory
    } else {
        lex_le(lowercase(a.name), lowercase(b.name))
    }
}

/// Any two entries are comparable under any mode.
pub proof fn lemma_entry_le_total(a: EntryData, b: EntryData, mode: SortMode)
    ensures
        entry_le(a, b, mode) || entry_le(b, a, mode),
{
    lemma_lex_le_total(lowercase(a.name), lowercase(b.name), 0);
}

/// The order of entries under a mode is transitive.
pub proof fn lemma_entry_le_transitive(a: EntryData, b: EntryData, c: EntryData, mode: SortMode)
    requires
        entry_le(a, b, mode),
        entry_le(b, c, mode),
    ensures
        entry_le(a, c, mode),
{
    if !in_different_groups(a, b, mode) && !in_different_groups(b, c, mode) {
        lemma_lex_le_transitive(lowercase(a.name), lowercase(b.name), lowercase(c.name), 0);
    }
}

/// Two entries are equivalent under a mode, each allowed before the other,
/// exactly if their case-folded names are the same and, with directories
/// first, both are directories or neither is.
pub proof fn lemma_equivalent_entries(a: EntryData, b: EntryData, mode: SortMode)
    ensures
        (entry_le(a, b, mode) && entry_le(b, a, mode)) <==> (lowercase(a.name) == lowercase(b.name)
            && !in_different_groups(a, b, mode)),
{
    if !in_different_groups(a, b, mode) {
        if entry_le(a, b, mode) && entry_le(b, a, mode) {
            lemma_lex_le_both_ways(lowercase(a.name), lowercase(b.name), 0);
            assert(lowercase(a.name) =~= lowercase(b.name));
        }
        if lowercase(a.name) == lowercase(b.name) {
            lemma_lex_le_reflexive(lowercase(a.name), 0);
        }
    }
}

/// Decides the order of two entries from their case-folded names and flags.
pub fn folded_entry_le(
    a_folded: &Vec<char>,
    a_is_directory: bool,
    b_folded: &Vec<char>,
    b_is_directory: bool,
    mode: SortMode,
) -> (r: bool)
    ensures
        r == if mode == SortMode::DirectoriesFirst && a_is_directory != b_is_directory {
            a_is_directory
        } else {
            lex_le(a_folded@, b_folded@)
        },
{
    match mode {
        SortMode::DirectoriesFirst => {
            if a_is_directory != b_is_directory {
                return a_is_directory;
            }
        },
        SortMode::Ungrouped => {},
    }
    chars_precede_or_equal(a_folded, b_folded)
}

/// Decides whether `a` may stand before `b` under `mode`.
pub fn entry_precedes_or_equal(a: &DirectoryEntry, b: &DirectoryEntry, mode: SortMode) -> (r: bool)
    ensures
        r == entry_le(a@, b@, mode),
{
    let a_folded: Vec<char> = folded_chars(a.name.as_str());
    let b_folded: Vec<char> = folded_chars(b.name.as_str());
    folded_entry_le(&a_folded, a.is_directory, &b_folded, b.is_directory, mode)
}

} // verus!
