//! The view of a pane that a renderer draws: plain values derived from state.

use vstd::prelude::*;
use crate::entry::EntryData;

verus! {

/// A rectangle of terminal cells.
#[derive(Clone, Copy, Debug, PartialEq, Eq, Structural)]
pub struct Area {
    pub x: u16,
    pub y: u16,
    pub width: u16,
    pub height: u16,
}

/// What kind of entry a row shows; it decides the row's colour.
#[derive(Clone, Copy, Debug, PartialEq, Eq, Structural)]
pub enum EntryKind {
    Symlink,
    Directory,
    File,
}

/// The kind under which an entry is drawn: a symlink as such, whatever it
/// points to, then a directory, then anything else.
pub open spec fn kind_of(entry: EntryData) -> EntryKind {
    if entry.is_symlink {
        EntryKind::Symlink
    } else if entry.is_directory {
        EntryKind::Directory
    } else {
        EntryKind::File
    }
}

/// One visible line of a pane.
#[derive(Debug)]
pub struct Row {
    pub name: String,
    pub kind: EntryKind,
    /// The cursor of the pane is on this row.
    pub is_cursor: bool,
    /// The cursor is on this row and the pane is the active one.
    pub is_highlighted: bool,
}

impl Row {
    /// The row draws `entry`, with the cursor on it as `is_cursor` says, in a
    /// pane that is active as `pane_is_active` says.
    pub open spec fn shows(&self, entry: EntryData, is_cursor: bool, pane_is_active: bool) -> bool {
        &&& self.name@ == entry.name
        &&& self.kind == kind_of(entry)
        &&& self.is_cursor == is_cursor
        &&& self.is_highlighted == (is_cursor && pane_is_active)
    }
}

/// Everything a renderer needs to draw one pane.
#[derive(Debug)]
pub struct PaneView {
    pub title: String,
    pub is_active: bool,
    pub area: Area,
    pub rows: Vec<Row>,
}

/// How many entries fit into a pane of the given area: its height without the
/// two border lines.
pub open spec fn capacity_of(area: Area) -> int {
    if area.height >= 2 {
        area.height - 2
    } else {
        0
    }
}

/// Computes how many entries fit into a pane of the given area.
pub fn pane_capacity(area: Area) -> (capacity: usize)
    ensures
        capacity == capacity_of(area),
{
    if area.height >= 2 {
        (area.height - 2) as usize
    } else {
        0
    }
}

} // verus!
