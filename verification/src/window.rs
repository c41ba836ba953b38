//! One pane: the listing of a directory with its cursor, scroll position and
//! sort mode, and the navigation between directories.

use vstd::prelude::*;
use crate::entry::{DirectoryEntry, SortMode};
use crate::names::{child_of, directory_label, join_path, label_of, parent_of, parent_path};
use crate::reading::{DirectoryRead, IoError};
use crate::render::{Area, EntryKind, PaneView, Row, capacity_of, pane_capacity};
use crate::sorting::{is_stable_sort_of, sort_entries_stably};

verus! {

/// The index that a cursor at `selected` falls back to in a listing of `len`
/// entries: itself where it is inside the listing, else the last entry, and 0
/// in an empty listing.
pub open spec fn clamp_index(selected: int, len: int) -> int {
    if selected < len {
        selected
    } else if len >= 1 {
        len - 1
    } else {
        0
    }
}

/// One past the last index that is visible with the given scroll offset and
/// capacity, in a listing of `len` entries (an empty listing counts as one line).
pub open spec fn visible_bound(scroll: int, capacity: int, len: int) -> int {
    let most: int = if len >= 1 { len } else { 1 };
    if scroll + capacity < most {
        scroll + capacity
    } else {
        most
    }
}

/// The scroll offset that a render pass settles on: where the cursor lies
/// beyond the last visible line the offset advances by exactly the overflow;
/// where it then lies above the first visible line the offset retreats to it.
pub open spec fn effective_scroll(selected: int, scroll: int, capacity: int, len: int) -> int {
    let bound: int = visible_bound(scroll, capacity, len);
    let advanced: int = if selected >= bound { scroll + (selected - (bound - 1)) } else { scroll };
    if selected < advanced {
        selected
    } else {
        advanced
    }
}

/// The first entry that a render pass draws.
pub open spec fn visible_start(selected: int, scroll: int, capacity: int, len: int) -> int {
    let offset: int = effective_scroll(selected, scroll, capacity, len);
    if offset < len { offset } else { len }
}

/// One past the last entry that a render pass draws.
pub open spec fn visible_end(selected: int, scroll: int, capacity: int, len: int) -> int {
    let offset: int = effective_scroll(selected, scroll, capacity, len);
    if offset + capacity < len { offset + capacity } else { len }
}

/// After a render pass with room for at least one line the cursor of a
/// non-empty listing lies inside the visible band, and a cursor that was
/// already inside it leaves the scroll offset where it was.
pub proof fn lemma_cursor_stays_visible(selected: int, scroll: int, capacity: int, len: int)
    requires
        0 <= selected < len,
        0 <= scroll,
        1 <= capacity,
    ensures
        effective_scroll(selected, scroll, capacity, len) <= selected,
        selected <= effective_scroll(selected, scroll, capacity, len) + capacity - 1,
        visible_start(selected, scroll, capacity, len) <= selected < visible_end(selected, scroll, capacity, len),
        scroll <= selected <= scroll + capacity - 1 ==> effective_scroll(selected, scroll, capacity, len) == scroll,
        selected > scroll + capacity - 1 ==> effective_scroll(selected, scroll, capacity, len) == scroll + (selected
            - (scroll + capacity - 1)),
        selected < scroll ==> effective_scroll(selected, scroll, capacity, len) == selected,
{
}

/// After a read was taken in, the cursor is on an entry wherever there is
/// one, and a cursor that stood on the first entry, as in every empty listing,
/// stands there again.
pub proof fn lemma_refresh_keeps_cursor_inside(
    before: Window,
    after: Window,
    outcome: Result<DirectoryRead, IoError>,
    r: Result<(), IoError>,
)
    requires
        outcome is Ok,
        Window::refreshed(before, after, outcome, r),
    ensures
        after.wf(),
        after.entries@.len() > 0 ==> 0 <= after.selected < after.entries@.len(),
        before.wf() && before.entries@.len() == 0 ==> after.selected == 0,
        after.selected <= before.selected,
{
}

/// Going on to the next sort mode twice gives a pane its first mode back.
pub proof fn lemma_cycling_twice_restores_mode(first: Window, second: Window, third: Window)
    requires
        Window::sorted_under(first, second, first.sort_mode.spec_next()),
        Window::sorted_under(second, third, second.sort_mode.spec_next()),
    ensures
        second.sort_mode != first.sort_mode,
        third.sort_mode == first.sort_mode,
        third.selected == first.selected,
        third.entries@.len() == first.entries@.len(),
{
}

/// The cursor can move one entry down.
pub open spec fn can_move_down(selected: int, len: int) -> bool {
    selected + 1 < len
}

/// Where the cursor stands after one step down: on the next entry, or where
/// it was when it already stood on the last one.
pub open spec fn selection_after_down(selected: int, len: int) -> int {
    if can_move_down(selected, len) {
        selected + 1
    } else {
        selected
    }
}

/// Where the cursor stands after `times` steps down.
pub open spec fn selection_after_downs(selected: int, len: int, times: nat) -> int
    decreases times,
{
    if times == 0 {
        selected
    } else {
        selection_after_down(selection_after_downs(selected, len, (times - 1) as nat), len)
    }
}

/// Fewer steps down than the listing has entries after the first lead from
/// the first entry to the entry of that number.
pub proof fn lemma_steps_down_from_first(len: int, times: nat)
    requires
        times < len,
    ensures
        selection_after_downs(0, len, times) == times,
    decreases times,
{
    if times > 0 {
        lemma_steps_down_from_first(len, (times - 1) as nat);
    }
}

/// As many steps down from the first entry as the listing has entries end on
/// the last entry, and the last of these steps cannot move the cursor.
pub proof fn lemma_moving_down_stops_at_last(len: nat)
    requires
        len >= 1,
    ensures
        selection_after_downs(0, len as int, len) == len - 1,
        !can_move_down(selection_after_downs(0, len as int, (len - 1) as nat), len as int),
{
    lemma_steps_down_from_first(len as int, (len - 1) as nat);
    assert(selection_after_downs(0, len as int, len) == selection_after_down(
        selection_after_downs(0, len as int, (len - 1) as nat), len as int));
}

/// `at` is the first position of `entries` that holds an entry called `name`.
pub open spec fn is_first_named(entries: Seq<DirectoryEntry>, name: Seq<char>, at: int) -> bool {
    &&& 0 <= at < entries.len()
    &&& entries[at].name@ == name
    &&& forall|j: int| 0 <= j < at ==> (#[trigger] entries[j]).name@ != name
}

/// Some entry of `entries` is called `name`.
pub open spec fn has_named(entries: Seq<DirectoryEntry>, name: Seq<char>) -> bool {
    exists|i: int| 0 <= i < entries.len() && (#[trigger] entries[i]).name@ == name
}

/// Finds the first entry called `name`.
pub fn position_of(entries: &Vec<DirectoryEntry>, name: &String) -> (r: Option<usize>)
    ensures
        match r {
            Some(at) => is_first_named(entries@, name@, at as int),
            None => !has_named(entries@, name@),
        },
{
    let mut i: usize = 0;
    while i < entries.len()
        invariant
            i <= entries@.len(),
            forall|j: int| 0 <= j < i ==> (#[trigger] entries@[j]).name@ != name@,
        decreases entries@.len() - i,
    {
        if entries[i].name == *name {
            return Some(i);
        }
        i = i + 1;
    }
    None
}

/// The mathematical content of a pane.
pub ghost struct WindowData {
    pub path: Seq<char>,
    pub entries: Seq<DirectoryEntry>,
    pub selected: int,
    pub sort_mode: SortMode,
    pub label: Seq<char>,
    pub scroll_offset: int,
}

/// The part of the entries that a render pass draws, with the scroll offset
/// that it settles on.
#[derive(Clone, Copy, Debug, PartialEq, Eq, Structural)]
pub struct VisibleWindow {
    pub scroll_offset: usize,
    pub start: usize,
    pub end: usize,
}

/// A pane: the listing of the directory at `path`.
#[derive(Debug)]
pub struct Window {
    /// The resolved absolute path of the directory shown.
    pub path: String,
    pub entries: Vec<DirectoryEntry>,
    /// The index of the entry under the cursor; 0 in an empty listing.
    pub selected: usize,
    pub sort_mode: SortMode,
    /// The label drawn as the pane's title.
    pub current_dir_name: String,
    /// The index of the first entry drawn.
    pub scroll_y: usize,
}

impl View for Window {
    type V = WindowData;

    open spec fn view(&self) -> WindowData {
        WindowData {
            path: self.path@,
            entries: self.entries@,
            selected: self.selected as int,
            sort_mode: self.sort_mode,
            label: self.current_dir_name@,
            scroll_offset: self.scroll_y as int,
        }
    }
}

impl Clone for Window {
    /// A second pane with the same snapshot; nothing is read again.
    fn clone(&self) -> (r: Window)
        ensures
            r@ == self@,
    {
        Window {
            path: self.path.clone(),
            entries: self.entries.clone(),
            selected: self.selected,
            sort_mode: self.sort_mode,
            current_dir_name: self.current_dir_name.clone(),
            scroll_y: self.scroll_y,
        }
    }
}

impl Window {
    /// The cursor is on an entry, or on 0 in an empty listing.
    pub open spec fn wf(&self) -> bool {
        self.selected as int == clamp_index(self.selected as int, self.entries@.len() as int)
    }

    /// This pane lists what `read` found, sorted under `mode`, scrolled to the top.
    pub open spec fn lists(&self, read: DirectoryRead, mode: SortMode) -> bool {
        &&& self.path@ == read.canonical_path@
        &&& self.current_dir_name@ == label_of(read.canonical_path@)
        &&& is_stable_sort_of(read.entries@, self.entries@, mode)
        &&& self.sort_mode == mode
        &&& self.scroll_y == 0
    }

    /// This pane with another scroll offset.
    pub open spec fn with_scroll(self, scroll_y: usize) -> Window {
        Window { scroll_y, ..self }
    }

    /// This pane with the cursor elsewhere.
    pub open spec fn with_selected(self, selected: usize) -> Window {
        Window { selected, ..self }
    }

    /// The cursor is on a directory.
    pub open spec fn on_directory(&self) -> bool {
        self.selected < self.entries@.len() && self.entries@[self.selected as int].is_directory
    }

    /// Opens a pane on the outcome of reading a directory: a failed read gives
    /// its error and no pane; a successful one gives a pane that lists what was
    /// read, by case-folded name, with the cursor on the first entry.
    pub fn build_from_path_no_symlink(outcome: Result<DirectoryRead, IoError>) -> (r: Result<Window, IoError>)
        ensures
            match outcome {
                Err(e) => r == Err::<Window, IoError>(e),
                Ok(read) => r is Ok && r->Ok_0.lists(read, SortMode::Ungrouped) && r->Ok_0.selected == 0
                    && r->Ok_0.wf(),
            },
    {
        let mut w = Window {
            path: String::new(),
            entries: Vec::new(),
            selected: 0,
            sort_mode: SortMode::Ungrouped,
            current_dir_name: String::new(),
            scroll_y: 0,
        };
        match w.refresh(outcome) {
            Ok(()) => Ok(w),
            Err(e) => Err(e),
        }
    }

    /// Moves the cursor one entry down unless it is on the last one, and says
    /// whether it moved.
    pub fn move_down(&mut self) -> (moved: bool)
        ensures
            moved == can_move_down(old(self).selected as int, old(self).entries@.len() as int),
            final(self).selected == selection_after_down(old(self).selected as int, old(self).entries@.len() as int),
            *final(self) == old(self).with_selected(final(self).selected),
    {
        if self.selected >= self.entries.len() || self.selected + 1 >= self.entries.len() {
            false
        } else {
            self.selected = self.selected + 1;
            true
        }
    }

    /// Moves the cursor one entry up unless it is on the first one, and says
    /// whether it moved.
    pub fn move_up(&mut self) -> (moved: bool)
        ensures
            moved == (old(self).selected > 0),
            final(self).selected == if moved { old(self).selected - 1 } else { 0 },
            *final(self) == old(self).with_selected(final(self).selected),
    {
        if self.selected == 0 {
            false
        } else {
            self.selected = self.selected - 1;
            true
        }
    }

    /// Moves the cursor one step in the direction of `delta`: down where it is
    /// positive, up where it is negative. The cursor stops at either end of the
    /// listing; the result says whether it moved.
    pub fn move_selection(&mut self, delta: i32) -> (moved: bool)
        ensures
            delta > 0 ==> moved == can_move_down(old(self).selected as int, old(self).entries@.len() as int)
                && final(self).selected == selection_after_down(
                old(self).selected as int,
                old(self).entries@.len() as int,
            ),
            delta < 0 ==> moved == (old(self).selected > 0) && final(self).selected == if moved {
                old(self).selected - 1
            } else {
                0
            },
            delta == 0 ==> !moved && final(self).selected == old(self).selected,
            *final(self) == old(self).with_selected(final(self).selected),
            old(self).wf() ==> final(self).wf(),
    {
        if delta > 0 {
            self.move_down()
        } else if delta < 0 {
            self.move_up()
        } else {
            false
        }
    }

    /// The label drawn as the pane's title.
    pub fn current_dir_name(&self) -> (name: &String)
        ensures
            name == &self.current_dir_name,
    {
        &self.current_dir_name
    }

    /// Taking in the outcome of a read takes the pane from `before` to `after`
    /// with the result `r`. A failed read gives its error and leaves the pane as
    /// it was. A successful one replaces the entries by those read, sorted under
    /// the pane's mode, takes the path and the label from the read, scrolls to
    /// the top, and keeps the cursor's index as far as the new listing reaches.
    pub open spec fn refreshed(
        before: Window,
        after: Window,
        outcome: Result<DirectoryRead, IoError>,
        r: Result<(), IoError>,
    ) -> bool {
        match outcome {
            Err(e) => r == Err::<(), IoError>(e) && after == before,
            Ok(read) => {
                &&& r is Ok
                &&& after.lists(read, before.sort_mode)
                &&& after.selected == clamp_index(before.selected as int, read.entries@.len() as int)
            },
        }
    }

    /// Takes in the outcome of reading the pane's directory again. After a
    /// successful read the cursor is on an entry wherever there is one, and it
    /// stays on the first entry where it was there before.
    pub fn refresh(&mut self, outcome: Result<DirectoryRead, IoError>) -> (r: Result<(), IoError>)
        ensures
            Window::refreshed(*old(self), *final(self), outcome, r),
            r is Ok ==> final(self).wf(),
            r is Ok && final(self).entries@.len() > 0 ==> final(self).selected < final(self).entries@.len(),
            r is Ok && old(self).selected == 0 ==> final(self).selected == 0,
            r is Ok <==> outcome is Ok,
    {
        match outcome {
            Err(e) => Err(e),
            Ok(read) => {
                let DirectoryRead { canonical_path, entries } = read;
                self.current_dir_name = directory_label(canonical_path.as_str());
                self.path = canonical_path;
                self.entries = entries;
                if self.selected >= self.entries.len() {
                    self.selected = if self.entries.len() >= 1 { self.entries.len() - 1 } else { 0 };
                }
                self.sort_entries();
                self.scroll_y = 0;
                Ok(())
            },
        }
    }

    /// `after` is `before` with the sort mode set to `mode` and the entries
    /// sorted under it; the cursor keeps its index, not its entry.
    pub open spec fn sorted_under(before: Window, after: Window, mode: SortMode) -> bool {
        &&& is_stable_sort_of(before.entries@, after.entries@, mode)
        &&& after.sort_mode == mode
        &&& after.path == before.path
        &&& after.selected == before.selected
        &&& after.current_dir_name == before.current_dir_name
        &&& after.scroll_y == before.scroll_y
    }

    /// Sorts the entries under the pane's mode. The cursor keeps its index.
    pub fn sort_entries(&mut self)
        ensures
            Window::sorted_under(*old(self), *final(self), old(self).sort_mode),
            old(self).wf() ==> final(self).wf(),
    {
        sort_entries_stably(&mut self.entries, self.sort_mode);
    }

    /// Sets the sort mode and sorts the entries under it at once. The cursor
    /// keeps its index, not its entry.
    pub fn set_sort_mode(&mut self, mode: SortMode)
        ensures
            Window::sorted_under(*old(self), *final(self), mode),
            old(self).wf() ==> final(self).wf(),
    {
        self.sort_mode = mode;
        self.sort_entries();
    }

    /// Goes on to the next sort mode and sorts the entries under it.
    pub fn cycle_sort_mode(&mut self)
        ensures
            Window::sorted_under(*old(self), *final(self), old(self).sort_mode.spec_next()),
            old(self).wf() ==> final(self).wf(),
    {
        let mode: SortMode = self.sort_mode.next();
        self.set_sort_mode(mode);
    }

    /// The part of the entries that a render pass with room for `capacity`
    /// entries draws, and the scroll offset that it settles on. The pane itself
    /// stays as it is.
    pub fn visible_window(&self, capacity: usize) -> (r: VisibleWindow)
        ensures
            r.scroll_offset == effective_scroll(
                self.selected as int,
                self.scroll_y as int,
                capacity as int,
                self.entries@.len() as int,
            ),
            r.start == visible_start(
                self.selected as int,
                self.scroll_y as int,
                capacity as int,
                self.entries@.len() as int,
            ),
            r.end == visible_end(
                self.selected as int,
                self.scroll_y as int,
                capacity as int,
                self.entries@.len() as int,
            ),
            r.start <= r.end <= self.entries@.len(),
    {
        let selected: u128 = self.selected as u128;
        let scroll: u128 = self.scroll_y as u128;
        let room: u128 = capacity as u128;
        let len: u128 = self.entries.len() as u128;
        let most: u128 = if len >= 1 { len } else { 1 };
        let bound: u128 = if scroll + room < most { scroll + room } else { most };
        let advanced: u128 = if selected >= bound { scroll + selected + 1 - bound } else { scroll };
        let offset: u128 = if selected < advanced { selected } else { advanced };
        let start: u128 = if offset < len { offset } else { len };
        let end: u128 = if offset + room < len { offset + room } else { len };
        VisibleWindow { scroll_offset: offset as usize, start: start as usize, end: end as usize }
    }

    /// A render pass over a pane of the given area takes the pane from `before`
    /// to `after` and hands out `view`: the scroll offset settles so that the
    /// cursor is visible and nothing else changes; each visible entry gives one
    /// row, in order, with its kind, with the cursor marked on the selected
    /// entry and highlighted where the pane is the active one.
    pub open spec fn rendered(before: Window, after: Window, view: PaneView, is_selected: bool, area: Area) -> bool {
        let selected: int = before.selected as int;
        let len: int = before.entries@.len() as int;
        let start: int = visible_start(selected, before.scroll_y as int, capacity_of(area), len);
        let end: int = visible_end(selected, before.scroll_y as int, capacity_of(area), len);
        &&& after.scroll_y == effective_scroll(selected, before.scroll_y as int, capacity_of(area), len)
        &&& after == before.with_scroll(after.scroll_y)
        &&& view.title@ == before.current_dir_name@
        &&& view.is_active == is_selected
        &&& view.area == area
        &&& view.rows@.len() == end - start
        &&& forall|i: int| 0 <= i < view.rows@.len() ==> (#[trigger] view.rows@[i]).shows(
                before.entries@[start + i]@,
                start + i == selected,
                is_selected,
            )
    }

    /// Runs a render pass for a pane of the given area: settles the scroll
    /// offset and hands out what is to be drawn.
    pub fn render_to_frame(&mut self, is_selected: bool, area: Area) -> (view: PaneView)
        ensures
            Window::rendered(*old(self), *final(self), view, is_selected, area),
    {
        let visible: VisibleWindow = self.visible_window(pane_capacity(area));
        self.scroll_y = visible.scroll_offset;
        let mut rows: Vec<Row> = Vec::new();
        let mut at: usize = visible.start;
        while at < visible.end
            invariant
                visible.start <= at <= visible.end,
                visible.end <= self.entries@.len(),
                rows@.len() == at - visible.start,
                forall|i: int| 0 <= i < rows@.len() ==> (#[trigger] rows@[i]).shows(
                    self.entries@[visible.start + i]@,
                    visible.start + i == self.selected,
                    is_selected,
                ),
            decreases visible.end - at,
        {
            let entry: &DirectoryEntry = &self.entries[at];
            let kind: EntryKind = if entry.is_symlink {
                EntryKind::Symlink
            } else if entry.is_directory {
                EntryKind::Directory
            } else {
                EntryKind::File
            };
            let is_cursor: bool = at == self.selected;
            rows.push(Row { name: entry.name.clone(), kind, is_cursor, is_highlighted: is_cursor && is_selected });
            at = at + 1;
        }
        PaneView { title: self.current_dir_name.clone(), is_active: is_selected, area, rows }
    }

    /// The path to resolve and read in order to go up: the pane's path with
    /// `..` appended as a segment.
    pub fn ascend_target(&self) -> (target: String)
        ensures
            target@ == parent_of(self.path@),
    {
        parent_path(self.path.as_str())
    }

    /// Going up on the outcome of reading the parent takes the pane from
    /// `before` to `after` with the result `r`. A failed read gives its error
    /// and leaves the pane as it was. A successful one is taken in as by
    /// `refresh`; then the cursor goes to the first entry that bears the label of
    /// the directory that was left, and where there is none it keeps its index
    /// as far as the new listing reaches.
    pub open spec fn ascended(
        before: Window,
        after: Window,
        outcome: Result<DirectoryRead, IoError>,
        r: Result<(), IoError>,
    ) -> bool {
        match outcome {
            Err(e) => r == Err::<(), IoError>(e) && after == before,
            Ok(read) => {
                &&& r is Ok
                &&& after.lists(read, before.sort_mode)
                &&& if has_named(after.entries@, before.current_dir_name@) {
                    is_first_named(after.entries@, before.current_dir_name@, after.selected as int)
                } else {
                    after.selected == clamp_index(before.selected as int, read.entries@.len() as int)
                }
            },
        }
    }

    /// Goes up, given the outcome of reading the directory that `ascend_target`
    /// names.
    pub fn ascend(&mut self, outcome: Result<DirectoryRead, IoError>) -> (r: Result<(), IoError>)
        ensures
            Window::ascended(*old(self), *final(self), outcome, r),
            r is Ok ==> final(self).wf(),
    {
        let left: String = self.current_dir_name.clone();
        match self.refresh(outcome) {
            Err(e) => Err(e),
            Ok(()) => {
                match position_of(&self.entries, &left) {
                    Some(at) => {
                        self.selected = at;
                    },
                    None => {},
                }
                Ok(())
            },
        }
    }

    /// The path to resolve and read in order to go down into the entry under
    /// the cursor; none unless that entry is a directory.
    pub fn descend_target(&self) -> (target: Option<String>)
        ensures
            match target {
                Some(path) => self.on_directory() && path@ == child_of(
                    self.path@,
                    self.entries@[self.selected as int].name@,
                ),
                None => !self.on_directory(),
            },
    {
        if self.selected < self.entries.len() && self.entries[self.selected].is_directory {
            Some(join_path(self.path.as_str(), self.entries[self.selected].name.as_str()))
        } else {
            None
        }
    }

    /// Going down on the outcome of reading the entry under the cursor takes
    /// the pane from `before` to `after` with the result `r`. Unless that entry is
    /// a directory nothing happens; else the outcome is taken in as by `refresh`.
    pub open spec fn descended(
        before: Window,
        after: Window,
        outcome: Result<DirectoryRead, IoError>,
        r: Result<(), IoError>,
    ) -> bool {
        if before.on_directory() {
            Window::refreshed(before, after, outcome, r)
        } else {
            r is Ok && after == before
        }
    }

    /// Goes down into the entry under the cursor, given the outcome of reading
    /// the directory that `descend_target` names.
    pub fn descend(&mut self, outcome: Result<DirectoryRead, IoError>) -> (r: Result<(), IoError>)
        ensures
            Window::descended(*old(self), *final(self), outcome, r),
            r is Ok && old(self).wf() ==> final(self).wf(),
    {
        if self.selected < self.entries.len() && self.entries[self.selected].is_directory {
            self.refresh(outcome)
        } else {
            Ok(())
        }
    }

    /// The absolute path of the entry under the cursor, given the outcome of
    /// resolving the pane's path: the resolved path, a separator and the
    /// entry's name. A failed resolution gives its error.
    pub fn current_selected_absolute_path(&self, canonical: Result<String, IoError>) -> (r: Result<String, IoError>)
        requires
            self.selected < self.entries@.len(),
        ensures
            match canonical {
                Err(e) => r == Err::<String, IoError>(e),
                Ok(base) => r is Ok && r->Ok_0@ == child_of(base@, self.entries@[self.selected as int].name@),
            },
    {
        match canonical {
            Err(e) => Err(e),
            Ok(base) => Ok(join_path(base.as_str(), self.entries[self.selected].name.as_str())),
        }
    }
}

} // verus!
