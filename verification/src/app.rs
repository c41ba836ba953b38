//! The workspace: the splits of a session, the active one among them.

use vstd::prelude::*;
use crate::layout::are_columns_of;
use crate::names::child_of;
use crate::reading::IoError;
use crate::render::{Area, PaneView};
use crate::split::{WindowSplit, WindowSplitSelection};
use crate::window::Window;

verus! {

/// The splits of a session and the paths collected in it.
#[derive(Debug)]
pub struct App {
    pub splits: Vec<WindowSplit>,
    /// The index of the active split.
    pub selected_split: usize,
    /// The paths yanked so far, oldest first.
    pub yanked_paths: Vec<String>,
}

impl App {
    /// There is a split to work on.
    pub open spec fn has_active(&self) -> bool {
        self.splits@.len() > 0
    }

    /// The index of the active split: the stored one where it is in range,
    /// else that of the first split.
    pub open spec fn active_index(&self) -> int {
        if self.selected_split < self.splits@.len() {
            self.selected_split as int
        } else {
            0
        }
    }

    /// The active split.
    pub open spec fn active_split(&self) -> WindowSplit {
        self.splits@[self.active_index()]
    }

    /// `after` is `before` with `split` in the place of its active split.
    pub open spec fn replaces_active_split(before: App, after: App, split: WindowSplit) -> bool {
        &&& before.has_active()
        &&& after.splits@ == before.splits@.update(before.active_index(), split)
        &&& after.selected_split == before.selected_split
        &&& after.yanked_paths == before.yanked_paths
    }

    /// `after` is `before` with `window` in the place of its active pane.
    pub open spec fn replaces_active_window(before: App, after: App, window: Window) -> bool {
        App::replaces_active_split(before, after, before.active_split().with_active(window))
    }

    /// A workspace without splits.
    pub fn new() -> (r: App)
        ensures
            r.splits@.len() == 0,
            r.selected_split == 0,
            r.yanked_paths@.len() == 0,
    {
        App { splits: Vec::new(), selected_split: 0, yanked_paths: Vec::new() }
    }

    /// The position of the active split; none in a workspace without splits.
    pub fn selected_index(&self) -> (r: Option<usize>)
        ensures
            match r {
                Some(k) => self.has_active() && k == self.active_index(),
                None => !self.has_active(),
            },
    {
        if self.splits.len() == 0 {
            None
        } else if self.selected_split < self.splits.len() {
            Some(self.selected_split)
        } else {
            Some(0)
        }
    }

    /// The active split; none in a workspace without splits.
    pub fn selected_split(&self) -> (r: Option<&WindowSplit>)
        ensures
            match r {
                Some(split) => self.has_active() && *split == self.active_split(),
                None => !self.has_active(),
            },
    {
        match self.selected_index() {
            Some(k) => Some(&self.splits[k]),
            None => None,
        }
    }

    /// The active split, to be changed in place; none in a workspace without
    /// splits. The other splits stay as they are.
    pub fn selected_split_mut(&mut self) -> (r: Option<&mut WindowSplit>)
        ensures
            match r {
                Some(split) => *split == old(self).active_split() && App::replaces_active_split(
                    *old(self),
                    *final(self),
                    *final(split),
                ),
                None => !old(self).has_active() && *final(self) == *old(self),
            },
    {
        match self.selected_index() {
            Some(k) => Some(&mut self.splits[k]),
            None => None,
        }
    }

    /// The active pane of the active split; none in a workspace without splits.
    pub fn selected_window(&self) -> (r: Option<&Window>)
        ensures
            match r {
                Some(w) => self.has_active() && *w == self.active_split().active(),
                None => !self.has_active(),
            },
    {
        match self.selected_split() {
            Some(split) => Some(split.selected()),
            None => None,
        }
    }

    /// The active pane of the active split, to be changed in place; none in a
    /// workspace without splits. Everything else stays as it is.
    pub fn selected_window_mut(&mut self) -> (r: Option<&mut Window>)
        ensures
            match r {
                Some(w) => *w == old(self).active_split().active() && App::replaces_active_window(
                    *old(self),
                    *final(self),
                    *final(w),
                ),
                None => !old(self).has_active() && *final(self) == *old(self),
            },
    {
        match self.selected_split_mut() {
            Some(split) => Some(split.selected_mut()),
            None => None,
        }
    }

    /// Adds a split of one pane behind the others and hands it out.
    pub fn new_split_single(&mut self, window: Window) -> (r: &mut WindowSplit)
        ensures
            r.first == window,
            r.selected == WindowSplitSelection::First,
            r.second is None,
            final(self).splits@ == old(self).splits@.push(*final(r)),
            final(self).selected_split == old(self).selected_split,
            final(self).yanked_paths == old(self).yanked_paths,
    {
        let split = WindowSplit::single_window(window);
        self.splits.push(split);
        let idx: usize = self.splits.len() - 1;
        &mut self.splits[idx]
    }

    /// Adds a split of two panes behind the others and hands it out.
    pub fn new_split_both(&mut self, first: Window, second: Window) -> (r: &mut WindowSplit)
        ensures
            r.first == first,
            r.selected == WindowSplitSelection::First,
            r.second == Some(second),
            final(self).splits@ == old(self).splits@.push(*final(r)),
            final(self).selected_split == old(self).selected_split,
            final(self).yanked_paths == old(self).yanked_paths,
    {
        let split = WindowSplit::two_windows(first, second);
        self.splits.push(split);
        let idx: usize = self.splits.len() - 1;
        &mut self.splits[idx]
    }

    /// The cursor of the active pane is on an entry.
    pub open spec fn has_selection(&self) -> bool {
        self.has_active() && self.active_split().active().selected < self.active_split().active().entries@.len()
    }

    /// The name of the entry under the cursor of the active pane.
    pub open spec fn selected_name(&self) -> Seq<char> {
        self.active_split().active().entries@[self.active_split().active().selected as int].name@
    }

    /// Yanking on the outcome of resolving the active pane's path takes the
    /// workspace from `before` to `after` with the result `r`. A failed
    /// resolution gives its error and changes nothing. A successful one gives
    /// the absolute path of the entry under the cursor, which is appended to the
    /// yanked paths; nothing else changes.
    pub open spec fn yanked(
        before: App,
        after: App,
        canonical: Result<String, IoError>,
        r: Result<String, IoError>,
    ) -> bool {
        match canonical {
            Err(e) => r == Err::<String, IoError>(e) && after == before,
            Ok(base) => {
                &&& r is Ok
                &&& r->Ok_0@ == child_of(base@, before.selected_name())
                &&& after.yanked_paths@ == before.yanked_paths@.push(r->Ok_0)
                &&& after.splits == before.splits
                &&& after.selected_split == before.selected_split
            },
        }
    }

    /// Records the absolute path of the entry under the cursor of the active
    /// pane among the yanked paths and hands it out, given the outcome of
    /// resolving the pane's path.
    pub fn yank_selected(&mut self, canonical: Result<String, IoError>) -> (r: Result<String, IoError>)
        requires
            old(self).has_selection(),
        ensures
            App::yanked(*old(self), *final(self), canonical, r),
    {
        let k: usize = if self.selected_split < self.splits.len() { self.selected_split } else { 0 };
        match self.splits[k].selected().current_selected_absolute_path(canonical) {
            Ok(path) => {
                self.yanked_paths.push(path.clone());
                Ok(path)
            },
            Err(e) => Err(e),
        }
    }

    /// A render pass over `area` takes the workspace from `before` to `after`
    /// and hands out `views`: the panes of the active split, and nothing in a
    /// workspace without splits. Only the active split changes, as its own
    /// render pass says, with the two halves laid out as `halves`.
    pub open spec fn rendered(before: App, after: App, views: Seq<PaneView>, area: Area, halves: (Area, Area)) -> bool {
        if before.has_active() {
            &&& App::replaces_active_split(before, after, after.active_split())
            &&& WindowSplit::rendered(before.active_split(), after.active_split(), views, area, halves)
        } else {
            after == before && views.len() == 0
        }
    }

    /// Runs a render pass of the active split over `area`.
    pub fn render_to_frame(&mut self, area: Area) -> (views: Vec<PaneView>)
        ensures
            exists|halves: (Area, Area)| are_columns_of(halves, area) && App::rendered(
                *old(self),
                *final(self),
                views@,
                area,
                halves,
            ),
    {
        match self.selected_split_mut() {
            Some(split) => {
                let ghost before: WindowSplit = *split;
                let views: Vec<PaneView> = split.render_to_frame(area);
                proof {
                    let halves: (Area, Area) = choose|halves: (Area, Area)|
                        are_columns_of(halves, area) && WindowSplit::rendered(before, *split, views@, area, halves);
                    assert(are_columns_of(halves, area) && App::rendered(*old(self), *self, views@, area, halves));
                }
                views
            },
            None => {
                proof {
                    assert(are_columns_of((area, area), area) && App::rendered(
                        *old(self),
                        *self,
                        Seq::<PaneView>::empty(),
                        area,
                        (area, area),
                    ));
                }
                Vec::new()
            },
        }
    }
}

} // verus!
