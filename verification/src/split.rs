//! One or two panes side by side, one of them active.

use vstd::prelude::*;
use crate::layout::{are_columns_of, split_columns};
use crate::render::{Area, PaneView};
use crate::window::Window;

verus! {

/// Which of the two panes of a split is the active one.
#[derive(Clone, Copy, Debug, PartialEq, Eq, Structural)]
pub enum WindowSplitSelection {
    First,
    Second,
}

impl WindowSplitSelection {
    /// The other pane.
    pub open spec fn spec_opposite(&self) -> WindowSplitSelection {
        match *self {
            WindowSplitSelection::First => WindowSplitSelection::Second,
            WindowSplitSelection::Second => WindowSplitSelection::First,
        }
    }

    /// The other pane.
    #[verifier::when_used_as_spec(spec_opposite)]
    pub fn opposite(&self) -> (r: WindowSplitSelection)
        ensures
            r == self.spec_opposite(),
    {
        match self {
            WindowSplitSelection::First => WindowSplitSelection::Second,
            WindowSplitSelection::Second => WindowSplitSelection::First,
        }
    }
}

/// A layout of one or two panes. It owns both; `selected` says which one
/// receives the navigation.
#[derive(Debug)]
pub struct WindowSplit {
    pub first: Window,
    pub selected: WindowSplitSelection,
    pub second: Option<Window>,
}

impl WindowSplit {
    /// The second pane is selected only where there is one.
    pub open spec fn wf(&self) -> bool {
        self.selected == WindowSplitSelection::Second ==> self.second is Some
    }

    /// The second pane exists and is the selected one.
    pub open spec fn second_is_active(&self) -> bool {
        self.second is Some && self.selected == WindowSplitSelection::Second
    }

    /// The active pane: the second where it exists and is selected, else the first.
    pub open spec fn active(&self) -> Window {
        if self.second_is_active() {
            self.second->Some_0
        } else {
            self.first
        }
    }

    /// This split with `window` in the place of its active pane.
    pub open spec fn with_active(self, window: Window) -> WindowSplit {
        if self.second_is_active() {
            WindowSplit { second: Some(window), ..self }
        } else {
            WindowSplit { first: window, ..self }
        }
    }

    /// A split of one pane, which is the active one.
    pub fn single_window(w: Window) -> (r: WindowSplit)
        ensures
            r.first == w,
            r.selected == WindowSplitSelection::First,
            r.second is None,
            r.wf(),
    {
        WindowSplit { first: w, selected: WindowSplitSelection::First, second: None }
    }

    /// A split of two panes, the first of them active.
    pub fn two_windows(first: Window, second: Window) -> (r: WindowSplit)
        ensures
            r.first == first,
            r.selected == WindowSplitSelection::First,
            r.second == Some(second),
            r.wf(),
    {
        WindowSplit { first, selected: WindowSplitSelection::First, second: Some(second) }
    }

    /// Switching the active pane takes the split from `before` to `after`: a
    /// missing second pane comes to be as a copy of the first, and the selection
    /// goes to the other pane.
    pub open spec fn toggled(before: WindowSplit, after: WindowSplit) -> bool {
        &&& after.first == before.first
        &&& after.selected == before.selected.spec_opposite()
        &&& match before.second {
            Some(w) => after.second == Some(w),
            None => after.second is Some && after.second->Some_0@ == before.first@,
        }
    }

    /// Switches the active pane. A split of one pane first gets a second pane
    /// with the same snapshot as the first; nothing is read again.
    pub fn toggle_active(&mut self)
        ensures
            WindowSplit::toggled(*old(self), *final(self)),
            final(self).wf(),
    {
        if self.second.is_none() {
            self.second = Some(self.first.clone());
        }
        self.selected = self.selected.opposite();
    }

    /// The active pane.
    pub fn selected(&self) -> (w: &Window)
        ensures
            *w == self.active(),
    {
        match &self.second {
            Some(second_window) => {
                match self.selected {
                    WindowSplitSelection::First => &self.first,
                    WindowSplitSelection::Second => second_window,
                }
            },
            None => &self.first,
        }
    }

    /// The active pane, to be changed in place; the other pane stays as it is.
    pub fn selected_mut(&mut self) -> (w: &mut Window)
        ensures
            *w == old(self).active(),
            *final(self) == old(self).with_active(*final(w)),
    {
        match self.selected {
            WindowSplitSelection::First => &mut self.first,
            WindowSplitSelection::Second => {
                match &mut self.second {
                    Some(second_window) => second_window,
                    None => &mut self.first,
                }
            },
        }
    }

    /// A render pass over the whole area for a split of one pane, and over the
    /// two halves for a split of two, takes the split from `before` to `after`
    /// and hands out `views`, one for each pane, the first pane first. A single
    /// pane is drawn as active.
    pub open spec fn rendered(
        before: WindowSplit,
        after: WindowSplit,
        views: Seq<PaneView>,
        whole: Area,
        halves: (Area, Area),
    ) -> bool {
        &&& after.selected == before.selected
        &&& match before.second {
            None => {
                &&& after.second is None
                &&& views.len() == 1
                &&& Window::rendered(before.first, after.first, views[0], true, whole)
            },
            Some(w) => {
                &&& after.second is Some
                &&& views.len() == 2
                &&& Window::rendered(
                    before.first,
                    after.first,
                    views[0],
                    before.selected == WindowSplitSelection::First,
                    halves.0,
                )
                &&& Window::rendered(
                    w,
                    after.second->Some_0,
                    views[1],
                    before.selected != WindowSplitSelection::First,
                    halves.1,
                )
            },
        }
    }

    /// Runs a render pass with the areas already laid out: a single pane is
    /// drawn over `whole`, two panes over the two `halves`.
    pub fn render_in(&mut self, whole: Area, halves: (Area, Area)) -> (views: Vec<PaneView>)
        ensures
            WindowSplit::rendered(*old(self), *final(self), views@, whole, halves),
    {
        let mut views: Vec<PaneView> = Vec::new();
        let first_is_selected: bool = match self.selected {
            WindowSplitSelection::First => true,
            WindowSplitSelection::Second => false,
        };
        match &mut self.second {
            Some(second_window) => {
                let first_view: PaneView = self.first.render_to_frame(first_is_selected, halves.0);
                let second_view: PaneView = second_window.render_to_frame(!first_is_selected, halves.1);
                views.push(first_view);
                views.push(second_view);
            },
            None => {
                let view: PaneView = self.first.render_to_frame(true, whole);
                views.push(view);
            },
        }
        views
    }

    /// Runs a render pass over `area`. Two panes share the area as two columns
    /// of equal share, laid out by the layout engine; a single pane takes it whole.
    pub fn render_to_frame(&mut self, area: Area) -> (views: Vec<PaneView>)
        ensures
            exists|halves: (Area, Area)| are_columns_of(halves, area) && WindowSplit::rendered(
                *old(self),
                *final(self),
                views@,
                area,
                halves,
            ),
    {
        let halves: (Area, Area) = if self.second.is_some() {
            split_columns(area, 50, 50)
        } else {
            (area, area)
        };
        let views: Vec<PaneView> = self.render_in(area, halves);
        proof {
            assert(are_columns_of(halves, area) && WindowSplit::rendered(*old(self), *self, views@, area, halves));
        }
        views
    }
}

/// After the first switch in a split of one pane the second pane shows the
/// snapshot of the first and is the active one, and whatever then becomes of
/// the active pane, the first pane stays as it was.
pub proof fn lemma_toggle_then_change(before: WindowSplit, switched: WindowSplit, changed: Window)
    requires
        before.second is None,
        before.selected == WindowSplitSelection::First,
        WindowSplit::toggled(before, switched),
    ensures
        switched.selected == WindowSplitSelection::Second,
        switched.second is Some,
        switched.second->Some_0@ == before.first@,
        switched.active() == switched.second->Some_0,
        switched.with_active(changed).first == before.first,
        switched.with_active(changed).second == Some(changed),
        switched.with_active(changed).selected == WindowSplitSelection::Second,
{
}

/// Whatever becomes of the active pane, the other pane of the split and the
/// selection stay as they were.
pub proof fn lemma_change_keeps_other_pane(split: WindowSplit, changed: Window)
    ensures
        split.with_active(changed).selected == split.selected,
        split.with_active(changed).active() == changed,
        split.second_is_active() ==> split.with_active(changed).first == split.first,
        !split.second_is_active() ==> split.with_active(changed).second == split.second,
{
}

/// Switching twice selects the same pane again.
pub proof fn lemma_opposite_involutive(selection: WindowSplitSelection)
    ensures
        selection.spec_opposite() != selection,
        selection.spec_opposite().spec_opposite() == selection,
{
}

} // verus!
