//! What each key does to the workspace.

use vstd::prelude::*;
use crate::app::App;
use crate::names::{child_of, parent_of};
use crate::split::WindowSplit;
use crate::window::{Window, selection_after_down};

verus! {

/// The keys that the browser tells apart.
#[derive(Clone, Copy, Debug, PartialEq, Eq, Structural)]
pub enum Key {
    Tab,
    Char(char),
    Other,
}

/// Whether a key went down, is held, or came up.
#[derive(Clone, Copy, Debug, PartialEq, Eq, Structural)]
pub enum KeyKind {
    Press,
    Repeat,
    Release,
}

/// What the user can ask of the browser.
#[derive(Clone, Copy, Debug, PartialEq, Eq, Structural)]
pub enum Action {
    Quit,
    SwitchPane,
    CycleSortMode,
    MoveUp,
    MoveDown,
    Descend,
    Ascend,
    Yank,
}

/// What is left to do outside after a key was handled.
#[derive(Debug)]
pub enum Step {
    /// Leave the browser.
    Quit,
    /// Nothing.
    Done,
    /// Resolve and read the directory of this path, and hand the outcome to
    /// the active pane's `ascend`.
    ReadParent(String),
    /// Resolve and read the directory of this path, and hand the outcome to
    /// the active pane's `descend`.
    ReadChild(String),
    /// Resolve this path and hand the outcome to the workspace's `yank_selected`.
    ResolveSelected(String),
}

/// The action bound to a key event: only presses count, and only of the keys
/// that have a meaning.
pub open spec fn action_for(key: Key, kind: KeyKind) -> Option<Action> {
    if kind != KeyKind::Press {
        None
    } else {
        match key {
            Key::Tab => Some(Action::SwitchPane),
            Key::Char(c) => if c == 'q' {
                Some(Action::Quit)
            } else if c == 'm' {
                Some(Action::CycleSortMode)
            } else if c == 'h' {
                Some(Action::Ascend)
            } else if c == 'l' {
                Some(Action::Descend)
            } else if c == 'j' {
                Some(Action::MoveDown)
            } else if c == 'k' {
                Some(Action::MoveUp)
            } else if c == 'y' {
                Some(Action::Yank)
            } else {
                None
            },
            Key::Other => None,
        }
    }
}

/// Finds the action bound to a key event.
pub fn action_of(key: Key, kind: KeyKind) -> (action: Option<Action>)
    ensures
        action == action_for(key, kind),
{
    match kind {
        KeyKind::Press => {},
        KeyKind::Repeat => { return None; },
        KeyKind::Release => { return None; },
    }
    match key {
        Key::Tab => Some(Action::SwitchPane),
        Key::Char(c) => {
            if c == 'q' {
                Some(Action::Quit)
            } else if c == 'm' {
                Some(Action::CycleSortMode)
            } else if c == 'h' {
                Some(Action::Ascend)
            } else if c == 'l' {
                Some(Action::Descend)
            } else if c == 'j' {
                Some(Action::MoveDown)
            } else if c == 'k' {
                Some(Action::MoveUp)
            } else if c == 'y' {
                Some(Action::Yank)
            } else {
                None
            }
        },
        Key::Other => None,
    }
}

/// Carrying out `action` takes the workspace from `before` to `after` and
/// leaves `step` to do. Quitting changes nothing. Every other action works on
/// the active pane of the active split and does nothing without one. Switching
/// the pane, cycling the sort mode and moving the cursor change the workspace
/// at once. Going up, going down and yanking need the file system: they change
/// nothing yet and name the path to resolve; going down asks for nothing
/// unless the cursor is on a directory, yanking asks for nothing unless the
/// cursor is on an entry.
pub open spec fn carried_out(before: App, after: App, action: Action, step: Step) -> bool {
    if action == Action::Quit {
        after == before && step is Quit
    } else if !before.has_active() {
        after == before && step is Done
    } else {
        let split: WindowSplit = before.active_split();
        let w: Window = split.active();
        match action {
            Action::Quit => true,
            Action::SwitchPane => {
                &&& step is Done
                &&& App::replaces_active_split(before, after, after.active_split())
                &&& WindowSplit::toggled(split, after.active_split())
            },
            Action::CycleSortMode => {
                &&& step is Done
                &&& App::replaces_active_window(before, after, after.active_split().active())
                &&& Window::sorted_under(w, after.active_split().active(), w.sort_mode.spec_next())
            },
            Action::MoveDown => {
                &&& step is Done
                &&& App::replaces_active_window(
                    before,
                    after,
                    w.with_selected(selection_after_down(w.selected as int, w.entries@.len() as int) as usize),
                )
            },
            Action::MoveUp => {
                &&& step is Done
                &&& App::replaces_active_window(
                    before,
                    after,
                    w.with_selected(if w.selected > 0 { (w.selected - 1) as usize } else { 0 }),
                )
            },
            Action::Ascend => {
                &&& after == before
                &&& step is ReadParent
                &&& step->ReadParent_0@ == parent_of(w.path@)
            },
            Action::Descend => {
                &&& after == before
                &&& if w.on_directory() {
                    step is ReadChild && step->ReadChild_0@ == child_of(w.path@, w.entries@[w.selected as int].name@)
                } else {
                    step is Done
                }
            },
            Action::Yank => {
                &&& after == before
                &&& if w.selected < w.entries@.len() {
                    step is ResolveSelected && step->ResolveSelected_0@ == w.path@
                } else {
                    step is Done
                }
            },
        }
    }
}

/// Carries out one action on the workspace and says what is left to do outside.
pub fn perform(action: Action, app: &mut App) -> (step: Step)
    ensures
        carried_out(*old(app), *final(app), action, step),
{
    match action {
        Action::Quit => Step::Quit,
        Action::SwitchPane => {
            match app.selected_split_mut() {
                Some(split) => {
                    split.toggle_active();
                },
                None => {},
            }
            Step::Done
        },
        Action::CycleSortMode => {
            match app.selected_window_mut() {
                Some(w) => {
                    w.cycle_sort_mode();
                },
                None => {},
            }
            Step::Done
        },
        Action::MoveDown => {
            match app.selected_window_mut() {
                Some(w) => {
                    w.move_down();
                },
                None => {},
            }
            Step::Done
        },
        Action::MoveUp => {
            match app.selected_window_mut() {
                Some(w) => {
                    w.move_up();
                },
                None => {},
            }
            Step::Done
        },
        Action::Ascend => {
            match app.selected_window() {
                Some(w) => Step::ReadParent(w.ascend_target()),
                None => Step::Done,
            }
        },
        Action::Descend => {
            match app.selected_window() {
                Some(w) => match w.descend_target() {
                    Some(target) => Step::ReadChild(target),
                    None => Step::Done,
                },
                None => Step::Done,
            }
        },
        Action::Yank => {
            match app.selected_window() {
                Some(w) => if w.selected < w.entries.len() {
                    Step::ResolveSelected(w.path.clone())
                } else {
                    Step::Done
                },
                None => Step::Done,
            }
        },
    }
}

/// Handles one key event: an event that is bound to no action changes nothing
/// and leaves nothing to do; any other is carried out as `perform` says.
pub fn process_keys(key: Key, kind: KeyKind, app: &mut App) -> (step: Step)
    ensures
        match action_for(key, kind) {
            Some(action) => carried_out(*old(app), *final(app), action, step),
            None => *final(app) == *old(app) && step is Done,
        },
{
    match action_of(key, kind) {
        Some(action) => perform(action, app),
        None => Step::Done,
    }
}

} // verus!
