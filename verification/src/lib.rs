//! State machine of a two-pane terminal directory browser: listings with a
//! cursor, a scroll position and a sort order, panes composed into splits,
//! and the derived view that a renderer draws each frame.

pub mod names;
pub mod entry;
pub mod sorting;
pub mod reading;
pub mod render;
pub mod window;
pub mod layout;
pub mod split;
pub mod app;
pub mod keys;
