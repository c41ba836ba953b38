//! Laying out the panes of a split on the terminal.

use vstd::prelude::*;
use ratatui::layout::{Constraint, Direction, Layout, Rect};
use crate::render::Area;

verus! {

/// Both rectangles start on the top line of `area` and are as high as it is.
pub open spec fn are_columns_of(halves: (Area, Area), area: Area) -> bool {
    &&& halves.0.y == area.y
    &&& halves.0.height == area.height
    &&& halves.1.y == area.y
    &&& halves.1.height == area.height
}

/// Calls `ratatui::layout::Layout::split` on `area` with a horizontal
/// direction, no margin and two percentage constraints, and hands back the
/// two rectangles it yields. Claimed of them: each keeps the top line and the
/// height of `area`, as the layout engine copies both into every rectangle of
/// a horizontal layout. Where the columns start and how wide they are is the
/// constraint solver's decision, of which nothing is claimed.
#[verifier::external_body]
pub(crate) fn split_columns(area: Area, first_percent: u16, second_percent: u16) -> (halves: (Area, Area))
    ensures
        are_columns_of(halves, area),
{
    let rects = Layout::default()
        .constraints([Constraint::Percentage(first_percent), Constraint::Percentage(second_percent)])
        .direction(Direction::Horizontal)
        .split(Rect { x: area.x, y: area.y, width: area.width, height: area.height });
    (
        Area { x: rects[0].x, y: rects[0].y, width: rects[0].width, height: rects[0].height },
        Area { x: rects[1].x, y: rects[1].y, width: rects[1].width, height: rects[1].height },
    )
}

} // verus!
