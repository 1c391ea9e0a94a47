//! Dividing the pane: the calls into `ratatui`'s layout solver.

use crate::geometry::{least, Rect};
use vstd::prelude::*;

verus! {

/// The heights of the parts of the pane that are as high as they need to be.
#[derive(Clone, Copy, PartialEq, Eq, Debug, Structural)]
pub struct Heights {
    pub activity: u16,
    pub header: u16,
    pub footer: u16,
}

/// The parts of the pane, from top to bottom.
#[derive(Clone, Copy, PartialEq, Eq, Debug, Structural)]
pub struct Parts {
    pub activity: Rect,
    pub header: Rect,
    pub body: Rect,
    pub footer: Rect,
}

/// A rectangle whose edges are coordinates.
pub open spec fn fits(area: Rect) -> bool {
    area.x + area.width <= u16::MAX && area.y + area.height <= u16::MAX
}

/// There is room in `area` for all that has a height of its own.
pub open spec fn has_room(area: Rect, heights: Heights) -> bool {
    heights.activity + heights.header + heights.footer <= area.height
}

/// The rows of `area` from `top` on, counted from its first, as many as `height`.
pub open spec fn band(area: Rect, top: int, height: int) -> Rect {
    Rect { x: area.x, y: (area.y + top) as u16, width: area.width, height: height as u16 }
}

/// How an area with room is divided: each part below the other, and the body has what is left.
pub open spec fn tiled(area: Rect, heights: Heights) -> Parts {
    let above = heights.activity + heights.header;
    Parts {
        activity: band(area, 0, heights.activity as int),
        header: band(area, heights.activity as int, heights.header as int),
        body: band(area, above, area.height - above - heights.footer),
        footer: band(area, area.height - heights.footer, heights.footer as int),
    }
}

/// A part takes whole rows of `area`, as many as there are from where it begins or fewer.
pub open spec fn takes_rows(part: Rect, area: Rect) -> bool {
    &&& part.x == area.x && part.width == area.width
    &&& area.y <= part.y && part.y + part.height <= area.y + area.height
}

/// How an area may be divided: each part takes rows of it, and where there is room the parts are
/// as high as they need to be and the body has the rest.
pub open spec fn divides(parts: Parts, area: Rect, heights: Heights) -> bool {
    &&& takes_rows(parts.activity, area) && takes_rows(parts.header, area)
    &&& takes_rows(parts.body, area) && takes_rows(parts.footer, area)
    &&& has_room(area, heights) ==> parts == tiled(area, heights)
}

/// The last columns of `area`, `width` of them where there are as many.
pub open spec fn right_end(area: Rect, width: u16) -> Rect {
    let taken = least(width as int, area.width as int);
    Rect {
        x: (area.x + area.width - taken) as u16,
        y: area.y,
        width: taken as u16,
        height: area.height,
    }
}

/// `ratatui::layout::Layout::vertical` with the lengths of the activity bar and the header, a
/// minimum of nothing for the body, and the length of the footer. Claimed: every part lies in the
/// area and is as wide, and where there is room lengths are kept and the body fills the rest. How
/// less room is shared out is not stated: several divisions can be equally good, and which of
/// them the solver finds may differ from one call to the next.
#[verifier::external_body]
pub(crate) fn stack(area: Rect, heights: Heights) -> (r: Parts)
    requires
        fits(area),
    ensures
        divides(r, area, heights),
{
    let whole = ratatui::layout::Rect::new(area.x, area.y, area.width, area.height);
    let own = |r: &ratatui::layout::Rect| Rect { x: r.x, y: r.y, width: r.width, height: r.height };
    let lengths = [
        ratatui::layout::Constraint::Length(heights.activity),
        ratatui::layout::Constraint::Length(heights.header),
        ratatui::layout::Constraint::Min(0),
        ratatui::layout::Constraint::Length(heights.footer),
    ];
    let [a, h, b, f] = ratatui::layout::Layout::vertical(lengths).areas(whole);
    Parts { activity: own(&a), header: own(&h), body: own(&b), footer: own(&f) }
}

/// `ratatui::layout::Layout::horizontal` with a minimum of nothing and a length. Claimed: the
/// second part has the length at the right end, or all columns where there are fewer.
#[verifier::external_body]
pub(crate) fn cut_right_end(area: Rect, width: u16) -> (r: Rect)
    requires
        fits(area),
    ensures
        r == right_end(area, width),
{
    let whole = ratatui::layout::Rect::new(area.x, area.y, area.width, area.height);
    let widths = [
        ratatui::layout::Constraint::Min(0),
        ratatui::layout::Constraint::Length(width),
    ];
    let [_, end] = ratatui::layout::Layout::horizontal(widths).areas(whole);
    Rect { x: end.x, y: end.y, width: end.width, height: end.height }
}

} // verus!
