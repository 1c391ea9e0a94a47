//! Rectangles of terminal cells and what lies under the mouse.

use vstd::prelude::*;

verus! {

/// A rectangle of cells.
#[derive(Clone, Copy, PartialEq, Eq, Debug, Structural)]
pub struct Rect {
    pub x: u16,
    pub y: u16,
    pub width: u16,
    pub height: u16,
}

impl Rect {
    /// Whether the cell lies in the rectangle.
    pub open spec fn covers(self, column: u16, row: u16) -> bool {
        &&& self.x <= column < self.x + self.width
        &&& self.y <= row < self.y + self.height
    }

    /// The empty rectangle in the corner.
    pub open spec fn nowhere() -> Rect {
        Rect { x: 0, y: 0, width: 0, height: 0 }
    }

    /// What is left inside a border of one cell; nothing where the border fills the rectangle.
    pub open spec fn inside(self) -> Rect {
        if self.width < 2 || self.height < 2 {
            Rect::nowhere()
        } else {
            Rect {
                x: clipped(self.x + 1),
                y: clipped(self.y + 1),
                width: (self.width - 2) as u16,
                height: (self.height - 2) as u16,
            }
        }
    }

    /// The empty rectangle in the corner.
    pub fn zero() -> (r: Rect)
        ensures
            r == Rect::nowhere(),
    {
        Rect { x: 0, y: 0, width: 0, height: 0 }
    }

    /// What is left inside a border of one cell.
    pub fn inner(self) -> (r: Rect)
        ensures
            r == self.inside(),
    {
        if self.width < 2 || self.height < 2 {
            Rect::zero()
        } else {
            Rect {
                x: add_clipped(self.x, 1),
                y: add_clipped(self.y, 1),
                width: self.width - 2,
                height: self.height - 2,
            }
        }
    }
}

/// A coordinate, held at the largest there is.
pub open spec fn clipped(value: int) -> u16 {
    if value > u16::MAX {
        u16::MAX
    } else if value < 0 {
        0
    } else {
        value as u16
    }
}

/// `a + b`, held at the largest coordinate there is.
pub fn add_clipped(a: u16, b: u16) -> (r: u16)
    ensures
        r == clipped(a + b),
{
    if a > u16::MAX - b {
        u16::MAX
    } else {
        a + b
    }
}

/// What is left of a number when more is taken than there is: nothing.
pub open spec fn left_of(value: int) -> nat {
    if value < 0 {
        0
    } else {
        value as nat
    }
}

/// The smaller of two numbers.
pub open spec fn least(a: int, b: int) -> int {
    if a < b {
        a
    } else {
        b
    }
}

/// The larger of two numbers.
pub open spec fn most(a: int, b: int) -> int {
    if a > b {
        a
    } else {
        b
    }
}

/// Whether a click lands in the rectangle.
pub fn hits(rect: Rect, column: u16, row: u16) -> (r: bool)
    ensures
        r == rect.covers(column, row),
{
    column >= rect.x && column - rect.x < rect.width && row >= rect.y && row - rect.y < rect.height
}

/// Where the tree body was drawn last, for mouse hit-testing.
#[derive(Clone, Copy, PartialEq, Eq, Debug, Structural)]
pub struct BodyGeom {
    pub top: u16,
    pub height: u16,
    /// The scroll offset of the list when it was drawn.
    pub offset: usize,
}

impl Default for BodyGeom {
    fn default() -> (r: BodyGeom)
        ensures
            r == (BodyGeom { top: 0, height: 0, offset: 0 }),
    {
        BodyGeom { top: 0, height: 0, offset: 0 }
    }
}

/// The row of the list at a row of the pane: a row of the body that shows one of the rows.
pub open spec fn row_under(body: BodyGeom, row_count: nat, mouse_row: u16) -> Option<usize> {
    let index = body.offset + (mouse_row - body.top);
    if body.top <= mouse_row < body.top + body.height && index < row_count {
        Some(index as usize)
    } else {
        None
    }
}

/// The row index at a row of the pane, given where the body was drawn last, if it lands on an
/// actual row.
pub fn row_index_at(body: BodyGeom, row_count: usize, mouse_row: u16) -> (r: Option<usize>)
    ensures
        r == row_under(body, row_count as nat, mouse_row),
{
    if mouse_row < body.top || mouse_row - body.top >= body.height {
        return None;
    }
    let down: usize = (mouse_row - body.top) as usize;
    if body.offset < row_count && down < row_count - body.offset {
        Some(body.offset + down)
    } else {
        None
    }
}

/// The column at which a row of that depth begins: two columns per level.
pub open spec fn indent_column(depth: usize) -> int {
    2 * depth
}

/// The column at which a row of that depth begins, or the last coordinate.
pub fn indent_of(depth: usize) -> (r: u16)
    ensures
        r == clipped(indent_column(depth)),
{
    if depth < 32768 {
        (depth * 2) as u16
    } else {
        u16::MAX
    }
}

/// True when a click at a column of the pane lands on a row's disclosure chevron: the two cells
/// right behind the indent.
pub fn hits_chevron(column: u16, depth: usize) -> (r: bool)
    ensures
        r == (indent_column(depth) <= column < indent_column(depth) + 2),
{
    (column / 2) as usize == depth
}

/// Whether a place is that of the collapse button: the last four columns of the last row.
pub open spec fn on_collapse_button(column: u16, row: u16, width: u16, height: u16) -> bool {
    row + 1 == height && column + 4 >= width
}

/// True when a click lands on the collapse button.
pub fn hits_collapse_button(column: u16, row: u16, width: u16, height: u16) -> (r: bool)
    ensures
        r == on_collapse_button(column, row, width, height),
{
    height > 0 && row == height - 1 && (width < 4 || column >= width - 4)
}

/// The least scroll offset that shows an item of a list in `height` rows, without scrolling past
/// the list's end.
pub open spec fn scroll_showing(selected: int, height: int, content: int) -> int {
    least(left_of(selected + 1 - height) as int, left_of(content - height) as int)
}

/// The least scroll offset that shows an item of a list in `height` rows.
pub fn keep_visible_scroll(selected: usize, height: usize, content: usize) -> (r: usize)
    ensures
        r == scroll_showing(selected as int, height as int, content as int),
{
    let wanted: usize = if selected >= height {
        if height == 0 && selected == usize::MAX {
            usize::MAX
        } else {
            selected - height + 1
        }
    } else {
        0
    };
    let last: usize = if content > height {
        content - height
    } else {
        0
    };
    if wanted < last {
        wanted
    } else {
        last
    }
}

/// Where the activity bar was drawn last: its row and the columns of the two icons.
#[derive(Clone, Copy, PartialEq, Eq, Debug)]
pub struct ActivityZones {
    pub row: u16,
    pub explorer: (u16, u16),
    pub source_control: (u16, u16),
}

impl Default for ActivityZones {
    /// Nothing is hit before the first draw.
    fn default() -> (r: ActivityZones)
        ensures
            r == (ActivityZones { row: u16::MAX, explorer: (0, 0), source_control: (0, 0) }),
    {
        ActivityZones { row: u16::MAX, explorer: (0, 0), source_control: (0, 0) }
    }
}

/// Every visible row is hit by exactly the clicks on its row of the pane: what is hit lies in the
/// drawn part of the list, and the rows of the body hit successive rows of the list.
pub proof fn law_rows_are_hit_where_they_are_drawn(
    body: BodyGeom,
    row_count: usize,
    mouse_row: u16,
)
    ensures
        row_under(body, row_count as nat, mouse_row) matches Some(index) ==> body.offset <= index
            < body.offset + body.height && index < row_count && mouse_row == body.top + (index
            - body.offset),
        mouse_row < body.top || mouse_row >= body.top + body.height ==> row_under(
            body,
            row_count as nat,
            mouse_row,
        ) is None,
{
}

/// The two cells of a chevron belong to one depth: deeper rows are hit further right.
pub proof fn law_chevrons_do_not_overlap(column: u16, a: usize, b: usize)
    requires
        indent_column(a) <= column < indent_column(a) + 2,
        indent_column(b) <= column < indent_column(b) + 2,
    ensures
        a == b,
{
}

} // verus!
