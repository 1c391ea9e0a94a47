//! What the Explorer view draws: the parts of the pane, the rows of the tree and the footer.

use crate::explorer::{App, AppView, Overlay, OverlayView, TitleAction};
use crate::geometry::{
    add_clipped, clipped, least, left_of, most, on_collapse_button, ActivityZones, BodyGeom, Rect,
};
use crate::icons::{Icon, IconTheme};
use crate::layout::{
    cut_right_end, divides, fits, has_room, right_end, stack, tiled, Heights, Parts,
};
use crate::overlays::{component_name, last_component};
use crate::quick_open::{raised, to_upper};
use crate::rows::{
    pieces, row_bg, row_ground, row_line, row_look, Ground, Piece, Row, Span, Style, Tint,
};
use crate::text::concat3;
use crate::width::{columns, cut_back, fitting_tail, input_tail, text_width, truncate_to};
use vstd::prelude::*;
use vstd::string::*;

verus! {

/// How many rows the activity bar takes: a row above and below the icons keeps it from crowding
/// the border.
pub open spec fn activity_height(merged: bool) -> u16 {
    if merged {
        3
    } else {
        0
    }
}

/// How many columns the collapse button takes.
pub const BUTTON_WIDTH: u16 = 3;

/// The heights of the parts that have one of their own; the header is one row high.
pub open spec fn heights(merged: bool, footer: u16) -> Heights {
    Heights { activity: activity_height(merged), header: 1, footer }
}

/// Where the list begins so that the selection shows: as far down as the list goes, and moved by
/// as little as it takes where the selection is to be brought into view.
pub open spec fn list_start(scroll: int, rows: int, height: int, sought: Option<usize>) -> int {
    let held = least(scroll, left_of(rows - height) as int);
    match sought {
        Some(selected) => if selected < held {
            selected as int
        } else if selected >= held + height {
            selected + 1 - height
        } else {
            held
        },
        None => held,
    }
}

/// Where the list begins.
fn list_offset(scroll: usize, rows: usize, height: usize, sought: Option<usize>) -> (r: usize)
    requires
        height >= 1,
    ensures
        r == list_start(scroll as int, rows as int, height as int, sought),
{
    let last: usize = if rows > height {
        rows - height
    } else {
        0
    };
    let held: usize = if scroll < last {
        scroll
    } else {
        last
    };
    match sought {
        Some(selected) => {
            if selected < held {
                selected
            } else if selected - held >= height {
                selected - (height - 1)
            } else {
                held
            }
        },
        None => held,
    }
}

/// The rows of the list that are drawn: from `start`, `count` of them.
#[derive(Clone, Copy, PartialEq, Eq, Debug, Structural)]
pub struct Window {
    pub start: usize,
    pub count: usize,
}

/// The rows that fit.
pub open spec fn window(start: usize, rows: int, height: int) -> Window {
    Window { start, count: least(left_of(rows - start) as int, height) as usize }
}

/// Where things are drawn.
#[derive(Clone, Copy, PartialEq, Eq, Debug, Structural)]
pub struct FramePlan {
    pub parts: Parts,
    pub window: Window,
    /// The last row of the footer, with the collapse button at its right end.
    pub last_line: Rect,
    pub button: Rect,
    /// What of the last row is left of the button.
    pub hint_area: Rect,
}

/// The last row of the footer.
pub open spec fn last_line(footer: Rect) -> Rect {
    Rect {
        x: footer.x,
        y: clipped(footer.y + left_of(footer.height - 1)),
        width: footer.width,
        height: 1,
    }
}

/// What the footer shows.
#[derive(Debug)]
pub enum FooterContent {
    /// A message of one color, which wraps.
    Message { text: String, tint: Tint },
    /// The line of a prompt.
    Prompt(Vec<Span>),
    /// The hotkeys, which wrap.
    Hotkeys,
    /// How to open the menu, beside the collapse button.
    Hint(Span),
}

/// What decides the height of the footer.
#[derive(Debug)]
pub enum FooterNeed {
    /// A message of one color, which wraps.
    Message { text: String, tint: Tint },
    /// One line: a prompt, or the line that a modal shares with the collapse button.
    Line,
    /// The hotkeys, which wrap.
    Hotkeys,
}

/// A message of the footer: its text and its color.
pub struct MessageView {
    pub text: Seq<char>,
    pub tint: Tint,
}

impl AppView {
    /// The height that rows are counted by.
    pub open spec fn rows_height(body: Rect) -> int {
        most(body.height as int, 1)
    }

    /// The row that is to be brought into view.
    pub open spec fn sought(self) -> Option<usize> {
        if self.snap {
            self.selected
        } else {
            None
        }
    }

    /// Where the list begins in a body of that height.
    pub open spec fn placed(self, height: int) -> usize {
        if self.rows.len() == 0 {
            self.scroll
        } else {
            list_start(self.scroll as int, self.rows.len() as int, height, self.sought()) as usize
        }
    }

    /// The view after its parts were laid out.
    pub open spec fn laid_out(self, area: Rect, parts: Parts) -> AppView {
        let scroll = self.placed(AppView::rows_height(parts.body));
        AppView {
            last_width: area.width,
            last_height: area.height,
            page: most(parts.body.height - 1, 1) as usize,
            scroll,
            snap: self.snap && self.rows.len() == 0,
            body: BodyGeom { top: parts.body.y, height: parts.body.height, offset: scroll },
            ..self
        }
    }

    /// The message of the footer: a notice, else the question before a deletion.
    pub open spec fn footer_message(self) -> Option<MessageView> {
        match self.notice {
            Some(notice) => Some(MessageView { text: notice, tint: Tint::Modified }),
            None => match self.overlay {
                Some(OverlayView::ConfirmDelete { path, is_dir }) => Some(
                    MessageView {
                        text: "Delete '"@ + last_component(path) + "' permanently? (y/N)"@,
                        tint: Tint::Deleted,
                    },
                ),
                _ => None,
            },
        }
    }

    /// A prompt is open.
    pub open spec fn prompts(self) -> bool {
        self.overlay matches Some(OverlayView::Prompt(_))
    }

    /// The columns of the header that the buttons and the settings button leave.
    pub open spec fn header_room(area: Rect, gear_width: u16, actions_width: u16) -> nat {
        left_of(area.width - gear_width - actions_width)
    }

    /// The name of the root in the header, as far as it fits.
    pub open spec fn header_name(self, area: Rect, gear_width: u16, actions_width: u16) -> Seq<
        char,
    > {
        let name = seq![' '] + raised(self.root_name);
        cut_back(
            name,
            columns(name),
            AppView::header_room(area, gear_width, actions_width) as usize,
        )
    }
}

/// The width of the settings button in the header: it is there where the sidebar is not unified.
pub open spec fn gear_width(merged: bool, gear: Seq<char>) -> u16 {
    if merged {
        0
    } else {
        columns(gear.push(' ')) as u16
    }
}

/// What a row shows and what it lies on.
#[derive(Debug)]
pub struct RowPlan {
    pub spans: Vec<Span>,
    pub ground: Option<Style>,
}

/// One row of the tree.
pub fn row_item(
    row: &Row,
    icon: &Icon,
    hovered: bool,
    selected: bool,
    deco: Option<char>,
    width: u16,
) -> (r: RowPlan)
    ensures
        pieces(r.spans@) == row_look(*row, *icon, deco).drawn(width),
        r.ground == row_ground(hovered, selected),
{
    RowPlan { spans: row_line(row, icon, deco, width), ground: row_bg(hovered, selected) }
}

/// The hotkeys of the footer: a key and what it does.
pub open spec fn hint_at(index: int) -> (Seq<char>, Seq<char>) {
    if index == 0 {
        ("↑↓"@, "move"@)
    } else if index == 1 {
        ("←→"@, "fold"@)
    } else if index == 2 {
        ("⏎"@, "toggle"@)
    } else if index == 3 {
        ("r"@, "refresh"@)
    } else if index == 4 {
        ("."@, "dotfiles"@)
    } else if index == 5 {
        ("c"@, "folder"@)
    } else if index == 6 {
        ("ctrl+p"@, "find"@)
    } else if index == 7 {
        ("m"@, "menu"@)
    } else if index == 8 {
        ("s"@, "settings"@)
    } else if index == 9 {
        ("b"@, "hide"@)
    } else if index == 10 {
        ("q"@, "quit"@)
    } else if index == 11 {
        ("1"@, "files"@)
    } else {
        ("2"@, "git"@)
    }
}

/// The hotkeys of the footer: the views can be switched only in the unified sidebar.
pub fn hints(merged: bool) -> (r: Vec<(&'static str, &'static str)>)
    ensures
        r@.len() == if merged {
            13
        } else {
            11int
        },
        forall|i: int|
            0 <= i < r@.len() ==> ((#[trigger] r@[i]).0@, r@[i].1@) == hint_at(i),
{
    let mut out: Vec<(&'static str, &'static str)> = Vec::new();
    out.push(("↑↓", "move"));
    out.push(("←→", "fold"));
    out.push(("⏎", "toggle"));
    out.push(("r", "refresh"));
    out.push((".", "dotfiles"));
    out.push(("c", "folder"));
    out.push(("ctrl+p", "find"));
    out.push(("m", "menu"));
    out.push(("s", "settings"));
    out.push(("b", "hide"));
    out.push(("q", "quit"));
    if merged {
        out.push(("1", "files"));
        out.push(("2", "git"));
    }
    out
}

/// What stands before the input of a prompt.
pub open spec fn prompt_head(title: Seq<char>) -> Seq<char> {
    " "@ + title + ": "@
}

/// The columns of a prompt that are taken whatever is typed: the head, the cursor and four more.
pub open spec fn prompt_fixed(title: Seq<char>) -> int {
    columns(prompt_head(title)) + 5
}

/// What a prompt says besides, where there is room.
pub open spec fn prompt_hint() -> Seq<char> {
    "  (⏎ ok · esc cancel)"@
}

/// Whether the hint fits beside the whole input.
pub open spec fn hint_fits(title: Seq<char>, input: Seq<char>, width: u16) -> bool {
    prompt_fixed(title) + columns(prompt_hint()) + columns(input) <= width
}

/// The columns for the input, at least four.
pub open spec fn input_room(title: Seq<char>, input: Seq<char>, width: u16) -> nat {
    most(
        left_of(
            width - prompt_fixed(title) - if hint_fits(title, input, width) {
                columns(prompt_hint()) as int
            } else {
                0
            },
        ) as int,
        4,
    ) as nat
}

/// The line of a prompt: one line always. The hint yields in a narrow pane, and a long input
/// shows its end, where the cursor is.
pub open spec fn prompt_pieces(title: Seq<char>, input: Seq<char>, width: u16) -> Seq<Piece> {
    let line = Seq::empty().push(
        Piece { text: prompt_head(title), style: Style { bold: true, ..Style::bare() } },
    ).push(
        Piece {
            text: fitting_tail(input, input_room(title, input, width)),
            style: Style::bare(),
        },
    ).push(Piece { text: "█"@, style: Style { dim: true, ..Style::bare() } });
    if hint_fits(title, input, width) {
        line.push(Piece { text: prompt_hint(), style: Style { dim: true, ..Style::bare() } })
    } else {
        line
    }
}

/// The line of a prompt.
pub fn prompt_line(title: &str, input: &str, width: u16) -> (r: Vec<Span>)
    ensures
        pieces(r@) == prompt_pieces(title@, input@, width),
{
    let head = concat3(" ", title, ": ");
    let hint = "  (⏎ ok · esc cancel)";
    let (head_width, hint_width, input_width): (usize, usize, usize) = (
        text_width(head.as_str()),
        text_width(hint),
        text_width(input),
    );
    let free: usize = (width as usize).saturating_sub(head_width).saturating_sub(5);
    let fits = head_width <= width as usize && width as usize - head_width >= 5 && hint_width
        <= free && input_width <= free - hint_width;
    let left: usize = if fits {
        free - hint_width
    } else {
        free
    };
    let room: usize = if left > 4 {
        left
    } else {
        4
    };
    let mut spans: Vec<Span> = Vec::new();
    spans.push(Span { text: head, style: Style::strong() });
    spans.push(Span { text: input_tail(input, room), style: Style::plain() });
    spans.push(Span { text: "█".to_owned(), style: Style::faint() });
    if fits {
        spans.push(Span { text: hint.to_owned(), style: Style::faint() });
    }
    assert(pieces(spans@) =~= prompt_pieces(title@, input@, width));
    spans
}

/// The header: the root's name, blanks, room for the title-bar buttons, and the settings button
/// where the sidebar is not unified.
#[derive(Debug)]
pub struct HeaderPlan {
    pub name: Span,
    pub blanks: usize,
    pub gear: Option<Span>,
}

/// The activity bar: the icons of the two views and the settings button.
#[derive(Debug)]
pub struct ActivityPlan {
    pub explorer: Span,
    pub source_control: Span,
    pub blanks: usize,
    pub gear: Span,
    /// The cells of the half blocks above and below the active icon.
    pub cap_above: Rect,
    pub cap_below: Rect,
}

/// The text of an icon in the activity bar: the glyphs of a Nerd Font are two cells wide, and the
/// second cell is reserved.
pub open spec fn chip_text(glyph: Seq<char>, theme: IconTheme) -> Seq<char> {
    if theme == IconTheme::Material {
        " "@ + glyph + "  "@
    } else {
        " "@ + glyph + " "@
    }
}

/// The text of an icon in the activity bar.
fn chip(glyph: &str, theme: IconTheme) -> (r: String)
    ensures
        r@ == chip_text(glyph@, theme),
{
    if theme == IconTheme::Material {
        concat3(" ", glyph, "  ")
    } else {
        concat3(" ", glyph, " ")
    }
}

/// Where things of the activity bar lie, from left to right: a blank, the Explorer's icon, a
/// blank, the icon of source control.
pub open spec fn activity_zones(area: Rect, blank: u16, explorer: u16, git: u16) -> ActivityZones {
    let first = clipped(area.x + blank);
    let second = clipped(first + explorer);
    let third = clipped(second + blank);
    ActivityZones {
        row: clipped(area.y + 1),
        explorer: (first, second),
        source_control: (third, clipped(third + git)),
    }
}

/// Where the settings button lies in a row: at its right end.
pub open spec fn gear_rect(area: Rect, row: u16, width: u16) -> Rect {
    Rect { x: clipped(area.x + left_of(area.width - width)), y: row, width, height: 1 }
}

/// Where the settings button lies in a row.
fn gear_place(area: Rect, row: u16, width: u16) -> (r: Rect)
    ensures
        r == gear_rect(area, row, width),
{
    Rect { x: add_clipped(area.x, area.width.saturating_sub(width)), y: row, width, height: 1 }
}

impl App {
    /// What the footer shows: a message before a prompt, a prompt before the hotkeys, and where
    /// there is none of these how to open the menu.
    pub fn footer_content(&self, width: u16) -> (r: FooterContent)
        ensures
            match r {
                FooterContent::Message { text, tint } => self@.footer_message() == Some(
                    MessageView { text: text@, tint },
                ),
                FooterContent::Prompt(spans) => self@.footer_message() is None && (
                self@.overlay matches Some(OverlayView::Prompt(prompt)) && pieces(spans@)
                    == prompt_pieces(prompt.title, prompt.input, width)),
                FooterContent::Hotkeys => self@.footer_message() is None
                    && !self@.prompts() && self@.state.show_hotkeys,
                FooterContent::Hint(span) => {
                    &&& self@.footer_message() is None
                    &&& !self@.prompts()
                    &&& !self@.state.show_hotkeys
                    &&& span.text@ == " m / ctrl+rclick: menu"@
                    &&& span.style == (Style { dim: true, italic: true, ..Style::bare() })
                },
            },
    {
        match self.footer_need() {
            FooterNeed::Message { text, tint } => {
                return FooterContent::Message { text, tint };
            },
            _ => {},
        }
        proof {
            reveal(App::view);
        }
        if let Some(Overlay::Prompt(prompt)) = &self.overlay {
            return FooterContent::Prompt(prompt_line(prompt.title, prompt.input.as_str(), width));
        }
        if self.sidebar_state.show_hotkeys {
            return FooterContent::Hotkeys;
        }
        FooterContent::Hint(
            Span {
                text: " m / ctrl+rclick: menu".to_owned(),
                style: Style { fg: None, bg: None, bold: false, dim: true, italic: true },
            },
        )
    }

    /// What decides the height of the footer: messages and hotkeys wrap, anything else is one
    /// line.
    pub fn footer_need(&self) -> (r: FooterNeed)
        ensures
            match r {
                FooterNeed::Message { text, tint } => self@.footer_message() == Some(
                    MessageView { text: text@, tint },
                ),
                FooterNeed::Line => self@.footer_message() is None && (self@.overlay is Some
                    || !self@.state.show_hotkeys),
                FooterNeed::Hotkeys => self@.footer_message() is None && self@.overlay is None
                    && self@.state.show_hotkeys,
            },
    {
        proof {
            reveal(App::view);
        }
        if let Some(notice) = &self.notice {
            return FooterNeed::Message { text: notice.clone(), tint: Tint::Modified };
        }
        if let Some(Overlay::ConfirmDelete { path, is_dir: _ }) = &self.overlay {
            let name = component_name(path);
            return FooterNeed::Message {
                text: concat3("Delete '", name.as_str(), "' permanently? (y/N)"),
                tint: Tint::Deleted,
            };
        }
        if self.overlay.is_some() || !self.sidebar_state.show_hotkeys {
            FooterNeed::Line
        } else {
            FooterNeed::Hotkeys
        }
    }

    /// Where the list begins in a body of that height, at least one row, and how many rows it has.
    fn list_place(&self, height: usize) -> (r: (usize, usize))
        requires
            height >= 1,
        ensures
            r.0 == self@.placed(height as int),
            r.1 == self@.rows.len(),
    {
        proof {
            reveal(App::view);
        }
        let count: usize = self.rows.len();
        if count == 0 {
            return (self.scroll, count);
        }
        let sought = if self.snap {
            self.selected
        } else {
            None
        };
        (list_offset(self.scroll, count, height, sought), count)
    }

    /// Remembers where things lie.
    fn note_layout(&mut self, area: Rect, page: usize, scroll: usize, body: BodyGeom)
        ensures
            final(self)@ == (AppView {
                last_width: area.width,
                last_height: area.height,
                page,
                scroll,
                snap: old(self)@.snap && old(self)@.rows.len() == 0,
                body,
                ..old(self)@
            }),
    {
        proof {
            reveal(App::view);
        }
        self.last_width = area.width;
        self.last_height = area.height;
        self.page = page;
        self.scroll = scroll;
        self.snap = self.snap && self.rows.len() == 0;
        self.body = body;
    }

    /// Lays the view out in parts that are given.
    pub fn lay_out(&mut self, area: Rect, parts: Parts) -> (r: Window)
        ensures
            final(self)@ == old(self)@.laid_out(area, parts),
            r == window(
                final(self)@.scroll,
                final(self)@.rows.len() as int,
                AppView::rows_height(parts.body),
            ),
    {
        let page: usize = if parts.body.height > 2 {
            (parts.body.height - 1) as usize
        } else {
            1
        };
        let height: usize = if parts.body.height > 0 {
            parts.body.height as usize
        } else {
            1
        };
        let (scroll, rows): (usize, usize) = self.list_place(height);
        let body = BodyGeom { top: parts.body.y, height: parts.body.height, offset: scroll };
        self.note_layout(area, page, scroll, body);
        let left: usize = rows.saturating_sub(scroll);
        let count: usize = if left < height {
            left
        } else {
            height
        };
        Window { start: scroll, count }
    }

    /// Lays the view out in the pane, with a footer of the height that it needs.
    pub fn draw(&mut self, area: Rect, footer_height: u16) -> (r: FramePlan)
        requires
            fits(area),
        ensures
            ({
                let parts = r.parts;
                &&& divides(parts, area, heights(old(self)@.merged(), footer_height))
                &&& final(self)@ == old(self)@.laid_out(area, parts)
                &&& r.window == window(
                    final(self)@.scroll,
                    final(self)@.rows.len() as int,
                    AppView::rows_height(parts.body),
                )
                &&& r.last_line == last_line(parts.footer)
                &&& r.button == if fits(r.last_line) {
                    right_end(r.last_line, BUTTON_WIDTH)
                } else {
                    Rect::nowhere()
                }
                &&& r.hint_area == (Rect {
                    width: left_of(r.last_line.width - BUTTON_WIDTH) as u16,
                    ..r.last_line
                })
            }),
    {
        let bar: u16 = if self.merged() {
            3
        } else {
            0
        };
        let parts = stack(area, Heights { activity: bar, header: 1, footer: footer_height });
        let window = self.lay_out(area, parts);
        let footer = parts.footer;
        let last_line = Rect {
            x: footer.x,
            y: add_clipped(footer.y, footer.height.saturating_sub(1)),
            width: footer.width,
            height: 1,
        };
        let button = if last_line.x <= u16::MAX - last_line.width && last_line.y < u16::MAX {
            cut_right_end(last_line, BUTTON_WIDTH)
        } else {
            Rect::zero()
        };
        let hint_area = Rect {
            x: last_line.x,
            y: last_line.y,
            width: last_line.width.saturating_sub(BUTTON_WIDTH),
            height: 1,
        };
        FramePlan { parts, window, last_line, button, hint_area }
    }

    /// The rows of the tree that are drawn, given their icons and decorations from `start` on.
    pub fn row_items(
        &self,
        start: usize,
        icons: &Vec<Icon>,
        decos: &Vec<Option<char>>,
        width: u16,
    ) -> (r: Vec<RowPlan>)
        requires
            icons@.len() == decos@.len(),
            start + icons@.len() <= self@.rows.len(),
        ensures
            r@.len() == icons@.len(),
            forall|k: int|
                0 <= k < r@.len() ==> pieces((#[trigger] r@[k]).spans@) == row_look(
                    self@.rows[start + k],
                    icons@[k],
                    decos@[k],
                ).drawn(width) && r@[k].ground == row_ground(
                    self@.hovered == Some((start + k) as usize),
                    self@.selected == Some((start + k) as usize),
                ),
    {
        proof {
            reveal(App::view);
        }
        let count: usize = self.rows.len();
        let mut out: Vec<RowPlan> = Vec::new();
        for k in 0..icons.len()
            invariant
                count == self.rows@.len(),
                icons@.len() == decos@.len(),
                start + icons@.len() <= self.rows@.len(),
                self@.rows == self.rows@,
                self@.hovered == self.hovered,
                self@.selected == self.selected,
                out@.len() == k,
                forall|j: int|
                    0 <= j < k ==> pieces((#[trigger] out@[j]).spans@) == row_look(
                        self@.rows[start + j],
                        icons@[j],
                        decos@[j],
                    ).drawn(width) && out@[j].ground == row_ground(
                        self@.hovered == Some((start + j) as usize),
                        self@.selected == Some((start + j) as usize),
                    ),
        {
            let index: usize = start + k;
            let hovered = match self.hovered {
                Some(i) => i == index,
                None => false,
            };
            let selected = match self.selected {
                Some(i) => i == index,
                None => false,
            };
            out.push(row_item(&self.rows[index], &icons[k], hovered, selected, decos[k], width));
        }
        out
    }

    /// The column at which the title-bar buttons begin.
    pub fn actions_column(&self, area: Rect, gear: &str, actions_width: u16) -> (r: u16)
        ensures
            r == clipped(
                area.x + AppView::header_room(
                    area,
                    gear_width(self@.merged(), gear@),
                    actions_width,
                ),
            ),
    {
        let gear_columns: u16 = self.gear_columns(gear);
        add_clipped(
            area.x,
            area.width.saturating_sub(gear_columns).saturating_sub(actions_width),
        )
    }

    /// The width of the settings button in the header.
    fn gear_columns(&self, gear: &str) -> (r: u16)
        ensures
            r == gear_width(self@.merged(), gear@),
    {
        if self.merged() {
            return 0;
        }
        let mut text = gear.to_owned();
        text.push(' ');
        let width: usize = text_width(text.as_str());
        width as u16
    }

    /// The workspace-name header: the root's name in capitals, which yields to the buttons in a
    /// narrow pane. `zones` are those of the title-bar buttons, `actions_width` wide; none where
    /// they are not shown.
    pub fn draw_header(
        &mut self,
        area: Rect,
        gear: &str,
        actions_width: u16,
        zones: Vec<(Rect, TitleAction)>,
    ) -> (r: HeaderPlan)
        ensures
            ({
                let before = old(self)@;
                let wide = gear_width(before.merged(), gear@);
                let name = before.header_name(area, wide, actions_width);
                &&& r.name.text@ == name
                &&& r.name.style == (Style { fg: Some(Tint::Accent), bold: true, ..Style::bare() })
                &&& r.blanks == left_of(area.width - columns(name) - actions_width - wide)
                &&& r.gear is Some <==> !before.merged()
                &&& r.gear matches Some(span) ==> span.text@ == gear@.push(' ') && span.style == (
                Style { dim: true, ..Style::bare() })
                &&& final(self)@ == (AppView {
                    title_zones: zones@,
                    gear: if before.merged() {
                        before.gear
                    } else {
                        gear_rect(area, area.y, wide)
                    },
                    ..before
                })
            }),
    {
        proof {
            reveal(App::view);
        }
        let wide: u16 = self.gear_columns(gear);
        self.title_zones = zones;
        let room: usize = area.width.saturating_sub(wide).saturating_sub(actions_width) as usize;
        let mut label = String::new();
        label.push(' ');
        label.append(to_upper(self.root_name.as_str()).as_str());
        proof {
            assert(label@ =~= seq![' '] + raised(self.root_name@));
        }
        let name = truncate_to(label.as_str(), room);
        let name_width: usize = text_width(name.as_str());
        let blanks: usize = (area.width as usize).saturating_sub(name_width).saturating_sub(
            actions_width as usize,
        ).saturating_sub(wide as usize);
        let gear = if self.merged() {
            None
        } else {
            let mut text = gear.to_owned();
            text.push(' ');
            self.gear = gear_place(area, area.y, wide);
            Some(Span { text, style: Style::faint() })
        };
        HeaderPlan {
            name: Span {
                text: name,
                style: Style {
                    fg: Some(Tint::Accent),
                    bg: None,
                    bold: true,
                    dim: false,
                    italic: false,
                },
            },
            blanks,
            gear,
        }
    }

    /// The activity bar: the icons of the two views, the Explorer's highlighted, and the settings
    /// button. The click zones follow the widths of what is drawn.
    pub fn draw_activity_bar(
        &mut self,
        area: Rect,
        explorer: &str,
        source_control: &str,
        gear: &str,
    ) -> (r: ActivityPlan)
        ensures
            ({
                let theme = old(self)@.theme;
                let (first, second, last) = (
                    chip_text(explorer@, theme),
                    chip_text(source_control@, theme),
                    " "@ + gear@ + " "@,
                );
                let zones = activity_zones(
                    area,
                    columns(" "@) as u16,
                    columns(first) as u16,
                    columns(second) as u16,
                );
                let gear_columns = columns(last) as u16;
                let cap = (zones.explorer.1 - zones.explorer.0) as u16;
                &&& r.explorer.text@ == first
                &&& r.explorer.style == (Style { bg: Some(Ground::Selection), ..Style::bare() })
                &&& r.source_control.text@ == second
                &&& r.source_control.style == (Style { dim: true, ..Style::bare() })
                &&& r.gear.text@ == last
                &&& r.gear.style == (Style { dim: true, ..Style::bare() })
                &&& r.blanks == left_of(
                    area.width - 2 * columns(" "@) - columns(first) - columns(second)
                        - gear_columns,
                )
                &&& r.cap_above == (Rect {
                    x: zones.explorer.0,
                    y: area.y,
                    width: cap,
                    height: 1,
                })
                &&& r.cap_below == (Rect {
                    x: zones.explorer.0,
                    y: clipped(area.y + 2),
                    width: cap,
                    height: 1,
                })
                &&& final(self)@ == (AppView {
                    activity: zones,
                    gear: gear_rect(area, clipped(area.y + 1), gear_columns),
                    ..old(self)@
                })
            }),
    {
        proof {
            reveal(App::view);
        }
        let first = chip(explorer, self.theme);
        let second = chip(source_control, self.theme);
        let last = concat3(" ", gear, " ");
        let (blank, first_width, second_width, last_width): (usize, usize, usize, usize) = (
            text_width(" "),
            text_width(first.as_str()),
            text_width(second.as_str()),
            text_width(last.as_str()),
        );
        let row: u16 = add_clipped(area.y, 1);
        let x: u16 = add_clipped(area.x, blank as u16);
        let x_end: u16 = add_clipped(x, first_width as u16);
        let next: u16 = add_clipped(x_end, blank as u16);
        let next_end: u16 = add_clipped(next, second_width as u16);
        self.activity = ActivityZones {
            row,
            explorer: (x, x_end),
            source_control: (next, next_end),
        };
        let gear_columns: u16 = last_width as u16;
        self.gear = gear_place(area, row, gear_columns);
        let blanks: usize = (area.width as usize).saturating_sub(blank).saturating_sub(
            blank,
        ).saturating_sub(first_width).saturating_sub(second_width).saturating_sub(
            gear_columns as usize,
        );
        let cap: u16 = x_end - x;
        ActivityPlan {
            explorer: Span {
                text: first,
                style: Style {
                    fg: None,
                    bg: Some(Ground::Selection),
                    bold: false,
                    dim: false,
                    italic: false,
                },
            },
            source_control: Span { text: second, style: Style::faint() },
            blanks,
            gear: Span { text: last, style: Style::faint() },
            cap_above: Rect { x, y: area.y, width: cap, height: 1 },
            cap_below: Rect { x, y: add_clipped(area.y, 2), width: cap, height: 1 },
        }
    }
}

/// The collapse button is clicked wherever it is drawn: in a pane with room for a footer, the last
/// row of the footer is the last row of the pane.
pub proof fn law_the_collapse_button_is_clicked_where_it_is_drawn(
    area: Rect,
    merged: bool,
    footer_height: u16,
    column: u16,
    row: u16,
)
    requires
        area.x == 0,
        area.y == 0,
        footer_height > 0,
        has_room(area, heights(merged, footer_height)),
    ensures
        ({
            let line = last_line(tiled(area, heights(merged, footer_height)).footer);
            right_end(line, BUTTON_WIDTH).covers(column, row) ==> on_collapse_button(
                column,
                row,
                area.width,
                area.height,
            )
        }),
{
}

/// The parts of a pane with room share it out: each begins where the one above it ends, and the
/// last one ends with the pane.
pub proof fn law_parts_share_out_the_pane(area: Rect, merged: bool, footer_height: u16)
    requires
        fits(area),
        has_room(area, heights(merged, footer_height)),
    ensures
        ({
            let parts = tiled(area, heights(merged, footer_height));
            &&& parts.activity.y == area.y
            &&& parts.header.y == parts.activity.y + parts.activity.height
            &&& parts.body.y == parts.header.y + parts.header.height
            &&& parts.footer.y == parts.body.y + parts.body.height
            &&& parts.footer.y + parts.footer.height == area.y + area.height
        }),
{
}

/// What is drawn of the list shows the selection when it is to be brought into view, and the list
/// never scrolls past its end.
pub proof fn law_selections_are_brought_into_view(app: AppView, area: Rect, parts: Parts)
    requires
        app.selection_in_range(),
        app.rows.len() <= usize::MAX,
    ensures
        ({
            let drawn = app.laid_out(area, parts);
            let shown = window(
                drawn.scroll,
                app.rows.len() as int,
                AppView::rows_height(parts.body),
            );
            &&& app.snap && app.rows.len() > 0 ==> (app.selected matches Some(index)
                ==> shown.start <= index < shown.start + shown.count)
            &&& app.rows.len() > 0 ==> shown.start + shown.count <= app.rows.len() && shown.count
                >= 1
            &&& drawn.selected == app.selected
            &&& drawn.rows == app.rows
        }),
{
}

} // verus!
