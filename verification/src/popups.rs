//! What the modals of the Explorer view draw: where each popup lies and what its lines say.

use crate::explorer::{
    App, AppView, FinderView, Menu, MenuView, Overlay, OverlayView, QuickOpen, SettingsModal,
};
use crate::geometry::{
    add_clipped, clipped, keep_visible_scroll, least, left_of, most, scroll_showing, Rect,
};
use crate::menu::{menu_lines, MenuEntry, MenuItem};
use crate::quick_open::QUICK_OPEN_FILE_LIMIT;
use crate::rows::{pieces, row_bg, Ground, Piece, Span, Style};
use crate::settings::{
    is_enabled, label_text, setting_at, settings_rows, shows_setting, value_text, Setting,
    SettingRow, SettingsInput, SETTING_COUNT,
};
use crate::text::{concat2, concat3, decimal, decimal_text, repeat_char, repeated};
use crate::width::{columns, cut_front, truncate_path_tail};
use vstd::prelude::*;
use vstd::string::*;

verus! {

/// The look of a line: selected or not.
pub open spec fn line_style(selected: bool) -> Style {
    if selected {
        Style { bg: Some(Ground::Selection), ..Style::bare() }
    } else {
        Style::bare()
    }
}

/// The look of a line: selected or not.
fn style_of(selected: bool) -> (r: Style)
    ensures
        r == line_style(selected),
{
    match row_bg(false, selected) {
        Some(style) => style,
        None => Style::plain(),
    }
}

/// The number of characters of the longest label of a menu.
pub open spec fn widest_label(lines: Seq<Option<MenuItem>>) -> nat
    decreases lines.len(),
{
    if lines.len() == 0 {
        0
    } else {
        most(
            widest_label(lines.drop_last()) as int,
            match lines.last() {
                Some(item) => item.label.len() as int,
                None => 0,
            },
        ) as nat
    }
}

/// Where the menu lies: near its anchor, inside the pane.
pub open spec fn menu_rect(menu: MenuView, area: Rect) -> Rect {
    let width = least(widest_label(menu.lines) as int + 4, area.width as int) as u16;
    let height = least(menu.lines.len() as int + 2, area.height as int) as u16;
    Rect {
        x: least(menu.x as int, area.width - width) as u16,
        y: least(menu.y + 1, area.height - height) as u16,
        width,
        height,
    }
}

/// A line of the menu: a rule for a separator, else the label behind a blank.
pub open spec fn menu_line(line: Option<MenuItem>, selected: bool, width: u16) -> Piece {
    match line {
        Some(item) => Piece { text: " "@ + item.label, style: line_style(selected) },
        None => Piece {
            text: repeated('─', left_of(width - 2)),
            style: Style { dim: true, ..Style::bare() },
        },
    }
}

/// A popup: where it lies and its lines.
#[derive(Debug)]
pub struct Popup {
    pub rect: Rect,
    pub lines: Vec<Span>,
}

/// The number of characters of the longest label of a menu.
fn label_width(entries: &Vec<MenuEntry>) -> (r: usize)
    ensures
        r == widest_label(menu_lines(entries@)),
{
    let ghost lines = menu_lines(entries@);
    let mut widest: usize = 0;
    proof {
        reveal(menu_lines);
        assert(lines.take(0) =~= Seq::<Option<MenuItem>>::empty());
    }
    for i in 0..entries.len()
        invariant
            lines == menu_lines(entries@),
            lines.len() == entries@.len(),
            widest == widest_label(lines.take(i as int)),
    {
        proof {
            reveal(menu_lines);
            assert(lines.take(i as int + 1).drop_last() =~= lines.take(i as int));
            assert(lines.take(i as int + 1).last() == lines[i as int]);
        }
        let width: usize = match entries[i] {
            MenuEntry::Action(_, label) => label.unicode_len(),
            MenuEntry::Separator => 0,
        };
        if width > widest {
            widest = width;
        }
    }
    assert(lines.take(lines.len() as int) =~= lines);
    widest
}

/// The menu popup, clamped inside the pane.
pub fn plan_menu(menu: &Menu, area: Rect) -> (r: Popup)
    ensures
        r.rect == menu_rect(menu@, area),
        r.lines@.len() == menu@.lines.len(),
        forall|i: int|
            0 <= i < r.lines@.len() ==> (Piece {
                text: (#[trigger] r.lines@[i]).text@,
                style: r.lines@[i].style,
            }) == menu_line(menu@.lines[i], i == menu.selected, r.rect.width),
{
    proof {
        reveal(menu_lines);
    }
    let widest: usize = label_width(&menu.entries);
    let count: usize = menu.entries.len();
    let width: u16 = if widest < area.width.saturating_sub(4) as usize {
        (widest + 4) as u16
    } else {
        area.width
    };
    let height: u16 = if count < area.height.saturating_sub(2) as usize {
        (count + 2) as u16
    } else {
        area.height
    };
    let (right, bottom): (u16, u16) = (area.width - width, area.height - height);
    let x: u16 = if menu.x < right {
        menu.x
    } else {
        right
    };
    let y: u16 = if menu.y < bottom {
        menu.y + 1
    } else {
        bottom
    };
    let rect = Rect { x, y, width, height };
    let mut lines: Vec<Span> = Vec::new();
    for i in 0..menu.entries.len()
        invariant
            menu@.lines.len() == menu.entries@.len(),
            lines@.len() == i,
            forall|k: int|
                0 <= k < i ==> (Piece {
                    text: (#[trigger] lines@[k]).text@,
                    style: lines@[k].style,
                }) == menu_line(menu@.lines[k], k == menu.selected, width),
    {
        proof {
            reveal(menu_lines);
        }
        let line = match menu.entries[i] {
            MenuEntry::Action(_, label) => Span {
                text: concat2(" ", label),
                style: style_of(i == menu.selected),
            },
            MenuEntry::Separator => Span {
                text: repeat_char('─', width.saturating_sub(2) as usize),
                style: Style::faint(),
            },
        };
        lines.push(line);
    }
    Popup { rect, lines }
}

/// The widest of the first `count` rows of the modal, at least thirty columns: each asks for its
/// label, its value and five more.
pub open spec fn widest_row(rows: Seq<SettingRow>, count: int) -> nat
    decreases count,
{
    if count <= 0 {
        30
    } else {
        most(
            widest_row(rows, count - 1) as int,
            (rows[count - 1].label@.len() + rows[count - 1].value@.len() + 5) as int,
        ) as nat
    }
}

/// The width of the modal.
pub open spec fn settings_width(rows: Seq<SettingRow>, area: Rect) -> u16 {
    least((widest_row(rows, rows.len() as int) as u16) as int, area.width as int) as u16
}

/// The width of the modal. The hotkeys in it wrap to two columns less.
pub fn plan_settings_width(rows: &Vec<SettingRow>, area: Rect) -> (r: u16)
    requires
        forall|i: int|
            0 <= i < rows@.len() ==> (#[trigger] rows@[i]).label@.len() + rows@[i].value@.len() + 5
                <= usize::MAX,
    ensures
        r == settings_width(rows@, area),
{
    let mut widest: usize = 30;
    for i in 0..rows.len()
        invariant
            forall|k: int|
                0 <= k < rows@.len() ==> (#[trigger] rows@[k]).label@.len() + rows@[k].value@.len()
                    + 5 <= usize::MAX,
            widest == widest_row(rows@, i as int),
    {
        let wide: usize = rows[i].label.unicode_len() + rows[i].value.as_str().unicode_len() + 5;
        if wide > widest {
            widest = wide;
        }
    }
    let wanted: u16 = widest as u16;
    if wanted < area.width {
        wanted
    } else {
        area.width
    }
}

/// Where the modal lies: in the middle, a third of the way down.
pub open spec fn settings_rect(width: u16, hint_lines: int, area: Rect) -> Rect {
    let height = least(SETTING_COUNT + 5 + hint_lines, area.height as int) as u16;
    Rect {
        x: ((area.width - width) / 2) as u16,
        y: ((area.height - height) / 3) as u16,
        width,
        height,
    }
}

/// The text of a row: the label at the left, the value at the right, at least a blank between.
pub open spec fn setting_text(label: Seq<char>, value: Seq<char>, room: int) -> Seq<char> {
    " "@ + label + repeated(
        ' ',
        most(left_of(room - label.len() - value.len() - 2) as int, 1) as nat,
    ) + value + " "@
}

/// The look of a row.
pub open spec fn setting_style(enabled: bool, selected: bool) -> Style {
    if !enabled {
        Style { dim: true, ..Style::bare() }
    } else {
        line_style(selected)
    }
}

/// The text of a row.
fn setting_line(label: &str, value: &str, room: usize) -> (r: String)
    ensures
        r@ == setting_text(label@, value@, room as int),
{
    let left: usize = room.saturating_sub(label.unicode_len()).saturating_sub(
        value.unicode_len(),
    ).saturating_sub(2);
    let blanks: usize = if left > 1 {
        left
    } else {
        1
    };
    let mut out = concat3(" ", label, repeat_char(' ', blanks).as_str());
    out.append(value);
    out.append(" ");
    out
}

/// The Settings modal, with the rows of the settings; below them stand the hotkeys, which take
/// `hint_lines` lines at the modal's width.
pub fn plan_settings(
    modal: &mut SettingsModal,
    rows: &Vec<SettingRow>,
    width: u16,
    hint_lines: usize,
    area: Rect,
) -> (r: Vec<Span>)
    requires
        rows@.len() == SETTING_COUNT,
        width <= area.width,
        hint_lines <= u16::MAX,
    ensures
        ({
            let rect = settings_rect(width, hint_lines as int, area);
            *final(modal) == (SettingsModal {
                rect,
                scroll: scroll_showing(
                    old(modal).selected as int,
                    left_of(rect.height - 2) as int,
                    SETTING_COUNT + 3 + hint_lines,
                ) as usize,
                ..*old(modal)
            })
        }),
        r@.len() == SETTING_COUNT,
        forall|i: int|
            0 <= i < SETTING_COUNT ==> (#[trigger] r@[i]).text@ == setting_text(
                rows@[i].label@,
                rows@[i].value@,
                left_of(width - 2) as int,
            ) && r@[i].style == setting_style(rows@[i].enabled, i == old(modal).selected),
{
    let wanted: usize = SETTING_COUNT + 5 + hint_lines;
    let height: u16 = if wanted < area.height as usize {
        wanted as u16
    } else {
        area.height
    };
    modal.rect = Rect {
        x: (area.width - width) / 2,
        y: (area.height - height) / 3,
        width,
        height,
    };
    modal.scroll = keep_visible_scroll(
        modal.selected,
        height.saturating_sub(2) as usize,
        SETTING_COUNT + 3 + hint_lines,
    );
    let room: usize = width.saturating_sub(2) as usize;
    let selected: usize = modal.selected;
    let mut lines: Vec<Span> = Vec::new();
    for i in 0..rows.len()
        invariant
            rows@.len() == SETTING_COUNT,
            room == left_of(width - 2),
            lines@.len() == i,
            forall|k: int|
                0 <= k < i ==> (#[trigger] lines@[k]).text@ == setting_text(
                    rows@[k].label@,
                    rows@[k].value@,
                    left_of(width - 2) as int,
                ) && lines@[k].style == setting_style(rows@[k].enabled, k == selected),
    {
        let row = &rows[i];
        let style = if !row.enabled {
            Style::faint()
        } else {
            style_of(i == selected)
        };
        lines.push(Span { text: setting_line(row.label, row.value.as_str(), room), style });
    }
    lines
}

/// Where the parts of Quick Open lie.
#[derive(Clone, Copy, PartialEq, Eq, Debug, Structural)]
pub struct FinderPlan {
    pub popup: Rect,
    pub query: Rect,
    pub list: Rect,
    /// The line that says how many files match, where there is room.
    pub status: Option<Rect>,
    /// The first match that is listed.
    pub start: usize,
}

/// Where the parts of Quick Open lie: a popup of at most 82 columns, with a line to type in, the
/// matches, and a status line.
pub open spec fn finder_plan(matches: int, selected: usize, area: Rect) -> FinderPlan {
    let width = least(most(area.width as int, 1), 82) as u16;
    let visible = most(least(left_of(area.height - 5) as int, matches), 1);
    let height = most(least(visible + 5, area.height as int), 1) as u16;
    let popup = Rect {
        x: (left_of(area.width - width) / 2) as u16,
        y: (left_of(area.height - height) / 4) as u16,
        width,
        height,
    };
    let inner = popup.inside();
    let list = Rect {
        x: inner.x,
        y: clipped(inner.y + 2),
        width: inner.width,
        height: left_of(inner.height - 3) as u16,
    };
    FinderPlan {
        popup,
        query: Rect { height: least(inner.height as int, 1) as u16, ..inner },
        list,
        status: if inner.height > 1 {
            Some(
                Rect {
                    x: inner.x,
                    y: clipped(inner.y + inner.height - 1),
                    width: inner.width,
                    height: 1,
                },
            )
        } else {
            None
        },
        start: left_of(selected - left_of(list.height - 1)) as usize,
    }
}

/// Where the parts of Quick Open lie.
pub fn plan_finder(matches: usize, selected: usize, area: Rect) -> (r: FinderPlan)
    ensures
        r == finder_plan(matches as int, selected, area),
{
    let width: u16 = if area.width < 1 {
        1
    } else if area.width > 82 {
        82
    } else {
        area.width
    };
    let room: usize = area.height.saturating_sub(5) as usize;
    let shown: usize = if room < matches {
        room
    } else {
        matches
    };
    let visible: usize = if shown > 1 {
        shown
    } else {
        1
    };
    let wanted: usize = visible + 5;
    let held: u16 = if wanted < area.height as usize {
        wanted as u16
    } else {
        area.height
    };
    let height: u16 = if held > 1 {
        held
    } else {
        1
    };
    let popup = Rect {
        x: area.width.saturating_sub(width) / 2,
        y: area.height.saturating_sub(height) / 4,
        width,
        height,
    };
    let inner = popup.inner();
    let list = Rect {
        x: inner.x,
        y: add_clipped(inner.y, 2),
        width: inner.width,
        height: inner.height.saturating_sub(3),
    };
    let query = Rect {
        x: inner.x,
        y: inner.y,
        width: inner.width,
        height: if inner.height < 1 {
            inner.height
        } else {
            1
        },
    };
    let status = if inner.height > 1 {
        Some(
            Rect {
                x: inner.x,
                y: add_clipped(inner.y, inner.height - 1),
                width: inner.width,
                height: 1,
            },
        )
    } else {
        None
    };
    let start: usize = selected.saturating_sub(list.height.saturating_sub(1) as usize);
    FinderPlan { popup, query, list, status, start }
}

/// What the status line says.
pub open spec fn finder_status(finder: FinderView) -> Seq<char> {
    let count = decimal_text(finder.matches.len());
    if finder.loading {
        "indexing files…"@
    } else if finder.matches.len() == 0 {
        "no matching files"@
    } else if finder.truncated {
        count + " matches · first "@ + decimal_text(QUICK_OPEN_FILE_LIMIT as nat)
            + " files indexed"@
    } else {
        count + " matches"@
    }
}

/// What the status line says.
pub fn status_text(finder: &QuickOpen) -> (r: String)
    ensures
        r@ == finder_status(finder@),
{
    let count = decimal(finder.matches.len() as u64);
    if finder.loading {
        "indexing files…".to_owned()
    } else if finder.matches.len() == 0 {
        "no matching files".to_owned()
    } else if finder.truncated {
        let head = concat3(
            count.as_str(),
            " matches · first ",
            decimal(QUICK_OPEN_FILE_LIMIT as u64).as_str(),
        );
        concat2(head.as_str(), " files indexed")
    } else {
        concat2(count.as_str(), " matches")
    }
}

/// The files that are listed from `start` on, `height` of them; positions past the index are left
/// out.
pub open spec fn finder_lines(finder: FinderView, plan: FinderPlan, upto: int) -> Seq<Piece>
    decreases upto - plan.start,
{
    if upto <= plan.start || upto > finder.matches.len() {
        Seq::empty()
    } else {
        let before = finder_lines(finder, plan, upto - 1);
        let file = finder.matches[upto - 1];
        if file < finder.files.len() {
            let label = finder.files[file as int].label@;
            before.push(
                Piece {
                    text: " "@ + cut_front(
                        label,
                        columns(label),
                        left_of(plan.list.width - 1) as usize,
                    ),
                    style: line_style(upto - 1 == finder.selected),
                },
            )
        } else {
            before
        }
    }
}

/// Where the listed matches end.
pub open spec fn finder_end(matches: int, plan: FinderPlan) -> int {
    least(matches, plan.start + plan.list.height)
}

/// The files that are listed: each with its file name visible, the selected one highlighted.
pub fn list_lines(finder: &QuickOpen, plan: &FinderPlan) -> (r: Vec<Span>)
    ensures
        pieces(r@) == finder_lines(
            finder@,
            *plan,
            finder_end(finder@.matches.len() as int, *plan),
        ),
{
    let mut lines: Vec<Span> = Vec::new();
    let count: usize = finder.matches.len();
    assert(pieces(lines@) =~= Seq::<Piece>::empty());
    if plan.start >= count {
        return lines;
    }
    let left: usize = count - plan.start;
    let end: usize = if left < plan.list.height as usize {
        count
    } else {
        plan.start + plan.list.height as usize
    };
    for i in plan.start..end
        invariant
            plan.start <= end <= count,
            count == finder.matches@.len(),
            pieces(lines@) == finder_lines(finder@, *plan, i as int),
    {
        let index: usize = finder.matches[i];
        if index < finder.files.len() {
            let room: usize = plan.list.width.saturating_sub(1) as usize;
            let label = truncate_path_tail(finder.files[index].label.as_str(), room);
            let ghost before = lines@;
            lines.push(
                Span { text: concat2(" ", label.as_str()), style: style_of(i == finder.selected) },
            );
            proof {
                assert(pieces(lines@) =~= pieces(before).push(
                    Piece { text: lines@.last().text@, style: lines@.last().style },
                ));
            }
        }
    }
    lines
}

impl App {
    /// The rows of the Settings modal.
    pub fn setting_rows(&self, windows: bool) -> (r: Vec<SettingRow>)
        ensures
            r@.len() == SETTING_COUNT,
            forall|i: int|
                0 <= i < SETTING_COUNT ==> {
                    &&& (#[trigger] r@[i]).setting == setting_at(i)
                    &&& r@[i].label@ == label_text(setting_at(i))
                    &&& r@[i].enabled == is_enabled(setting_at(i), self@.has_other)
                    &&& r@[i].value@ == shown_value(setting_at(i), self@, windows)
                },
    {
        proof {
            reveal(App::view);
        }
        let input = SettingsInput {
            state: self.sidebar_state,
            has_other: self.has_other,
            theme: self.theme,
            show_hidden: self.show_hidden,
            root_name: self.root_name.as_str(),
            windows,
        };
        let rows = settings_rows(&input);
        proof {
            assert forall|i: int| 0 <= i < SETTING_COUNT implies (#[trigger] rows@[i]).value@
                == shown_value(setting_at(i), self@, windows) by {
                assert(shows_setting(rows@[i], setting_at(i), input));
            }
        }
        rows
    }
}

impl App {
    /// The context menu: where it lies is remembered for clicks.
    pub fn draw_menu(&mut self, area: Rect) -> (r: Option<Popup>)
        ensures
            match old(self)@.overlay {
                Some(OverlayView::Menu(menu)) => {
                    &&& r matches Some(popup)
                    &&& popup.rect == menu_rect(menu, area)
                    &&& popup.lines@.len() == menu.lines.len()
                    &&& forall|i: int|
                        0 <= i < popup.lines@.len() ==> (Piece {
                            text: (#[trigger] popup.lines@[i]).text@,
                            style: popup.lines@[i].style,
                        }) == menu_line(menu.lines[i], i == menu.selected, popup.rect.width)
                    &&& final(self)@ == old(self)@.showing(
                        OverlayView::Menu(MenuView { rect: menu_rect(menu, area), ..menu }),
                    )
                },
                _ => r is None && final(self)@ == old(self)@,
            },
    {
        let ghost before = self@;
        match self.take_overlay() {
            Some(Overlay::Menu(menu)) => {
                let mut menu = menu;
                let popup = plan_menu(&menu, area);
                menu.rect = popup.rect;
                self.set_overlay(Overlay::Menu(menu));
                Some(popup)
            },
            Some(overlay) => {
                self.set_overlay(overlay);
                assert(self@ == before);
                None
            },
            None => {
                assert(self@ == before);
                None
            },
        }
    }

    /// The Settings modal, `width` wide, with `hint_lines` lines of hotkeys below the settings:
    /// where it lies, and how far it is scrolled to show the selection, is remembered for clicks.
    pub fn draw_settings(
        &mut self,
        area: Rect,
        rows: &Vec<SettingRow>,
        width: u16,
        hint_lines: usize,
    ) -> (r: Option<SettingsFrame>)
        requires
            rows@.len() == SETTING_COUNT,
            width <= area.width,
            hint_lines <= u16::MAX,
        ensures
            match old(self)@.overlay {
                Some(OverlayView::Settings(modal)) => {
                    let rect = settings_rect(width, hint_lines as int, area);
                    &&& r matches Some(frame)
                    &&& frame.rect == rect
                    &&& frame.rows@.len() == SETTING_COUNT
                    &&& forall|i: int|
                        0 <= i < SETTING_COUNT ==> (#[trigger] frame.rows@[i]).text@ == setting_text(
                            rows@[i].label@,
                            rows@[i].value@,
                            left_of(width - 2) as int,
                        ) && frame.rows@[i].style == setting_style(
                            rows@[i].enabled,
                            i == modal.selected,
                        )
                    &&& frame.heading.text@ == " Hotkeys"@
                    &&& frame.heading.style == (Style { bold: true, ..Style::bare() })
                    &&& frame.closing.text@ == " click/⏎ · ←/→ width · esc"@
                    &&& frame.closing.style == (Style { dim: true, ..Style::bare() })
                    &&& frame.scroll == scroll_showing(
                        modal.selected as int,
                        left_of(rect.height - 2) as int,
                        SETTING_COUNT + 3 + hint_lines,
                    )
                    &&& final(self)@ == old(self)@.showing(
                        OverlayView::Settings(
                            SettingsModal {
                                rect,
                                scroll: scroll_showing(
                                    modal.selected as int,
                                    left_of(rect.height - 2) as int,
                                    SETTING_COUNT + 3 + hint_lines,
                                ) as usize,
                                ..modal
                            },
                        ),
                    )
                },
                _ => r is None && final(self)@ == old(self)@,
            },
    {
        let ghost before = self@;
        match self.take_overlay() {
            Some(Overlay::Settings(modal)) => {
                let mut modal = modal;
                let lines = plan_settings(&mut modal, rows, width, hint_lines, area);
                self.set_overlay(Overlay::Settings(modal));
                Some(
                    SettingsFrame {
                        rect: modal.rect,
                        scroll: modal.scroll,
                        rows: lines,
                        heading: Span { text: " Hotkeys".to_owned(), style: Style::strong() },
                        closing: Span {
                            text: " click/⏎ · ←/→ width · esc".to_owned(),
                            style: Style::faint(),
                        },
                    },
                )
            },
            Some(overlay) => {
                self.set_overlay(overlay);
                assert(self@ == before);
                None
            },
            None => {
                assert(self@ == before);
                None
            },
        }
    }

    /// Quick Open: where its parts lie, what was typed, the files that are listed, and what the
    /// status line says.
    pub fn draw_quick_open(&self, area: Rect) -> (r: Option<FinderFrame>)
        ensures
            match self@.overlay {
                Some(OverlayView::QuickOpen(finder)) => {
                    &&& r matches Some(frame)
                    &&& frame.plan == finder_plan(
                        finder.matches.len() as int,
                        finder.selected,
                        area,
                    )
                    &&& frame.query@ == finder.query
                    &&& pieces(frame.lines@) == finder_lines(
                        finder,
                        frame.plan,
                        finder_end(finder.matches.len() as int, frame.plan),
                    )
                    &&& frame.status@ == finder_status(finder)
                },
                _ => r is None,
            },
    {
        proof {
            reveal(App::view);
        }
        match &self.overlay {
            Some(Overlay::QuickOpen(finder)) => {
                let plan = plan_finder(finder.matches.len(), finder.selected, area);
                Some(
                    FinderFrame {
                        plan,
                        query: finder.query.clone(),
                        lines: list_lines(finder, &plan),
                        status: status_text(finder),
                    },
                )
            },
            _ => None,
        }
    }
}

/// What the Settings modal draws: the settings, an empty line, the heading of the hotkeys, the
/// hotkeys, and a closing line.
#[derive(Debug)]
pub struct SettingsFrame {
    pub rect: Rect,
    pub scroll: usize,
    pub rows: Vec<Span>,
    pub heading: Span,
    pub closing: Span,
}

/// What Quick Open draws.
#[derive(Debug)]
pub struct FinderFrame {
    pub plan: FinderPlan,
    pub query: String,
    pub lines: Vec<Span>,
    pub status: String,
}

/// What the value of a setting of the view is shown as.
pub open spec fn shown_value(setting: Setting, app: AppView, windows: bool) -> Seq<char> {
    match setting {
        Setting::Folder => app.root_name,
        _ => value_text(
            setting,
            SettingsInput {
                state: app.state,
                has_other: app.has_other,
                theme: app.theme,
                show_hidden: app.show_hidden,
                root_name: "",
                windows,
            },
        ),
    }
}

/// A popup never reaches past the pane.
pub proof fn law_menus_stay_inside(menu: MenuView, area: Rect)
    ensures
        menu_rect(menu, area).x + menu_rect(menu, area).width <= area.width,
        menu_rect(menu, area).y + menu_rect(menu, area).height <= area.height,
{
}

/// Quick Open lists the selected match, where the list has a row at all.
pub proof fn law_selected_matches_are_listed(matches: int, selected: usize, area: Rect)
    requires
        selected < matches,
    ensures
        ({
            let plan = finder_plan(matches, selected, area);
            plan.list.height > 0 ==> plan.start <= selected < finder_end(matches, plan)
        }),
{
}

} // verus!
