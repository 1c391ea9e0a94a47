//! Where the popups lie and what their lines say.

use crate::drawing_laws::shortened_front;
use crate::explorer::{AppView, FinderView, MenuView};
use crate::geometry::{scroll_showing, Rect};
use crate::menu::MenuItem;
use crate::popups::{
    finder_end, finder_lines, finder_plan, finder_status, menu_line, menu_rect, setting_style,
    setting_text, settings_rect, settings_width, shown_value, widest_label, widest_row, FinderPlan,
};
use crate::rows::{Ground, Style};
use crate::settings::{setting_at, value_text, SettingRow, SettingsInput};
use crate::text::decimal_text;
use crate::width::columns;
use vstd::prelude::*;
use vstd::string::*;

verus! {

/// No label of a menu is longer than the longest, and one is that long.
proof fn lemma_widest_label(lines: Seq<Option<MenuItem>>)
    ensures
        forall|i: int|
            0 <= i < lines.len() && (#[trigger] lines[i]) is Some ==> lines[i]->0.label.len()
                <= widest_label(lines),
        widest_label(lines) == 0 || exists|i: int|
            0 <= i < lines.len() && (#[trigger] lines[i]) is Some && lines[i]->0.label.len()
                == widest_label(lines),
    decreases lines.len(),
{
    if lines.len() > 0 {
        let rest = lines.drop_last();
        lemma_widest_label(rest);
        assert forall|i: int| 0 <= i < lines.len() && (#[trigger] lines[i]) is Some implies lines[i]->0
            .label.len() <= widest_label(lines) by {
            if i < rest.len() {
                assert(rest[i] == lines[i]);
            }
        }
        if widest_label(lines) > 0 {
            if widest_label(lines) == widest_label(rest) {
                let i = choose|i: int|
                    0 <= i < rest.len() && (#[trigger] rest[i]) is Some && rest[i]->0.label.len()
                        == widest_label(rest);
                assert(lines[i] == rest[i]);
            } else {
                assert(lines[lines.len() - 1] is Some);
            }
        }
    }
}

/// The menu is as wide as its longest label and four more, and as high as its lines and the
/// border, as far as the pane goes. It begins at the column of its anchor, one row below it, or as
/// far from the edges as it takes to lie inside the pane.
pub proof fn law_menus_open_below_their_anchor(menu: MenuView, area: Rect, longest: int)
    requires
        0 <= longest < menu.lines.len(),
        menu.lines[longest] is Some,
        forall|i: int|
            0 <= i < menu.lines.len() && (#[trigger] menu.lines[i]) is Some
                ==> menu.lines[i]->0.label.len() <= menu.lines[longest]->0.label.len(),
    ensures
        ({
            let rect = menu_rect(menu, area);
            let wide = menu.lines[longest]->0.label.len() + 4;
            let high = menu.lines.len() + 2;
            &&& wide <= area.width ==> rect.width == wide
            &&& wide > area.width ==> rect.width == area.width
            &&& high <= area.height ==> rect.height == high
            &&& high > area.height ==> rect.height == area.height
            &&& menu.x + rect.width <= area.width ==> rect.x == menu.x
            &&& menu.x + rect.width > area.width ==> rect.x + rect.width == area.width
            &&& menu.y + 1 + rect.height <= area.height ==> rect.y == menu.y + 1
            &&& menu.y + 1 + rect.height > area.height ==> rect.y + rect.height == area.height
        }),
{
    lemma_widest_label(menu.lines);
    assert(widest_label(menu.lines) == menu.lines[longest]->0.label.len());
}

/// A line of the menu is its label behind a blank, on the selection's color where it is selected;
/// a separator is a faint rule between the borders.
pub proof fn law_menu_lines_show_their_labels(line: Option<MenuItem>, selected: bool, width: u16)
    ensures
        ({
            let piece = menu_line(line, selected, width);
            let plain = Style { fg: None, bg: None, bold: false, dim: false, italic: false };
            &&& line matches Some(entry) ==> piece.text == " "@ + entry.label
            &&& line is Some && selected ==> piece.style == Style {
                bg: Some(Ground::Selection),
                ..plain
            }
            &&& line is Some && !selected ==> piece.style == plain
            &&& line is None ==> {
                &&& piece.style == Style { dim: true, ..plain }
                &&& width >= 2 ==> piece.text.len() == width - 2
                &&& width < 2 ==> piece.text.len() == 0
                &&& forall|i: int|
                    0 <= i < piece.text.len() ==> (#[trigger] piece.text[i]) == '─'
            }
        }),
{
}

/// No row of the first `count` asks for more than the widest, which is thirty columns or what one
/// of them asks for.
proof fn lemma_widest_row(rows: Seq<SettingRow>, count: int)
    requires
        0 <= count <= rows.len(),
    ensures
        widest_row(rows, count) >= 30,
        forall|i: int|
            0 <= i < count ==> (#[trigger] rows[i]).label@.len() + rows[i].value@.len() + 5
                <= widest_row(rows, count),
        widest_row(rows, count) == 30 || exists|i: int|
            0 <= i < count && (#[trigger] rows[i]).label@.len() + rows[i].value@.len() + 5
                == widest_row(rows, count),
    decreases count,
{
    if count > 0 {
        lemma_widest_row(rows, count - 1);
        if widest_row(rows, count) > 30 && widest_row(rows, count) != widest_row(rows, count - 1) {
            assert(rows[count - 1].label@.len() + rows[count - 1].value@.len() + 5 == widest_row(
                rows,
                count,
            ));
        }
    }
}

/// The Settings modal is at least thirty columns wide, and as wide as every label, its value and
/// five more need, as far as the pane goes.
pub proof fn law_the_settings_fit_their_rows(rows: Seq<SettingRow>, area: Rect)
    requires
        forall|i: int|
            0 <= i < rows.len() ==> (#[trigger] rows[i]).label@.len() + rows[i].value@.len() + 5
                <= u16::MAX,
    ensures
        ({
            let width = settings_width(rows, area);
            &&& width <= area.width
            &&& width < area.width ==> width >= 30 && forall|i: int|
                0 <= i < rows.len() ==> (#[trigger] rows[i]).label@.len() + rows[i].value@.len() + 5
                    <= width
            &&& width > 30 ==> exists|i: int|
                0 <= i < rows.len() && (#[trigger] rows[i]).label@.len() + rows[i].value@.len() + 5
                    >= width
        }),
{
    lemma_widest_row(rows, rows.len() as int);
    let widest = widest_row(rows, rows.len() as int);
    assert(widest <= u16::MAX) by {
        if widest > 30 {
            let i = choose|i: int|
                0 <= i < rows.len() && (#[trigger] rows[i]).label@.len() + rows[i].value@.len() + 5
                    == widest;
            assert(rows[i].label@.len() + rows[i].value@.len() + 5 <= u16::MAX);
        }
    }
    if settings_width(rows, area) > 30 {
        let i = choose|i: int|
            0 <= i < rows.len() && (#[trigger] rows[i]).label@.len() + rows[i].value@.len() + 5
                == widest;
        assert(rows[i].label@.len() + rows[i].value@.len() + 5 >= settings_width(rows, area));
    }
}

/// The Settings modal has a line for each of the fifteen settings, for the hotkeys and for three
/// more, and a border; it lies in the middle and a third of the way down, inside the pane.
pub proof fn law_the_settings_lie_in_the_middle(width: u16, hints: int, area: Rect)
    requires
        width <= area.width,
        0 <= hints <= u16::MAX,
    ensures
        ({
            let rect = settings_rect(width, hints, area);
            &&& rect.width == width
            &&& 20 + hints <= area.height ==> rect.height == 20 + hints
            &&& 20 + hints > area.height ==> rect.height == area.height
            &&& rect.x + rect.width <= area.width
            &&& rect.y + rect.height <= area.height
            &&& 0 <= area.width - width - 2 * rect.x <= 1
            &&& 0 <= area.height - rect.height - 3 * rect.y <= 2
        }),
{
}

/// A list is scrolled by as little as it takes to show the selected item, and not past its end.
pub proof fn law_modals_scroll_as_little_as_it_takes(selected: int, height: int, content: int)
    requires
        0 <= selected < content,
        height > 0,
    ensures
        ({
            let start = scroll_showing(selected, height, content);
            &&& start <= selected < start + height
            &&& selected < height ==> start == 0
            &&& selected >= height ==> start + height == selected + 1
        }),
{
}

/// A row of the Settings modal has its label behind a blank at the left and its value before a
/// blank at the right, with nothing but blanks between, at least one; it fills the room where both
/// fit.
pub proof fn law_settings_stand_at_both_ends(label: Seq<char>, value: Seq<char>, room: int)
    ensures
        ({
            let text = setting_text(label, value, room);
            let between = text.len() - label.len() - value.len() - 2;
            &&& between >= 1
            &&& room >= label.len() + value.len() + 3 ==> text.len() == room
            &&& room < label.len() + value.len() + 3 ==> between == 1
            &&& text[0] == ' ' && text.last() == ' '
            &&& text.subrange(1, 1int + label.len()) == label
            &&& text.subrange(text.len() - 1 - value.len(), text.len() - 1) == value
            &&& forall|i: int|
                1 + label.len() <= i < text.len() - 1 - value.len() ==> (#[trigger] text[i]) == ' '
        }),
{
    reveal_strlit(" ");
    let text = setting_text(label, value, room);
    assert(text.subrange(1, 1int + label.len()) =~= label);
    assert(text.subrange(text.len() - 1 - value.len(), text.len() - 1) =~= value);
}

/// A setting that cannot be toggled is faint, selected or not; else the selected one lies on the
/// selection's color.
pub proof fn law_disabled_settings_are_faint(selected: bool)
    ensures
        ({
            let plain = Style { fg: None, bg: None, bold: false, dim: false, italic: false };
            &&& setting_style(false, selected) == Style { dim: true, ..plain }
            &&& setting_style(true, true) == Style { bg: Some(Ground::Selection), ..plain }
            &&& setting_style(true, false) == plain
        }),
{
}

/// The modal shows the settings of the view: its state, its icons, its hidden files, and the name
/// of its root.
pub proof fn law_the_modal_shows_the_view(app: AppView, windows: bool, row: int)
    requires
        0 <= row < 15,
    ensures
        row == 14 ==> shown_value(setting_at(row), app, windows) == app.root_name,
        row != 14 ==> shown_value(setting_at(row), app, windows) == value_text(
            setting_at(row),
            SettingsInput {
                state: app.state,
                has_other: app.has_other,
                theme: app.theme,
                show_hidden: app.show_hidden,
                root_name: "",
                windows,
            },
        ),
{
}

/// Quick Open is as wide as the pane and at most 82 columns, in the middle and a quarter of the way
/// down. Inside its border the first line is for typing, the matches follow after an empty line,
/// and the last line is the status. The list is high enough for every match, as far as the pane
/// goes, and begins so that the selected match is its last line or above.
pub proof fn law_quick_open_lies_in_the_middle(matches: int, selected: usize, area: Rect)
    requires
        matches >= 0,
        area.width >= 3,
        area.height >= 6,
    ensures
        ({
            let plan = finder_plan(matches, selected, area);
            let popup = plan.popup;
            &&& area.width <= 82 ==> popup.width == area.width
            &&& area.width > 82 ==> popup.width == 82
            &&& 0 <= area.width - popup.width - 2 * popup.x <= 1
            &&& 0 <= area.height - popup.height - 4 * popup.y <= 3
            &&& matches <= 1 ==> popup.height == 6
            &&& matches >= 1 && matches + 5 <= area.height ==> popup.height == matches + 5
            &&& matches + 5 > area.height ==> popup.height == area.height
            &&& plan.query == Rect {
                x: (popup.x + 1) as u16,
                y: (popup.y + 1) as u16,
                width: (popup.width - 2) as u16,
                height: 1,
            }
            &&& plan.list == Rect {
                x: (popup.x + 1) as u16,
                y: (popup.y + 3) as u16,
                width: (popup.width - 2) as u16,
                height: (popup.height - 5) as u16,
            }
            &&& plan.status == Some(
                Rect {
                    x: (popup.x + 1) as u16,
                    y: (popup.y + popup.height - 2) as u16,
                    width: (popup.width - 2) as u16,
                    height: 1,
                },
            )
            &&& selected < plan.list.height ==> plan.start == 0
            &&& selected >= plan.list.height ==> plan.start + plan.list.height == selected + 1
            &&& plan.start + plan.list.height <= matches ==> finder_end(matches, plan) == plan.start
                + plan.list.height
            &&& plan.start + plan.list.height > matches ==> finder_end(matches, plan) == matches
        }),
{
}

/// In a pane with little room Quick Open takes what there is, at least one cell: the line to type in
/// comes first, the status line next, and the matches last.
pub proof fn law_quick_open_shrinks(matches: int, selected: usize, area: Rect)
    requires
        matches >= 0,
        area.width < 3 || area.height < 6,
    ensures
        ({
            let plan = finder_plan(matches, selected, area);
            let popup = plan.popup;
            &&& area.width == 0 ==> popup.width == 1
            &&& 0 < area.width <= 82 ==> popup.width == area.width && popup.x == 0
            &&& area.height == 0 ==> popup.height == 1
            &&& 0 < area.height < 6 ==> popup.height == area.height && popup.y == 0
            &&& popup.width >= 2 && popup.height >= 2 ==> {
                &&& plan.query.width == popup.width - 2
                &&& plan.query.height == if popup.height == 2 {
                    0
                } else {
                    1int
                }
                &&& plan.status is Some <==> popup.height >= 4
                &&& popup.height <= 5 ==> plan.list.height == 0
            }
            &&& popup.width < 2 || popup.height < 2 ==> plan.query.width == 0 && plan.list.height
                == 0 && plan.status is None
        }),
{
}

/// The status line says that files are being indexed, that nothing matches, or how many match, and
/// that only the first twenty thousand files are indexed where that is so.
pub proof fn law_the_status_counts_the_matches(finder: FinderView)
    ensures
        ({
            let said = finder_status(finder);
            let count = decimal_text(finder.matches.len());
            let none = finder.matches.len() == 0;
            &&& finder.loading ==> said == "indexing files…"@
            &&& !finder.loading && none ==> said == "no matching files"@
            &&& !finder.loading && !none && !finder.truncated ==> said == count + " matches"@
            &&& !finder.loading && !none && finder.truncated ==> said == count
                + " matches · first "@ + decimal_text(20000) + " files indexed"@
        }),
{
}

/// Each line of the list is the label of its match behind a blank, cut at its front to the room
/// there is; the selected one lies on the selection's color.
pub proof fn law_matches_are_listed_in_order(
    finder: FinderView,
    plan: FinderPlan,
    upto: int,
    k: int,
)
    requires
        plan.start <= upto <= finder.matches.len(),
        forall|i: int|
            0 <= i < finder.matches.len() ==> (#[trigger] finder.matches[i]) < finder.files.len(),
        0 <= k < upto - plan.start,
    ensures
        ({
            let lines = finder_lines(finder, plan, upto);
            let label = finder.files[finder.matches[plan.start + k] as int].label@;
            let room = plan.list.width - 1;
            let plain = Style { fg: None, bg: None, bold: false, dim: false, italic: false };
            &&& lines.len() == upto - plan.start
            &&& lines[k].style == if plan.start + k == finder.selected {
                Style { bg: Some(Ground::Selection), ..plain }
            } else {
                plain
            }
            &&& columns(label) <= room ==> lines[k].text == " "@ + label
            &&& 0 < room < columns(label) ==> lines[k].text.len() > 0 && lines[k].text[0] == ' '
                && shortened_front(lines[k].text.skip(1), label, room)
            &&& room <= 0 && columns(label) > 0 ==> lines[k].text == " "@
        }),
    decreases upto,
{
    lemma_line_count(finder, plan, upto);
    lemma_line_count(finder, plan, upto - 1);
    if k < upto - 1 - plan.start {
        law_matches_are_listed_in_order(finder, plan, upto - 1, k);
    } else {
        let label = finder.files[finder.matches[plan.start + k] as int].label@;
        let room = plan.list.width - 1;
        let lines = finder_lines(finder, plan, upto);
        reveal_strlit(" ");
        if 0 < room < columns(label) {
            crate::drawing_laws::law_labels_are_cut_where_the_room_ends(
                label,
                columns(label),
                room as usize,
            );
            assert(lines[k].text.skip(1) =~= crate::width::cut_front(
                label,
                columns(label),
                room as usize,
            ));
        } else if room <= 0 && columns(label) > 0 {
            assert(lines[k].text =~= " "@);
        }
    }
}

/// There is a line for every match that is listed.
proof fn lemma_line_count(finder: FinderView, plan: FinderPlan, upto: int)
    requires
        plan.start <= upto + 1,
        upto <= finder.matches.len(),
        forall|i: int|
            0 <= i < finder.matches.len() ==> (#[trigger] finder.matches[i]) < finder.files.len(),
    ensures
        finder_lines(finder, plan, upto).len() == if upto < plan.start {
            0
        } else {
            upto - plan.start
        },
    decreases upto - plan.start,
{
    if upto > plan.start {
        lemma_line_count(finder, plan, upto - 1);
        assert(finder.matches[upto - 1] < finder.files.len());
    }
}

} // verus!
