//! What is drawn: the pieces of a row, texts that are cut, the list, the header and the footer.

use crate::explorer::{AppView, OverlayView};
use crate::frame::{
    activity_height, activity_zones, chip_text, gear_rect, gear_width, heights, hint_at, last_line,
    prompt_pieces, window, MessageView, BUTTON_WIDTH,
};
use crate::geometry::{indent_column, on_collapse_button, row_under, BodyGeom, Rect};
use crate::icons::{Icon, IconTheme};
use crate::layout::{right_end, Parts};
use crate::paths::{file_name_of, path_of};
use crate::quick_open::raised;
use crate::rows::{create_target, row_ground, row_look, Ground, Piece, Row, Style, Tint};
use crate::width::{
    char_columns, columns, cut_back, cut_front, fitting_head, fitting_tail, room_of,
};
use vstd::prelude::*;
use vstd::string::*;

verus! {

/// The first piece of a row, file or directory, is two columns per level and two more: blanks for
/// the levels, and behind them the chevron of a directory, which points down where it is expanded
/// and right where it is not, or a blank, and one more blank. It is drawn faintly.
pub proof fn law_rows_are_indented_by_their_depth(
    row: Row,
    icon: Icon,
    deco: Option<char>,
    width: u16,
)
    ensures
        ({
            let drawn = row_look(row, icon, deco).drawn(width);
            let first = drawn[0].text;
            &&& drawn.len() >= 3
            &&& first.len() == 2 * row.depth + 2
            &&& forall|i: int| 0 <= i < 2 * row.depth ==> (#[trigger] first[i]) == ' '
            &&& !row.is_dir ==> first[2 * row.depth as int] == ' '
            &&& row.is_dir && row.expanded ==> first[2 * row.depth as int] == '▾'
            &&& row.is_dir && !row.expanded ==> first[2 * row.depth as int] == '▸'
            &&& first.last() == ' '
            &&& drawn[0].style == (Style {
                fg: None,
                bg: None,
                bold: false,
                dim: true,
                italic: false,
            })
        }),
{
    reveal_strlit("▾ ");
    reveal_strlit("▸ ");
    reveal_strlit("  ");
}

/// A row one level deeper than another starts two columns further right: its first piece is the
/// other's with two more blanks in front, where both are of one kind.
pub proof fn law_deeper_rows_begin_two_columns_further(
    parent: Row,
    child: Row,
    icon: Icon,
    deco: Option<char>,
    width: u16,
)
    requires
        child.depth == parent.depth + 1,
    ensures
        ({
            let above = row_look(parent, icon, deco).drawn(width)[0].text;
            let below = row_look(child, icon, deco).drawn(width)[0].text;
            &&& below.len() == above.len() + 2
            &&& below[0] == ' ' && below[1] == ' '
            &&& parent.is_dir == child.is_dir && parent.expanded == child.expanded ==> below.skip(2)
                == above
        }),
{
    law_rows_are_indented_by_their_depth(parent, icon, deco, width);
    law_rows_are_indented_by_their_depth(child, icon, deco, width);
    let above = row_look(parent, icon, deco).drawn(width)[0].text;
    let below = row_look(child, icon, deco).drawn(width)[0].text;
    if parent.is_dir == child.is_dir && parent.expanded == child.expanded {
        assert(below.skip(2) =~= above);
    }
}

/// A click finds the chevron of a row where it is drawn: the two columns behind the blanks.
pub proof fn law_chevrons_are_clicked_where_they_are_drawn(
    row: Row,
    icon: Icon,
    deco: Option<char>,
    width: u16,
)
    ensures
        indent_column(row.depth) + 2 == row_look(row, icon, deco).drawn(width)[0].text.len(),
{
    law_rows_are_indented_by_their_depth(row, icon, deco, width);
}

/// The pieces behind the first: the icon and a blank in the icon's color, and the name in the
/// color of its status, faint where the path is ignored. A path with a status that is not ignored
/// has a marker in bold at the right: its letter, or a dot for a directory, with blanks before it
/// and two behind it.
pub proof fn law_rows_show_icon_name_and_marker(
    row: Row,
    icon: Icon,
    deco: Option<char>,
    width: u16,
)
    ensures
        ({
            let drawn = row_look(row, icon, deco).drawn(width);
            let plain = Style { fg: None, bg: None, bold: false, dim: false, italic: false };
            &&& drawn[1].text == icon.glyph@.push(' ')
            &&& drawn[1].style == (Style {
                fg: Some(Tint::Icon { red: icon.rgb.0, green: icon.rgb.1, blue: icon.rgb.2 }),
                ..plain
            })
            &&& deco is None ==> drawn.len() == 3 && drawn[2].style == plain
            &&& deco == Some('I') ==> drawn.len() == 3 && drawn[2].style == (Style {
                dim: true,
                ..plain
            })
            &&& deco matches Some(letter) ==> (letter != 'I' ==> {
                &&& drawn.len() == 6
                &&& drawn[2].style == (Style { fg: Some(Tint::Status(letter)), ..plain })
                &&& forall|i: int|
                    0 <= i < drawn[3].text.len() ==> (#[trigger] drawn[3].text[i]) == ' '
                &&& drawn[3].style == plain
                &&& row.is_dir ==> drawn[4].text == seq!['●']
                &&& !row.is_dir ==> drawn[4].text == seq![letter]
                &&& drawn[4].style == (Style {
                    fg: Some(Tint::Status(letter)),
                    bold: true,
                    ..plain
                })
                &&& drawn[5].text == "  "@
                &&& drawn[5].style == plain
            })
        }),
{
}

/// The name of a row is shown whole where it fits behind the indent and the icon, with four
/// columns to spare for a marker; else as much of it as fits, with an ellipsis at its end. The
/// blanks before a marker fill the row up to three columns before its end.
pub proof fn law_names_are_shown_as_far_as_they_fit(
    row: Row,
    icon: Icon,
    deco: Option<char>,
    width: u16,
)
    ensures
        ({
            let drawn = row_look(row, icon, deco).drawn(width);
            let used = columns(drawn[0].text) + columns(drawn[1].text);
            let marked = deco is Some && deco != Some('I');
            let room = width - used - if marked {
                4int
            } else {
                0
            };
            &&& columns(row.name@) <= room ==> drawn[2].text == row.name@
            &&& room <= 0 && columns(row.name@) > 0 ==> drawn[2].text.len() == 0
            &&& 0 < room < columns(row.name@) ==> shortened(drawn[2].text, row.name@, room)
            &&& marked && used + columns(drawn[2].text) + 3 <= width ==> drawn[3].text.len()
                == width - used - columns(drawn[2].text) - 3
            &&& marked && used + columns(drawn[2].text) + 3 > width ==> drawn[3].text.len() == 0
        }),
{
    let look = row_look(row, icon, deco);
    let drawn = look.drawn(width);
    assert(drawn[0].text == look.prefix());
    assert(drawn[1].text == look.icon());
    assert(drawn[2].text == look.shown_name(width));
    let room = width - look.used() - if look.marker() is Some {
        4int
    } else {
        0
    };
    if 0 < room < columns(row.name@) {
        law_labels_are_cut_where_the_room_ends(row.name@, columns(row.name@), room as usize);
    }
}

/// The columns that characters take one by one, each as many as it has and a control character
/// none.
pub open spec fn total_columns(text: Seq<char>) -> int
    decreases text.len(),
{
    if text.len() == 0 {
        0
    } else {
        total_columns(text.drop_last()) + match char_columns(text.last()) {
            Some(width) => width as int,
            None => 0,
        }
    }
}

/// `cut` is the longest beginning of `text` that leaves a column for the ellipsis, and the
/// ellipsis.
pub open spec fn shortened(cut: Seq<char>, text: Seq<char>, room: int) -> bool {
    let kept = cut.len() - 1;
    &&& 0 <= kept <= text.len()
    &&& cut == text.take(kept).push('…')
    &&& total_columns(text.take(kept)) <= room - 1
    &&& kept < text.len() ==> total_columns(text.take(kept + 1)) > room - 1
}

/// `cut` is the ellipsis and the longest end of `text` that leaves a column for it.
pub open spec fn shortened_front(cut: Seq<char>, text: Seq<char>, room: int) -> bool {
    let kept = cut.len() - 1;
    &&& 0 <= kept <= text.len()
    &&& cut == seq!['…'] + text.skip(text.len() - kept)
    &&& total_columns(text.skip(text.len() - kept)) <= room - 1
    &&& kept < text.len() ==> total_columns(text.skip(text.len() - kept - 1)) > room - 1
}

/// One more character in front.
proof fn lemma_front(c: char, rest: Seq<char>)
    ensures
        total_columns(seq![c] + rest) == room_of(c) + total_columns(rest),
    decreases rest.len(),
{
    let all = seq![c] + rest;
    if rest.len() == 0 {
        assert(all.drop_last() =~= Seq::<char>::empty());
        assert(total_columns(all.drop_last()) == 0);
        assert(all.last() == c);
    } else {
        lemma_front(c, rest.drop_last());
        assert(all.drop_last() =~= seq![c] + rest.drop_last());
    }
}

/// The beginning that fits is the longest.
proof fn lemma_head(text: Seq<char>, room: nat)
    ensures
        ({
            let kept = fitting_head(text, room).len() as int;
            &&& kept <= text.len()
            &&& fitting_head(text, room) == text.take(kept)
            &&& total_columns(text.take(kept)) <= room
            &&& kept < text.len() ==> total_columns(text.take(kept + 1)) > room
        }),
    decreases text.len(),
{
    let head = fitting_head(text, room);
    if text.len() == 0 {
        assert(head =~= text.take(0));
    } else if room_of(text[0]) > room {
        assert(head =~= text.take(0));
        assert(text.take(1) =~= seq![text[0]] + Seq::<char>::empty());
        lemma_front(text[0], Seq::empty());
    } else {
        let less = (room - room_of(text[0])) as nat;
        let rest = text.drop_first();
        lemma_head(rest, less);
        let kept = fitting_head(rest, less).len() as int;
        assert(head =~= text.take(kept + 1));
        assert(text.take(kept + 1) =~= seq![text[0]] + rest.take(kept));
        lemma_front(text[0], rest.take(kept));
        if kept < rest.len() {
            assert(text.take(kept + 2) =~= seq![text[0]] + rest.take(kept + 1));
            lemma_front(text[0], rest.take(kept + 1));
        }
    }
}

/// The end that fits is the longest.
proof fn lemma_tail(text: Seq<char>, room: nat)
    ensures
        ({
            let kept = fitting_tail(text, room).len() as int;
            &&& kept <= text.len()
            &&& fitting_tail(text, room) == text.skip(text.len() - kept)
            &&& total_columns(text.skip(text.len() - kept)) <= room
            &&& kept < text.len() ==> total_columns(text.skip(text.len() - kept - 1)) > room
        }),
    decreases text.len(),
{
    let tail = fitting_tail(text, room);
    if text.len() == 0 {
        assert(tail =~= text.skip(0));
    } else if room_of(text.last()) > room {
        assert(tail =~= text.skip(text.len() as int));
        assert(text.skip(text.len() - 1) =~= seq![text.last()] + Seq::<char>::empty());
        lemma_front(text.last(), Seq::empty());
    } else {
        let less = (room - room_of(text.last())) as nat;
        let rest = text.drop_last();
        lemma_tail(rest, less);
        let kept = fitting_tail(rest, less).len() as int;
        let end = text.skip(text.len() - kept - 1);
        assert(tail =~= end);
        assert(end.drop_last() =~= rest.skip(rest.len() - kept));
        if kept < rest.len() {
            let more = text.skip(text.len() - kept - 2);
            assert(more.drop_last() =~= rest.skip(rest.len() - kept - 1));
        }
    }
}

/// A label that does not fit is cut where the room ends: at its end, or for a path at its front,
/// with an ellipsis in place of the rest. One that fits is left alone, and without any room
/// nothing is left.
pub proof fn law_labels_are_cut_where_the_room_ends(label: Seq<char>, width: usize, max: usize)
    ensures
        width <= max ==> cut_back(label, width, max) == label && cut_front(label, width, max)
            == label,
        width > max && max == 0 ==> cut_back(label, width, max).len() == 0 && cut_front(
            label,
            width,
            max,
        ).len() == 0,
        width > max && max > 0 ==> shortened(cut_back(label, width, max), label, max as int)
            && shortened_front(cut_front(label, width, max), label, max as int),
{
    if width > max && max > 0 {
        lemma_head(label, (max - 1) as nat);
        lemma_tail(label, (max - 1) as nat);
    }
}

/// The line of a prompt has the title, the end of the input that fits, a cursor, and where all of
/// it fits beside the whole input a hint of the keys.
pub proof fn law_prompts_show_the_end_of_the_input(
    title: Seq<char>,
    input: Seq<char>,
    width: u16,
)
    ensures
        ({
            let line = prompt_pieces(title, input, width);
            let plain = Style { fg: None, bg: None, bold: false, dim: false, italic: false };
            let hint = "  (⏎ ok · esc cancel)"@;
            let head = " "@ + title + ": "@;
            let free = width - columns(head) - 5;
            let fits = columns(hint) + columns(input) <= free;
            let left = if fits {
                free - columns(hint)
            } else {
                free
            };
            let room = if left < 4 {
                4int
            } else {
                left
            };
            let kept = line[1].text.len() as int;
            &&& line[0] == (Piece { text: head, style: Style { bold: true, ..plain } })
            &&& line[1].style == plain
            &&& kept <= input.len() && line[1].text == input.skip(input.len() - kept)
            &&& total_columns(line[1].text) <= room
            &&& kept < input.len() ==> total_columns(input.skip(input.len() - kept - 1)) > room
            &&& line[2] == (Piece { text: "█"@, style: Style { dim: true, ..plain } })
            &&& fits ==> line.len() == 4 && line[3] == (Piece {
                text: hint,
                style: Style { dim: true, ..plain },
            })
            &&& !fits ==> line.len() == 3
        }),
{
    let line = prompt_pieces(title, input, width);
    let head = " "@ + title + ": "@;
    let hint = "  (⏎ ok · esc cancel)"@;
    let free = width - columns(head) - 5;
    let left = if columns(hint) + columns(input) <= free {
        free - columns(hint)
    } else {
        free
    };
    let room = if left < 4 {
        4int
    } else {
        left
    };
    lemma_tail(input, room as nat);
    assert(line[1].text == fitting_tail(input, room as nat));
}

/// The selected row lies on the selection's color, a row under the mouse on that of hovering, and
/// the selection goes first; nothing else of the look is touched.
pub proof fn law_the_selection_goes_before_hovering(hovered: bool)
    ensures
        row_ground(hovered, true) == Some(
            Style {
                fg: None,
                bg: Some(Ground::Selection),
                bold: false,
                dim: false,
                italic: false,
            },
        ),
        row_ground(true, false) == Some(
            Style { fg: None, bg: Some(Ground::Hover), bold: false, dim: false, italic: false },
        ),
        row_ground(false, false) is None,
{
}

/// Laying out remembers the size of the pane and where the body is; a page is one row less than
/// the body, and at least one. The list begins where it was scrolled to, but not so far that rows
/// of the body stay empty. Where the selection is to be brought into view, the list moves by as
/// little as that takes, and is not moved again after that.
pub proof fn law_the_list_moves_as_little_as_it_takes(app: AppView, area: Rect, parts: Parts)
    requires
        app.rows.len() <= usize::MAX,
        app.selected matches Some(at) ==> at < app.rows.len(),
    ensures
        ({
            let after = app.laid_out(area, parts);
            let height = if parts.body.height == 0 {
                1
            } else {
                parts.body.height as int
            };
            let rows = app.rows.len();
            let held = if rows <= height {
                0
            } else if app.scroll + height > rows {
                rows - height
            } else {
                app.scroll as int
            };
            &&& after == (AppView {
                last_width: area.width,
                last_height: area.height,
                page: after.page,
                scroll: after.scroll,
                snap: app.snap && rows == 0,
                body: BodyGeom {
                    top: parts.body.y,
                    height: parts.body.height,
                    offset: after.scroll,
                },
                ..app
            })
            &&& after.page == if parts.body.height <= 2 {
                1
            } else {
                parts.body.height - 1
            }
            &&& rows == 0 ==> after.scroll == app.scroll
            &&& rows > 0 && !(app.snap && app.selected is Some) ==> after.scroll == held
            &&& rows > 0 && app.snap ==> (app.selected matches Some(at) ==> {
                &&& held <= at < held + height ==> after.scroll == held
                &&& at < held ==> after.scroll == at
                &&& at >= held + height ==> after.scroll + height == at + 1
            })
        }),
{
}

/// What of the list is drawn: as many rows from the start as there are, or as fit.
pub proof fn law_as_many_rows_as_fit_are_drawn(start: usize, rows: int, height: int)
    requires
        0 <= rows <= usize::MAX,
        0 <= height <= usize::MAX,
    ensures
        window(start, rows, height).start == start,
        start + height <= rows ==> window(start, rows, height).count == height,
        start <= rows < start + height ==> window(start, rows, height).count == rows - start,
        rows < start ==> window(start, rows, height).count == 0,
{
}

/// A click on the body finds the row that is drawn there.
pub proof fn law_the_row_under_a_click(body: BodyGeom, rows: nat, row: u16)
    requires
        rows <= usize::MAX,
    ensures
        ({
            let found = row_under(body, rows, row);
            let index = body.offset + row - body.top;
            &&& body.top <= row < body.top + body.height && index < rows ==> found == Some(
                index as usize,
            )
            &&& !(body.top <= row < body.top + body.height && index < rows) ==> found is None
        }),
{
}

/// The footer shows a notice before anything else, in the color of changes, and the question
/// before a deletion in the color of deletions, with the last component of what is to go.
pub proof fn law_notices_go_before_questions(app: AppView)
    ensures
        app.notice matches Some(notice) ==> app.footer_message() == Some(
            MessageView { text: notice, tint: Tint::Modified },
        ),
        app.notice is None ==> (app.overlay matches Some(
            OverlayView::ConfirmDelete { path, is_dir },
        ) ==> {
            let name = match file_name_of(path_of(path)) {
                Some(name) => name,
                None => Seq::empty(),
            };
            app.footer_message() == Some(
                MessageView {
                    text: "Delete '"@ + name + "' permanently? (y/N)"@,
                    tint: Tint::Deleted,
                },
            )
        }),
        app.notice is None && !(app.overlay matches Some(
            OverlayView::ConfirmDelete { path, is_dir },
        )) ==> app.footer_message() is None,
        app.prompts() <==> (app.overlay matches Some(OverlayView::Prompt(_))),
{
}

/// The header holds the root's name in capitals behind a blank, cut at its end to the columns that
/// the title-bar buttons and the settings button leave. The settings button is in the header where
/// the sidebar is not unified.
pub proof fn law_the_header_names_the_root(
    app: AppView,
    area: Rect,
    gear: Seq<char>,
    actions: u16,
)
    requires
        columns(gear.push(' ')) <= u16::MAX,
    ensures
        ({
            let wide = gear_width(app.state.merged && app.has_other, gear);
            let name = seq![' '] + raised(app.root_name);
            let shown = app.header_name(area, wide, actions);
            let room = area.width - wide - actions;
            &&& app.state.merged && app.has_other ==> wide == 0
            &&& !(app.state.merged && app.has_other) ==> wide == columns(gear.push(' '))
            &&& columns(name) <= room ==> shown == name
            &&& 0 < room < columns(name) ==> shortened(shown, name, room)
            &&& room <= 0 && columns(name) > 0 ==> shown.len() == 0
        }),
{
    let wide = gear_width(app.state.merged && app.has_other, gear);
    let name = seq![' '] + raised(app.root_name);
    let room = area.width - wide - actions;
    if 0 < room < columns(name) {
        law_labels_are_cut_where_the_room_ends(name, columns(name), room as usize);
    }
}

/// The activity bar is three rows high in the unified sidebar and not there else; the header is
/// one row high, and the footer as high as it needs to be.
pub proof fn law_the_parts_have_their_heights(merged: bool, footer: u16)
    ensures
        activity_height(true) == 3,
        activity_height(false) == 0,
        heights(merged, footer).activity == if merged {
            3
        } else {
            0int
        },
        heights(merged, footer).header == 1,
        heights(merged, footer).footer == footer,
{
}

/// In the activity bar the icons lie in the second row, from the left: a blank, the Explorer's
/// icon, a blank, and that of source control; the settings button ends with the row. An icon of
/// the Nerd Font has one blank more behind it.
pub proof fn law_icons_are_clicked_where_they_are_drawn(
    area: Rect,
    blank: u16,
    explorer: u16,
    git: u16,
    gear: u16,
    glyph: Seq<char>,
)
    requires
        area.x + 2 * blank + explorer + git <= u16::MAX,
        area.x + area.width <= u16::MAX,
        area.y < u16::MAX,
    ensures
        ({
            let zones = activity_zones(area, blank, explorer, git);
            &&& zones.row == area.y + 1
            &&& zones.explorer.0 == area.x + blank
            &&& zones.explorer.1 == zones.explorer.0 + explorer
            &&& zones.source_control.0 == zones.explorer.1 + blank
            &&& zones.source_control.1 == zones.source_control.0 + git
        }),
        forall|row: u16|
            ({
                let rect = #[trigger] gear_rect(area, row, gear);
                &&& rect.y == row && rect.width == gear && rect.height == 1
                &&& gear <= area.width ==> rect.x + rect.width == area.x + area.width
                &&& gear > area.width ==> rect.x == area.x
            }),
        chip_text(glyph, IconTheme::Material) == " "@ + glyph + "  "@,
        chip_text(glyph, IconTheme::Emoji) == " "@ + glyph + " "@,
{
}

/// The hotkeys of the footer and what each does.
pub proof fn law_hotkeys_say_what_they_do()
    ensures
        hint_at(0) == ("↑↓"@, "move"@),
        hint_at(1) == ("←→"@, "fold"@),
        hint_at(2) == ("⏎"@, "toggle"@),
        hint_at(3) == ("r"@, "refresh"@),
        hint_at(4) == ("."@, "dotfiles"@),
        hint_at(5) == ("c"@, "folder"@),
        hint_at(6) == ("ctrl+p"@, "find"@),
        hint_at(7) == ("m"@, "menu"@),
        hint_at(8) == ("s"@, "settings"@),
        hint_at(9) == ("b"@, "hide"@),
        hint_at(10) == ("q"@, "quit"@),
        hint_at(11) == ("1"@, "files"@),
        hint_at(12) == ("2"@, "git"@),
{
}

/// The collapse button takes the last three columns of the footer's last row, and is clicked in the
/// last four columns of the pane's last row.
pub proof fn law_the_collapse_button_ends_the_footer(footer: Rect, column: u16, row: u16)
    requires
        footer.x + footer.width <= u16::MAX,
        footer.y + footer.height <= u16::MAX,
    ensures
        ({
            let line = last_line(footer);
            let button = right_end(line, BUTTON_WIDTH);
            &&& line.x == footer.x && line.width == footer.width && line.height == 1
            &&& footer.height > 0 ==> line.y + 1 == footer.y + footer.height
            &&& footer.height == 0 ==> line.y == footer.y
            &&& button.y == line.y && button.height == 1
            &&& button.x + button.width == line.x + line.width
            &&& line.width >= 3 ==> button.width == 3
            &&& line.width < 3 ==> button.width == line.width
        }),
        forall|width: u16, height: u16|
            #![trigger on_collapse_button(column, row, width, height)]
            on_collapse_button(column, row, width, height) <==> (row == height - 1 && column
                >= width - 4),
{
}

/// Something new is created in a selected folder itself, beside a selected file, and in the root
/// where nothing is selected.
pub proof fn law_new_things_go_beside_the_selection(row: Row, root: std::path::PathBuf)
    ensures
        row.is_dir ==> create_target(Some(row), root) == row.path,
        !row.is_dir ==> (crate::paths::parent_of(path_of(row.path)) matches Some(dir)
            ==> create_target(Some(row), root) == dir),
        !row.is_dir && crate::paths::parent_of(path_of(row.path)) is None ==> create_target(
            Some(row),
            root,
        ) == root,
        create_target(None, root) == root,
{
}

} // verus!
