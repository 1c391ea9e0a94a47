//! The rows of the tree and how one is drawn.

use crate::geometry::left_of;
use crate::icons::Icon;
use crate::paths::{as_path, parent, parent_of, path_of};
use crate::text::{repeat_char, repeated};
use crate::width::{columns, cut_back, text_width, truncate_to};
use std::path::PathBuf;
use vstd::prelude::*;
use vstd::string::*;

verus! {

/// A visible row of the tree.
#[derive(Clone, Debug, PartialEq, Eq)]
pub struct Row {
    pub path: PathBuf,
    pub name: String,
    pub is_dir: bool,
    pub depth: usize,
    pub expanded: bool,
}

/// A foreground color, by what it is for.
#[derive(Clone, Copy, PartialEq, Eq, Debug, Structural)]
pub enum Tint {
    /// The color of a git status letter.
    Status(char),
    /// The color of an icon.
    Icon { red: u8, green: u8, blue: u8 },
    /// The accent of headers and buttons.
    Accent,
    /// The color of changed files, also of notices.
    Modified,
    /// The color of deleted files, also of questions.
    Deleted,
    /// The selection's background, for the caps of a button.
    Selection,
}

/// A background color, by what it is for.
#[derive(Clone, Copy, PartialEq, Eq, Debug, Structural)]
pub enum Ground {
    Selection,
    Hover,
}

/// How a piece of text looks.
#[derive(Clone, Copy, PartialEq, Eq, Debug, Structural)]
pub struct Style {
    pub fg: Option<Tint>,
    pub bg: Option<Ground>,
    pub bold: bool,
    pub dim: bool,
    pub italic: bool,
}

impl Style {
    /// The terminal's own look.
    pub open spec fn bare() -> Style {
        Style { fg: None, bg: None, bold: false, dim: false, italic: false }
    }

    /// The terminal's own look.
    pub fn plain() -> (r: Style)
        ensures
            r == Style::bare(),
    {
        Style { fg: None, bg: None, bold: false, dim: false, italic: false }
    }

    /// A faint look.
    pub fn faint() -> (r: Style)
        ensures
            r == (Style { dim: true, ..Style::bare() }),
    {
        Style { fg: None, bg: None, bold: false, dim: true, italic: false }
    }

    /// A bold look.
    pub fn strong() -> (r: Style)
        ensures
            r == (Style { bold: true, ..Style::bare() }),
    {
        Style { fg: None, bg: None, bold: true, dim: false, italic: false }
    }
}

/// A piece of text with its look.
#[derive(Clone, Debug, PartialEq, Eq)]
pub struct Span {
    pub text: String,
    pub style: Style,
}

/// What a piece of text shows.
pub struct Piece {
    pub text: Seq<char>,
    pub style: Style,
}

/// What pieces of text show.
pub open spec fn pieces(spans: Seq<Span>) -> Seq<Piece> {
    spans.map_values(|span: Span| Piece { text: span.text@, style: span.style })
}

/// The marker of a git status letter: the letter itself for a file, a filled dot for a directory
/// below which something changed, and none for ignored paths.
pub open spec fn marker_text(letter: char, is_dir: bool) -> Option<Seq<char>> {
    if letter == 'I' {
        None
    } else if is_dir {
        Some(seq!['●'])
    } else {
        Some(seq![letter])
    }
}

/// The right-aligned decoration for a status letter: the letter itself for a file, a filled dot
/// for a directory whose descendants changed, and nothing at all for ignored paths, which the
/// dimmed name conveys.
pub fn deco_marker(letter: char, is_dir: bool) -> (r: Option<String>)
    ensures
        match r {
            Some(text) => marker_text(letter, is_dir) == Some(text@),
            None => marker_text(letter, is_dir) is None,
        },
{
    if letter == 'I' {
        return None;
    }
    let mut text = String::new();
    if is_dir {
        text.push('●');
    } else {
        text.push(letter);
    }
    assert(text@ =~= marker_text(letter, is_dir)->0);
    Some(text)
}

/// The look of a name with a decoration.
pub open spec fn name_style(letter: Option<char>) -> Style {
    match letter {
        Some(c) => if c == 'I' {
            Style { dim: true, ..Style::bare() }
        } else {
            Style { fg: Some(Tint::Status(c)), ..Style::bare() }
        },
        None => Style::bare(),
    }
}

/// The name's style for a decoration. Decorations are foreground-only on purpose: selection and
/// hover own the background, so a decorated row stays readable when it is also the selected one.
pub fn deco_name_style(letter: Option<char>) -> (r: Style)
    ensures
        r == name_style(letter),
{
    match letter {
        Some(c) => if c == 'I' {
            Style::faint()
        } else {
            Style { fg: Some(Tint::Status(c)), bg: None, bold: false, dim: false, italic: false }
        },
        None => Style::plain(),
    }
}

/// The look of a row's background.
pub open spec fn row_ground(hovered: bool, selected: bool) -> Option<Style> {
    if selected {
        Some(Style { bg: Some(Ground::Selection), ..Style::bare() })
    } else if hovered {
        Some(Style { bg: Some(Ground::Hover), ..Style::bare() })
    } else {
        None
    }
}

/// The selection or hover background for a row, if any. Kept apart from the content so that a git
/// decoration can never collide with it.
pub fn row_bg(hovered: bool, selected: bool) -> (r: Option<Style>)
    ensures
        r == row_ground(hovered, selected),
{
    if selected {
        Some(
            Style {
                fg: None,
                bg: Some(Ground::Selection),
                bold: false,
                dim: false,
                italic: false,
            },
        )
    } else if hovered {
        Some(Style { fg: None, bg: Some(Ground::Hover), bold: false, dim: false, italic: false })
    } else {
        None
    }
}

/// What stands before the icon of a row: two columns per level, and the chevron of a directory.
pub open spec fn row_prefix(depth: usize, is_dir: bool, expanded: bool) -> Seq<char> {
    repeated(' ', (2 * depth) as nat) + (if is_dir {
        if expanded {
            "▾ "@
        } else {
            "▸ "@
        }
    } else {
        "  "@
    })
}

/// What stands before the icon of a row.
fn prefix_text(depth: usize, is_dir: bool, expanded: bool) -> (r: String)
    ensures
        r@ == row_prefix(depth, is_dir, expanded),
{
    let mut out = String::new();
    for i in 0..depth
        invariant
            out@ == repeated(' ', (2 * i) as nat),
    {
        out.push(' ');
        out.push(' ');
        assert(out@ =~= repeated(' ', (2 * (i + 1)) as nat));
    }
    let arrow = if is_dir {
        if expanded {
            "▾ "
        } else {
            "▸ "
        }
    } else {
        "  "
    };
    out.append(arrow);
    out
}

/// What a row of the tree is, for drawing.
pub struct RowLook {
    pub name: Seq<char>,
    pub is_dir: bool,
    pub depth: usize,
    pub expanded: bool,
    pub glyph: Seq<char>,
    pub tint: Tint,
    pub deco: Option<char>,
}

impl RowLook {
    /// The marker at the right end.
    pub open spec fn marker(self) -> Option<Seq<char>> {
        match self.deco {
            Some(letter) => marker_text(letter, self.is_dir),
            None => None,
        }
    }

    /// The letter of the decoration.
    pub open spec fn letter(self) -> char {
        match self.deco {
            Some(letter) => letter,
            None => ' ',
        }
    }

    pub open spec fn prefix(self) -> Seq<char> {
        row_prefix(self.depth, self.is_dir, self.expanded)
    }

    pub open spec fn icon(self) -> Seq<char> {
        self.glyph.push(' ')
    }

    /// The columns before the name.
    pub open spec fn used(self) -> int {
        columns(self.prefix()) + columns(self.icon())
    }

    /// The name as far as it fits: a marker takes its own cell, one before it and two behind it.
    pub open spec fn shown_name(self, width: u16) -> Seq<char> {
        cut_back(
            self.name,
            columns(self.name),
            left_of(
                width - self.used() - if self.marker() is Some {
                    4int
                } else {
                    0
                },
            ) as usize,
        )
    }

    /// How many blanks stand between the name and the marker.
    pub open spec fn padding(self, width: u16) -> nat {
        left_of(width - self.used() - columns(self.shown_name(width)) - 3)
    }

    /// The pieces of the row: indent and chevron, icon, name, and with a marker the blanks before
    /// it, the marker, and two blanks that keep it clear of the scrollbar.
    pub open spec fn drawn(self, width: u16) -> Seq<Piece> {
        let content = Seq::empty().push(
            Piece { text: self.prefix(), style: Style { dim: true, ..Style::bare() } },
        ).push(
            Piece { text: self.icon(), style: Style { fg: Some(self.tint), ..Style::bare() } },
        ).push(Piece { text: self.shown_name(width), style: name_style(self.deco) });
        match self.marker() {
            Some(marker) => content.push(
                Piece { text: repeated(' ', self.padding(width)), style: Style::bare() },
            ).push(
                Piece {
                    text: marker,
                    style: Style {
                        fg: Some(Tint::Status(self.letter())),
                        bold: true,
                        ..Style::bare()
                    },
                },
            ).push(Piece { text: "  "@, style: Style::bare() }),
            None => content,
        }
    }
}

/// What a row, its icon and its decoration are, for drawing.
pub open spec fn row_look(row: Row, icon: Icon, deco: Option<char>) -> RowLook {
    RowLook {
        name: row.name@,
        is_dir: row.is_dir,
        depth: row.depth,
        expanded: row.expanded,
        glyph: icon.glyph@,
        tint: Tint::Icon { red: icon.rgb.0, green: icon.rgb.1, blue: icon.rgb.2 },
        deco,
    }
}

/// One tree row's content: indent, chevron, icon, name, and the right-aligned git decoration. A
/// narrow pane ellipsizes the name instead of losing the status.
pub fn row_line(row: &Row, icon: &Icon, deco: Option<char>, width: u16) -> (r: Vec<Span>)
    ensures
        pieces(r@) == row_look(*row, *icon, deco).drawn(width),
{
    let prefix = prefix_text(row.depth, row.is_dir, row.expanded);
    let mut glyph = icon.glyph.clone();
    glyph.push(' ');
    let marker = match deco {
        Some(letter) => deco_marker(letter, row.is_dir),
        None => None,
    };
    let tail: usize = if marker.is_some() {
        4
    } else {
        0
    };
    let (first, second): (usize, usize) = (
        text_width(prefix.as_str()),
        text_width(glyph.as_str()),
    );
    let free: usize = (width as usize).saturating_sub(first).saturating_sub(second);
    let name = truncate_to(row.name.as_str(), free.saturating_sub(tail));
    let name_width: usize = text_width(name.as_str());
    let mut spans: Vec<Span> = Vec::new();
    spans.push(Span { text: prefix, style: Style::faint() });
    spans.push(
        Span {
            text: glyph,
            style: Style {
                fg: Some(Tint::Icon { red: icon.rgb.0, green: icon.rgb.1, blue: icon.rgb.2 }),
                bg: None,
                bold: false,
                dim: false,
                italic: false,
            },
        },
    );
    spans.push(Span { text: name, style: deco_name_style(deco) });
    if let Some(text) = marker {
        let pad: usize = free.saturating_sub(name_width).saturating_sub(3);
        spans.push(Span { text: repeat_char(' ', pad), style: Style::plain() });
        let letter = match deco {
            Some(letter) => letter,
            None => ' ',
        };
        spans.push(
            Span {
                text,
                style: Style {
                    fg: Some(Tint::Status(letter)),
                    bg: None,
                    bold: true,
                    dim: false,
                    italic: false,
                },
            },
        );
        spans.push(Span { text: "  ".to_owned(), style: Style::plain() });
    }
    assert(pieces(spans@) =~= row_look(*row, *icon, deco).drawn(width));
    spans
}

/// The content of a row never sets a background: selection and hover own it.
pub proof fn law_rows_are_foreground_only(look: RowLook, width: u16)
    ensures
        forall|i: int|
            0 <= i < look.drawn(width).len() ==> (#[trigger] look.drawn(width)[i]).style.bg is None,
        forall|hovered: bool, selected: bool|
            (#[trigger] row_ground(hovered, selected)) matches Some(style) ==> style.fg is None
                && style.bg is Some,
{
}

/// A row with a marker fills the pane exactly, wherever the name leaves room for the marker: the
/// marker stands three columns before the right edge.
pub proof fn law_marked_rows_fill_the_pane(look: RowLook, width: u16)
    requires
        look.marker() is Some,
        look.used() + columns(look.shown_name(width)) + 3 <= width,
    ensures
        look.used() + columns(look.shown_name(width)) + look.padding(width) + 1 + 2 == width,
{
}

/// Ignored and undecorated rows carry no marker, and every other decorated row carries one.
pub proof fn law_markers_follow_the_letter(look: RowLook, width: u16)
    ensures
        look.marker() is Some <==> look.deco is Some && look.deco != Some('I'),
        look.drawn(width).len() == if look.marker() is Some {
            6
        } else {
            3int
        },
        look.is_dir && look.marker() is Some ==> look.marker() == Some(seq!['●']),
{
}

/// Where something new is created: in a selected folder, beside a selected file, or in the root.
pub open spec fn create_target(selected: Option<Row>, root: PathBuf) -> PathBuf {
    match selected {
        Some(row) => if row.is_dir {
            row.path
        } else {
            match parent_of(path_of(row.path)) {
                Some(dir) => dir,
                None => root,
            }
        },
        None => root,
    }
}

/// Where something new is created: a selected folder itself, a selected file's parent, or the
/// workspace root when nothing is selected.
pub fn create_target_dir(selected: Option<&Row>, root: PathBuf) -> (r: PathBuf)
    ensures
        r == create_target(
            match selected {
                Some(row) => Some(*row),
                None => None,
            },
            root,
        ),
{
    match selected {
        Some(row) => if row.is_dir {
            row.path.clone()
        } else {
            match parent(as_path(&row.path)) {
                Some(dir) => dir,
                None => root,
            }
        },
        None => root,
    }
}

} // verus!
