//! The icon themes of the tree.

use crate::text::same_text;
use vstd::prelude::*;

verus! {

/// Which glyphs stand before the names: those of a Nerd Font, or emoji that every font has.
#[derive(Clone, Copy, PartialEq, Eq, Debug, Structural)]
pub enum IconTheme {
    Material,
    Emoji,
}

impl IconTheme {
    /// The name under which the theme is kept in the settings file.
    pub open spec fn name(self) -> Seq<char> {
        match self {
            IconTheme::Material => "material"@,
            IconTheme::Emoji => "emoji"@,
        }
    }

    /// The theme of that name.
    pub open spec fn named(name: Seq<char>) -> Option<IconTheme> {
        if name == "material"@ {
            Some(IconTheme::Material)
        } else if name == "emoji"@ {
            Some(IconTheme::Emoji)
        } else {
            None
        }
    }

    /// The theme that is not this one.
    pub open spec fn other_theme(self) -> IconTheme {
        match self {
            IconTheme::Material => IconTheme::Emoji,
            IconTheme::Emoji => IconTheme::Material,
        }
    }

    /// The name under which the theme is kept in the settings file.
    pub fn state_name(self) -> (r: &'static str)
        ensures
            r@ == self.name(),
    {
        match self {
            IconTheme::Material => "material",
            IconTheme::Emoji => "emoji",
        }
    }

    /// The theme of that name, if there is one.
    pub fn from_state_name(name: &str) -> (r: Option<IconTheme>)
        ensures
            r == IconTheme::named(name@),
    {
        if same_text(name, "material") {
            Some(IconTheme::Material)
        } else if same_text(name, "emoji") {
            Some(IconTheme::Emoji)
        } else {
            None
        }
    }

    /// The theme that is not this one.
    pub fn toggled(self) -> (r: IconTheme)
        ensures
            r == self.other_theme(),
    {
        match self {
            IconTheme::Material => IconTheme::Emoji,
            IconTheme::Emoji => IconTheme::Material,
        }
    }
}

/// Toggling twice gives the theme back.
pub proof fn law_toggling_twice_returns(theme: IconTheme)
    ensures
        theme.other_theme() != theme,
        theme.other_theme().other_theme() == theme,
{
}

/// A theme's name names that theme.
pub proof fn law_icon_theme_names_return(theme: IconTheme)
    ensures
        IconTheme::named(theme.name()) == Some(theme),
{
    reveal_strlit("material");
    reveal_strlit("emoji");
    assert("material"@.len() != "emoji"@.len());
}

/// A glyph and its color.
pub struct Icon {
    pub glyph: String,
    pub rgb: (u8, u8, u8),
}

} // verus!
