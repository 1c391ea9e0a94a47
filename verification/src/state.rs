//! Unified-sidebar settings: which layout the user chose (one combined Sidebar pane, or separate
//! Explorer and Source Control panes), which view was active last, and every other choice of the
//! Settings modal, kept in a small JSON file so that every pane and launcher agrees.

use crate::icons::IconTheme;
use crate::paths::on_windows;
use crate::text::same_text;
use vstd::prelude::*;
use vstd::string::*;
use vstd::view::View as _;

verus! {

/// Pane label (and metadata identity) of the unified pane.
pub const SIDEBAR_LABEL: &'static str = "Sidebar";

pub const DEFAULT_SIDEBAR_WIDTH: u16 = 32;

pub const MIN_SIDEBAR_WIDTH: u16 = 24;

pub const MAX_SIDEBAR_WIDTH: u16 = 80;

pub const SIDEBAR_WIDTH_STEP: u16 = 4;

/// Shell-agnostic command name typed into panes that the sidebar creates.
pub const EXECUTABLE_NAME: &'static str = "herdr-sidebar";

/// The environment variable that carries the viewer's control path: paths can contain spaces, and
/// every shell quotes them in its own way.
pub const PREVIEW_CONTROL_ENV: &'static str = "HERDR_SIDEBAR_PREVIEW_CONTROL";

/// Set on viewer panes that share the sidebar's own tab. Where a viewer sits does not change, so
/// it travels with the process instead of being read from the settings file.
pub const PREVIEW_INLINE_ENV: &'static str = "HERDR_SIDEBAR_PREVIEW_INLINE";

/// The nearest supported width.
pub open spec fn clamped_width(width: int) -> int {
    if width < MIN_SIDEBAR_WIDTH {
        MIN_SIDEBAR_WIDTH as int
    } else if width > MAX_SIDEBAR_WIDTH {
        MAX_SIDEBAR_WIDTH as int
    } else {
        width
    }
}

/// The nearest supported width.
pub fn clamp_sidebar_width(width: u16) -> (r: u16)
    ensures
        r == clamped_width(width as int),
{
    if width < MIN_SIDEBAR_WIDTH {
        MIN_SIDEBAR_WIDTH
    } else if width > MAX_SIDEBAR_WIDTH {
        MAX_SIDEBAR_WIDTH
    } else {
        width
    }
}

/// One step wider or narrower, within the supported range.
pub open spec fn stepped_width(width: int, wider: bool) -> int {
    clamped_width(
        clamped_width(width) + if wider {
            SIDEBAR_WIDTH_STEP as int
        } else {
            -(SIDEBAR_WIDTH_STEP as int)
        },
    )
}

/// One step wider or narrower, within the supported range.
pub fn step_sidebar_width(width: u16, wider: bool) -> (r: u16)
    ensures
        r == stepped_width(width as int, wider),
{
    let width = clamp_sidebar_width(width);
    if wider {
        clamp_sidebar_width(width + SIDEBAR_WIDTH_STEP)
    } else {
        clamp_sidebar_width(width - SIDEBAR_WIDTH_STEP)
    }
}

/// `std::time::SystemTime::now`: the seconds since the Unix epoch, or nothing if the clock is
/// set before it. What the clock shows is not the program's to say.
#[verifier::external_body]
fn read_clock() -> (r: Option<u64>) {
    std::time::SystemTime::now().duration_since(std::time::UNIX_EPOCH).ok().map(|d| d.as_secs())
}

/// Unix seconds for a reading of the clock: 0 for a clock that is set before the epoch.
pub fn unix_seconds(reading: Option<u64>) -> (r: u64)
    ensures
        r == match reading {
            Some(seconds) => seconds,
            None => 0,
        },
{
    match reading {
        Some(seconds) => seconds,
        None => 0,
    }
}

/// Unix seconds now, the heartbeat clock of the pane identity tokens. The result is the clock's.
pub fn unix_now() -> (r: u64) {
    unix_seconds(read_clock())
}

/// Why a view's event loop ended.
#[derive(Clone, Copy, PartialEq, Eq, Debug, Structural)]
pub enum Exit {
    Quit,
    /// The user picked the other view.
    Switch,
}

#[derive(Clone, Copy, PartialEq, Eq, Debug, Structural)]
pub enum View {
    Explorer,
    SourceControl,
}

impl View {
    /// The view that is not this one.
    pub open spec fn other_view(self) -> View {
        match self {
            View::Explorer => View::SourceControl,
            View::SourceControl => View::Explorer,
        }
    }

    /// The `--view` value of the view.
    pub open spec fn flag_text(self) -> Seq<char> {
        match self {
            View::Explorer => "explorer"@,
            View::SourceControl => "git"@,
        }
    }

    /// The view that a `--view` value pins.
    pub open spec fn flagged(flag: Seq<char>) -> Option<View> {
        if flag == "explorer"@ {
            Some(View::Explorer)
        } else if flag == "git"@ {
            Some(View::SourceControl)
        } else {
            None
        }
    }

    /// The name of the view in the settings file, which is also its token.
    pub open spec fn name(self) -> Seq<char> {
        match self {
            View::Explorer => "explorer"@,
            View::SourceControl => "source-control"@,
        }
    }

    /// The view of that name.
    pub open spec fn named(name: Seq<char>) -> Option<View> {
        if name == "explorer"@ {
            Some(View::Explorer)
        } else if name == "source-control"@ {
            Some(View::SourceControl)
        } else {
            None
        }
    }

    /// The view that is not this one.
    pub fn other(self) -> (r: View)
        ensures
            r == self.other_view(),
    {
        match self {
            View::Explorer => View::SourceControl,
            View::SourceControl => View::Explorer,
        }
    }

    /// The standalone pane label for this view.
    pub fn label(self) -> (r: &'static str)
        ensures
            self == View::Explorer ==> r@ == "Explorer"@,
            self == View::SourceControl ==> r@ == "Source Control"@,
    {
        match self {
            View::Explorer => "Explorer",
            View::SourceControl => "Source Control",
        }
    }

    /// The plugin that renders this view.
    pub fn plugin_id(self) -> (r: &'static str)
        ensures
            self == View::Explorer ==> r@ == "herdr-sidebar-explorer"@,
            self == View::SourceControl ==> r@ == "herdr-sidebar-git"@,
    {
        match self {
            View::Explorer => "herdr-sidebar-explorer",
            View::SourceControl => "herdr-sidebar-git",
        }
    }

    /// The `--view` flag value that pins a separated pane to this view.
    pub fn view_flag(self) -> (r: &'static str)
        ensures
            r@ == self.flag_text(),
    {
        match self {
            View::Explorer => "explorer",
            View::SourceControl => "git",
        }
    }

    /// The view that a `--view` value pins, if it names one.
    pub fn from_view_flag(flag: &str) -> (r: Option<View>)
        ensures
            r == View::flagged(flag@),
    {
        if same_text(flag, "explorer") {
            Some(View::Explorer)
        } else if same_text(flag, "git") {
            Some(View::SourceControl)
        } else {
            None
        }
    }

    /// The metadata token value this view reports on its pane.
    pub fn token(self) -> (r: &'static str)
        ensures
            r@ == self.name(),
    {
        match self {
            View::Explorer => "explorer",
            View::SourceControl => "source-control",
        }
    }

    /// The name of the view in the settings file.
    pub fn state_name(self) -> (r: &'static str)
        ensures
            r@ == self.name(),
    {
        match self {
            View::Explorer => "explorer",
            View::SourceControl => "source-control",
        }
    }

    /// The view of that name, if there is one.
    pub fn from_state_name(name: &str) -> (r: Option<View>)
        ensures
            r == View::named(name@),
    {
        if same_text(name, "explorer") {
            Some(View::Explorer)
        } else if same_text(name, "source-control") {
            Some(View::SourceControl)
        } else {
            None
        }
    }
}

/// Accent palette for the sidebar. `VsCode` keeps fixed RGB colors for a dark terminal
/// background; `Light` is its light-background counterpart; `Terminal` uses ANSI colors so that
/// the terminal profile remaps them.
#[derive(Clone, Copy, PartialEq, Eq, Debug, Structural)]
pub enum ColorTheme {
    VsCode,
    Light,
    Terminal,
}

impl ColorTheme {
    /// The theme's name, shown and kept.
    pub open spec fn name(self) -> Seq<char> {
        match self {
            ColorTheme::VsCode => "vscode"@,
            ColorTheme::Light => "light"@,
            ColorTheme::Terminal => "terminal"@,
        }
    }

    /// The theme of that name.
    pub open spec fn named(name: Seq<char>) -> Option<ColorTheme> {
        if name == "vscode"@ {
            Some(ColorTheme::VsCode)
        } else if name == "light"@ {
            Some(ColorTheme::Light)
        } else if name == "terminal"@ {
            Some(ColorTheme::Terminal)
        } else {
            None
        }
    }

    /// The theme behind this one in the rotation.
    pub open spec fn following(self) -> ColorTheme {
        match self {
            ColorTheme::VsCode => ColorTheme::Light,
            ColorTheme::Light => ColorTheme::Terminal,
            ColorTheme::Terminal => ColorTheme::VsCode,
        }
    }

    pub fn label(self) -> (r: &'static str)
        ensures
            r@ == self.name(),
    {
        match self {
            ColorTheme::VsCode => "vscode",
            ColorTheme::Light => "light",
            ColorTheme::Terminal => "terminal",
        }
    }

    /// The Settings row cycles through every theme: a rotation, not a two-way toggle.
    pub fn next(self) -> (r: ColorTheme)
        ensures
            r == self.following(),
    {
        match self {
            ColorTheme::VsCode => ColorTheme::Light,
            ColorTheme::Light => ColorTheme::Terminal,
            ColorTheme::Terminal => ColorTheme::VsCode,
        }
    }

    /// This palette is drawn for a light terminal background.
    pub fn is_light(self) -> (r: bool)
        ensures
            r == (self == ColorTheme::Light),
    {
        self == ColorTheme::Light
    }

    /// The theme of that name, if there is one.
    pub fn from_state_name(name: &str) -> (r: Option<ColorTheme>)
        ensures
            r == ColorTheme::named(name@),
    {
        if same_text(name, "vscode") {
            Some(ColorTheme::VsCode)
        } else if same_text(name, "light") {
            Some(ColorTheme::Light)
        } else if same_text(name, "terminal") {
            Some(ColorTheme::Terminal)
        } else {
            None
        }
    }
}

/// Where a preview, diff or `git show` opens. `Tab` gives every document its own tab; `Pane`
/// splits one viewer pane into the tab the sidebar already lives in and reuses it.
#[derive(Clone, Copy, PartialEq, Eq, Debug, Structural)]
pub enum PreviewPlacement {
    Tab,
    Pane,
}

impl PreviewPlacement {
    /// The placement's name, shown and kept.
    pub open spec fn name(self) -> Seq<char> {
        match self {
            PreviewPlacement::Tab => "tab"@,
            PreviewPlacement::Pane => "pane"@,
        }
    }

    /// The placement of that name.
    pub open spec fn named(name: Seq<char>) -> Option<PreviewPlacement> {
        if name == "tab"@ {
            Some(PreviewPlacement::Tab)
        } else if name == "pane"@ {
            Some(PreviewPlacement::Pane)
        } else {
            None
        }
    }

    /// The placement that is not this one.
    pub open spec fn other_placement(self) -> PreviewPlacement {
        match self {
            PreviewPlacement::Tab => PreviewPlacement::Pane,
            PreviewPlacement::Pane => PreviewPlacement::Tab,
        }
    }

    pub fn label(self) -> (r: &'static str)
        ensures
            r@ == self.name(),
    {
        match self {
            PreviewPlacement::Tab => "tab",
            PreviewPlacement::Pane => "pane",
        }
    }

    pub fn other(self) -> (r: PreviewPlacement)
        ensures
            r == self.other_placement(),
    {
        match self {
            PreviewPlacement::Tab => PreviewPlacement::Pane,
            PreviewPlacement::Pane => PreviewPlacement::Tab,
        }
    }

    /// True when previews share the caller's tab instead of getting one.
    pub fn is_inline(self) -> (r: bool)
        ensures
            r == (self == PreviewPlacement::Pane),
    {
        matches!(self, PreviewPlacement::Pane)
    }

    /// The placement of that name, if there is one.
    pub fn from_state_name(name: &str) -> (r: Option<PreviewPlacement>)
        ensures
            r == PreviewPlacement::named(name@),
    {
        if same_text(name, "tab") {
            Some(PreviewPlacement::Tab)
        } else if same_text(name, "pane") {
            Some(PreviewPlacement::Pane)
        } else {
            None
        }
    }
}

/// Which editor renders a clicked file. `Builtin` is the sidebar's own viewer; `Neovim` hands the
/// path to the `chmarax.herdr-nvim` plugin. Only plain file clicks take this fork.
#[derive(Clone, Copy, PartialEq, Eq, Debug, Structural)]
pub enum PreviewEditor {
    Builtin,
    Neovim,
}

impl PreviewEditor {
    /// The editor's name, shown and kept.
    pub open spec fn name(self) -> Seq<char> {
        match self {
            PreviewEditor::Builtin => "builtin"@,
            PreviewEditor::Neovim => "neovim"@,
        }
    }

    /// The editor of that name.
    pub open spec fn named(name: Seq<char>) -> Option<PreviewEditor> {
        if name == "builtin"@ {
            Some(PreviewEditor::Builtin)
        } else if name == "neovim"@ {
            Some(PreviewEditor::Neovim)
        } else {
            None
        }
    }

    /// The editor that is not this one.
    pub open spec fn other_editor(self) -> PreviewEditor {
        match self {
            PreviewEditor::Builtin => PreviewEditor::Neovim,
            PreviewEditor::Neovim => PreviewEditor::Builtin,
        }
    }

    pub fn label(self) -> (r: &'static str)
        ensures
            r@ == self.name(),
    {
        match self {
            PreviewEditor::Builtin => "builtin",
            PreviewEditor::Neovim => "neovim",
        }
    }

    pub fn other(self) -> (r: PreviewEditor)
        ensures
            r == self.other_editor(),
    {
        match self {
            PreviewEditor::Builtin => PreviewEditor::Neovim,
            PreviewEditor::Neovim => PreviewEditor::Builtin,
        }
    }

    /// The editor of that name, if there is one.
    pub fn from_state_name(name: &str) -> (r: Option<PreviewEditor>)
        ensures
            r == PreviewEditor::named(name@),
    {
        if same_text(name, "builtin") {
            Some(PreviewEditor::Builtin)
        } else if same_text(name, "neovim") {
            Some(PreviewEditor::Neovim)
        } else {
            None
        }
    }
}

/// The sticky sidebar settings, shared by both views.
#[derive(Clone, Copy, PartialEq, Eq, Debug, Structural)]
pub struct State {
    /// The unified sidebar is on.
    pub merged: bool,
    /// The view shown last.
    pub active: View,
    /// Show the hotkey chips at the bottom of the sidebar.
    pub show_hotkeys: bool,
    /// The user's explicit icon theme; `None` leaves the choice to a look at the fonts.
    pub icons: Option<IconTheme>,
    /// Accent palette.
    pub color_theme: ColorTheme,
    /// The first-run font prompt was answered, either way.
    pub font_prompt_done: bool,
    /// Dock a sidebar into tabs that lack one.
    pub auto_open: bool,
    /// The open-sidebar toggle closes an open sidebar that is not focused instead of focusing it.
    pub strict_toggle: bool,
    /// Focus the sidebar once the toggle opens it.
    pub focus_on_open: bool,
    /// Follow the live cwd of a neighbouring pane.
    pub follow_cwd: bool,
    /// Decorate the tree with git status.
    pub git_deco: bool,
    /// Dock at the right edge of each tab.
    pub dock_right: bool,
    /// Preferred pane width in terminal columns.
    pub sidebar_width: u16,
    /// Where a clicked file opens.
    pub preview_placement: PreviewPlacement,
    /// Which editor a plain file click opens in.
    pub preview_editor: PreviewEditor,
}

impl State {
    /// The settings of a first run.
    pub open spec fn initial() -> State {
        State {
            merged: true,
            active: View::Explorer,
            show_hotkeys: false,
            icons: None,
            color_theme: ColorTheme::VsCode,
            font_prompt_done: false,
            auto_open: true,
            strict_toggle: false,
            focus_on_open: true,
            follow_cwd: true,
            git_deco: true,
            dock_right: false,
            sidebar_width: DEFAULT_SIDEBAR_WIDTH,
            preview_placement: PreviewPlacement::Tab,
            preview_editor: PreviewEditor::Builtin,
        }
    }

    /// These settings with the width brought into the supported range.
    pub open spec fn in_range(self) -> State {
        State { sidebar_width: clamped_width(self.sidebar_width as int) as u16, ..self }
    }
}

impl Default for State {
    fn default() -> (r: State)
        ensures
            r == State::initial(),
    {
        State {
            merged: true,
            active: View::Explorer,
            show_hotkeys: false,
            icons: None,
            color_theme: ColorTheme::VsCode,
            font_prompt_done: false,
            auto_open: true,
            strict_toggle: false,
            focus_on_open: true,
            follow_cwd: true,
            git_deco: true,
            dock_right: false,
            sidebar_width: DEFAULT_SIDEBAR_WIDTH,
            preview_placement: PreviewPlacement::Tab,
            preview_editor: PreviewEditor::Builtin,
        }
    }
}

/// What the Settings modal shows for the follow-the-pane setting on a platform.
pub open spec fn follow_cwd_text(enabled: bool, windows: bool) -> Seq<char> {
    if enabled {
        if windows {
            "on (host n/a)"@
        } else {
            "on"@
        }
    } else {
        if windows {
            "off (host n/a)"@
        } else {
            "off"@
        }
    }
}

/// What the Settings modal shows for the follow-the-pane setting on a platform: the host does not
/// report folders on Windows, and the value says so.
pub fn follow_cwd_setting_value_on(enabled: bool, windows: bool) -> (r: String)
    ensures
        r@ == follow_cwd_text(enabled, windows),
{
    if enabled {
        if windows {
            "on (host n/a)".to_owned()
        } else {
            "on".to_owned()
        }
    } else {
        if windows {
            "off (host n/a)".to_owned()
        } else {
            "off".to_owned()
        }
    }
}

/// What the Settings modal shows for the follow-the-pane setting on this platform.
pub fn follow_cwd_setting_value(enabled: bool) -> (r: String)
    ensures
        r@ == follow_cwd_text(enabled, true) || r@ == follow_cwd_text(enabled, false),
{
    follow_cwd_setting_value_on(enabled, on_windows())
}

/// The supported widths are their own nearest, and the nearest of any width is supported.
pub proof fn law_clamped_widths_are_supported(width: int)
    ensures
        MIN_SIDEBAR_WIDTH <= clamped_width(width) <= MAX_SIDEBAR_WIDTH,
        clamped_width(clamped_width(width)) == clamped_width(width),
        MIN_SIDEBAR_WIDTH <= width <= MAX_SIDEBAR_WIDTH ==> clamped_width(width) == width,
{
}

/// A step keeps the width in the supported range, changes it by one step unless the range ends,
/// and stays put at the end of the range.
pub proof fn law_steps_stay_in_range(width: int, wider: bool)
    ensures
        MIN_SIDEBAR_WIDTH <= stepped_width(width, wider) <= MAX_SIDEBAR_WIDTH,
        stepped_width(MAX_SIDEBAR_WIDTH as int, true) == MAX_SIDEBAR_WIDTH,
        stepped_width(MIN_SIDEBAR_WIDTH as int, false) == MIN_SIDEBAR_WIDTH,
        MIN_SIDEBAR_WIDTH <= width <= MAX_SIDEBAR_WIDTH - SIDEBAR_WIDTH_STEP ==> stepped_width(
            width,
            true,
        ) == width + SIDEBAR_WIDTH_STEP && stepped_width(stepped_width(width, true), false)
            == width,
{
}

/// The two views, placements and editors pair up: the other of the other is the first.
pub proof fn law_others_pair_up(view: View, placement: PreviewPlacement, editor: PreviewEditor)
    ensures
        view.other_view() != view,
        view.other_view().other_view() == view,
        placement.other_placement() != placement,
        placement.other_placement().other_placement() == placement,
        editor.other_editor() != editor,
        editor.other_editor().other_editor() == editor,
{
}

/// The palettes rotate: three steps come back around and visit every palette.
pub proof fn law_palettes_rotate(theme: ColorTheme, sought: ColorTheme)
    ensures
        theme.following().following().following() == theme,
        sought == theme || sought == theme.following() || sought == theme.following().following(),
{
}

/// The name of a view, a palette, a placement or an editor names that one.
pub proof fn law_names_return()
    ensures
        forall|view: View| View::named(#[trigger] view.name()) == Some(view),
        forall|view: View| View::flagged(#[trigger] view.flag_text()) == Some(view),
        forall|theme: ColorTheme| ColorTheme::named(#[trigger] theme.name()) == Some(theme),
        forall|placement: PreviewPlacement|
            PreviewPlacement::named(#[trigger] placement.name()) == Some(placement),
        forall|editor: PreviewEditor|
            PreviewEditor::named(#[trigger] editor.name()) == Some(editor),
{
    reveal_strlit("explorer");
    reveal_strlit("git");
    reveal_strlit("source-control");
    reveal_strlit("vscode");
    reveal_strlit("light");
    reveal_strlit("terminal");
    reveal_strlit("tab");
    reveal_strlit("pane");
    reveal_strlit("builtin");
    reveal_strlit("neovim");
    assert("vscode"@.len() == 6 && "light"@.len() == 5 && "terminal"@.len() == 8);
    assert("tab"@.len() == 3 && "pane"@.len() == 4);
    assert("builtin"@.len() == 7 && "neovim"@.len() == 6);
    assert("explorer"@.len() == 8 && "git"@.len() == 3 && "source-control"@.len() == 14);
}

} // verus!
