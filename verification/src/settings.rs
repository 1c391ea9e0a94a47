//! The rows of the Settings modal.

use crate::icons::IconTheme;
use crate::state::{follow_cwd_setting_value_on, follow_cwd_text, State};
use crate::text::{concat2, decimal, decimal_text};
use vstd::prelude::*;
use vstd::string::*;

verus! {

/// One row of the Settings modal.
#[derive(Clone, Copy, PartialEq, Eq, Debug, Structural)]
pub enum Setting {
    UnifiedSidebar,
    DockRight,
    SidebarWidth,
    IconTheme,
    ColorTheme,
    PreviewPlacement,
    PreviewEditor,
    AutoOpen,
    StrictToggle,
    FocusOnOpen,
    FollowCwd,
    HiddenFiles,
    Hotkeys,
    GitDecorations,
    Folder,
}

/// How many rows the modal has.
pub const SETTING_COUNT: usize = 15;

/// A row as it is shown. A disabled row is dimmed and does not toggle.
#[derive(Debug)]
pub struct SettingRow {
    pub setting: Setting,
    pub label: &'static str,
    pub value: String,
    pub enabled: bool,
}

/// What the values of the rows come from.
pub struct SettingsInput<'a> {
    pub state: State,
    /// The other view is available.
    pub has_other: bool,
    pub theme: IconTheme,
    pub show_hidden: bool,
    pub root_name: &'a str,
    /// The host does not report folders on Windows.
    pub windows: bool,
}

/// The setting of a row, counted from the top.
pub open spec fn setting_at(index: int) -> Setting {
    if index == 0 {
        Setting::UnifiedSidebar
    } else if index == 1 {
        Setting::DockRight
    } else if index == 2 {
        Setting::SidebarWidth
    } else if index == 3 {
        Setting::IconTheme
    } else if index == 4 {
        Setting::ColorTheme
    } else if index == 5 {
        Setting::PreviewPlacement
    } else if index == 6 {
        Setting::PreviewEditor
    } else if index == 7 {
        Setting::HiddenFiles
    } else if index == 8 {
        Setting::Hotkeys
    } else if index == 9 {
        Setting::AutoOpen
    } else if index == 10 {
        Setting::StrictToggle
    } else if index == 11 {
        Setting::FocusOnOpen
    } else if index == 12 {
        Setting::FollowCwd
    } else if index == 13 {
        Setting::GitDecorations
    } else {
        Setting::Folder
    }
}

/// The setting of a row, counted from the top.
pub fn nth_setting(index: usize) -> (r: Setting)
    requires
        index < SETTING_COUNT,
    ensures
        r == setting_at(index as int),
{
    match index {
        0 => Setting::UnifiedSidebar,
        1 => Setting::DockRight,
        2 => Setting::SidebarWidth,
        3 => Setting::IconTheme,
        4 => Setting::ColorTheme,
        5 => Setting::PreviewPlacement,
        6 => Setting::PreviewEditor,
        7 => Setting::HiddenFiles,
        8 => Setting::Hotkeys,
        9 => Setting::AutoOpen,
        10 => Setting::StrictToggle,
        11 => Setting::FocusOnOpen,
        12 => Setting::FollowCwd,
        13 => Setting::GitDecorations,
        _ => Setting::Folder,
    }
}

/// The label of a setting.
pub open spec fn label_text(setting: Setting) -> Seq<char> {
    match setting {
        Setting::UnifiedSidebar => "Unified sidebar"@,
        Setting::DockRight => "Dock on the right"@,
        Setting::SidebarWidth => "Sidebar width"@,
        Setting::IconTheme => "Icon theme"@,
        Setting::ColorTheme => "Color theme"@,
        Setting::PreviewPlacement => "Preview opens in"@,
        Setting::PreviewEditor => "Preview editor"@,
        Setting::HiddenFiles => "Hidden files"@,
        Setting::Hotkeys => "Footer hotkeys"@,
        Setting::AutoOpen => "Auto-open sidebar"@,
        Setting::StrictToggle => "Strict toggle"@,
        Setting::FocusOnOpen => "Focus on open"@,
        Setting::FollowCwd => "Follow pane folder"@,
        Setting::GitDecorations => "Git decorations"@,
        Setting::Folder => "Change folder…"@,
    }
}

/// The label of a setting.
fn setting_label(setting: Setting) -> (r: &'static str)
    ensures
        r@ == label_text(setting),
{
    match setting {
        Setting::UnifiedSidebar => "Unified sidebar",
        Setting::DockRight => "Dock on the right",
        Setting::SidebarWidth => "Sidebar width",
        Setting::IconTheme => "Icon theme",
        Setting::ColorTheme => "Color theme",
        Setting::PreviewPlacement => "Preview opens in",
        Setting::PreviewEditor => "Preview editor",
        Setting::HiddenFiles => "Hidden files",
        Setting::Hotkeys => "Footer hotkeys",
        Setting::AutoOpen => "Auto-open sidebar",
        Setting::StrictToggle => "Strict toggle",
        Setting::FocusOnOpen => "Focus on open",
        Setting::FollowCwd => "Follow pane folder",
        Setting::GitDecorations => "Git decorations",
        Setting::Folder => "Change folder…",
    }
}

/// `on` or `off`.
pub open spec fn switch_text(on: bool) -> Seq<char> {
    if on {
        "on"@
    } else {
        "off"@
    }
}

/// `shown` or `hidden`.
pub open spec fn visibility_text(shown: bool) -> Seq<char> {
    if shown {
        "shown"@
    } else {
        "hidden"@
    }
}

/// What a setting's value is shown as.
pub open spec fn value_text(setting: Setting, input: SettingsInput) -> Seq<char> {
    match setting {
        Setting::UnifiedSidebar => switch_text(input.state.merged && input.has_other),
        Setting::DockRight => switch_text(input.state.dock_right),
        Setting::SidebarWidth => decimal_text(input.state.sidebar_width as nat) + " cols"@,
        Setting::IconTheme => input.theme.name(),
        Setting::ColorTheme => input.state.color_theme.name(),
        Setting::PreviewPlacement => input.state.preview_placement.name(),
        Setting::PreviewEditor => input.state.preview_editor.name(),
        Setting::HiddenFiles => visibility_text(input.show_hidden),
        Setting::Hotkeys => visibility_text(input.state.show_hotkeys),
        Setting::AutoOpen => switch_text(input.state.auto_open),
        Setting::StrictToggle => switch_text(input.state.strict_toggle),
        Setting::FocusOnOpen => switch_text(input.state.focus_on_open),
        Setting::FollowCwd => follow_cwd_text(input.state.follow_cwd, input.windows),
        Setting::GitDecorations => switch_text(input.state.git_deco),
        Setting::Folder => input.root_name@,
    }
}

/// Whether a setting can be toggled: the unified sidebar only where the other view is available.
pub open spec fn is_enabled(setting: Setting, has_other: bool) -> bool {
    setting != Setting::UnifiedSidebar || has_other
}

/// `on` or `off`.
fn switch(on: bool) -> (r: String)
    ensures
        r@ == switch_text(on),
{
    if on {
        "on".to_owned()
    } else {
        "off".to_owned()
    }
}

/// `shown` or `hidden`.
fn visibility(shown: bool) -> (r: String)
    ensures
        r@ == visibility_text(shown),
{
    if shown {
        "shown".to_owned()
    } else {
        "hidden".to_owned()
    }
}

/// The row of a setting.
pub fn setting_row(setting: Setting, input: &SettingsInput) -> (r: SettingRow)
    ensures
        r.setting == setting,
        r.label@ == label_text(setting),
        r.value@ == value_text(setting, *input),
        r.enabled == is_enabled(setting, input.has_other),
{
    let value = match setting {
        Setting::UnifiedSidebar => switch(input.state.merged && input.has_other),
        Setting::DockRight => switch(input.state.dock_right),
        Setting::SidebarWidth => concat2(
            decimal(input.state.sidebar_width as u64).as_str(),
            " cols",
        ),
        Setting::IconTheme => input.theme.state_name().to_owned(),
        Setting::ColorTheme => input.state.color_theme.label().to_owned(),
        Setting::PreviewPlacement => input.state.preview_placement.label().to_owned(),
        Setting::PreviewEditor => input.state.preview_editor.label().to_owned(),
        Setting::HiddenFiles => visibility(input.show_hidden),
        Setting::Hotkeys => visibility(input.state.show_hotkeys),
        Setting::AutoOpen => switch(input.state.auto_open),
        Setting::StrictToggle => switch(input.state.strict_toggle),
        Setting::FocusOnOpen => switch(input.state.focus_on_open),
        Setting::FollowCwd => follow_cwd_setting_value_on(input.state.follow_cwd, input.windows),
        Setting::GitDecorations => switch(input.state.git_deco),
        Setting::Folder => input.root_name.to_owned(),
    };
    let enabled = match setting {
        Setting::UnifiedSidebar => input.has_other,
        _ => true,
    };
    SettingRow { setting, label: setting_label(setting), value, enabled }
}

/// `row` is the row of a setting.
pub open spec fn shows_setting(row: SettingRow, setting: Setting, input: SettingsInput) -> bool {
    &&& row.setting == setting
    &&& row.label@ == label_text(setting)
    &&& row.value@ == value_text(setting, input)
    &&& row.enabled == is_enabled(setting, input.has_other)
}

/// The modal's rows for the current state.
pub fn settings_rows(input: &SettingsInput) -> (r: Vec<SettingRow>)
    ensures
        r@.len() == SETTING_COUNT,
        forall|i: int|
            0 <= i < SETTING_COUNT ==> shows_setting(#[trigger] r@[i], setting_at(i), *input),
{
    let mut rows: Vec<SettingRow> = Vec::new();
    for i in 0..SETTING_COUNT
        invariant
            rows@.len() == i,
            forall|k: int| 0 <= k < i ==> shows_setting(#[trigger] rows@[k], setting_at(k), *input),
    {
        rows.push(setting_row(nth_setting(i), input));
    }
    rows
}

/// Every setting has exactly one row.
pub proof fn law_every_setting_has_one_row(setting: Setting)
    ensures
        exists|i: int| 0 <= i < SETTING_COUNT && #[trigger] setting_at(i) == setting,
        forall|i: int, j: int|
            0 <= i < j < SETTING_COUNT ==> #[trigger] setting_at(i) != #[trigger] setting_at(j),
{
    assert(setting_at(0) == Setting::UnifiedSidebar);
    assert(setting_at(1) == Setting::DockRight);
    assert(setting_at(2) == Setting::SidebarWidth);
    assert(setting_at(3) == Setting::IconTheme);
    assert(setting_at(4) == Setting::ColorTheme);
    assert(setting_at(5) == Setting::PreviewPlacement);
    assert(setting_at(6) == Setting::PreviewEditor);
    assert(setting_at(7) == Setting::HiddenFiles);
    assert(setting_at(8) == Setting::Hotkeys);
    assert(setting_at(9) == Setting::AutoOpen);
    assert(setting_at(10) == Setting::StrictToggle);
    assert(setting_at(11) == Setting::FocusOnOpen);
    assert(setting_at(12) == Setting::FollowCwd);
    assert(setting_at(13) == Setting::GitDecorations);
    assert(setting_at(14) == Setting::Folder);
}

} // verus!
