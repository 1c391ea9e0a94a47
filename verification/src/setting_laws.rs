//! The settings: which field each change is about, which member of the file each field is read
//! from, and what the rows of the Settings modal show and toggle.

use crate::explorer::{AppView, Deed, Effect, OverlayView, PromptKind, PromptView};
use crate::icons::IconTheme;
use crate::json::{parsed_json, read_as, Json};
use crate::paths::{path_of, path_text};
use crate::settings::{is_enabled, label_text, setting_at, value_text, SettingsInput};
use crate::state::{
    clamped_width, ColorTheme, PreviewEditor, PreviewPlacement, State, View,
};
use crate::state_file::{changed, loaded, state_in, state_in_text, Change};
use crate::text::{decimal_text, without_bom};
use vstd::prelude::*;
use vstd::string::*;
use vstd::view::View as _;

verus! {

/// Each flip turns the field it is named after into its negation, and nothing else.
pub proof fn law_flips_are_about_one_field(state: State)
    ensures
        ({
            let after = changed(state, Change::FlipDockRight);
            &&& after.dock_right == !state.dock_right
            &&& State { dock_right: state.dock_right, ..after } == state
        }),
        ({
            let after = changed(state, Change::FlipHotkeys);
            &&& after.show_hotkeys == !state.show_hotkeys
            &&& State { show_hotkeys: state.show_hotkeys, ..after } == state
        }),
        ({
            let after = changed(state, Change::FlipAutoOpen);
            &&& after.auto_open == !state.auto_open
            &&& State { auto_open: state.auto_open, ..after } == state
        }),
        ({
            let after = changed(state, Change::FlipStrictToggle);
            &&& after.strict_toggle == !state.strict_toggle
            &&& State { strict_toggle: state.strict_toggle, ..after } == state
        }),
        ({
            let after = changed(state, Change::FlipFocusOnOpen);
            &&& after.focus_on_open == !state.focus_on_open
            &&& State { focus_on_open: state.focus_on_open, ..after } == state
        }),
        ({
            let after = changed(state, Change::FlipFollowCwd);
            &&& after.follow_cwd == !state.follow_cwd
            &&& State { follow_cwd: state.follow_cwd, ..after } == state
        }),
        ({
            let after = changed(state, Change::FlipGitDeco);
            &&& after.git_deco == !state.git_deco
            &&& State { git_deco: state.git_deco, ..after } == state
        }),
{
}

/// Every field by its name: after a flip of auto-open, the other fourteen fields are as before.
pub proof fn law_auto_open_alone_is_flipped(state: State)
    ensures
        ({
            let after = changed(state, Change::FlipAutoOpen);
            &&& after.auto_open == !state.auto_open
            &&& after.merged == state.merged
            &&& after.active == state.active
            &&& after.show_hotkeys == state.show_hotkeys
            &&& after.icons == state.icons
            &&& after.color_theme == state.color_theme
            &&& after.font_prompt_done == state.font_prompt_done
            &&& after.strict_toggle == state.strict_toggle
            &&& after.focus_on_open == state.focus_on_open
            &&& after.follow_cwd == state.follow_cwd
            &&& after.git_deco == state.git_deco
            &&& after.dock_right == state.dock_right
            &&& after.sidebar_width == state.sidebar_width
            &&& after.preview_placement == state.preview_placement
            &&& after.preview_editor == state.preview_editor
        }),
{
}

/// The changes that are no flips: each sets the fields it names to what it says, and nothing else.
/// The palettes go from VS Code to light to terminal and around.
pub proof fn law_choices_are_about_their_fields(
    state: State,
    on: bool,
    view: View,
    theme: IconTheme,
)
    ensures
        ({
            let after = changed(state, Change::Unify { on, active: view });
            &&& after.merged == on && after.active == view
            &&& State { merged: state.merged, active: state.active, ..after } == state
        }),
        ({
            let after = changed(state, Change::Show(view));
            &&& after.active == view
            &&& State { active: state.active, ..after } == state
        }),
        ({
            let after = changed(state, Change::SetIcons(theme));
            &&& after.icons == Some(theme)
            &&& State { icons: state.icons, ..after } == state
        }),
        ({
            let after = changed(state, Change::NextPalette);
            &&& state.color_theme == ColorTheme::VsCode ==> after.color_theme == ColorTheme::Light
            &&& state.color_theme == ColorTheme::Light ==> after.color_theme
                == ColorTheme::Terminal
            &&& state.color_theme == ColorTheme::Terminal ==> after.color_theme
                == ColorTheme::VsCode
            &&& State { color_theme: state.color_theme, ..after } == state
        }),
        ({
            let after = changed(state, Change::OtherPlacement);
            &&& after.preview_placement != state.preview_placement
            &&& State { preview_placement: state.preview_placement, ..after } == state
        }),
        ({
            let after = changed(state, Change::OtherEditor);
            &&& after.preview_editor != state.preview_editor
            &&& State { preview_editor: state.preview_editor, ..after } == state
        }),
{
}

/// A step of the width is four columns, from the nearest width between 24 and 80 and no further
/// than these; no other setting changes.
pub proof fn law_width_steps_are_four_columns(state: State)
    ensures
        ({
            let width = state.sidebar_width;
            let wider = changed(state, Change::StepWidth { wider: true });
            let narrower = changed(state, Change::StepWidth { wider: false });
            &&& State { sidebar_width: width, ..wider } == state
            &&& State { sidebar_width: width, ..narrower } == state
            &&& width <= 24 ==> wider.sidebar_width == 28 && narrower.sidebar_width == 24
            &&& 24 <= width <= 76 ==> wider.sidebar_width == width + 4
            &&& 76 <= width ==> wider.sidebar_width == 80
            &&& 24 <= width <= 28 ==> narrower.sidebar_width == 24
            &&& 28 <= width <= 80 ==> narrower.sidebar_width == width - 4
            &&& 80 <= width ==> narrower.sidebar_width == 76
        }),
{
}

/// The nearest supported width: between 24 and 80 columns.
pub proof fn law_widths_lie_between_24_and_80(width: int, state: State)
    ensures
        width <= 24 ==> clamped_width(width) == 24,
        24 <= width <= 80 ==> clamped_width(width) == width,
        80 <= width ==> clamped_width(width) == 80,
        state.in_range().sidebar_width == clamped_width(state.sidebar_width as int),
        (State { sidebar_width: state.sidebar_width, ..state.in_range() }) == state,
{
}

/// The settings of a first run.
pub proof fn law_a_first_run_starts_unified()
    ensures
        State::initial() == (State {
            merged: true,
            active: View::Explorer,
            show_hotkeys: false,
            icons: None,
            color_theme: ColorTheme::VsCode,
            font_prompt_done: false,
            auto_open: true,
            strict_toggle: false,
            focus_on_open: true,
            follow_cwd: true,
            git_deco: true,
            dock_right: false,
            sidebar_width: 32,
            preview_placement: PreviewPlacement::Tab,
            preview_editor: PreviewEditor::Builtin,
        }),
{
}

/// The truth value that an object has under a key.
pub open spec fn flag_under(fields: Map<Seq<char>, Json>, key: Seq<char>) -> Option<bool> {
    if fields.dom().contains(key) {
        match fields[key] {
            Json::Bool(b) => Some(b),
            _ => None,
        }
    } else {
        None
    }
}

/// An object has that text under a key.
pub open spec fn text_under(
    fields: Map<Seq<char>, Json>,
    key: Seq<char>,
    text: Seq<char>,
) -> bool {
    fields.dom().contains(key) && fields[key] == Json::Text(text)
}

/// Each truth value of a settings file is read from the member of its name; anything else there
/// counts as the setting of a first run.
pub proof fn law_flags_are_read_under_their_names(fields: Map<Seq<char>, Json>)
    ensures
        ({
            let state = state_in(Json::Object(fields));
            let read = |key: Seq<char>, first: bool|
                match flag_under(fields, key) {
                    Some(b) => b,
                    None => first,
                };
            &&& state.merged == read("merged"@, true)
            &&& state.show_hotkeys == read("hotkeys"@, false)
            &&& state.font_prompt_done == read("font_prompt"@, false)
            &&& state.auto_open == read("auto_open"@, true)
            &&& state.strict_toggle == read("strict_toggle"@, false)
            &&& state.focus_on_open == read("focus_on_open"@, true)
            &&& state.follow_cwd == read("follow_cwd"@, true)
            &&& state.git_deco == read("git_deco"@, true)
            &&& state.dock_right == read("dock_right"@, false)
        }),
{
}

/// Each choice of a settings file is read from the member of its name: the view, the palette, the
/// icons, the placement and the editor by the name that is kept of them, and the width as a number
/// of 16 bits, brought between 24 and 80. Anything else counts as the setting of a first run.
pub proof fn law_choices_are_read_under_their_names(fields: Map<Seq<char>, Json>)
    ensures
        ({
            let state = state_in(Json::Object(fields));
            &&& state.active == View::SourceControl <==> text_under(
                fields,
                "active"@,
                "source-control"@,
            )
            &&& state.color_theme == ColorTheme::Light <==> text_under(fields, "colors"@, "light"@)
            &&& state.color_theme == ColorTheme::Terminal <==> text_under(
                fields,
                "colors"@,
                "terminal"@,
            )
            &&& state.preview_placement == PreviewPlacement::Pane <==> text_under(
                fields,
                "preview_placement"@,
                "pane"@,
            )
            &&& state.preview_editor == PreviewEditor::Neovim <==> text_under(
                fields,
                "preview_editor"@,
                "neovim"@,
            )
            &&& state.icons == Some(IconTheme::Material) <==> text_under(
                fields,
                "icons"@,
                "material"@,
            )
            &&& state.icons == Some(IconTheme::Emoji) <==> text_under(fields, "icons"@, "emoji"@)
        }),
        ({
            let state = state_in(Json::Object(fields));
            let said = fields["sidebar_width"@];
            &&& (fields.dom().contains("sidebar_width"@) ==> !(said matches Json::Number(Some(_))))
                ==> state.sidebar_width == 32
            &&& fields.dom().contains("sidebar_width"@) ==> (said matches Json::Number(Some(n)) ==> {
                &&& n < 0 || n > 65535 ==> state.sidebar_width == 32
                &&& 0 <= n <= 24 ==> state.sidebar_width == 24
                &&& 24 <= n <= 80 ==> state.sidebar_width == n
                &&& 80 <= n <= 65535 ==> state.sidebar_width == 80
            })
        }),
{
    reveal_strlit("explorer");
    reveal_strlit("source-control");
    reveal_strlit("vscode");
    reveal_strlit("light");
    reveal_strlit("terminal");
    reveal_strlit("tab");
    reveal_strlit("pane");
    reveal_strlit("builtin");
    reveal_strlit("neovim");
    reveal_strlit("material");
    reveal_strlit("emoji");
    assert("source-control"@.len() == 14 && "explorer"@.len() == 8);
    assert("vscode"@.len() == 6 && "light"@.len() == 5 && "terminal"@.len() == 8);
    assert("tab"@.len() == 3 && "pane"@.len() == 4);
    assert("builtin"@.len() == 7 && "neovim"@.len() == 6);
    assert("material"@.len() == 8 && "emoji"@.len() == 5);
}

/// The settings come from the file of today; only where it cannot be read from that of an earlier
/// release, which is taken over then; and without either they are those of a first run. A file
/// that is no JSON says a first run, and so does JSON that is no object.
pub proof fn law_the_file_of_today_counts(current: Seq<char>, legacy: Option<Seq<char>>)
    ensures
        loaded(Some(current), legacy).state == state_in_text(current),
        !loaded(Some(current), legacy).migrate,
        loaded(None, Some(current)).state == state_in_text(current),
        loaded(None, Some(current)).migrate,
        loaded(None, None).state == State::initial(),
        !loaded(None, None).migrate,
        parsed_json(without_bom(current)) is Err ==> state_in_text(current) == State::initial(),
        forall|json: Json|
            parsed_json(without_bom(current)) == #[trigger] read_as(json) ==> state_in_text(current)
                == state_in(json),
        state_in(Json::Null) == State::initial(),
        forall|b: bool| #[trigger] state_in(Json::Bool(b)) == State::initial(),
        forall|text: Seq<char>| #[trigger] state_in(Json::Text(text)) == State::initial(),
        forall|items: Seq<Json>| #[trigger] state_in(Json::Array(items)) == State::initial(),
{
}

/// The rows of the Settings modal from the top: what each is called, and of which setting it shows
/// the value.
pub proof fn law_rows_show_their_settings(input: SettingsInput)
    ensures
        ({
            let state = input.state;
            let label = |row: int| label_text(setting_at(row));
            let value = |row: int| value_text(setting_at(row), input);
            let switch = |on: bool|
                if on {
                    "on"@
                } else {
                    "off"@
                };
            let shown = |on: bool|
                if on {
                    "shown"@
                } else {
                    "hidden"@
                };
            &&& label(0) == "Unified sidebar"@ && value(0) == switch(
                state.merged && input.has_other,
            )
            &&& label(1) == "Dock on the right"@ && value(1) == switch(state.dock_right)
            &&& label(2) == "Sidebar width"@ && value(2) == decimal_text(
                state.sidebar_width as nat,
            ) + " cols"@
            &&& label(3) == "Icon theme"@ && value(3) == if input.theme == IconTheme::Material {
                "material"@
            } else {
                "emoji"@
            }
            &&& label(4) == "Color theme"@ && value(4) == if state.color_theme
                == ColorTheme::VsCode {
                "vscode"@
            } else if state.color_theme == ColorTheme::Light {
                "light"@
            } else {
                "terminal"@
            }
            &&& label(5) == "Preview opens in"@ && value(5) == if state.preview_placement
                == PreviewPlacement::Tab {
                "tab"@
            } else {
                "pane"@
            }
            &&& label(6) == "Preview editor"@ && value(6) == if state.preview_editor
                == PreviewEditor::Builtin {
                "builtin"@
            } else {
                "neovim"@
            }
            &&& label(7) == "Hidden files"@ && value(7) == shown(input.show_hidden)
            &&& label(8) == "Footer hotkeys"@ && value(8) == shown(state.show_hotkeys)
            &&& label(9) == "Auto-open sidebar"@ && value(9) == switch(state.auto_open)
            &&& label(10) == "Strict toggle"@ && value(10) == switch(state.strict_toggle)
            &&& label(11) == "Focus on open"@ && value(11) == switch(state.focus_on_open)
            &&& label(12) == "Follow pane folder"@
            &&& !input.windows ==> value(12) == switch(state.follow_cwd)
            &&& input.windows ==> value(12) == if state.follow_cwd {
                "on (host n/a)"@
            } else {
                "off (host n/a)"@
            }
            &&& label(13) == "Git decorations"@ && value(13) == switch(state.git_deco)
            &&& label(14) == "Change folder…"@ && value(14) == input.root_name@
            &&& forall|row: int|
                0 <= row < 15 ==> (is_enabled(#[trigger] setting_at(row), input.has_other) <==> (row
                    != 0 || input.has_other))
        }),
{
}

/// The view with one change of the settings asked for.
pub open spec fn asking_change(app: AppView, change: Change) -> AppView {
    AppView { asked: app.asked.push(Deed::Plain(Effect::UpdateState(change))), ..app }
}

/// Toggling a row asks for the change of the setting that it shows.
pub proof fn law_toggling_a_row_changes_its_setting(app: AppView)
    ensures
        app.toggle_setting(1) == asking_change(app, Change::FlipDockRight),
        app.toggle_setting(5) == asking_change(app, Change::OtherPlacement),
        app.toggle_setting(6) == asking_change(app, Change::OtherEditor),
        app.toggle_setting(8) == asking_change(app, Change::FlipHotkeys),
        app.toggle_setting(9) == asking_change(app, Change::FlipAutoOpen),
        app.toggle_setting(10) == asking_change(app, Change::FlipStrictToggle),
        app.toggle_setting(11) == asking_change(app, Change::FlipFocusOnOpen),
        forall|row: int| row >= 15 ==> #[trigger] app.toggle_setting(row) == app,
{
    reveal(AppView::flip);
}

/// Toggling the width steps it wider and brings the pane to it; toggling the icons switches them
/// at once; a new palette is drawn with; following a pane starts anew; and the decorations are
/// looked up again.
pub proof fn law_toggling_with_more_to_do(app: AppView)
    ensures
        ({
            let theme = if app.theme == IconTheme::Material {
                IconTheme::Emoji
            } else {
                IconTheme::Material
            };
            let wider = asking_change(app, Change::StepWidth { wider: true });
            let palette = asking_change(app, Change::NextPalette);
            let follows = asking_change(app, Change::FlipFollowCwd);
            let deco = asking_change(app, Change::FlipGitDeco);
            &&& app.toggle_setting(2) == if app.has_pane {
                AppView {
                    asked: wider.asked.push(
                        Deed::Plain(Effect::ResizePreferred { current: app.last_width }),
                    ),
                    ..wider
                }
            } else {
                wider
            }
            &&& app.toggle_setting(3) == AppView {
                theme,
                ..asking_change(app, Change::SetIcons(theme))
            }
            &&& app.toggle_setting(4) == AppView {
                asked: palette.asked.push(Deed::Plain(Effect::ApplyColorTheme)),
                ..palette
            }
            &&& app.toggle_setting(7) == AppView {
                show_hidden: !app.show_hidden,
                index: None,
                quick_pending: false,
                asked: app.asked.push(Deed::Plain(Effect::ShowHidden(!app.show_hidden))).push(
                    Deed::Plain(Effect::Rebuild),
                ),
                ..app
            }
            &&& app.toggle_setting(12) == AppView {
                asked: follows.asked.push(Deed::Plain(Effect::ResetFollower)),
                ..follows
            }
            &&& app.toggle_setting(13) == AppView {
                asked: deco.asked.push(Deed::Plain(Effect::RediscoverRepos)).push(
                    Deed::Plain(Effect::RequestDecorations { force: true }),
                ),
                ..deco
            }
        }),
{
    reveal(AppView::flip);
}

/// Unifying the sidebar closes the modal, closes the other view's pane and gives its columns back;
/// separating it opens a pane for the other view. Without another view the row does nothing.
pub proof fn law_toggling_the_unified_sidebar(app: AppView)
    ensures
        ({
            let bare = AppView { overlay: None, ..app };
            let after = app.toggle_setting(0);
            let on = !app.state.merged;
            let asked = app.asked.push(
                Deed::Plain(Effect::UpdateState(Change::Unify { on, active: View::Explorer })),
            ).push(Deed::Plain(Effect::ApplyIdentity));
            &&& !app.has_other ==> after == app
            &&& app.has_other && !on ==> after == AppView {
                asked: asked.push(Deed::Plain(Effect::SpawnOtherPane)),
                ..bare
            }
            &&& app.has_other && on ==> after == AppView {
                asked: asked.push(Deed::Plain(Effect::CloseOtherPane)).push(
                    Deed::Plain(
                        Effect::ResizeTo {
                            current: if app.last_width < 32768 {
                                (2 * app.last_width + 1) as u16
                            } else {
                                u16::MAX
                            },
                            target: app.last_width,
                        },
                    ),
                ),
                ..bare
            }
        }),
{
    reveal(AppView::flip);
}

/// The last row changes the folder and closes the modal: with the platform's picker, one at a
/// time, or else with a prompt that starts with the present folder.
pub proof fn law_the_last_row_changes_the_folder(app: AppView)
    ensures
        ({
            let bare = AppView { overlay: None, ..app };
            let after = app.toggle_setting(14);
            &&& !app.native_picker ==> after == AppView {
                overlay: Some(
                    OverlayView::Prompt(
                        PromptView {
                            title: "Folder"@,
                            input: path_text(path_of(app.root)),
                            kind: PromptKind::ChangeFolder,
                        },
                    ),
                ),
                ..app
            }
            &&& app.native_picker && app.picking ==> after == bare
            &&& app.native_picker && !app.picking ==> after == AppView {
                picking: true,
                notice: Some("folder picker open… (check your other windows)"@),
                asked: app.asked.push(Deed::Plain(Effect::PickFolder)),
                ..bare
            }
        }),
{
    reveal(AppView::flip);
}

} // verus!
