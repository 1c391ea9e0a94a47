//! The settings: their values, their file, and changing them.

use herdr_sidebar::icons::IconTheme;
use herdr_sidebar::launcher::{
    closes_pane, dock_answer, next_view, parse_mode, root_moved, scm_exit, scm_tick_is_due,
    scm_timeout, starting_view, switch_answer, token_answer, Mode,
};
use herdr_sidebar::places::{launch_path, spawn_env, state_path, StateEnv};
use herdr_sidebar::settings::{settings_rows, Setting, SettingsInput};
use herdr_sidebar::state::{
    clamp_sidebar_width, follow_cwd_setting_value, follow_cwd_setting_value_on, step_sidebar_width,
    unix_now, unix_seconds, ColorTheme, Exit, PreviewEditor, PreviewPlacement, State, View,
    MAX_SIDEBAR_WIDTH, MIN_SIDEBAR_WIDTH,
};
use herdr_sidebar::state_file::{
    apply_change, encode_state, load_state, parse_state, update_state, Change,
};
use std::path::PathBuf;

fn windows() -> bool {
    std::path::MAIN_SEPARATOR == '\\'
}

#[test]
fn state_roundtrip_and_forgiving_parse() {
    let state = State {
        merged: true,
        active: View::SourceControl,
        show_hotkeys: true,
        icons: Some(IconTheme::Emoji),
        color_theme: ColorTheme::Terminal,
        font_prompt_done: true,
        auto_open: false,
        strict_toggle: true,
        focus_on_open: false,
        follow_cwd: false,
        git_deco: false,
        dock_right: true,
        sidebar_width: 44,
        preview_placement: PreviewPlacement::Pane,
        preview_editor: PreviewEditor::Neovim,
    };
    let json = "{\"merged\":true,\"active\":\"source-control\",\"hotkeys\":true,\"font_prompt\":true,\"auto_open\":false,\"strict_toggle\":true,\"focus_on_open\":false,\"follow_cwd\":false,\"git_deco\":false,\"dock_right\":true,\"sidebar_width\":44,\"colors\":\"terminal\",\"preview_placement\":\"pane\",\"preview_editor\":\"neovim\",\"icons\":\"emoji\"}";
    assert_eq!(parse_state(json), state);
    assert!(parse_state("\u{feff}{\"merged\":true}").merged);
    assert!(parse_state("{\"merged\":true}").auto_open);
    assert!(!parse_state("{\"merged\":true}").strict_toggle);
    assert!(parse_state("{\"merged\":true}").focus_on_open);
    assert_eq!(parse_state("{\"merged\":true}").color_theme, ColorTheme::VsCode);
    let mut theme = ColorTheme::VsCode;
    for expected in [ColorTheme::Light, ColorTheme::Terminal, ColorTheme::VsCode] {
        theme = theme.next();
        assert_eq!(theme, expected);
        assert_eq!(ColorTheme::from_state_name(theme.label()), Some(theme));
    }
    assert_eq!(parse_state("{\"colors\":\"light\"}").color_theme, ColorTheme::Light);
    assert!(!parse_state("{\"colors\":\"solarized\"}").color_theme.is_light());
    assert!(parse_state("{\"merged\":true}").follow_cwd);
    assert!(parse_state("{\"merged\":true}").git_deco);
    assert!(!parse_state("{\"merged\":true}").dock_right);
    assert_eq!(parse_state("{\"merged\":true}").sidebar_width, 32);
    assert_eq!(parse_state("{\"sidebar_width\":1}").sidebar_width, 24);
    assert_eq!(parse_state("{\"sidebar_width\":999}").sidebar_width, 80);
    assert_eq!(parse_state("{\"merged\":true}").preview_placement, PreviewPlacement::Tab);
    assert_eq!(
        parse_state("{\"preview_placement\":\"split\"}").preview_placement,
        PreviewPlacement::Tab
    );
    assert_eq!(
        parse_state("{\"preview_placement\":\"nonsense\"}").preview_placement,
        PreviewPlacement::Tab
    );
    assert_eq!(parse_state("{\"merged\":true}").preview_editor, PreviewEditor::Builtin);
    assert_eq!(
        parse_state("{\"preview_editor\":\"nonsense\"}").preview_editor,
        PreviewEditor::Builtin
    );
    assert_eq!(parse_state("garbage"), State::default());
    assert_eq!(parse_state("{\"active\":\"bogus\"}"), State::default());
}

#[test]
fn sidebar_width_steps_and_saturates_within_supported_bounds() {
    assert_eq!(step_sidebar_width(32, true), 36);
    assert_eq!(step_sidebar_width(32, false), 28);
    assert_eq!(step_sidebar_width(MAX_SIDEBAR_WIDTH, true), MAX_SIDEBAR_WIDTH);
    assert_eq!(step_sidebar_width(MIN_SIDEBAR_WIDTH, false), MIN_SIDEBAR_WIDTH);
    assert_eq!(step_sidebar_width(1, true), 28);
    assert_eq!(step_sidebar_width(u16::MAX, false), 76);
}

#[test]
fn follow_cwd_status_stays_compact() {
    if windows() {
        assert_eq!(follow_cwd_setting_value(true), "on (host n/a)");
        assert_eq!(follow_cwd_setting_value(false), "off (host n/a)");
    } else {
        assert_eq!(follow_cwd_setting_value(true), "on");
        assert_eq!(follow_cwd_setting_value(false), "off");
    }
}

#[test]
fn the_follow_setting_says_where_the_host_cannot() {
    assert_eq!(follow_cwd_setting_value_on(true, true), "on (host n/a)");
    assert_eq!(follow_cwd_setting_value_on(false, true), "off (host n/a)");
    assert_eq!(follow_cwd_setting_value_on(true, false), "on");
    assert_eq!(follow_cwd_setting_value_on(false, false), "off");
}

#[test]
fn views_pair_up() {
    assert_eq!(View::Explorer.other(), View::SourceControl);
    assert_eq!(View::SourceControl.other(), View::Explorer);
    assert_eq!(View::Explorer.label(), "Explorer");
    assert_eq!(View::SourceControl.plugin_id(), "herdr-sidebar-git");
}

#[test]
fn names_and_flags_come_back() {
    for view in [View::Explorer, View::SourceControl] {
        assert_eq!(View::from_state_name(view.state_name()), Some(view));
        assert_eq!(View::from_view_flag(view.view_flag()), Some(view));
        assert_eq!(view.token(), view.state_name());
    }
    assert_eq!(View::SourceControl.label(), "Source Control");
    assert_eq!(View::Explorer.plugin_id(), "herdr-sidebar-explorer");
    assert_eq!(View::from_view_flag("scm"), None);
    assert_eq!(View::from_state_name("git"), None);
    for placement in [PreviewPlacement::Tab, PreviewPlacement::Pane] {
        assert_eq!(PreviewPlacement::from_state_name(placement.label()), Some(placement));
        assert_eq!(placement.other().other(), placement);
    }
    assert!(PreviewPlacement::Pane.is_inline());
    assert!(!PreviewPlacement::Tab.is_inline());
    for editor in [PreviewEditor::Builtin, PreviewEditor::Neovim] {
        assert_eq!(PreviewEditor::from_state_name(editor.label()), Some(editor));
        assert_eq!(editor.other().other(), editor);
    }
    for theme in [IconTheme::Material, IconTheme::Emoji] {
        assert_eq!(IconTheme::from_state_name(theme.state_name()), Some(theme));
        assert_eq!(theme.toggled().toggled(), theme);
    }
    assert_eq!(IconTheme::from_state_name("ascii"), None);
    assert!(ColorTheme::Light.is_light());
}

#[test]
fn a_written_file_is_read_back() {
    let mut state = State::default();
    assert_eq!(
        encode_state(state),
        "{\"merged\":true,\"active\":\"explorer\",\"hotkeys\":false,\"font_prompt\":false,\"auto_open\":true,\"strict_toggle\":false,\"focus_on_open\":true,\"follow_cwd\":true,\"git_deco\":true,\"dock_right\":false,\"sidebar_width\":32,\"colors\":\"vscode\",\"preview_placement\":\"tab\",\"preview_editor\":\"builtin\"}"
    );
    state.icons = Some(IconTheme::Material);
    state.sidebar_width = 52;
    state.active = View::SourceControl;
    state.color_theme = ColorTheme::Light;
    assert_eq!(parse_state(&encode_state(state)), state);
    state.sidebar_width = 7;
    assert_eq!(parse_state(&encode_state(state)).sidebar_width, 24);
    assert!(encode_state(state).contains("\"icons\":\"material\""));
}

#[test]
fn garbled_fields_fall_back_one_by_one() {
    let state = parse_state("{\"merged\":\"no\",\"hotkeys\":true,\"sidebar_width\":70000,\"icons\":3}");
    assert!(state.merged);
    assert!(state.show_hotkeys);
    assert_eq!(state.sidebar_width, 32);
    assert_eq!(state.icons, None);
    assert_eq!(parse_state("[]"), State::default());
    assert_eq!(parse_state("{\"sidebar_width\":-4}").sidebar_width, 32);
    assert_eq!(parse_state("{\"sidebar_width\":44.0}").sidebar_width, 32);
}

#[test]
fn earlier_files_are_migrated_once() {
    let text = "{\"dock_right\":true}";
    let found = load_state(Some(text), Some("{}"));
    assert!(found.state.dock_right && !found.migrate);
    let old = load_state(None, Some(text));
    assert!(old.state.dock_right && old.migrate);
    let none = load_state(None, None);
    assert_eq!(none.state, State::default());
    assert!(!none.migrate);
}

#[test]
fn a_change_keeps_what_another_process_wrote() {
    let stale = State::default();
    let text = "{\"dock_right\":true,\"sidebar_width\":40}";
    let after = update_state(stale, Some(text), Change::FlipHotkeys);
    assert!(after.dock_right && after.show_hotkeys);
    assert_eq!(after.sidebar_width, 40);
    assert!(update_state(stale, None, Change::FlipDockRight).dock_right);
}

#[test]
fn every_change_is_about_its_own_setting() {
    let state = State::default();
    let unified = apply_change(state, Change::Unify { on: false, active: View::SourceControl });
    assert_eq!((unified.merged, unified.active), (false, View::SourceControl));
    assert_eq!(apply_change(state, Change::Show(View::SourceControl)).active, View::SourceControl);
    assert_eq!(apply_change(state, Change::StepWidth { wider: true }).sidebar_width, 36);
    assert_eq!(apply_change(state, Change::StepWidth { wider: false }).sidebar_width, 28);
    assert_eq!(apply_change(state, Change::SetIcons(IconTheme::Emoji)).icons, Some(IconTheme::Emoji));
    assert_eq!(apply_change(state, Change::NextPalette).color_theme, ColorTheme::Light);
    for flip in [
        Change::FlipDockRight,
        Change::OtherPlacement,
        Change::OtherEditor,
        Change::FlipHotkeys,
        Change::FlipAutoOpen,
        Change::FlipStrictToggle,
        Change::FlipFocusOnOpen,
        Change::FlipFollowCwd,
        Change::FlipGitDeco,
    ] {
        let once = apply_change(state, flip);
        assert_ne!(once, state);
        assert_eq!(apply_change(once, flip), state);
    }
}

#[test]
fn widths_are_clamped() {
    assert_eq!(clamp_sidebar_width(0), 24);
    assert_eq!(clamp_sidebar_width(24), 24);
    assert_eq!(clamp_sidebar_width(50), 50);
    assert_eq!(clamp_sidebar_width(81), 80);
}

#[test]
fn the_clock_starts_at_the_epoch() {
    assert_eq!(unix_seconds(None), 0);
    assert_eq!(unix_seconds(Some(17)), 17);
    assert!(unix_now() > 1_600_000_000);
}

fn env(
    plugin: Option<&str>,
    state: Option<&str>,
    config: Option<&str>,
    home: Option<&str>,
) -> StateEnv {
    StateEnv {
        plugin_state_dir: plugin.map(PathBuf::from),
        state_base: state.map(PathBuf::from),
        config_base: config.map(PathBuf::from),
        home: home.map(PathBuf::from),
    }
}

#[test]
fn files_live_where_the_host_says() {
    let handed = env(Some("/run/state"), Some("/xdg"), None, Some("/home/u"));
    assert_eq!(state_path(&handed), Some(PathBuf::from("/run/state/state.json")));
    assert_eq!(handed.tree_path(), Some(PathBuf::from("/run/state/tree.json")));
    assert_eq!(handed.scm_path(), Some(PathBuf::from("/run/state/scm.json")));
    assert_eq!(handed.roots_path(), Some(PathBuf::from("/run/state/roots.json")));
    let empty = env(Some(""), Some("/xdg"), Some("/cfg"), Some("/home/u"));
    assert_eq!(
        state_path(&empty),
        Some(PathBuf::from("/xdg/herdr/plugins/herdr-sidebar/state.json"))
    );
    assert_eq!(empty.legacy_state_path(), Some(PathBuf::from("/cfg/herdr/aa-sidebar.json")));
    let home = env(None, None, None, Some("/home/u"));
    assert_eq!(
        state_path(&home),
        Some(PathBuf::from("/home/u/.local/state/herdr/plugins/herdr-sidebar/state.json"))
    );
    assert_eq!(
        home.legacy_state_path(),
        Some(PathBuf::from("/home/u/.config/herdr/aa-sidebar.json"))
    );
    assert_eq!(state_path(&env(None, None, None, None)), None);
    assert_eq!(env(None, None, None, None).legacy_state_path(), None);
}

#[test]
fn the_own_directory_is_searched_first_and_once() {
    let bin = PathBuf::from("/opt/bin");
    let inherited = vec![PathBuf::from("/usr/bin"), PathBuf::from("/opt/bin/"), PathBuf::from("/bin")];
    assert_eq!(
        launch_path(&bin, &inherited),
        vec![PathBuf::from("/opt/bin"), PathBuf::from("/usr/bin"), PathBuf::from("/bin")]
    );
}

#[test]
fn new_panes_get_the_state_directory_and_the_search_path() {
    let value = spawn_env(&Some(PathBuf::from("/s")), Some("/opt/bin:/bin".to_string()));
    assert_eq!(value.get("HERDR_PLUGIN_STATE_DIR").and_then(|v| v.as_str()), Some("/s"));
    assert_eq!(value.get("PATH").and_then(|v| v.as_str()), Some("/opt/bin:/bin"));
    let bare = spawn_env(&None, None);
    assert_eq!(bare.as_object().map(|o| o.len()), Some(0));
}

#[test]
fn the_modal_lists_every_setting_with_its_value() {
    let input = SettingsInput {
        state: State::default(),
        has_other: true,
        theme: IconTheme::Emoji,
        show_hidden: false,
        root_name: "repo",
        windows: false,
    };
    let rows = settings_rows(&input);
    let shown: Vec<(&str, &str)> = rows.iter().map(|r| (r.label, r.value.as_str())).collect();
    assert_eq!(
        shown,
        vec![
            ("Unified sidebar", "on"),
            ("Dock on the right", "off"),
            ("Sidebar width", "32 cols"),
            ("Icon theme", "emoji"),
            ("Color theme", "vscode"),
            ("Preview opens in", "tab"),
            ("Preview editor", "builtin"),
            ("Hidden files", "hidden"),
            ("Footer hotkeys", "hidden"),
            ("Auto-open sidebar", "on"),
            ("Strict toggle", "off"),
            ("Focus on open", "on"),
            ("Follow pane folder", "on"),
            ("Git decorations", "on"),
            ("Change folder…", "repo"),
        ]
    );
    assert!(rows.iter().all(|r| r.enabled));
    let alone = settings_rows(&SettingsInput { has_other: false, ..input });
    assert!(!alone[0].enabled);
    assert_eq!(alone[0].value, "off");
    assert_eq!(alone[0].setting, Setting::UnifiedSidebar);
}

fn args(list: &[&str]) -> Vec<String> {
    list.iter().map(|a| a.to_string()).collect()
}

#[test]
fn arguments_say_what_to_do() {
    assert_eq!(parse_mode(&args(&[]), None), Mode::Sidebar { pinned: None });
    assert_eq!(
        parse_mode(&args(&["--view", "git"]), None),
        Mode::Sidebar { pinned: Some(View::SourceControl) }
    );
    assert_eq!(parse_mode(&args(&["--view", "nope"]), None), Mode::Sidebar { pinned: None });
    assert_eq!(parse_mode(&args(&["--view"]), None), Mode::Sidebar { pinned: None });
    assert_eq!(
        parse_mode(&args(&["--launch-decision", "git", "t1"]), None),
        Mode::LaunchDecision { git: true, scope: "t1".to_string() }
    );
    assert_eq!(
        parse_mode(&args(&["--launch-decision"]), None),
        Mode::LaunchDecision { git: false, scope: String::new() }
    );
    assert_eq!(
        parse_mode(&args(&["--focused-pane", "w1"]), None),
        Mode::FocusedPane { scope: "w1".to_string() }
    );
    assert_eq!(
        parse_mode(&args(&["--pane-has-token", "p"]), None),
        Mode::PaneHasToken { pane_id: "p".to_string() }
    );
    for (flag, mode) in [
        ("--event-scope", Mode::EventScope),
        ("--open-plan", Mode::OpenPlan),
        ("--event-kind", Mode::EventKind),
        ("--focused-tab", Mode::FocusedTab),
        ("--auto-open", Mode::AutoOpen),
        ("--focus-on-open", Mode::FocusOnOpen),
        ("--dock-right", Mode::DockRight),
    ] {
        assert_eq!(parse_mode(&args(&[flag]), None), mode);
    }
    assert_eq!(
        parse_mode(&args(&["--preview", "/c"]), Some("/e".to_string())),
        Mode::Preview { control: Some("/c".to_string()) }
    );
    assert_eq!(
        parse_mode(&args(&["--preview"]), Some("/e".to_string())),
        Mode::Preview { control: Some("/e".to_string()) }
    );
    assert_eq!(parse_mode(&args(&["--preview"]), None), Mode::Preview { control: None });
    assert_eq!(
        parse_mode(&args(&["--what"]), None),
        Mode::Unknown { argument: "--what".to_string() }
    );
}

#[test]
fn views_take_turns() {
    let mut state = State::default();
    state.active = View::SourceControl;
    assert_eq!(starting_view(None, state), View::SourceControl);
    assert_eq!(starting_view(Some(View::Explorer), state), View::Explorer);
    state.merged = false;
    assert_eq!(starting_view(None, state), View::Explorer);
    assert_eq!(next_view(View::Explorer, Exit::Switch), Some(View::SourceControl));
    assert_eq!(next_view(View::Explorer, Exit::Quit), None);
    assert!(closes_pane(Exit::Quit) && !closes_pane(Exit::Switch));
    assert_eq!(scm_exit(Exit::Quit, false), None);
    assert_eq!(scm_exit(Exit::Switch, true), Some(Exit::Switch));
    assert_eq!(scm_timeout(400), 1100);
    assert_eq!(scm_timeout(2000), 0);
    assert!(scm_tick_is_due(1500) && !scm_tick_is_due(1499));
    assert!(root_moved(&PathBuf::from("/a"), &PathBuf::from("/b")));
    assert!(!root_moved(&PathBuf::from("/a"), &PathBuf::from("/a/")));
}

#[test]
fn launchers_get_short_answers() {
    assert_eq!((switch_answer(true), switch_answer(false)), ("on", "off"));
    assert_eq!((token_answer(true), token_answer(false)), ("yes", "no"));
    let mut state = State::default();
    assert_eq!(dock_answer(state), "left");
    state.dock_right = true;
    assert_eq!(dock_answer(state), "right");
}
