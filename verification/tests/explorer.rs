//! The Explorer view: its rows, its modals, and what its events ask for.

use herdr_sidebar::background::{
    stage_notice, typed_folder, DecoStep, FolderRequest, IndexPoll, PickPoll, Poll, Staged, Start,
};
use herdr_sidebar::events::{key_command, Command};
use herdr_sidebar::explorer::{App, Effect, Overlay, PromptKind, TitleAction};
use herdr_sidebar::frame::{hints, prompt_line, row_item, FooterContent, FooterNeed};
use herdr_sidebar::geometry::{
    hits, hits_chevron, hits_collapse_button, keep_visible_scroll, row_index_at, BodyGeom, Rect,
};
use herdr_sidebar::icons::{Icon, IconTheme};
use herdr_sidebar::input::{KeyCode, KeyEvent, MouseEvent, MouseKind};
use herdr_sidebar::menu::{menu_entries, step_menu, MenuAction, MenuEntry};
use herdr_sidebar::popups::{plan_finder, plan_settings_width};
use herdr_sidebar::quick_open::{
    fuzzy_score_lowercased, quick_file, quick_matches, ranked_matches, skips_entry, QuickCollector,
    QuickFile, QuickIndex,
};
use herdr_sidebar::rows::{
    create_target_dir, deco_marker, deco_name_style, row_bg, row_line, Ground, Row, Tint,
};
use herdr_sidebar::state::{Exit, PreviewEditor, State, View};
use herdr_sidebar::state_file::Change;
use herdr_sidebar::width::{input_tail, truncate_path_tail, truncate_to};
use std::path::{Path, PathBuf};
use std::sync::Arc;

#[test]
fn collapse_button_hit_region_is_header_right_edge() {
    assert!(hits_collapse_button(30, 49, 32, 50), "footer right edge");
    assert!(hits_collapse_button(28, 49, 32, 50));
    assert!(!hits_collapse_button(27, 49, 32, 50), "left of the button");
    assert!(!hits_collapse_button(30, 0, 32, 50), "header row");
    assert!(!hits_collapse_button(30, 48, 32, 50), "tree row");
}

#[test]
fn menu_navigation_skips_separators_and_clamps() {
    let entries = menu_entries(Some(false), true);
    assert_eq!(step_menu(&entries, 0, -1), 0);
    let sep = entries.iter().position(|e| matches!(e, MenuEntry::Separator)).unwrap();
    assert_eq!(step_menu(&entries, sep - 1, 1), sep + 1);
    let last = entries.len() - 1;
    assert_eq!(step_menu(&entries, last, 1), last);
}

#[test]
fn chevron_hit_region_follows_indent_depth() {
    assert!(hits_chevron(0, 0));
    assert!(hits_chevron(1, 0));
    assert!(!hits_chevron(2, 0), "icon cell");
    assert!(hits_chevron(2, 1));
    assert!(hits_chevron(3, 1));
    assert!(!hits_chevron(0, 1), "indent cell");
}

#[test]
fn create_target_matches_vscode_semantics() {
    let root = PathBuf::from("C:\\ws");
    let dir = Row {
        path: root.join("src"),
        name: "src".into(),
        is_dir: true,
        depth: 0,
        expanded: false,
    };
    let file = Row {
        path: root.join("src").join("main.rs"),
        name: "main.rs".into(),
        is_dir: false,
        depth: 1,
        expanded: false,
    };
    assert_eq!(create_target_dir(Some(&dir), root.clone()), root.join("src"));
    assert_eq!(create_target_dir(Some(&file), root.clone()), root.join("src"));
    assert_eq!(create_target_dir(None, root.clone()), root);
}

fn page() -> Icon {
    Icon { glyph: "📄".to_string(), rgb: (200, 200, 200) }
}

fn rendered(row: &Row, deco: Option<char>, width: u16) -> String {
    row_line(row, &page(), deco, width).iter().map(|s| s.text.as_str()).collect()
}

fn file_row(name: &str) -> Row {
    Row {
        path: PathBuf::from("C:\\ws").join(name),
        name: name.into(),
        is_dir: false,
        depth: 0,
        expanded: false,
    }
}

fn dir_row(name: &str) -> Row {
    Row {
        path: PathBuf::from("C:\\ws").join(name),
        name: name.into(),
        is_dir: true,
        depth: 0,
        expanded: false,
    }
}

#[test]
fn files_render_their_status_letter_and_dirs_a_dirty_dot() {
    assert!(rendered(&file_row("app.rs"), Some('M'), 30).ends_with("M  "));
    assert!(rendered(&file_row("new.rs"), Some('A'), 30).ends_with("A  "));
    assert!(rendered(&file_row("gone.rs"), Some('D'), 30).ends_with("D  "));
    assert!(rendered(&file_row("notes.md"), Some('U'), 30).ends_with("U  "));
    assert!(rendered(&file_row("merge.rs"), Some('!'), 30).ends_with("!  "));
    let dir = rendered(&dir_row("src"), Some('M'), 30);
    assert!(dir.ends_with("●  "), "{dir}");
    assert!(!dir.contains('M'));
}

#[test]
fn undecorated_and_ignored_rows_carry_no_marker() {
    let plain = rendered(&file_row("app.rs"), None, 30);
    assert!(plain.trim_end().ends_with("app.rs"), "{plain}");
    let ignored = rendered(&file_row("build.log"), Some('I'), 30);
    assert!(ignored.trim_end().ends_with("build.log"), "{ignored}");
}

#[test]
fn decorations_are_foreground_only_so_selection_stays_visible() {
    assert_eq!(row_bg(false, true).and_then(|s| s.bg), Some(Ground::Selection));
    assert_eq!(row_bg(true, false).and_then(|s| s.bg), Some(Ground::Hover));
    assert_eq!(row_bg(false, false), None);
    let name_spans = row_line(&file_row("app.rs"), &page(), Some('M'), 30);
    assert!(name_spans.iter().all(|s| s.style.bg.is_none()));
    assert_eq!(deco_name_style(Some('M')).fg, Some(Tint::Status('M')));
    assert_eq!(deco_name_style(Some('M')).bg, None);
    assert_eq!(deco_name_style(None).fg, None);
    assert!(deco_name_style(Some('I')).dim);
}

#[test]
fn a_decorated_name_is_truncated_to_keep_the_marker_visible() {
    let long = file_row("a-very-long-file-name-that-will-not-fit.rs");
    let text = rendered(&long, Some('M'), 20);
    assert!(text.ends_with("M  "), "marker survives a narrow pane: {text}");
    assert_eq!(
        ratatui::text::Span::raw(text.as_str()).width(),
        20,
        "and the row still fills exactly the pane width"
    );
}

#[test]
fn deco_markers_follow_the_row_kind() {
    assert_eq!(deco_marker('M', false).as_deref(), Some("M"));
    assert_eq!(deco_marker('M', true).as_deref(), Some("●"));
    assert_eq!(deco_marker('!', true).as_deref(), Some("●"));
    assert_eq!(deco_marker('I', false), None);
    assert_eq!(deco_marker('I', true), None);
}

#[test]
fn row_index_accounts_for_header_and_scroll() {
    let body = BodyGeom { top: 1, height: 10, offset: 5 };
    assert_eq!(row_index_at(body, 100, 0), None, "header row");
    assert_eq!(row_index_at(body, 100, 1), Some(5));
    assert_eq!(row_index_at(body, 100, 10), Some(14));
    assert_eq!(row_index_at(body, 100, 11), None, "footer row");
    assert_eq!(row_index_at(body, 6, 2), None, "past the last row");
}

#[test]
fn quick_open_matches_case_insensitive_subsequences() {
    let files = vec![
        QuickFile {
            path: PathBuf::from("src/main.rs"),
            label: "src/main.rs".into(),
            label_lower: "src/main.rs".into(),
        },
        QuickFile {
            path: PathBuf::from("README.md"),
            label: "README.md".into(),
            label_lower: "readme.md".into(),
        },
    ];
    assert!(fuzzy_score_lowercased("smr", "src/main.rs").is_some());
    assert!(fuzzy_score_lowercased("smr", "readme.md").is_none());
    assert_eq!(quick_matches(&files, "read"), vec![1]);
}

#[test]
fn quick_open_truncation_keeps_the_filename_visible() {
    assert_eq!(truncate_path_tail("src/very/deep/nested/thing.rs", 12), "…ed/thing.rs");
    assert_eq!(truncate_path_tail("main.rs", 12), "main.rs");
    assert_eq!(truncate_path_tail("main.rs", 0), "");
    assert_eq!(truncate_path_tail("src/界面.rs", 8), "…界面.rs");
}

fn file(label: &str) -> QuickFile {
    quick_file(Path::new("/r"), PathBuf::from("/r").join(label))
}

#[test]
fn scores_prefer_runs_word_starts_and_short_names() {
    assert_eq!(fuzzy_score_lowercased("", "abc"), Some(0));
    assert_eq!(fuzzy_score_lowercased("a", "abc"), Some(13));
    assert_eq!(fuzzy_score_lowercased("b", "abc"), Some(7));
    assert_eq!(fuzzy_score_lowercased("ab", "abc"), Some(31));
    assert_eq!(fuzzy_score_lowercased("ac", "a-c"), Some(29));
    assert_eq!(fuzzy_score_lowercased("abcd", "abc"), None);
}

#[test]
fn matches_are_ranked_and_everything_matches_nothing_typed() {
    let files = vec![file("src/deep/app.rs"), file("app.rs"), file("apps.rs"), file("zzz")];
    assert_eq!(quick_matches(&files, ""), vec![0, 1, 2, 3]);
    assert_eq!(quick_matches(&files, "APP"), vec![1, 2, 0]);
    assert_eq!(ranked_matches(&files, "app"), vec![1, 2, 0]);
    assert_eq!(quick_matches(&files, "q"), Vec::<usize>::new());
    let same = vec![file("b"), file("a"), file("a")];
    assert_eq!(ranked_matches(&same, ""), vec![1, 2, 0]);
}

#[test]
fn the_index_is_sorted_and_cut_off() {
    let root = Path::new("/r");
    let mut collector = QuickCollector::new();
    assert!(!collector.push(root, PathBuf::from("/r/B.txt"), true, 3));
    assert!(!collector.push(root, PathBuf::from("/r/dir"), false, 3));
    assert!(!collector.push(root, PathBuf::from("/r/a.txt"), true, 3));
    assert!(collector.push(root, PathBuf::from("/r/sub/c.txt"), true, 3));
    let (files, truncated) = collector.finish();
    assert!(truncated);
    let labels: Vec<&str> = files.iter().map(|f| f.label.as_str()).collect();
    assert_eq!(labels, vec!["a.txt", "B.txt", "sub/c.txt"]);
    assert_eq!(files[1].label_lower, "b.txt");
    assert!(skips_entry(".git") && !skips_entry(".github"));
    let outside = quick_file(root, PathBuf::from("/else/x"));
    assert_eq!(outside.label, "/else/x");
}

#[test]
fn names_are_cut_at_the_end_and_inputs_at_the_front() {
    assert_eq!(truncate_to("abcdef", 4), "abc…");
    assert_eq!(truncate_to("abc", 3), "abc");
    assert_eq!(truncate_to("abc", 0), "");
    assert_eq!(truncate_to("界界界", 4), "界…");
    assert_eq!(input_tail("abcdef", 3), "def");
    assert_eq!(input_tail("ab", 3), "ab");
}

#[test]
fn rectangles_are_hit_inside_their_edges() {
    let rect = Rect { x: 2, y: 3, width: 4, height: 2 };
    assert!(hits(rect, 2, 3) && hits(rect, 5, 4));
    assert!(!hits(rect, 6, 3) && !hits(rect, 2, 5) && !hits(rect, 1, 3));
    assert_eq!(
        Rect { x: 1, y: 1, width: 10, height: 4 }.inner(),
        Rect { x: 2, y: 2, width: 8, height: 2 }
    );
    assert_eq!(Rect { x: 1, y: 1, width: 1, height: 4 }.inner(), Rect::zero());
    assert_eq!(keep_visible_scroll(0, 5, 20), 0);
    assert_eq!(keep_visible_scroll(9, 5, 20), 5);
    assert_eq!(keep_visible_scroll(19, 5, 18), 13);
    assert_eq!(keep_visible_scroll(3, 5, 4), 0);
}

#[test]
fn menus_offer_what_fits_the_target() {
    let root = menu_entries(None, false);
    assert!(matches!(root[0], MenuEntry::Action(MenuAction::NewFile, "New File…")));
    assert!(root.iter().any(|e| matches!(e, MenuEntry::Action(MenuAction::ChangeFolder, _))));
    assert!(!root.iter().any(|e| matches!(e, MenuEntry::Action(MenuAction::Delete, _))));
    let dir = menu_entries(Some(true), false);
    assert!(!dir.iter().any(|e| matches!(e, MenuEntry::Action(MenuAction::Stage, _))));
    assert!(!dir.iter().any(|e| matches!(e, MenuEntry::Action(MenuAction::OpenExternal, _))));
    let file = menu_entries(Some(false), true);
    assert!(file.iter().any(|e| matches!(e, MenuEntry::Action(MenuAction::Stage, _))));
    assert_eq!(step_menu(&file, 3, -1), 1);
}

fn row(path: &str, is_dir: bool, depth: usize, expanded: bool) -> Row {
    let name = path.rsplit('/').next().unwrap().to_string();
    Row { path: PathBuf::from(path), name, is_dir, depth, expanded }
}

fn tree() -> Vec<Row> {
    vec![
        row("/r/src", true, 0, true),
        row("/r/src/lib", true, 1, false),
        row("/r/src/main.rs", false, 1, false),
        row("/r/README.md", false, 0, false),
    ]
}

fn start(rows: Vec<Row>, selected: Option<&str>) -> Start {
    Start {
        root: PathBuf::from("/r"),
        root_name: "r".to_string(),
        rows,
        saved_selection: selected.map(PathBuf::from),
        show_hidden: false,
        theme: IconTheme::Emoji,
        has_pane: true,
        layout_width: Some(120),
        state: State::default(),
        has_other: true,
        native_picker: false,
    }
}

fn app() -> App {
    let mut app = App::new(start(tree(), None), 1000);
    app.take_effects();
    app
}

fn press(code: KeyCode) -> KeyEvent {
    KeyEvent { code, pressed: true, control: false, alt: false }
}

fn control(c: char) -> KeyEvent {
    KeyEvent { code: KeyCode::Char(c), pressed: true, control: true, alt: false }
}

fn mouse(kind: MouseKind, column: u16, row: u16) -> MouseEvent {
    MouseEvent { kind, column, row }
}

fn names(effects: &[Effect]) -> Vec<String> {
    effects.iter().map(|e| format!("{e:?}")).collect()
}

#[test]
fn a_view_starts_where_the_user_left_off() {
    let mut app = App::new(start(tree(), Some("/r/src/main.rs")), 7);
    assert_eq!(app.selected, Some(2));
    assert!(app.snap);
    assert_eq!(app.last_beat, 7);
    assert_eq!(
        names(&app.take_effects()),
        vec![
            "ApplyColorTheme",
            "RediscoverRepos",
            "ApplyIdentity",
            "RequestDecorations { force: true }"
        ]
    );
    assert!(app.take_effects().is_empty());
    let fresh = App::new(start(tree(), Some("/r/gone")), 7);
    assert_eq!(fresh.selected, None);
    assert!(!fresh.snap);
    assert_eq!(fresh.root_path(), PathBuf::from("/r"));
    assert_eq!(fresh.pane_label(), "Sidebar");
}

#[test]
fn keys_move_the_selection_within_the_list() {
    let mut app = app();
    assert_eq!(app.on_key(press(KeyCode::Down)), None);
    assert_eq!(app.selected, Some(0));
    assert_eq!(
        names(&app.take_effects()),
        vec!["PersistTree(Some(\"/r/src\"))"]
    );
    app.on_key(press(KeyCode::Char('k')));
    assert_eq!(app.selected, Some(0));
    app.on_key(press(KeyCode::PageDown));
    assert_eq!(app.selected, Some(3));
    app.on_key(press(KeyCode::Home));
    assert_eq!(app.selected, Some(0));
    app.on_key(press(KeyCode::Char('G')));
    assert_eq!(app.selected, Some(3));
    app.on_key(press(KeyCode::PageUp));
    assert_eq!(app.selected, Some(0));
    app.on_key(press(KeyCode::Right));
    assert_eq!(app.selected, Some(1));
    app.on_key(press(KeyCode::Left));
    assert_eq!(app.selected, Some(0));
}

#[test]
fn directories_unfold_and_files_open() {
    let mut app = app();
    app.select(1);
    app.take_effects();
    app.on_key(press(KeyCode::Right));
    assert_eq!(names(&app.take_effects()), vec!["ExpandDir(\"/r/src/lib\")", "Rebuild"]);
    app.on_key(press(KeyCode::Enter));
    assert_eq!(names(&app.take_effects()), vec!["ToggleDir(\"/r/src/lib\")", "Rebuild"]);
    app.select(0);
    app.take_effects();
    app.on_key(press(KeyCode::Left));
    assert_eq!(names(&app.take_effects()), vec!["CollapseDir(\"/r/src\")", "Rebuild"]);
    app.select(3);
    app.take_effects();
    app.on_key(press(KeyCode::Enter));
    assert_eq!(names(&app.take_effects()), vec!["OpenViewer(\"/r/README.md\")"]);
    app.sidebar_state.preview_editor = PreviewEditor::Neovim;
    app.viewed(Ok("doc".to_string()));
    app.on_key(press(KeyCode::Enter));
    assert_eq!(names(&app.take_effects()), vec!["OpenNeovim(\"/r/README.md\")"]);
    assert_eq!(app.last_preview, None);
    app.sidebar_state.preview_editor = PreviewEditor::Builtin;
    app.has_pane = false;
    app.on_key(press(KeyCode::Enter));
    assert_eq!(app.notice.as_deref(), Some("preview needs a herdr pane"));
}

#[test]
fn quitting_and_switching_end_the_loop() {
    let mut app = app();
    assert_eq!(app.on_key(press(KeyCode::Char('q'))), Some(Exit::Quit));
    assert_eq!(app.on_key(press(KeyCode::Esc)), None);
    assert_eq!(names(&app.take_effects()), vec!["ClosePreview"]);
    app.open_settings();
    assert_eq!(app.on_key(press(KeyCode::Char('q'))), None);
    assert!(app.overlay.is_none());
    app.open_settings();
    assert_eq!(app.on_key(control('q')), Some(Exit::Quit));
    app.overlay = None;
    let mut released = press(KeyCode::Char('q'));
    released.pressed = false;
    assert_eq!(app.on_key(released), None);
    assert_eq!(app.on_key(press(KeyCode::Char('2'))), Some(Exit::Switch));
    assert_eq!(names(&app.take_effects()), vec!["UpdateState(Show(SourceControl))"]);
    assert_eq!(app.on_key(press(KeyCode::Char('1'))), None);
    app.sidebar_state.merged = false;
    assert_eq!(app.on_key(press(KeyCode::Char('2'))), None);
    assert_eq!(key_command(KeyCode::Char('x')), Command::Nothing);
    assert_eq!(key_command(KeyCode::Char('2')), Command::Show(View::SourceControl));
}

#[test]
fn rebuilding_keeps_the_selected_path() {
    let mut app = app();
    app.select(2);
    app.scroll = 9;
    app.take_effects();
    app.rebuild(vec![row("/r/a", false, 0, false), row("/r/src/main.rs", false, 1, false)]);
    assert_eq!(app.selected, Some(1));
    assert_eq!(app.scroll, 1);
    assert_eq!(names(&app.take_effects()), vec!["PersistTree(Some(\"/r/src/main.rs\"))"]);
    app.rebuild(vec![row("/r/b", false, 0, false)]);
    assert_eq!(app.selected, Some(0));
    app.rebuild(Vec::new());
    assert_eq!(app.selected, None);
    app.rebuild(tree());
    assert_eq!(app.selected, None);
}

#[test]
fn clicks_reach_what_was_drawn() {
    let mut app = app();
    let area = Rect { x: 0, y: 0, width: 30, height: 20 };
    let plan = app.draw(area, 1);
    assert_eq!(plan.parts.activity, Rect { x: 0, y: 0, width: 30, height: 3 });
    assert_eq!(plan.parts.header, Rect { x: 0, y: 3, width: 30, height: 1 });
    assert_eq!(plan.parts.body, Rect { x: 0, y: 4, width: 30, height: 15 });
    assert_eq!(plan.parts.footer, Rect { x: 0, y: 19, width: 30, height: 1 });
    assert_eq!(plan.button, Rect { x: 27, y: 19, width: 3, height: 1 });
    assert_eq!(plan.hint_area, Rect { x: 0, y: 19, width: 27, height: 1 });
    assert_eq!((plan.window.start, plan.window.count), (0, 4));
    assert_eq!(app.page, 14);
    app.on_mouse(mouse(MouseKind::Moved, 5, 6), 10);
    assert_eq!(app.hovered, Some(2));
    // A click on a file previews it, a second one pins the preview.
    app.on_mouse(mouse(MouseKind::LeftDown, 8, 7), 1000);
    assert_eq!(
        names(&app.take_effects()),
        vec!["PersistTree(Some(\"/r/README.md\"))", "OpenViewer(\"/r/README.md\")"]
    );
    app.on_mouse(mouse(MouseKind::LeftDown, 8, 7), 1449);
    assert_eq!(
        names(&app.take_effects()),
        vec!["PersistTree(Some(\"/r/README.md\"))", "PinOrOpen(\"/r/README.md\")"]
    );
    app.on_mouse(mouse(MouseKind::LeftDown, 8, 7), 1900);
    assert!(names(&app.take_effects())[1].starts_with("OpenViewer"));
    // The chevron of a directory toggles it, its name only selects.
    app.on_mouse(mouse(MouseKind::LeftDown, 2, 5), 3000);
    assert_eq!(app.take_effects().len(), 3);
    app.on_mouse(mouse(MouseKind::LeftDown, 9, 4), 4000);
    assert_eq!(app.take_effects().len(), 1);
    // The collapse button hides, the wheel scrolls alone.
    app.on_mouse(mouse(MouseKind::LeftDown, 29, 19), 5000);
    assert_eq!(names(&app.take_effects()), vec!["Hide"]);
    app.on_mouse(mouse(MouseKind::ScrollDown, 1, 5), 5000);
    assert_eq!(app.scroll, 3);
    app.on_mouse(mouse(MouseKind::ScrollUp, 1, 5), 5000);
    assert_eq!(app.scroll, 0);
    app.on_mouse(mouse(MouseKind::RightDown, 4, 6), 5000);
    let asked = names(&app.take_effects());
    assert_eq!(asked[1], "ShowMenu { x: 4, y: 6, target: Some((\"/r/src/main.rs\", false)) }");
    app.on_mouse(mouse(MouseKind::RightDown, 4, 12), 5000);
    assert_eq!(names(&app.take_effects()), vec!["ShowMenu { x: 4, y: 12, target: None }"]);
}

#[test]
fn menus_stay_put_without_a_direction() {
    let entries = menu_entries(None, false);
    assert_eq!(step_menu(&entries, 1, 0), 1);
    assert_eq!(step_menu(&entries, 99, 0), 99);
    assert_eq!(step_menu(&entries, 0, 3), 3);
    assert_eq!(step_menu(&entries, 0, 99), 0);
}

#[test]
fn small_panes_hold_all_parts() {
    let mut app = app();
    for height in 0..5 {
        for footer in 0..6 {
            let area = Rect { x: 2, y: 7, width: 9, height };
            let parts = app.draw(area, footer).parts;
            for part in [parts.activity, parts.header, parts.body, parts.footer] {
                assert_eq!((part.x, part.width), (2, 9));
                assert!(part.y >= 7 && part.y + part.height <= 7 + height);
            }
        }
    }
}

#[test]
fn deep_rows_have_their_chevrons_far_right() {
    assert!(hits_chevron(65_535, 32_767) && hits_chevron(65_534, 32_767));
    assert!(!hits_chevron(0, 32_768) && !hits_chevron(65_535, 32_768));
    assert!(!hits_chevron(0, usize::MAX));
    let mut app = app();
    app.rebuild(vec![row("/r/deep", false, 40_000, false)]);
    app.select(0);
    app.draw(Rect { x: 0, y: 0, width: 30, height: 20 }, 1);
    assert_eq!(app.selection_anchor(), (29, 4));
}

#[test]
fn menus_show_the_labels_of_their_entries() {
    let mut app = app();
    app.show_menu(0, 0, None, false);
    if let Some(Overlay::Menu(menu)) = app.overlay.as_mut() {
        menu.entries = vec![
            MenuEntry::Action(MenuAction::Rename, "a"),
            MenuEntry::Separator,
            MenuEntry::Action(MenuAction::Delete, "delete"),
        ];
    }
    let popup = app.draw_menu(Rect { x: 0, y: 0, width: 40, height: 30 }).unwrap();
    assert_eq!(popup.rect, Rect { x: 0, y: 1, width: 10, height: 5 });
    let texts: Vec<&str> = popup.lines.iter().map(|line| line.text.as_str()).collect();
    assert_eq!(texts, vec![" a", "────────", " delete"]);
}

#[test]
fn parts_share_out_the_pane() {
    let mut app = app();
    let area = Rect { x: 2, y: 5, width: 30, height: 20 };
    let parts = app.draw(area, 4).parts;
    assert_eq!(parts.activity, Rect { x: 2, y: 5, width: 30, height: 3 });
    assert_eq!(parts.header, Rect { x: 2, y: 8, width: 30, height: 1 });
    assert_eq!(parts.body, Rect { x: 2, y: 9, width: 30, height: 12 });
    assert_eq!(parts.footer, Rect { x: 2, y: 21, width: 30, height: 4 });
    // Just enough room leaves no body; the footer may be missing.
    let parts = app.draw(Rect { x: 0, y: 0, width: 9, height: 5 }, 1).parts;
    assert_eq!(parts.body, Rect { x: 0, y: 4, width: 9, height: 0 });
    assert_eq!(parts.footer, Rect { x: 0, y: 4, width: 9, height: 1 });
    let parts = app.draw(Rect { x: 0, y: 0, width: 9, height: 4 }, 0).parts;
    assert_eq!(parts.body, Rect { x: 0, y: 4, width: 9, height: 0 });
    assert_eq!(parts.footer, Rect { x: 0, y: 4, width: 9, height: 0 });
    // Without the activity bar the header comes first.
    app.sidebar_state.merged = false;
    let parts = app.draw(Rect { x: 0, y: 0, width: 40, height: 300 }, 2).parts;
    assert_eq!(parts.activity, Rect { x: 0, y: 0, width: 40, height: 0 });
    assert_eq!(parts.header, Rect { x: 0, y: 0, width: 40, height: 1 });
    assert_eq!(parts.body, Rect { x: 0, y: 1, width: 40, height: 297 });
    assert_eq!(parts.footer, Rect { x: 0, y: 298, width: 40, height: 2 });
    // Up to the last coordinate.
    let parts = app.draw(Rect { x: 65_000, y: 0, width: 535, height: 65_535 }, 65_000).parts;
    assert_eq!(parts.body, Rect { x: 65_000, y: 1, width: 535, height: 534 });
    assert_eq!(parts.footer, Rect { x: 65_000, y: 535, width: 535, height: 65_000 });
}

#[test]
fn the_collapse_button_has_the_last_columns() {
    let mut app = app();
    for (width, x, taken) in [(0, 0, 0), (1, 0, 1), (2, 0, 2), (3, 0, 3), (4, 1, 3), (500, 497, 3)] {
        let plan = app.draw(Rect { x: 0, y: 0, width, height: 9 }, 2);
        assert_eq!(plan.button, Rect { x, y: 8, width: taken, height: 1 });
        for column in x..x + taken {
            assert!(hits_collapse_button(column, 8, width, 9));
        }
    }
}

#[test]
fn bars_and_buttons_are_clicked_where_they_lie() {
    let mut app = app();
    let area = Rect { x: 0, y: 0, width: 30, height: 20 };
    app.draw(area, 1);
    let bar = app.draw_activity_bar(Rect { x: 0, y: 0, width: 30, height: 3 }, "E", "G", "*");
    assert_eq!(bar.explorer.text, " E ");
    assert_eq!(bar.source_control.text, " G ");
    assert_eq!(app.activity.row, 1);
    assert_eq!(app.activity.explorer, (1, 4));
    assert_eq!(app.activity.source_control, (5, 8));
    assert_eq!(app.gear, Rect { x: 27, y: 1, width: 3, height: 1 });
    assert_eq!(bar.blanks, 19);
    assert_eq!(bar.cap_above, Rect { x: 1, y: 0, width: 3, height: 1 });
    assert_eq!(bar.cap_below, Rect { x: 1, y: 2, width: 3, height: 1 });
    assert_eq!(app.on_mouse(mouse(MouseKind::LeftDown, 6, 1), 5), Some(Exit::Switch));
    assert_eq!(app.on_mouse(mouse(MouseKind::LeftDown, 2, 1), 5), None);
    app.on_mouse(mouse(MouseKind::LeftDown, 28, 1), 5);
    assert!(matches!(app.overlay, Some(Overlay::Settings(_))));
    app.overlay = None;
    let zone = Rect { x: 20, y: 3, width: 2, height: 1 };
    let header = Rect { x: 0, y: 3, width: 30, height: 1 };
    assert_eq!(app.actions_column(header, "*", 8), 22);
    let plan = app.draw_header(header, "*", 8, vec![(zone, TitleAction::CollapseAll)]);
    assert_eq!(plan.name.text, " R");
    assert_eq!(plan.blanks, 20);
    assert!(plan.gear.is_none());
    app.take_effects();
    app.on_mouse(mouse(MouseKind::LeftDown, 21, 3), 5);
    assert_eq!(names(&app.take_effects()), vec!["CollapseAll", "Rebuild"]);
    app.title_action(TitleAction::NewFolder);
    match &app.overlay {
        Some(Overlay::Prompt(prompt)) => {
            assert_eq!(prompt.title, "New folder");
            assert_eq!(prompt.kind, PromptKind::NewFolder(PathBuf::from("/r")));
        }
        _ => panic!("a prompt opens"),
    }
    app.overlay = None;
    app.sidebar_state.merged = false;
    let plan = app.draw_header(header, "*", 0, Vec::new());
    assert_eq!(plan.gear.unwrap().text, "* ");
    assert_eq!(app.gear, Rect { x: 28, y: 3, width: 2, height: 1 });
    assert_eq!(plan.blanks, 26);
    assert_eq!(app.pane_label(), "Explorer");
}

#[test]
fn the_list_scrolls_to_a_selection_that_was_made() {
    let rows: Vec<Row> = (0..50).map(|i| row(&format!("/r/f{i}"), false, 0, false)).collect();
    let mut app = App::new(start(rows, None), 0);
    let area = Rect { x: 0, y: 0, width: 30, height: 15 };
    app.select(40);
    let plan = app.draw(area, 1);
    assert_eq!(plan.parts.body.height, 10);
    assert_eq!(plan.window.start, 31);
    assert_eq!(plan.window.count, 10);
    assert!(!app.snap);
    app.scroll = 0;
    assert_eq!(app.draw(area, 1).window.start, 0);
    app.scroll = 99;
    assert_eq!(app.draw(area, 1).window.start, 40);
    let icons = vec![page(), page()];
    let items = app.row_items(40, &icons, &vec![None, Some('M')], 30);
    assert_eq!(items[0].ground.and_then(|s| s.bg), Some(Ground::Selection));
    assert_eq!(items[1].ground, None);
    assert_eq!(items[1].spans.len(), 6);
    let item = row_item(&app.rows[0], &page(), true, false, None, 30);
    assert_eq!(item.ground.and_then(|s| s.bg), Some(Ground::Hover));
}

#[test]
fn settings_are_toggled_by_key_and_click() {
    let mut app = app();
    app.on_key(press(KeyCode::Char('s')));
    app.on_key(press(KeyCode::Char('j')));
    app.on_key(press(KeyCode::Enter));
    assert_eq!(names(&app.take_effects()), vec!["UpdateState(FlipDockRight)"]);
    app.on_key(press(KeyCode::Down));
    app.on_key(press(KeyCode::Left));
    assert_eq!(
        names(&app.take_effects()),
        vec!["UpdateState(StepWidth { wider: false })", "ResizePreferred { current: 32 }"]
    );
    app.on_key(press(KeyCode::Char('l')));
    assert_eq!(names(&app.take_effects())[0], "UpdateState(StepWidth { wider: true })");
    let rows = app.setting_rows(false);
    let area = Rect { x: 0, y: 0, width: 60, height: 40 };
    let width = plan_settings_width(&rows, area);
    assert_eq!(width, 30);
    let frame = app.draw_settings(area, &rows, width, 2).unwrap();
    assert_eq!(frame.rows.len(), 15);
    assert_eq!(frame.rows[0].text, " Unified sidebar         on ");
    assert_eq!(frame.rows[2].style.bg, Some(Ground::Selection));
    assert_eq!(frame.heading.text, " Hotkeys");
    assert_eq!((frame.rect.height, frame.scroll), (22, 0));
    match &app.overlay {
        Some(Overlay::Settings(modal)) => {
            assert_eq!(modal.rect, Rect { x: 15, y: 6, width: 30, height: 22 });
            assert_eq!(modal.scroll, 0);
        }
        _ => panic!("the modal stays open"),
    }
    app.take_effects();
    app.on_mouse(mouse(MouseKind::LeftDown, 20, 7 + 4), 1);
    assert_eq!(names(&app.take_effects()), vec!["UpdateState(NextPalette)", "ApplyColorTheme"]);
    app.on_mouse(mouse(MouseKind::Moved, 20, 7 + 13), 1);
    app.on_key(press(KeyCode::Char(' ')));
    assert_eq!(
        names(&app.take_effects()),
        vec![
            "UpdateState(FlipGitDeco)",
            "RediscoverRepos",
            "RequestDecorations { force: true }"
        ]
    );
    app.on_mouse(mouse(MouseKind::LeftDown, 15, 6), 1);
    assert!(app.overlay.is_some());
    app.on_mouse(mouse(MouseKind::LeftDown, 0, 0), 1);
    assert!(app.overlay.is_none());
    app.toggle_setting(0);
    assert_eq!(
        names(&app.take_effects()),
        vec![
            "UpdateState(Unify { on: false, active: Explorer })",
            "ApplyIdentity",
            "SpawnOtherPane"
        ]
    );
    assert_eq!(app.detached_width(), Some(65));
    app.sidebar_state.merged = false;
    app.toggle_setting(0);
    assert_eq!(
        names(&app.take_effects()),
        vec![
            "UpdateState(Unify { on: true, active: Explorer })",
            "ApplyIdentity",
            "CloseOtherPane",
            "ResizeTo { current: 65, target: 32 }"
        ]
    );
    app.toggle_setting(12);
    assert_eq!(names(&app.take_effects()), vec!["UpdateState(FlipFollowCwd)", "ResetFollower"]);
    app.toggle_setting(7);
    assert!(app.show_hidden);
    assert_eq!(names(&app.take_effects()), vec!["ShowHidden(true)", "Rebuild"]);
    app.toggle_setting(3);
    assert_eq!(app.theme, IconTheme::Material);
    assert_eq!(names(&app.take_effects()), vec!["UpdateState(SetIcons(Material))"]);
    for (index, change) in [
        (5, Change::OtherPlacement),
        (6, Change::OtherEditor),
        (8, Change::FlipHotkeys),
        (9, Change::FlipAutoOpen),
        (10, Change::FlipStrictToggle),
        (11, Change::FlipFocusOnOpen),
    ] {
        app.toggle_setting(index);
        assert_eq!(names(&app.take_effects()), vec![format!("UpdateState({change:?})")]);
    }
    app.toggle_setting(99);
    assert!(app.take_effects().is_empty());
    app.has_other = false;
    app.toggle_setting(0);
    assert!(app.take_effects().is_empty());
}

#[test]
fn menus_act_on_their_target() {
    let mut app = app();
    let target = Some((PathBuf::from("/r/src/main.rs"), false));
    let area = Rect { x: 0, y: 0, width: 40, height: 30 };
    app.show_menu(5, 5, target.clone(), true);
    let popup = app.draw_menu(area).unwrap();
    assert_eq!(popup.rect, Rect { x: 5, y: 6, width: 26, height: 14 });
    assert_eq!(popup.lines[0].text, " New File…");
    assert_eq!(popup.lines[0].style.bg, Some(Ground::Selection));
    assert_eq!(popup.lines[2].text, "─".repeat(24));
    // The fourth line copies the path.
    app.on_mouse(mouse(MouseKind::LeftDown, 8, 7 + 3), 1);
    assert!(app.overlay.is_none());
    assert_eq!(names(&app.take_effects()), vec!["Copy(\"/r/src/main.rs\")"]);
    let act = |app: &mut App, action: MenuAction, target: Option<(PathBuf, bool)>| {
        app.show_menu(0, 0, target, true);
        if let Some(Overlay::Menu(menu)) = app.overlay.as_mut() {
            menu.selected = menu
                .entries
                .iter()
                .position(|e| matches!(e, MenuEntry::Action(a, _) if *a == action))
                .unwrap();
        }
        app.on_key(press(KeyCode::Enter));
    };
    act(&mut app, MenuAction::CopyRelativePath, target.clone());
    assert_eq!(names(&app.take_effects()), vec!["Copy(\"src/main.rs\")"]);
    act(&mut app, MenuAction::OpenExternal, target.clone());
    assert_eq!(
        names(&app.take_effects()),
        vec!["OpenExternal { path: \"/r/src/main.rs\", name: \"main.rs\" }"]
    );
    act(&mut app, MenuAction::Stage, target.clone());
    assert_eq!(names(&app.take_effects()), vec!["Stage(\"/r/src/main.rs\")"]);
    act(&mut app, MenuAction::Reveal, None);
    assert_eq!(names(&app.take_effects()), vec!["Reveal(\"/r\")"]);
    act(&mut app, MenuAction::NewFile, target.clone());
    match &app.overlay {
        Some(Overlay::Prompt(p)) => assert_eq!(p.kind, PromptKind::NewFile(PathBuf::from("/r/src"))),
        _ => panic!("a prompt opens"),
    }
    act(&mut app, MenuAction::NewFolder, None);
    act(&mut app, MenuAction::Rename, target.clone());
    match &app.overlay {
        Some(Overlay::Prompt(p)) => {
            assert_eq!((p.title, p.input.as_str()), ("Rename", "main.rs"));
        }
        _ => panic!("a prompt opens"),
    }
    act(&mut app, MenuAction::ChangeFolder, None);
    match &app.overlay {
        Some(Overlay::Prompt(p)) => assert_eq!((p.title, p.input.as_str()), ("Folder", "/r")),
        _ => panic!("a prompt opens"),
    }
    act(&mut app, MenuAction::ChangeFolderTyped, None);
    assert!(matches!(&app.overlay, Some(Overlay::Prompt(_))));
    act(&mut app, MenuAction::Delete, target);
    assert!(matches!(&app.overlay, Some(Overlay::ConfirmDelete { .. })));
    match app.footer_need() {
        FooterNeed::Message { text, tint } => {
            assert_eq!(text, "Delete 'main.rs' permanently? (y/N)");
            assert_eq!(tint, Tint::Deleted);
        }
        _ => panic!("the question is asked"),
    }
    app.take_effects();
    app.on_key(press(KeyCode::Char('y')));
    assert_eq!(
        names(&app.take_effects()),
        vec!["Delete { path: \"/r/src/main.rs\", is_dir: false }"]
    );
    assert!(app.overlay.is_none());
}

#[test]
fn menus_close_and_open_elsewhere() {
    let mut app = app();
    app.draw(Rect { x: 0, y: 0, width: 30, height: 20 }, 1);
    app.show_menu(0, 0, None, false);
    app.on_key(press(KeyCode::Down));
    app.on_key(press(KeyCode::Down));
    match &app.overlay {
        Some(Overlay::Menu(menu)) => assert_eq!(menu.selected, 3),
        _ => panic!("the menu stays open"),
    }
    app.on_mouse(mouse(MouseKind::RightDown, 3, 5), 1);
    assert!(app.overlay.is_none());
    assert_eq!(
        names(&app.take_effects())[1],
        "ShowMenu { x: 3, y: 5, target: Some((\"/r/src/lib\", true)) }"
    );
    app.show_menu(0, 0, None, false);
    app.on_mouse(mouse(MouseKind::LeftDown, 29, 19), 1);
    assert!(app.overlay.is_none());
    app.show_menu(0, 0, None, false);
    app.on_key(press(KeyCode::Esc));
    assert!(app.overlay.is_none());
    app.select(1);
    app.take_effects();
    assert_eq!(app.selection_anchor(), (2, 5));
    app.on_key(press(KeyCode::Char('m')));
    assert_eq!(
        names(&app.take_effects()),
        vec!["ShowMenu { x: 2, y: 5, target: Some((\"/r/src/lib\", true)) }"]
    );
}

#[test]
fn prompts_take_a_line_of_text() {
    let mut app = app();
    app.open_create_prompt(false);
    for c in ['a', 'b', 'c'] {
        app.on_key(press(KeyCode::Char(c)));
    }
    app.on_key(press(KeyCode::Backspace));
    app.on_key(press(KeyCode::Enter));
    assert_eq!(
        names(&app.take_effects()),
        vec!["SubmitName { kind: NewFile(\"/r\"), input: \"ab\" }"]
    );
    app.name_rejected();
    assert_eq!(app.notice.as_deref(), Some("invalid name"));
    app.name_done(PromptKind::NewFile(PathBuf::from("/r")), Err("exists".to_string()));
    assert_eq!(app.notice.as_deref(), Some("failed: exists"));
    app.name_done(PromptKind::NewFile(PathBuf::from("/r/src")), Ok(PathBuf::from("/r/src/x")));
    assert_eq!(
        names(&app.take_effects()),
        vec![
            "ExpandDir(\"/r/src\")",
            "RefreshTree",
            "RediscoverRepos",
            "RequestDecorations { force: true }",
            "Rebuild",
            "SelectPath(\"/r/src/x\")"
        ]
    );
    app.select_path(&PathBuf::from("/r/README.md"));
    assert_eq!(app.selected, Some(3));
    app.take_effects();
    app.on_key(press(KeyCode::Char('c')));
    app.on_key(press(KeyCode::Char('x')));
    app.on_key(press(KeyCode::Enter));
    assert_eq!(names(&app.take_effects()), vec!["ChangeFolder(\"/rx\")"]);
    app.on_key(press(KeyCode::Char('c')));
    app.on_key(press(KeyCode::Esc));
    assert!(app.overlay.is_none());
    let line = prompt_line("Rename", "x.rs", 60);
    let text: String = line.iter().map(|s| s.text.as_str()).collect();
    assert_eq!(text, " Rename: x.rs█  (⏎ ok · esc cancel)");
    let narrow = prompt_line("Rename", "a-long-name.rs", 22);
    let text: String = narrow.iter().map(|s| s.text.as_str()).collect();
    assert_eq!(text, " Rename: -name.rs█");
}

#[test]
fn folders_are_chosen_from_the_root_or_from_home() {
    let mut app = app();
    match app.folder_request("  ~/code ", "/home/u") {
        FolderRequest::Go { raw, target } => {
            assert_eq!(raw, "~/code");
            assert_eq!(target, PathBuf::from("/home/u/code"));
        }
        FolderRequest::Empty => panic!("a folder was typed"),
    }
    assert_eq!(typed_folder("sub", "/h", &PathBuf::from("/r")), PathBuf::from("/r/sub"));
    assert_eq!(typed_folder("/abs", "/h", &PathBuf::from("/r")), PathBuf::from("/abs"));
    assert!(matches!(app.folder_request("   ", "/h"), FolderRequest::Empty));
    assert!(matches!(app.folder_request("", "/h"), FolderRequest::Empty));
    assert!(matches!(app.folder_request("\t\u{3000}\n", "/h"), FolderRequest::Empty));
    match app.folder_request("\u{a0}\t a b\u{2003}c \r\n", "/h") {
        FolderRequest::Go { raw, .. } => assert_eq!(raw, "a b\u{2003}c"),
        FolderRequest::Empty => panic!("a folder was typed"),
    }
    assert_eq!(app.notice.as_deref(), Some("empty path"));
    app.folder_missing("nope");
    assert_eq!(app.notice.as_deref(), Some("not a folder: nope"));
    app.folder_changed();
    assert_eq!(app.notice.as_deref(), Some("folder: r"));
    assert!(app.marks_manual_folder(true) && !app.marks_manual_folder(false));
    assert!(app.follows("/other") && !app.follows("/r/"));
}

#[test]
fn the_platforms_picker_opens_once() {
    let mut start = start(tree(), None);
    start.native_picker = true;
    let mut app = App::new(start, 0);
    app.take_effects();
    app.change_folder_dialog();
    app.change_folder_dialog();
    assert_eq!(names(&app.take_effects()), vec!["PickFolder"]);
    assert!(app.notice.is_some());
    app.poll_picker(PickPoll::Empty);
    assert!(app.picking);
    app.poll_picker(PickPoll::Picked(PathBuf::from("/n")));
    assert_eq!(names(&app.take_effects()), vec!["ChangeFolder(\"/n\")"]);
    app.change_folder_dialog();
    app.poll_picker(PickPoll::Cancelled);
    assert!(!app.picking && app.notice.is_none());
    app.change_folder_dialog();
    app.poll_picker(PickPoll::Gone);
    assert!(!app.picking && app.notice.is_some());
}

fn index(root: &str, labels: &[&str]) -> QuickIndex {
    QuickIndex {
        root: PathBuf::from(root),
        show_hidden: false,
        files: Arc::new(labels.iter().map(|l| file(l)).collect()),
        truncated: false,
    }
}

#[test]
fn quick_open_waits_for_its_index_and_opens_files() {
    let mut app = app();
    assert_eq!(app.on_key(control('p')), None);
    assert_eq!(names(&app.take_effects()), vec!["StartQuickIndex"]);
    let area = Rect { x: 0, y: 0, width: 100, height: 30 };
    assert_eq!(app.draw_quick_open(area).unwrap().status, "indexing files…");
    app.collect_quick_index(IndexPoll::Ready(index("/elsewhere", &["x"])));
    assert_eq!(app.draw_quick_open(area).unwrap().status, "no matching files");
    app.overlay = None;
    app.on_key(control('p'));
    app.collect_quick_index(IndexPoll::Ready(index("/r", &["src/main.rs", "README.md"])));
    let frame = app.draw_quick_open(area).unwrap();
    assert_eq!(frame.status, "2 matches");
    assert_eq!(frame.plan.popup, Rect { x: 9, y: 5, width: 82, height: 7 });
    assert_eq!(frame.plan.list, Rect { x: 10, y: 8, width: 80, height: 2 });
    app.on_key(press(KeyCode::Char('R')));
    app.on_key(press(KeyCode::Char('e')));
    let frame = app.draw_quick_open(area).unwrap();
    assert_eq!(frame.query, "Re");
    assert_eq!(frame.lines.len(), 1);
    assert_eq!(frame.lines[0].text, " README.md");
    assert_eq!(frame.lines[0].style.bg, Some(Ground::Selection));
    app.on_key(press(KeyCode::Backspace));
    app.on_key(press(KeyCode::Down));
    app.on_key(press(KeyCode::Up));
    app.on_key(control('x'));
    app.take_effects();
    app.on_key(press(KeyCode::Enter));
    assert!(app.overlay.is_none());
    assert_eq!(names(&app.take_effects()), vec!["OpenViewer(\"/r/README.md\")"]);
    app.on_key(control('p'));
    assert!(app.take_effects().is_empty());
    app.on_key(press(KeyCode::Esc));
    app.on_key(press(KeyCode::Char('.')));
    app.take_effects();
    app.on_key(control('p'));
    assert_eq!(names(&app.take_effects()), vec!["StartQuickIndex"]);
    app.collect_quick_index(IndexPoll::Gone);
    assert!(!app.quick_pending);
    let small = plan_finder(3, 2, Rect { x: 0, y: 0, width: 20, height: 6 });
    assert_eq!(small.list.height, 1);
    assert_eq!(small.start, 2);
}

#[test]
fn the_view_keeps_up_with_shared_settings() {
    let mut app = app();
    let mut shared = State::default();
    shared.dock_right = true;
    shared.sidebar_width = 40;
    shared.color_theme = herdr_sidebar::state::ColorTheme::Light;
    shared.git_deco = false;
    shared.merged = false;
    let before = app.settings();
    app.sync_shared_settings(shared);
    assert_eq!(app.settings(), State { git_deco: false, ..before });
    assert_eq!(names(&app.take_effects()), vec!["RediscoverRepos", "ClearDecorations"]);
    shared.git_deco = true;
    app.sync_shared_settings(shared);
    assert_eq!(app.settings(), before);
    assert_eq!(names(&app.take_effects()), vec!["RediscoverRepos"]);
    app.sync_shared_settings(app.settings());
    assert!(app.take_effects().is_empty());
    app.set_state(State::default());
    assert!(app.settings().git_deco);
}

#[test]
fn the_git_status_is_read_in_the_background() {
    let mut app = app();
    assert_eq!(app.request_decorations(5, false, false), DecoStep::Wait);
    assert_eq!(app.request_decorations(6, true, false), DecoStep::Start);
    assert_eq!(app.last_deco, 6);
    assert_eq!(app.request_decorations(7, true, true), DecoStep::Wait);
    app.collect_decorations(Poll::Empty);
    assert!(app.deco_pending);
    app.collect_decorations(Poll::Ready);
    assert!(!app.deco_pending);
    assert!(app.decorations_are_due(2007) && !app.decorations_are_due(2006));
    app.tick(2008, State::default(), IndexPoll::Empty, Poll::Empty);
    assert_eq!(names(&app.take_effects()), vec!["RequestDecorations { force: false }"]);
    app.deco_pending = true;
    assert!(app.rediscover_repos());
    assert!(!app.deco_pending);
    app.sidebar_state.git_deco = false;
    assert_eq!(app.request_decorations(8, true, true), DecoStep::Clear);
    assert!(!app.rediscover_repos());
}

#[test]
fn the_pane_stays_alive_and_sized() {
    let mut app = app();
    app.heartbeat(5999);
    assert!(app.take_effects().is_empty());
    app.heartbeat(6000);
    assert_eq!(names(&app.take_effects()), vec!["ReportTokens", "FollowSibling"]);
    app.open_settings();
    app.heartbeat(11000);
    assert_eq!(names(&app.take_effects()), vec!["ReportTokens"]);
    app.on_resize(40, Some(120));
    assert!(app.take_effects().is_empty());
    app.on_resize(44, Some(140));
    assert_eq!(names(&app.take_effects()), vec!["ResizePreferred { current: 44 }"]);
    app.on_resize(45, None);
    assert_eq!(app.last_layout_width, Some(140));
    app.clear_identity();
    app.close_own_pane();
    assert_eq!(names(&app.take_effects()), vec!["ClearIdentity", "CloseOwnPane"]);
}

#[test]
fn outcomes_are_reported_in_the_footer() {
    let mut app = app();
    app.copied("/r/x", Ok(()));
    assert_eq!(app.notice.as_deref(), Some("copied: /r/x"));
    app.copied("/r/x", Err("no tool".to_string()));
    assert_eq!(app.notice.as_deref(), Some("copy failed: no tool"));
    app.opened("x", Ok(()));
    assert_eq!(app.notice.as_deref(), Some("opened: x"));
    app.opened("x", Err("e".to_string()));
    assert_eq!(app.notice.as_deref(), Some("open failed: e"));
    app.deleted(Err("busy".to_string()));
    assert_eq!(app.notice.as_deref(), Some("delete failed: busy"));
    app.report(Err("why".to_string()));
    assert_eq!(app.notice.as_deref(), Some("why"));
    app.viewed(Err("no viewer".to_string()));
    assert_eq!(app.notice.as_deref(), Some("no viewer"));
    app.viewed(Ok("doc".to_string()));
    assert!(app.pin_or_open(PathBuf::from("/r/x"), "doc"));
    app.take_effects();
    assert!(!app.pin_or_open(PathBuf::from("/r/x"), "other"));
    assert_eq!(names(&app.take_effects()), vec!["OpenViewer(\"/r/x\")"]);
    app.pin_blocked();
    assert_eq!(
        app.notice.as_deref(),
        Some("preview switch blocked; resolve unsaved changes in its tab")
    );
    let staged = |count, skipped_nested| Staged { count, skipped_nested, repo: "repo".to_string() };
    assert_eq!(
        stage_notice("src", &staged(0, 2)),
        "src: nothing staged — 2 path(s) belong to a nested repo"
    );
    assert_eq!(stage_notice("src", &staged(0, 0)), "nothing to stage in src");
    assert_eq!(stage_notice("src", &staged(1, 0)), "staged src in repo");
    assert_eq!(stage_notice("src", &staged(12, 3)), "staged 12 paths under src in repo");
    app.staged(&PathBuf::from("/r/src"), Err("locked".to_string()));
    assert_eq!(app.notice.as_deref(), Some("stage failed: locked"));
    assert_eq!(names(&app.take_effects()), vec!["RequestDecorations { force: true }"]);
    app.deleted(Ok(()));
    assert_eq!(app.take_effects().len(), 4);
}

#[test]
fn the_footer_says_what_it_is_for() {
    let mut app = app();
    assert!(matches!(app.footer_need(), FooterNeed::Line));
    match app.footer_content(30) {
        FooterContent::Hint(span) => assert_eq!(span.text, " m / ctrl+rclick: menu"),
        _ => panic!("nothing else is to be said"),
    }
    app.change_folder_prompt();
    assert!(matches!(app.footer_content(30), FooterContent::Prompt(_)));
    assert!(matches!(app.footer_need(), FooterNeed::Line));
    app.overlay = None;
    app.sidebar_state.show_hotkeys = true;
    assert!(matches!(app.footer_content(30), FooterContent::Hotkeys));
    assert!(matches!(app.footer_need(), FooterNeed::Hotkeys));
    app.open_settings();
    assert!(matches!(app.footer_need(), FooterNeed::Line));
    app.folder_missing("x");
    assert!(matches!(app.footer_need(), FooterNeed::Message { .. }));
    assert_eq!(hints(false).len(), 11);
    assert_eq!(hints(true)[12], ("2", "git"));
    assert_eq!(hints(false)[6], ("ctrl+p", "find"));
}

#[test]
fn icons_change_and_the_sidebar_hides_by_key() {
    let mut app = app();
    app.on_key(press(KeyCode::Char('i')));
    assert_eq!(app.theme, IconTheme::Material);
    assert_eq!(names(&app.take_effects()), vec!["UpdateState(SetIcons(Material))"]);
    app.on_key(press(KeyCode::Char('b')));
    assert_eq!(names(&app.take_effects()), vec!["Hide"]);
    app.on_key(press(KeyCode::Char('r')));
    assert_eq!(
        names(&app.take_effects()),
        vec!["RefreshTree", "RediscoverRepos", "RequestDecorations { force: true }", "Rebuild"]
    );
}
