//! The files of tree states, source-control states and remembered roots, and the host's answers.

use herdr_sidebar::drafts::{Drafts, Names};
use herdr_sidebar::neovim::{
    binary_path, exit_error, plugin_root, run_error, unreachable_error,
};
use herdr_sidebar::lock::{
    lock_start, lock_step, lock_turn, LockState, LockStep, LockTry, LOCK_TRIES,
};
use herdr_sidebar::paths::is_windows_separator;
use herdr_sidebar::pane::{pane_focused_in, send_command, split_params, view_command, PaneCtl};
use herdr_sidebar::roots::{
    decode_roots_file, load_root, remembered_root_key, remembered_root_key_on, resolve_root,
    root_for_key, save_root,
};
use herdr_sidebar::scm_state::{
    decode_scm_file, load_scm_state, merge_scm_drafts, save_scm_state, scm_path_key, scm_state_for,
    ScmState,
};
use herdr_sidebar::state::View;
use herdr_sidebar::tree_state::{
    decode_tree_file, load_tree_state, save_tree_state, tree_state_for, TreeState,
};
use std::path::{Path, PathBuf};

#[test]
fn remembered_roots_are_keyed_by_workspace_and_project() {
    let file = decode_roots_file(
        r#"{"acme::/repo/web":"/repo/web","acme::/repo/admin":"/repo/admin"}"#,
    );
    assert_eq!(root_for_key(&file, "acme::/repo/web"), Some(PathBuf::from("/repo/web")));
    assert_eq!(root_for_key(&file, "acme::/repo/admin"), Some(PathBuf::from("/repo/admin")));
    assert_eq!(root_for_key(&file, "acme::/repo/jobs"), None);
    assert_eq!(root_for_key(&file, ""), None);
}

#[test]
fn a_garbled_roots_file_forgets_rather_than_wedges() {
    for junk in ["garbage", "[]", r#"{"tremor":42}"#, ""] {
        assert_eq!(root_for_key(&decode_roots_file(junk), "acme::/repo/web"), None, "{junk}");
    }
}

#[test]
fn tree_state_is_per_root_so_agents_do_not_bleed_into_each_other() {
    let a = PathBuf::from("/repo/faultline");
    let b = PathBuf::from("/repo/tremor");
    let file = decode_tree_file(
        r#"{"/repo/faultline":{"expanded":["/repo/faultline/src"],
                               "selected":"/repo/faultline/src/main.rs"},
            "/repo/tremor":{"expanded":["/repo/tremor/lib"],"selected":null}}"#,
    );
    assert_eq!(tree_state_for(&file, &a).expanded, vec![a.join("src")]);
    assert_eq!(tree_state_for(&file, &a).selected, Some(a.join("src/main.rs")));
    assert_eq!(tree_state_for(&file, &b).expanded, vec![b.join("lib")]);
    assert_eq!(tree_state_for(&file, &b).selected, None, "tremor has no selection");
    assert_eq!(tree_state_for(&file, Path::new("/repo/other")), TreeState::default());
}

#[test]
fn scm_keys_ignore_windows_separator_spelling() {
    let file = decode_scm_file(
        r#"{"C:/repo":{"drawers":["CHANGES"],"active_root":"C:/repo","scroll":4,"drafts":{"C:/repo":"keep me"}}}"#,
    );
    let state = scm_state_for(&file, Path::new(r"C:\repo"));
    assert_eq!(state.drawers, vec!["CHANGES"]);
    assert_eq!(state.active_root.as_deref(), Some("C:/repo"));
    assert_eq!(state.scroll, 4);
    assert_eq!(state.drafts.get("C:/repo").map(String::as_str), Some("keep me"));
    assert_eq!(scm_path_key(Path::new(r"C:\repo\src")), "C:/repo/src");
}

#[test]
fn scm_draft_merge_preserves_unobserved_sibling_writes() {
    let mut stored = Drafts::new();
    stored.insert("/repo/a".to_string(), "newer sibling draft".to_string());
    stored.insert("/repo/b".to_string(), "draft to clear".to_string());
    let mut state = ScmState::default();
    state.cleared_drafts.insert("/repo/b".to_string());

    merge_scm_drafts(&mut stored, &state);

    assert_eq!(stored.get("/repo/a").map(String::as_str), Some("newer sibling draft"));
    assert!(!stored.contains_key("/repo/b"));
}

#[test]
fn pre_root_keyed_tree_files_are_discarded_not_misapplied() {
    for legacy in [
        r#"["/r/src"]"#,
        r#"{"expanded":["/r/src"],"selected":"/r/src/main.rs"}"#,
        "garbage",
    ] {
        let file = decode_tree_file(legacy);
        assert_eq!(tree_state_for(&file, Path::new("/r")), TreeState::default(), "{legacy}");
    }
}

#[test]
fn focused_pane_detection_is_scoped_to_our_pane_id() {
    let panes = r#"{"result":{"panes":[
        {"pane_id":"w1:p1","focused":false},
        {"pane_id":"w1:p2","focused":true}
    ]}}"#;
    assert!(!pane_focused_in(panes, "w1:p1"));
    assert!(pane_focused_in(panes, "w1:p2"));
    assert!(!pane_focused_in("garbage", "w1:p2"));
}

#[test]
fn remembered_root_keys_are_project_stable_not_tab_scoped() {
    let key = remembered_root_key("acme", Path::new(r"C:\Repo\Web"));
    assert!(key.starts_with("acme::"));
    assert!(!key.contains('\\'));
    assert!(!key.contains("w1:t"));
    if std::path::MAIN_SEPARATOR == '\\' {
        assert_eq!(key, "acme::c:/repo/web");
    }
}

#[test]
fn keys_follow_the_platforms_case() {
    let cwd = Path::new(r"C:\Repo\Web");
    assert_eq!(remembered_root_key_on("acme", cwd, true), "acme::c:/repo/web");
    assert_eq!(remembered_root_key_on("acme", cwd, false), "acme::C:/Repo/Web");
}

#[test]
fn saved_trees_are_read_back_and_others_stay() {
    let root = Path::new("/r");
    let state = TreeState {
        expanded: vec![PathBuf::from("/r/src"), PathBuf::from("/r/\"odd\"")],
        selected: Some(PathBuf::from("/r/src/main.rs")),
    };
    let before = r#"{"/other":{"expanded":["/other/x"],"selected":null},"extra":7}"#;
    let text = save_tree_state(Some(before), root, &state).unwrap();
    assert_eq!(load_tree_state(Some(&text), root), state);
    assert_eq!(
        load_tree_state(Some(&text), Path::new("/other")).expanded,
        vec![PathBuf::from("/other/x")]
    );
    assert!(text.contains("\"extra\":7"));
    let again = save_tree_state(None, root, &TreeState::default()).unwrap();
    assert_eq!(load_tree_state(Some(&again), root), TreeState::default());
    assert_eq!(load_tree_state(None, root), TreeState::default());
}

#[test]
fn saved_roots_are_read_back_and_others_stay() {
    let text = save_root(Some(r#"{"a::/x":"/x"}"#), "b::/y", Path::new("/y/z")).unwrap();
    assert_eq!(load_root(Some(&text), "b::/y"), Some(PathBuf::from("/y/z")));
    assert_eq!(load_root(Some(&text), "a::/x"), Some(PathBuf::from("/x")));
    assert_eq!(load_root(Some(&text), "c"), None);
    assert_eq!(load_root(None, "a::/x"), None);
    assert_eq!(save_root(None, "", Path::new("/y")), None);
}

#[test]
fn saved_scm_states_are_read_back_and_merge_their_drafts() {
    let before = r#"{"C:\\repo":{"drafts":{"C:\\repo":"mine","C:/other":"sibling","C:/gone":"x"}},
                     "/elsewhere":{"scroll":9}}"#;
    let mut state = ScmState::default();
    state.drawers = vec!["CHANGES".to_string(), "GRAPH".to_string()];
    state.selected = Some("row:1".to_string());
    state.scroll = 3;
    state.drafts.insert("C:/repo".to_string(), "newer".to_string());
    state.cleared_drafts.insert("C:/gone".to_string());
    let text = save_scm_state(Some(before), Path::new("C:/repo"), &state).unwrap();
    let read = load_scm_state(Some(&text), Path::new(r"C:\repo"));
    assert_eq!(read.drawers, vec!["CHANGES", "GRAPH"]);
    assert_eq!(read.selected.as_deref(), Some("row:1"));
    assert_eq!(read.active_root, None);
    assert_eq!(read.history_target, None);
    assert_eq!(read.scroll, 3);
    assert_eq!(read.drafts.get("C:/repo").map(String::as_str), Some("newer"));
    assert_eq!(read.drafts.get("C:/other").map(String::as_str), Some("sibling"));
    assert!(!read.drafts.contains_key("C:/gone"));
    assert_eq!(read.drafts.len(), 2);
    assert_eq!(load_scm_state(Some(&text), Path::new("/elsewhere")).scroll, 9);
    assert!(!text.contains(r"C:\\repo"));
    assert_eq!(load_scm_state(None, Path::new("/elsewhere")).scroll, 0);
}

#[test]
fn the_exact_spelling_of_a_key_wins() {
    let file = decode_scm_file(r#"{"a\\b":{"scroll":1},"a/b":{"scroll":2}}"#);
    assert_eq!(scm_state_for(&file, Path::new("a/b")).scroll, 2);
    let other = decode_scm_file(r#"{"a\\b/c":{"scroll":1},"a/b\\c":{"scroll":2}}"#);
    assert_eq!(scm_state_for(&other, Path::new("a/b/c")).scroll, 2);
    assert_eq!(scm_state_for(&other, Path::new("none")).scroll, 0);
}

#[test]
fn the_last_spelling_of_a_draft_wins() {
    let file = decode_scm_file(r#"{"r":{"drafts":{"a/b":"first","a\\b":"last","n":1}}}"#);
    let drafts = scm_state_for(&file, Path::new("r")).drafts;
    assert_eq!(drafts.get("a/b").map(String::as_str), Some("last"));
    assert_eq!(drafts.len(), 1);
}

#[test]
fn drafts_and_names_hold_each_key_once() {
    let mut drafts = Drafts::new();
    drafts.insert("a".to_string(), "1".to_string());
    drafts.insert("b".to_string(), "2".to_string());
    drafts.insert("a".to_string(), "3".to_string());
    assert_eq!(drafts.len(), 2);
    assert_eq!(drafts.get("a").map(String::as_str), Some("3"));
    drafts.remove("a");
    assert_eq!(drafts.get("a"), None);
    assert_eq!(drafts.entry(0).map(|(k, v)| (k.as_str(), v.as_str())), Some(("b", "2")));
    assert_eq!(drafts.entry(1), None);
    let mut names = Names::new();
    names.insert("x".to_string());
    names.insert("x".to_string());
    assert!(names.contains("x") && !names.contains("y"));
}

#[test]
fn roots_resolve_to_what_is_there() {
    let cwd = PathBuf::from("/ws/app/src");
    let kept = Some(PathBuf::from("/ws/app"));
    let legacy = Some(PathBuf::from("/ws"));
    let foreign = Some(PathBuf::from("/else"));
    assert_eq!(resolve_root(kept.clone(), true, legacy.clone(), true, &cwd), PathBuf::from("/ws/app"));
    assert_eq!(resolve_root(kept.clone(), false, legacy.clone(), true, &cwd), PathBuf::from("/ws"));
    assert_eq!(resolve_root(kept, false, legacy, false, &cwd), cwd);
    assert_eq!(resolve_root(None, false, foreign, true, &cwd), cwd);
    assert_eq!(resolve_root(None, false, None, false, &cwd), cwd);
}

#[test]
fn the_plugin_is_found_in_the_hosts_answer() {
    let answer = r#"{"result":{"plugins":[
        {"plugin_id":"other","plugin_root":"/o"},
        {"plugin_id":"chmarax.herdr-nvim","plugin_root":"/p/nvim"}]}}"#;
    let root = plugin_root(answer).unwrap();
    assert_eq!(root, PathBuf::from("/p/nvim"));
    assert_eq!(binary_path(&root), PathBuf::from("/p/nvim/bin/herdr-nvim"));
    assert!(plugin_root("nonsense").unwrap_err().starts_with("bad plugin.list response: "));
    assert_eq!(
        plugin_root(r#"{"result":{}}"#).unwrap_err(),
        "plugin.list response missing plugins array"
    );
    assert_eq!(
        plugin_root(r#"{"result":{"plugins":[]}}"#).unwrap_err(),
        "chmarax.herdr-nvim is not installed"
    );
    assert_eq!(
        plugin_root(r#"{"result":{"plugins":[{"plugin_id":"chmarax.herdr-nvim"}]}}"#).unwrap_err(),
        "chmarax.herdr-nvim is not installed"
    );
    assert_eq!(unreachable_error("gone"), "cannot reach herdr: gone");
    assert_eq!(run_error(&PathBuf::from("/b"), "denied"), "cannot run /b: denied");
    assert_eq!(exit_error("exit status: 2"), "herdr-nvim open-file exited with exit status: 2");
}

#[test]
fn panes_are_named_by_the_environment() {
    assert!(PaneCtl::from_env(None).is_none());
    assert!(PaneCtl::from_env(Some(String::new())).is_none());
    let ctl = PaneCtl::from_env(Some("w1:p1".to_string())).unwrap();
    assert_eq!(ctl.params().get("pane_id").and_then(|v| v.as_str()), Some("w1:p1"));
    let named = ctl.set_label(Some("Sidebar"));
    assert_eq!(named.get("label").and_then(|v| v.as_str()), Some("Sidebar"));
    assert!(ctl.set_label(None).get("label").is_none());
    let (own, other) = ctl.report_tokens(View::Explorer, true);
    assert!(own.stamped && own.view == View::Explorer);
    assert!(other.stamped && other.view == View::SourceControl);
    assert!(!ctl.report_tokens(View::Explorer, false).1.stamped);
}

#[test]
fn the_other_view_is_started_by_a_typed_command() {
    assert_eq!(view_command(View::SourceControl), "herdr-sidebar --view git");
    let params = send_command("p9", "herdr-sidebar --view git");
    assert_eq!(params.get("pane_id").and_then(|v| v.as_str()), Some("p9"));
    assert_eq!(params.get("text").and_then(|v| v.as_str()), Some("herdr-sidebar --view git"));
    let keys = params.get("keys").and_then(|v| v.as_array()).unwrap();
    assert_eq!(keys.len(), 1);
    assert_eq!(keys[0].as_str(), Some("Enter"));
}

#[test]
fn the_other_view_splits_the_pane() {
    let params = split_params("p1", Path::new("/r"), serde_json::Value::Null);
    assert_eq!(params.get("target_pane_id").and_then(|v| v.as_str()), Some("p1"));
    assert_eq!(params.get("direction").and_then(|v| v.as_str()), Some("right"));
    assert_eq!(params.get("focus").and_then(|v| v.as_bool()), Some(false));
    assert_eq!(params.get("cwd").and_then(|v| v.as_str()), Some("/r"));
    assert_eq!(params.get("env"), Some(&serde_json::Value::Null));
    assert_eq!(params.len(), 5);
}

#[test]
fn locks_are_held_waited_for_and_cleared() {
    assert_eq!(lock_step(LockTry::Created), LockStep::Write);
    assert_eq!(lock_step(LockTry::Held(Some(5000))), LockStep::Wait);
    assert_eq!(lock_step(LockTry::Held(Some(5001))), LockStep::Clear);
    assert_eq!(lock_step(LockTry::Held(None)), LockStep::Wait);
    assert_eq!(lock_step(LockTry::Failed), LockStep::GiveUp);
}

#[test]
fn the_lock_is_tried_for_fifty_times() {
    assert_eq!(LOCK_TRIES, 50);
    assert_eq!(lock_turn(50, LockTry::Created), (LockStep::Write, LockState::Held));
    assert_eq!(lock_turn(50, LockTry::Failed), (LockStep::GiveUp, LockState::GivenUp));
    let stale = LockTry::Held(Some(6000));
    assert_eq!(lock_turn(2, stale), (LockStep::Clear, LockState::Trying(1)));
    assert_eq!(lock_turn(1, stale), (LockStep::Clear, LockState::GivenUp));
    assert_eq!(lock_turn(1, LockTry::Created), (LockStep::Write, LockState::Held));
    assert_eq!(lock_turn(0, LockTry::Created), (LockStep::GiveUp, LockState::GivenUp));
    let mut state = lock_start();
    let mut tries = 0;
    while let LockState::Trying(left) = state {
        let (step, next) = lock_turn(left, LockTry::Held(None));
        assert_eq!(step, LockStep::Wait);
        state = next;
        tries += 1;
    }
    assert_eq!((tries, state), (50, LockState::GivenUp));
}

#[test]
fn files_with_fractions_are_read_back() {
    let before = r#"{"/a":{"n":[0.5,-1.25e-300,1e20,-0.0,1.7976931348623157e308]},"/b":"/kept"}"#;
    let state = TreeState {
        expanded: vec![PathBuf::from("/r/x")],
        selected: Some(PathBuf::from("/r/y")),
    };
    let text = save_tree_state(Some(before), Path::new("/r"), &state).unwrap();
    assert_eq!(load_tree_state(Some(&text), Path::new("/r")), state);
    let text = save_root(Some(before), "k", Path::new("/root")).unwrap();
    assert_eq!(load_root(Some(&text), "k"), Some(PathBuf::from("/root")));
    assert_eq!(load_root(Some(&text), "/b"), Some(PathBuf::from("/kept")));
    let mut scm = ScmState::default();
    scm.scroll = 7;
    let text = save_scm_state(Some(before), Path::new("/r"), &scm).unwrap();
    assert_eq!(load_scm_state(Some(&text), Path::new("/r")).scroll, 7);
}

#[test]
fn every_number_that_is_written_is_read() {
    let mut numbers = vec![f64::MIN_POSITIVE, f64::from_bits(1), 1e15, 1e16, 1e17, 1e22, 1e300];
    for below in 0..500 {
        numbers.push(f64::from_bits(f64::MAX.to_bits() - below));
        numbers.push(f64::from_bits(below * 7 + 1));
        numbers.push(f64::from_bits((below + 1) * 36_839_475_983_457_921));
    }
    for number in numbers {
        for signed in [number, -number] {
            if !signed.is_finite() {
                continue;
            }
            let before = format!("{{\"n\":{},\"b\":\"/kept\"}}", serde_json::Value::from(signed));
            let text = save_root(Some(&before), "k", Path::new("/root")).unwrap();
            assert_eq!(load_root(Some(&text), "k"), Some(PathBuf::from("/root")));
            assert_eq!(load_root(Some(&text), "b"), Some(PathBuf::from("/kept")));
        }
    }
    assert!(serde_json::Value::from(f64::MAX).to_string().starts_with("1.7976931348623157e"));
}

#[test]
fn scm_files_from_before_they_were_keyed_are_dropped() {
    let flat = r#"{"drawers":["CHANGES"],"scroll":4,"drafts":{"drawers":"text"}}"#;
    assert!(decode_scm_file(flat).is_empty());
    assert_eq!(load_scm_state(Some(flat), Path::new("drafts")).scroll, 0);
    let mut state = ScmState::default();
    state.scroll = 2;
    let text = save_scm_state(Some(flat), Path::new("/r"), &state).unwrap();
    assert!(!text.contains("CHANGES"));
    // A folder may bear the name all the same.
    let text = save_scm_state(Some(&text), Path::new("drawers"), &state).unwrap();
    assert_eq!(load_scm_state(Some(&text), Path::new("drawers")).scroll, 2);
    assert_eq!(load_scm_state(Some(&text), Path::new("/r")).scroll, 2);
}

#[test]
fn windows_separates_by_backslashes() {
    assert!(is_windows_separator('\\'));
    assert!(!is_windows_separator('/'));
    // This platform is told by its separator.
    let here = is_windows_separator(std::path::MAIN_SEPARATOR);
    let cwd = Path::new("Repo");
    assert_eq!(remembered_root_key("w", cwd), remembered_root_key_on("w", cwd, here));
}
