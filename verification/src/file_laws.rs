//! The files that the sidebar keeps, where they lie, and what arguments and answers of the host
//! say; and the texts that all of it is made of.

use crate::explorer::{DECO_REFRESH, DOUBLE_CLICK, HEARTBEAT, MY_VIEW};
use crate::json::{parsed_json, read_as, texts_among, Json};
use crate::launcher::{task_of, Task, REFRESH_EVERY};
use crate::lock::{after_try, turn, LockState, LockStep, LockTry, LOCK_PAUSE, LOCK_TRIES};
use crate::neovim::{binary_below, named_root, PLUGIN_ID};
use crate::pane::{first_with, pane_fields, result_list, says_focused, split_fields};
use crate::paths::{
    begins_with, empty_path, joined, path_from, path_of, path_text, same_components,
};
use crate::places::{launch_dirs, spawn_members, StateEnv};
use crate::roots::{object_entries, remembered_root, resolved_root, root_key};
use crate::scm_state::{
    drafts_in, entry_for, last_draft, path_key, saved_entries, scm_entries, scm_for,
    scm_in, ScmShape,
};
use crate::state::{View, EXECUTABLE_NAME, PREVIEW_CONTROL_ENV, PREVIEW_INLINE_ENV, SIDEBAR_LABEL};
use crate::text::{
    ascii_lower_text, decimal_text, replaced, text_less, without_bom,
};
use crate::tree_state::{shape_for, shape_in, tree_entries, TreeShape};
use std::path::PathBuf;
use vstd::prelude::*;
use vstd::string::*;
use vstd::view::View as _;

verus! {

/// The number that digits spell.
pub open spec fn number_said(text: Seq<char>) -> int
    decreases text.len(),
{
    if text.len() == 0 {
        0
    } else {
        10 * number_said(text.drop_last()) + (text.last() as int - '0' as int)
    }
}

/// A number is spelled by its decimal digits, without leading zeros.
pub proof fn law_numbers_are_spelled_in_decimals(value: nat)
    ensures
        number_said(decimal_text(value)) == value,
        decimal_text(value).len() > 0,
        forall|i: int|
            0 <= i < decimal_text(value).len() ==> '0' <= (#[trigger] decimal_text(value)[i])
                <= '9',
        decimal_text(value).len() > 1 ==> decimal_text(value)[0] != '0',
    decreases value,
{
    let text = decimal_text(value);
    if value < 10 {
        assert(text.drop_last() =~= Seq::<char>::empty());
        assert(number_said(text.drop_last()) == 0);
    } else {
        let rest = decimal_text(value / 10);
        law_numbers_are_spelled_in_decimals(value / 10);
        assert(text.drop_last() =~= rest);
        assert(text[0] == rest[0]);
        if rest.len() == 1 {
            assert(rest.drop_last() =~= Seq::<char>::empty());
            assert(number_said(rest.drop_last()) == 0);
        }
    }
}

/// Replacing a character puts another in its place wherever it stands, and leaves the rest.
pub proof fn law_replacing_touches_one_character(text: Seq<char>, from: char, to: char, i: int)
    requires
        0 <= i < text.len(),
    ensures
        replaced(text, from, to).len() == text.len(),
        text[i] == from ==> replaced(text, from, to)[i] == to,
        text[i] != from ==> replaced(text, from, to)[i] == text[i],
{
}

/// Small letters: an ASCII capital becomes the small letter 32 places on, anything else stays.
pub proof fn law_capitals_become_small(text: Seq<char>, i: int)
    requires
        0 <= i < text.len(),
    ensures
        ascii_lower_text(text).len() == text.len(),
        'A' <= text[i] <= 'Z' ==> ascii_lower_text(text)[i] as int == text[i] as int + 32,
        !('A' <= text[i] <= 'Z') ==> ascii_lower_text(text)[i] == text[i],
{
}

/// Byte-order marks at the front of a text are dropped, all of them, and nothing else.
pub proof fn law_byte_order_marks_are_dropped(text: Seq<char>)
    ensures
        text.len() > 0 && text[0] == '\u{feff}' ==> without_bom(text) == without_bom(
            text.drop_first(),
        ),
        text.len() == 0 || text[0] != '\u{feff}' ==> without_bom(text) == text,
{
}

/// The names and times that the sidebar and other programs agree on.
pub proof fn law_agreed_names_and_times()
    ensures
        SIDEBAR_LABEL@ == "Sidebar"@,
        EXECUTABLE_NAME@ == "herdr-sidebar"@,
        PREVIEW_CONTROL_ENV@ == "HERDR_SIDEBAR_PREVIEW_CONTROL"@,
        PREVIEW_INLINE_ENV@ == "HERDR_SIDEBAR_PREVIEW_INLINE"@,
        PLUGIN_ID@ == "chmarax.herdr-nvim"@,
        MY_VIEW == View::Explorer,
        DOUBLE_CLICK == 450,
        DECO_REFRESH == 2000,
        HEARTBEAT == 5000,
        REFRESH_EVERY == 1500,
        LOCK_TRIES == 50,
        LOCK_PAUSE == 10,
{
}

/// The views: each has the other, a name that is kept, and a value of `--view`.
pub proof fn law_views_have_their_names()
    ensures
        View::Explorer.other_view() == View::SourceControl,
        View::SourceControl.other_view() == View::Explorer,
        View::Explorer.name() == "explorer"@,
        View::SourceControl.name() == "source-control"@,
        View::Explorer.flag_text() == "explorer"@,
        View::SourceControl.flag_text() == "git"@,
{
}

/// The key of a project is the workspace's label, two colons and the folder, with slashes for
/// backslashes, and on Windows in small letters.
pub proof fn law_project_keys_spell_folders_one_way(label: Seq<char>, cwd: Seq<char>)
    ensures
        ({
            let key = root_key(label, cwd, false);
            &&& key.len() == label.len() + 2 + cwd.len()
            &&& key.take(label.len() as int) == label
            &&& key[label.len() as int] == ':' && key[label.len() + 1int] == ':'
            &&& forall|i: int|
                #![trigger cwd[i]]
                0 <= i < cwd.len() ==> key[label.len() + 2 + i] == if cwd[i] == '\\' {
                    '/'
                } else {
                    cwd[i]
                }
        }),
        root_key(label, cwd, true) == label + "::"@ + ascii_lower_text(replaced(cwd, '\\', '/')),
{
    reveal_strlit("::");
    let key = root_key(label, cwd, false);
    assert(key.take(label.len() as int) =~= label);
}

/// A root is remembered under its key as a text; nothing is under an empty key.
pub proof fn law_roots_are_remembered_by_key(
    entries: Map<Seq<char>, Json>,
    key: Seq<char>,
    text: Seq<char>,
)
    ensures
        key.len() == 0 ==> remembered_root(entries, key) is None,
        !entries.dom().contains(key) ==> remembered_root(entries, key) is None,
        key.len() > 0 && entries.dom().contains(key) && entries[key] == Json::Text(text)
            ==> remembered_root(entries, key) == Some(path_from(text)),
        entries.dom().contains(key) && !(entries[key] is Text) ==> remembered_root(
            entries,
            key,
        ) is None,
{
}

/// What a file that is kept as an object says: its members, and nothing where it is no JSON or no
/// object.
pub proof fn law_files_that_are_no_objects_say_nothing(
    text: Seq<char>,
    fields: Map<Seq<char>, Json>,
)
    ensures
        parsed_json(without_bom(text)) == read_as(Json::Object(fields)) ==> object_entries(text)
            == fields,
        parsed_json(without_bom(text)) is Err ==> object_entries(text) == Map::<
            Seq<char>,
            Json,
        >::empty(),
        parsed_json(without_bom(text)) matches Ok(json) ==> (!(json is Object) ==> object_entries(
            text,
        ) == Map::<Seq<char>, Json>::empty()),
{
}

/// The tree is built from the root that is remembered where it still is a directory; else from
/// that of an earlier release where it is one and contains the pane's folder; else from that
/// folder.
pub proof fn law_remembered_roots_come_first(remembered: PathBuf, legacy: PathBuf, cwd: PathBuf)
    ensures
        forall|old: Option<PathBuf>, is_dir: bool| #[trigger]
            resolved_root(Some(remembered), true, old, is_dir, cwd) == remembered,
        begins_with(path_of(cwd), path_of(legacy)) ==> resolved_root(
            None,
            false,
            Some(legacy),
            true,
            cwd,
        ) == legacy && resolved_root(Some(remembered), false, Some(legacy), true, cwd) == legacy,
        !begins_with(path_of(cwd), path_of(legacy)) ==> resolved_root(
            Some(remembered),
            false,
            Some(legacy),
            true,
            cwd,
        ) == cwd,
        resolved_root(Some(remembered), false, Some(legacy), false, cwd) == cwd,
        resolved_root(Some(remembered), false, None, true, cwd) == cwd,
        resolved_root(None, true, None, true, cwd) == cwd,
{
}

/// A file or folder of that name in another.
pub open spec fn within(base: PathBuf, name: Seq<char>) -> PathBuf {
    joined(path_of(base), path_of(path_from(name)))
}

/// The sidebar keeps its files in the directory that the host names; else in its own directory
/// below the user's state directory, which is `.local/state` in the home directory where nothing
/// else is said. Without any of them there is none.
pub proof fn law_files_lie_in_the_state_directory(env: StateEnv, name: Seq<char>)
    ensures
        ({
            let named = env.plugin_state_dir is Some && !empty_path(
                path_of(env.plugin_state_dir->0),
            );
            let own = |base: PathBuf|
                within(within(within(base, "herdr"@), "plugins"@), "herdr-sidebar"@);
            &&& named ==> env.dir() == env.plugin_state_dir
            &&& !named ==> (env.state_base matches Some(base) ==> env.dir() == Some(own(base)))
            &&& !named && env.state_base is None ==> (env.home matches Some(home) ==> env.dir()
                == Some(own(within(home, ".local/state"@))))
            &&& !named && env.state_base is None && env.home is None ==> env.dir() is None
            &&& env.dir() matches Some(dir) ==> env.file(name) == Some(within(dir, name))
            &&& env.dir() is None ==> env.file(name) is None
        }),
{
}

/// The settings of an earlier release lie in the user's configuration directory, which is
/// `.config` in the home directory where nothing else is said.
pub proof fn law_earlier_settings_lie_in_the_configuration(env: StateEnv)
    ensures
        env.config_base matches Some(base) ==> env.legacy_file() == Some(
            within(within(base, "herdr"@), "aa-sidebar.json"@),
        ),
        env.config_base is None ==> (env.home matches Some(home) ==> env.legacy_file() == Some(
            within(within(within(home, ".config"@), "herdr"@), "aa-sidebar.json"@),
        )),
        env.config_base is None && env.home is None ==> env.legacy_file() is None,
{
}

/// The environment of a pane names the state directory and the search path, where they are known,
/// and nothing else.
pub proof fn law_panes_learn_the_state_directory(
    dir: Option<PathBuf>,
    path: Option<Seq<char>>,
    name: Seq<char>,
)
    ensures
        ({
            let env = spawn_members(dir, path);
            &&& env.dom().contains("HERDR_PLUGIN_STATE_DIR"@) <==> dir is Some
            &&& dir matches Some(at) ==> env["HERDR_PLUGIN_STATE_DIR"@] == Json::Text(
                path_text(path_of(at)),
            )
            &&& env.dom().contains("PATH"@) <==> path is Some
            &&& path matches Some(text) ==> env["PATH"@] == Json::Text(text)
            &&& env.dom().contains(name) ==> name == "HERDR_PLUGIN_STATE_DIR"@ || name == "PATH"@
        }),
{
    reveal_strlit("HERDR_PLUGIN_STATE_DIR");
    reveal_strlit("PATH");
    assert("HERDR_PLUGIN_STATE_DIR"@.len() != "PATH"@.len());
}

/// The search path of a pane is the sidebar's own directory and then the others in their order,
/// without another mention of the first.
pub proof fn law_the_search_path_keeps_its_order(
    bin: PathBuf,
    inherited: Seq<PathBuf>,
    next: PathBuf,
)
    ensures
        launch_dirs(bin, Seq::empty()) == seq![bin],
        same_components(path_of(next), path_of(bin)) ==> launch_dirs(bin, inherited.push(next))
            == launch_dirs(bin, inherited),
        !same_components(path_of(next), path_of(bin)) ==> launch_dirs(bin, inherited.push(next))
            == launch_dirs(bin, inherited).push(next),
{
    let keep = |path: PathBuf| !same_components(path_of(path), path_of(bin));
    reveal(Seq::filter);
    assert(inherited.push(next).drop_last() =~= inherited);
    assert(launch_dirs(bin, Seq::empty()) =~= seq![bin]);
    if keep(next) {
        assert(launch_dirs(bin, inherited.push(next)) =~= launch_dirs(bin, inherited).push(next));
    }
}

/// What the host is asked about a pane names it; a new pane is split off to the right of it, in a
/// folder and an environment, without taking the focus.
pub proof fn law_requests_name_the_pane(pane: Seq<char>, cwd: Seq<char>, env: Json)
    ensures
        pane_fields(pane) == map!["pane_id"@ => Json::Text(pane)],
        split_fields(pane, cwd, env) == map![
            "target_pane_id"@ => Json::Text(pane),
            "direction"@ => Json::Text("right"@),
            "focus"@ => Json::Bool(false),
            "cwd"@ => Json::Text(cwd),
            "env"@ => env
        ],
{
}

/// An object has that text under a name.
pub open spec fn names_it(item: Json, name: Seq<char>, text: Seq<char>) -> bool {
    item matches Json::Object(fields) && fields.dom().contains(name) && fields[name] == Json::Text(
        text,
    )
}

/// The first item of a list that has a text under a name is found.
pub proof fn law_the_first_of_a_name_is_found(
    items: Seq<Json>,
    name: Seq<char>,
    sought: Seq<char>,
    from: int,
)
    requires
        0 <= from <= items.len(),
    ensures
        forall|i: int|
            from <= i < items.len() && names_it(#[trigger] items[i], name, sought) && (forall|k: int|
                from <= k < i ==> !names_it(#[trigger] items[k], name, sought)) ==> first_with(
                items,
                name,
                sought,
                from,
            ) == Some(items[i]),
        (forall|i: int|
            from <= i < items.len() ==> !names_it(#[trigger] items[i], name, sought))
            ==> first_with(items, name, sought, from) is None,
    decreases items.len() - from,
{
    if from < items.len() {
        law_the_first_of_a_name_is_found(items, name, sought, from + 1);
        assert(names_it(items[from], name, sought) || !names_it(items[from], name, sought));
    }
}

/// A pane is focused where the first pane of that name in the host's answer says so.
pub proof fn law_the_focused_pane_says_so(
    answer: Map<Seq<char>, Json>,
    result: Map<Seq<char>, Json>,
    panes: Seq<Json>,
    pane: Seq<char>,
    at: int,
)
    requires
        answer.dom().contains("result"@) && answer["result"@] == Json::Object(result),
        result.dom().contains("panes"@) && result["panes"@] == Json::Array(panes),
        0 <= at < panes.len(),
        names_it(panes[at], "pane_id"@, pane),
        forall|k: int| 0 <= k < at ==> !names_it(#[trigger] panes[k], "pane_id"@, pane),
    ensures
        says_focused(Json::Object(answer), pane) <==> (panes[at] matches Json::Object(fields)
            && fields.dom().contains("focused"@) && fields["focused"@] == Json::Bool(true)),
{
    law_the_first_of_a_name_is_found(panes, "pane_id"@, pane, 0);
    assert(result_list(Json::Object(answer), "panes"@) == Some(panes));
    assert(first_with(panes, "pane_id"@, pane, 0) == Some(panes[at]));
}

/// The editor's plugin is the first of its name in the host's answer, and its program lies in its
/// `bin` directory.
pub proof fn law_the_editor_plugin_is_found(plugins: Seq<Json>, at: int, root: PathBuf)
    requires
        0 <= at < plugins.len(),
        names_it(plugins[at], "plugin_id"@, "chmarax.herdr-nvim"@),
        forall|k: int|
            0 <= k < at ==> !names_it(
                #[trigger] plugins[k],
                "plugin_id"@,
                "chmarax.herdr-nvim"@,
            ),
    ensures
        forall|text: Seq<char>| #[trigger]
            names_it(plugins[at], "plugin_root"@, text) ==> named_root(plugins) == Some(text),
        binary_below(root) == within(within(root, "bin"@), "herdr-nvim"@),
{
    law_the_first_of_a_name_is_found(plugins, "plugin_id"@, "chmarax.herdr-nvim"@, 0);
    assert(first_with(plugins, "plugin_id"@, PLUGIN_ID@, 0) == Some(plugins[at]));
}

/// Without arguments the sidebar runs; `--view` pins a view of it.
pub proof fn law_views_are_pinned(args: Seq<String>, env: Option<Seq<char>>)
    ensures
        args.len() == 0 ==> task_of(args, env) == (Task::Sidebar { pinned: None }),
        args.len() == 1 && args[0]@ == "--view"@ ==> task_of(args, env) == (Task::Sidebar {
            pinned: None,
        }),
        args.len() > 1 && args[0]@ == "--view"@ && args[1]@ == "explorer"@ ==> task_of(args, env)
            == (Task::Sidebar { pinned: Some(View::Explorer) }),
        args.len() > 1 && args[0]@ == "--view"@ && args[1]@ == "git"@ ==> task_of(args, env) == (
        Task::Sidebar { pinned: Some(View::SourceControl) }),
        args.len() > 1 && args[0]@ == "--view"@ && args[1]@ != "explorer"@ && args[1]@ != "git"@
            ==> task_of(args, env) == (Task::Sidebar { pinned: None }),
{
    lemma_modes();
    reveal_strlit("explorer");
    reveal_strlit("git");
    assert("explorer"@.len() != "git"@.len());
}

/// A number that tells the first arguments apart.
spec fn mark(name: Seq<char>) -> int {
    name.len() * 1000000 + (name[2] as int) * 1000 + name[3] as int
}

/// The first arguments are all different.
proof fn lemma_modes()
    ensures
        mark("--launch-decision"@) == 17108097,
        mark("--focused-pane"@) == 14102111,
        mark("--pane-has-token"@) == 16112097,
        mark("--event-scope"@) == 13101118,
        mark("--open-plan"@) == 11111112,
        mark("--event-kind"@) == 12101118,
        mark("--focused-tab"@) == 13102111,
        mark("--auto-open"@) == 11097117,
        mark("--focus-on-open"@) == 15102111,
        mark("--dock-right"@) == 12100111,
        mark("--preview"@) == 9112114,
        mark("--view"@) == 6118105,
{
    reveal_strlit("--launch-decision");
    reveal_strlit("--focused-pane");
    reveal_strlit("--pane-has-token");
    reveal_strlit("--event-scope");
    reveal_strlit("--open-plan");
    reveal_strlit("--event-kind");
    reveal_strlit("--focused-tab");
    reveal_strlit("--auto-open");
    reveal_strlit("--focus-on-open");
    reveal_strlit("--dock-right");
    reveal_strlit("--preview");
    reveal_strlit("--view");
}

/// The program knows the first argument.
pub open spec fn is_mode(argument: Seq<char>) -> bool {
    ||| argument == "--launch-decision"@
    ||| argument == "--focused-pane"@
    ||| argument == "--pane-has-token"@
    ||| argument == "--event-scope"@
    ||| argument == "--open-plan"@
    ||| argument == "--event-kind"@
    ||| argument == "--focused-tab"@
    ||| argument == "--auto-open"@
    ||| argument == "--focus-on-open"@
    ||| argument == "--dock-right"@
    ||| argument == "--preview"@
    ||| argument == "--view"@
}

/// Each task has its argument; what belongs to it follows, and is empty where it is missing. A
/// preview is controlled from where its argument says, or else the environment.
pub proof fn law_tasks_have_their_arguments(args: Seq<String>, env: Option<Seq<char>>)
    requires
        args.len() > 0,
    ensures
        ({
            let task = task_of(args, env);
            let said = |index: int|
                if index < args.len() {
                    args[index]@
                } else {
                    Seq::<char>::empty()
                };
            let mode = args[0]@;
            &&& mode == "--launch-decision"@ ==> task == (Task::LaunchDecision {
                git: args.len() > 1 && args[1]@ == "git"@,
                scope: said(2),
            })
            &&& mode == "--focused-pane"@ ==> task == (Task::FocusedPane { scope: said(1) })
            &&& mode == "--pane-has-token"@ ==> task == (Task::PaneHasToken { pane_id: said(1) })
            &&& mode == "--event-scope"@ ==> task == Task::EventScope
            &&& mode == "--open-plan"@ ==> task == Task::OpenPlan
            &&& mode == "--event-kind"@ ==> task == Task::EventKind
            &&& mode == "--focused-tab"@ ==> task == Task::FocusedTab
            &&& mode == "--auto-open"@ ==> task == Task::AutoOpen
            &&& mode == "--focus-on-open"@ ==> task == Task::FocusOnOpen
            &&& mode == "--dock-right"@ ==> task == Task::DockRight
            &&& mode == "--preview"@ && args.len() > 1 ==> task == (Task::Preview {
                control: Some(args[1]@),
            })
            &&& mode == "--preview"@ && args.len() == 1 ==> task == (Task::Preview {
                control: env,
            })
            &&& !is_mode(mode) ==> task == (Task::Unknown { argument: mode })
        }),
{
    lemma_modes();
}

/// The texts of a list, in order; what is no text is left out.
pub proof fn law_lists_keep_their_texts(items: Seq<Json>, text: Seq<char>, other: Json)
    requires
        !(other is Text),
    ensures
        texts_among(Seq::empty()) == Seq::<Seq<char>>::empty(),
        texts_among(items.push(Json::Text(text))) == texts_among(items).push(text),
        texts_among(items.push(other)) == texts_among(items),
{
    assert(items.push(Json::Text(text)).drop_last() =~= items);
    assert(items.push(other).drop_last() =~= items);
}

/// A tree is kept under its root: the expanded folders as a list of texts and the selection as a
/// text. A root without an entry starts with nothing, and so does every root of a file that is not
/// kept by root.
pub proof fn law_trees_are_kept_by_root(
    text: Seq<char>,
    entries: Map<Seq<char>, Json>,
    root: Seq<char>,
    fields: Map<Seq<char>, Json>,
    items: Seq<Json>,
    i: int,
)
    requires
        parsed_json(without_bom(text)) == read_as(Json::Object(entries)),
    ensures
        entries.dom().contains("expanded"@) ==> shape_for(tree_entries(text), root)
            == TreeShape::nothing(),
        !entries.dom().contains(root) ==> shape_for(tree_entries(text), root)
            == TreeShape::nothing(),
        !entries.dom().contains("expanded"@) && entries.dom().contains(root) ==> shape_for(
            tree_entries(text),
            root,
        ) == shape_in(entries[root]),
        TreeShape::nothing().expanded.len() == 0 && TreeShape::nothing().selected is None,
        ({
            let shape = shape_in(Json::Object(fields));
            &&& fields.dom().contains("expanded"@) && fields["expanded"@] == Json::Array(items)
                ==> shape.expanded.len() == texts_among(items).len() && (0 <= i < texts_among(
                items,
            ).len() ==> shape.expanded[i] == path_from(texts_among(items)[i]))
            &&& !fields.dom().contains("expanded"@) ==> shape.expanded.len() == 0
            &&& !fields.dom().contains("selected"@) ==> shape.selected is None
            &&& fields.dom().contains("selected"@) ==> match fields["selected"@] {
                Json::Text(said) => shape.selected == Some(path_from(said)),
                _ => shape.selected is None,
            }
        }),
{
}

/// What the source-control view keeps is read from the members of its names; what is missing or
/// garbled is empty.
pub proof fn law_source_control_is_read_under_its_names(
    fields: Map<Seq<char>, Json>,
    items: Seq<Json>,
)
    ensures
        ({
            let shape = scm_in(Json::Object(fields));
            let said = |name: Seq<char>|
                if fields.dom().contains(name) {
                    match fields[name] {
                        Json::Text(text) => Some(text),
                        _ => None,
                    }
                } else {
                    None
                };
            &&& shape.active_root == said("active_root"@)
            &&& shape.selected == said("selected"@)
            &&& shape.history_target == said("history_target"@)
            &&& fields.dom().contains("drawers"@) && fields["drawers"@] == Json::Array(items)
                ==> shape.drawers == texts_among(items)
            &&& !fields.dom().contains("drawers"@) ==> shape.drawers.len() == 0
            &&& !fields.dom().contains("scroll"@) ==> shape.scroll == 0
            &&& fields.dom().contains("scroll"@) ==> (fields["scroll"@] matches Json::Number(
                Some(n),
            ) ==> {
                &&& 0 <= n <= u32::MAX ==> shape.scroll == n
                &&& n < 0 ==> shape.scroll == 0
            })
            &&& !fields.dom().contains("drafts"@) ==> shape.drafts == Map::<
                Seq<char>,
                Seq<char>,
            >::empty()
        }),
{
}

/// A draft is kept under its root's key, with slashes for backslashes; of two spellings of one
/// root the last in the order of texts counts, and what is no text does not count.
pub proof fn law_drafts_are_kept_by_root(
    fields: Map<Seq<char>, Json>,
    drafts: Map<Seq<char>, Json>,
    root: Seq<char>,
    text: Seq<char>,
)
    requires
        fields.dom().contains("drafts"@) && fields["drafts"@] == Json::Object(drafts),
        drafts.dom().contains(root) && drafts[root] == Json::Text(text),
        forall|other: Seq<char>| #[trigger]
            drafts.dom().contains(other) && drafts[other] is Text && replaced(other, '\\', '/')
                == replaced(root, '\\', '/') ==> other == root || text_less(other, root),
    ensures
        ({
            let key = replaced(root, '\\', '/');
            let read = drafts_in(Json::Object(fields));
            read.dom().contains(key) && read[key] == text
        }),
{
    let key = replaced(root, '\\', '/');
    assert(last_draft(drafts, key, root));
    let chosen = choose|other: Seq<char>| #[trigger] last_draft(drafts, key, other);
    assert(last_draft(drafts, key, chosen));
    crate::text::lemma_text_order(root, chosen);
}

/// A folder's state is found under its key, or else under the first spelling of it in the order of
/// texts; a folder without one has nothing, and a file that is not kept by folder has none.
pub proof fn law_source_control_is_kept_by_folder(
    text: Seq<char>,
    entries: Map<Seq<char>, Json>,
    key: Seq<char>,
    stored: Seq<char>,
)
    requires
        parsed_json(without_bom(text)) == read_as(Json::Object(entries)),
    ensures
        entries.dom().contains("drawers"@) && entries["drawers"@] is Array ==> scm_for(
            scm_entries(text),
            key,
        ) == ScmShape::nothing(),
        !(entries.dom().contains("drawers"@) && entries["drawers"@] is Array) ==> scm_entries(text)
            == entries,
        entries.dom().contains(key) && replaced(key, '\\', '/') == key ==> scm_for(entries, key)
            == scm_in(entries[key]),
        !entries.dom().contains(key) && entries.dom().contains(stored) && replaced(
            stored,
            '\\',
            '/',
        ) == key && (forall|other: Seq<char>| #[trigger]
            entries.dom().contains(other) && replaced(other, '\\', '/') == key ==> other == stored
                || text_less(stored, other)) ==> scm_for(entries, key) == scm_in(entries[stored]),
        (forall|other: Seq<char>| #[trigger]
            entries.dom().contains(other) ==> replaced(other, '\\', '/') != key) ==> scm_for(
            entries,
            key,
        ) == ScmShape::nothing(),
        ({
            let nothing = ScmShape::nothing();
            &&& nothing.drawers.len() == 0 && nothing.scroll == 0
            &&& nothing.active_root is None && nothing.selected is None
            &&& nothing.history_target is None
            &&& nothing.drafts == Map::<Seq<char>, Seq<char>>::empty()
        }),
{
    if entries.dom().contains(key) && replaced(key, '\\', '/') == key {
        lemma_entry(entries, key, key);
    }
    if !entries.dom().contains(key) && entries.dom().contains(stored) && replaced(
        stored,
        '\\',
        '/',
    ) == key && (forall|other: Seq<char>| #[trigger]
        entries.dom().contains(other) && replaced(other, '\\', '/') == key ==> other == stored
            || text_less(stored, other)) {
        lemma_entry(entries, key, stored);
    }
}

/// The entry that is found is the only one there can be.
proof fn lemma_entry(fields: Map<Seq<char>, Json>, key: Seq<char>, stored: Seq<char>)
    requires
        crate::scm_state::is_entry(fields, key, stored),
    ensures
        entry_for(fields, key) == Some(fields[stored]),
{
    let chosen = choose|other: Seq<char>| crate::scm_state::is_entry(fields, key, other);
    assert(crate::scm_state::is_entry(fields, key, chosen));
    crate::text::lemma_text_order(stored, chosen);
}

/// Saving a folder's state replaces every spelling of it by the one under its key, and leaves every
/// other folder's entry.
pub proof fn law_saving_replaces_one_folder(
    entries: Map<Seq<char>, Json>,
    key: Seq<char>,
    shape: ScmShape,
    cleared: Set<Seq<char>>,
    other: Seq<char>,
)
    ensures
        ({
            let after = saved_entries(entries, key, shape, cleared);
            &&& after.dom().contains(key)
            &&& other != key && replaced(other, '\\', '/') == key ==> !after.dom().contains(other)
            &&& other != key && replaced(other, '\\', '/') != key ==> (after.dom().contains(other)
                <==> entries.dom().contains(other)) && (entries.dom().contains(other)
                ==> after[other] == entries[other])
        }),
        path_key(other) == replaced(other, '\\', '/'),
{
}

/// The lock is written under by whoever created it; one that is older than five seconds is cleared,
/// a younger one is waited for, and an error gives up. Fewer tries are left after each, and the
/// last ends it.
pub proof fn law_locks_are_waited_for(left: u32, age: u64)
    requires
        left > 0,
    ensures
        after_try(LockTry::Created) == LockStep::Write,
        after_try(LockTry::Failed) == LockStep::GiveUp,
        after_try(LockTry::Held(None)) == LockStep::Wait,
        age > 5000 ==> after_try(LockTry::Held(Some(age))) == LockStep::Clear,
        age <= 5000 ==> after_try(LockTry::Held(Some(age))) == LockStep::Wait,
        turn(left, LockTry::Created) == (LockStep::Write, LockState::Held),
        turn(left, LockTry::Failed) == (LockStep::GiveUp, LockState::GivenUp),
        left > 1 ==> turn(left, LockTry::Held(Some(age))).1 == LockState::Trying((left - 1) as u32),
        left == 1 ==> turn(left, LockTry::Held(Some(age))).1 == LockState::GivenUp,
        turn(left, LockTry::Held(Some(age))).0 == after_try(LockTry::Held(Some(age))),
        forall|outcome: LockTry|
            #[trigger] turn(0, outcome) == (LockStep::GiveUp, LockState::GivenUp),
{
}

} // verus!
