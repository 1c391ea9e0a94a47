//! Where the sidebar keeps its files, and the environment of the panes it creates.

use crate::json::{json_of, map_insert, new_map, object_value, text_value, Json};
use crate::paths::{
    as_path, empty_path, is_empty_path, join, joined, path_from, path_from_text, path_of,
    path_text, same_components, same_path, show,
};
use serde_json::Value;
use std::path::PathBuf;
use vstd::prelude::*;
use vstd::string::*;

verus! {

/// What the environment says of the places of files. Each is `None` where the variable is not
/// set.
pub struct StateEnv {
    /// The state directory that the host handed down; an empty value counts as none.
    pub plugin_state_dir: Option<PathBuf>,
    /// Where the platform keeps state: the local application data on Windows, the XDG state home
    /// elsewhere.
    pub state_base: Option<PathBuf>,
    /// Where the platform keeps configuration: the roaming application data on Windows, the XDG
    /// configuration home elsewhere.
    pub config_base: Option<PathBuf>,
    /// The home directory; `None` on Windows, where the two bases have no fallback.
    pub home: Option<PathBuf>,
}

/// `name` below `base`.
pub open spec fn below(base: PathBuf, name: Seq<char>) -> PathBuf {
    joined(path_of(base), path_of(path_from(name)))
}

/// `name` below `base`.
fn child(base: &PathBuf, name: &str) -> (r: PathBuf)
    ensures
        r == below(*base, name@),
{
    let tail = path_from_text(name);
    join(as_path(base), as_path(&tail))
}

impl StateEnv {
    /// The directory of the sidebar's files.
    pub open spec fn dir(self) -> Option<PathBuf> {
        if self.plugin_state_dir is Some && !empty_path(path_of(self.plugin_state_dir->0)) {
            self.plugin_state_dir
        } else {
            let base = match self.state_base {
                Some(base) => Some(base),
                None => match self.home {
                    Some(home) => Some(below(home, ".local/state"@)),
                    None => None,
                },
            };
            match base {
                Some(base) => Some(
                    below(below(below(base, "herdr"@), "plugins"@), "herdr-sidebar"@),
                ),
                None => None,
            }
        }
    }

    /// A file of the sidebar.
    pub open spec fn file(self, name: Seq<char>) -> Option<PathBuf> {
        match self.dir() {
            Some(dir) => Some(below(dir, name)),
            None => None,
        }
    }

    /// The settings file of an earlier release.
    pub open spec fn legacy_file(self) -> Option<PathBuf> {
        let base = match self.config_base {
            Some(base) => Some(base),
            None => match self.home {
                Some(home) => Some(below(home, ".config"@)),
                None => None,
            },
        };
        match base {
            Some(base) => Some(below(below(base, "herdr"@), "aa-sidebar.json"@)),
            None => None,
        }
    }

    /// The directory of the sidebar's files: the one that the host handed down, else the
    /// conventional place that the host resolves it to.
    pub fn state_dir(&self) -> (r: Option<PathBuf>)
        ensures
            r == self.dir(),
    {
        if let Some(dir) = &self.plugin_state_dir {
            if !is_empty_path(as_path(dir)) {
                return Some(dir.clone());
            }
        }
        let base = match &self.state_base {
            Some(base) => base.clone(),
            None => match &self.home {
                Some(home) => child(home, ".local/state"),
                None => {
                    return None;
                },
            },
        };
        Some(child(&child(&child(&base, "herdr"), "plugins"), "herdr-sidebar"))
    }

    /// A file of the sidebar.
    fn file_path(&self, name: &str) -> (r: Option<PathBuf>)
        ensures
            r == self.file(name@),
    {
        match self.state_dir() {
            Some(dir) => Some(child(&dir, name)),
            None => None,
        }
    }

    /// The file of tree states.
    pub fn tree_path(&self) -> (r: Option<PathBuf>)
        ensures
            r == self.file("tree.json"@),
    {
        self.file_path("tree.json")
    }

    /// The file of source-control states.
    pub fn scm_path(&self) -> (r: Option<PathBuf>)
        ensures
            r == self.file("scm.json"@),
    {
        self.file_path("scm.json")
    }

    /// The file of remembered roots.
    pub fn roots_path(&self) -> (r: Option<PathBuf>)
        ensures
            r == self.file("roots.json"@),
    {
        self.file_path("roots.json")
    }

    /// The settings file of an earlier release, read once so that its settings survive.
    pub fn legacy_state_path(&self) -> (r: Option<PathBuf>)
        ensures
            r == self.legacy_file(),
    {
        let base = match &self.config_base {
            Some(base) => base.clone(),
            None => match &self.home {
                Some(home) => child(home, ".config"),
                None => {
                    return None;
                },
            },
        };
        Some(child(&child(&base, "herdr"), "aa-sidebar.json"))
    }
}

/// The settings file.
pub fn state_path(env: &StateEnv) -> (r: Option<PathBuf>)
    ensures
        r == env.file("state.json"@),
{
    env.file_path("state.json")
}

/// The search path that `inherited` is made into: `bin_dir` first, and nowhere else.
pub open spec fn launch_dirs(bin_dir: PathBuf, inherited: Seq<PathBuf>) -> Seq<PathBuf> {
    seq![bin_dir] + inherited.filter(
        |path: PathBuf| !same_components(path_of(path), path_of(bin_dir)),
    )
}

/// The search path of the panes the sidebar creates: the directory of its own executable in front
/// of what was inherited, so that a bare command name resolves to it in every shell.
pub fn launch_path(bin_dir: &PathBuf, inherited: &Vec<PathBuf>) -> (r: Vec<PathBuf>)
    ensures
        r@ == launch_dirs(*bin_dir, inherited@),
{
    let mut paths: Vec<PathBuf> = Vec::new();
    paths.push(bin_dir.clone());
    let ghost keep = |path: PathBuf| !same_components(path_of(path), path_of(*bin_dir));
    proof {
        assert(inherited@.take(0).filter(keep) =~= Seq::<PathBuf>::empty()) by {
            reveal(Seq::filter);
        }
        assert(paths@ =~= seq![*bin_dir] + inherited@.take(0).filter(keep));
    }
    for i in 0..inherited.len()
        invariant
            keep == |path: PathBuf| !same_components(path_of(path), path_of(*bin_dir)),
            paths@ == seq![*bin_dir] + inherited@.take(i as int).filter(keep),
    {
        proof {
            assert(inherited@.take(i as int + 1).drop_last() =~= inherited@.take(i as int));
            reveal(Seq::filter);
        }
        if !same_path(as_path(&inherited[i]), as_path(bin_dir)) {
            paths.push(inherited[i].clone());
            assert(paths@ =~= seq![*bin_dir] + inherited@.take(i as int + 1).filter(keep));
        }
    }
    assert(inherited@.take(inherited@.len() as int) =~= inherited@);
    paths
}

/// The members of the environment of a new pane.
pub open spec fn spawn_members(state_dir: Option<PathBuf>, path: Option<Seq<char>>) -> Map<
    Seq<char>,
    Json,
> {
    let first = match state_dir {
        Some(dir) => Map::empty().insert(
            "HERDR_PLUGIN_STATE_DIR"@,
            Json::Text(path_text(path_of(dir))),
        ),
        None => Map::empty(),
    };
    match path {
        Some(text) => first.insert("PATH"@, Json::Text(text)),
        None => first,
    }
}

/// The environment of the panes that the sidebar creates: they do not inherit what the host sets
/// for hooks, so the state directory is forwarded, and the search path finds the executable.
pub fn spawn_env(state_dir: &Option<PathBuf>, path: Option<String>) -> (r: Value)
    ensures
        json_of(r) == Json::Object(
            spawn_members(
                *state_dir,
                match path {
                    Some(text) => Some(text@),
                    None => None,
                },
            ),
        ),
{
    let mut env = new_map();
    if let Some(dir) = state_dir {
        map_insert(&mut env, "HERDR_PLUGIN_STATE_DIR".to_owned(), text_value(show(as_path(dir))));
    }
    if let Some(text) = path {
        map_insert(&mut env, "PATH".to_owned(), text_value(text));
    }
    object_value(env)
}

/// The executable's own directory is found first, whatever was inherited.
pub proof fn law_own_directory_comes_first(bin_dir: PathBuf, inherited: Seq<PathBuf>)
    ensures
        launch_dirs(bin_dir, inherited)[0] == bin_dir,
        forall|i: int|
            0 < i < launch_dirs(bin_dir, inherited).len() ==> !same_components(
                path_of(#[trigger] launch_dirs(bin_dir, inherited)[i]),
                path_of(bin_dir),
            ),
{
    let keep = |path: PathBuf| !same_components(path_of(path), path_of(bin_dir));
    inherited.lemma_filter_len(keep);
    broadcast use vstd::seq_lib::group_filter_ensures;
    assert forall|i: int| 0 < i < launch_dirs(bin_dir, inherited).len() implies !same_components(
        path_of(#[trigger] launch_dirs(bin_dir, inherited)[i]),
        path_of(bin_dir),
    ) by {
        let kept = inherited.filter(keep);
        assert(launch_dirs(bin_dir, inherited)[i] == kept[i - 1]);
        inherited.lemma_filter_pred(keep, i - 1);
    }
}

} // verus!
