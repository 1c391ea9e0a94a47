//! The root that each project's tree is built from, remembered in one file.
//!
//! A workspace can hold several unrelated project tabs, and tab ids change across server restarts,
//! so the key of a root is the workspace's label together with the folder the pane was spawned in.

use crate::json::{
    as_str, fields_of, into_object, map_get, map_insert, nested_within, new_map, parse_json,
    parsed_json, says, text_in, text_value, write_json, Json, DEPTH_LIMIT,
};
use crate::paths::{
    as_path, begins_with, on_windows, path_from, path_from_text, path_of, path_text, show, spelled,
    starts_with,
};
use crate::text::{
    ascii_lower, ascii_lower_text, concat3, replace_char, replaced, seen, trim_bom, without_bom,
};
use serde_json::Map as JsonMap;
use serde_json::Value;
use std::path::Path;
use std::path::PathBuf;
use vstd::prelude::*;
use vstd::string::*;

verus! {

/// Remembered tree roots by key.
pub type RootsFile = JsonMap<String, Value>;

/// The entries of a file: those of the object that its text says, none where it says none.
pub open spec fn object_entries(text: Seq<char>) -> Map<Seq<char>, Json> {
    match parsed_json(without_bom(text)) {
        Ok(Json::Object(fields)) => fields,
        _ => Map::empty(),
    }
}

/// The entries of a file that may not be readable: none then.
pub open spec fn entries_before(json: Option<Seq<char>>) -> Map<Seq<char>, Json> {
    match json {
        Some(text) => object_entries(text),
        None => Map::empty(),
    }
}

/// The object that the text of a file says, forgiving: anything missing or garbled yields an
/// empty map.
pub(crate) fn decode_object_file(json: &str) -> (r: JsonMap<String, Value>)
    ensures
        fields_of(r) == object_entries(json@),
        nested_within(Json::Object(fields_of(r)), DEPTH_LIMIT as nat),
{
    let text = trim_bom(json);
    if let Ok(value) = parse_json(text.as_str()) {
        if let Some(map) = into_object(value) {
            return map;
        }
    }
    new_map()
}

/// Forgiving decode: anything missing or garbled yields an empty map, so a hand-edited file
/// forgets a choice rather than wedging the tree.
pub fn decode_roots_file(json: &str) -> (r: RootsFile)
    ensures
        fields_of(r) == object_entries(json@),
        nested_within(Json::Object(fields_of(r)), DEPTH_LIMIT as nat),
{
    decode_object_file(json)
}

/// The root that the entries remember for `key`. An empty key never matches.
pub open spec fn remembered_root(entries: Map<Seq<char>, Json>, key: Seq<char>) -> Option<PathBuf> {
    if key.len() == 0 || !entries.dom().contains(key) {
        None
    } else {
        match text_in(Some(entries[key])) {
            Some(text) => Some(path_from(text)),
            None => None,
        }
    }
}

/// The root remembered for `key`, if any. An empty key never matches: it would collide across
/// every pane that failed to report its project identity.
pub fn root_for_key(file: &RootsFile, key: &str) -> (r: Option<PathBuf>)
    ensures
        r == remembered_root(fields_of(*file), key@),
{
    if key.unicode_len() == 0 {
        return None;
    }
    match map_get(file, key) {
        Some(entry) => match as_str(entry) {
            Some(text) => Some(path_from_text(text)),
            None => None,
        },
        None => None,
    }
}

/// The root that a file of that text remembers for `key`, or `None` to fall back to the pane's
/// cwd; no text stands for a file that cannot be read.
pub fn load_root(json: Option<&str>, key: &str) -> (r: Option<PathBuf>)
    ensures
        r == remembered_root(entries_before(seen(json)), key@),
{
    match json {
        Some(text) => root_for_key(&decode_roots_file(text), key),
        None => None,
    }
}

/// The text of the file after `root` is remembered for `key`, leaving other projects' choices
/// alone; nothing is to be written for an empty key. `json` is the text of the file under the
/// write lock.
pub fn save_root(json: Option<&str>, key: &str, root: &Path) -> (r: Option<String>)
    ensures
        r is Some <==> key@.len() > 0,
        r matches Some(text) ==> ({
            let after = entries_before(seen(json)).insert(key@, Json::Text(path_text(root)));
            says(text@, after)
        }),
        r matches Some(text) ==> without_bom(text@) == text@,
{
    if key.unicode_len() == 0 {
        return None;
    }
    let mut file = match json {
        Some(text) => decode_roots_file(text),
        None => new_map(),
    };
    let ghost before = fields_of(file);
    proof {
        assert(before =~= entries_before(seen(json)));
    }
    map_insert(&mut file, key.to_owned(), text_value(show(root)));
    proof {
        let after = fields_of(file);
        assert forall|name: Seq<char>| after.dom().contains(name) implies nested_within(
            #[trigger] after[name],
            (DEPTH_LIMIT - 1) as nat,
        ) by {
            if name != key@ {
                assert(before.dom().contains(name) && nested_within(
                    before[name],
                    (DEPTH_LIMIT - 1) as nat,
                ));
            }
        }
    }
    write_json(&file)
}

/// The root that was saved for a key is read back for it, where the root is spelled by its text,
/// and every other key reads as before.
pub proof fn law_saved_roots_are_read_back(
    json: Option<Seq<char>>,
    key: Seq<char>,
    root: PathBuf,
    other: Seq<char>,
    text: Seq<char>,
)
    requires
        key.len() > 0,
        spelled(root),
        without_bom(text) == text,
        says(text, entries_before(json).insert(key, Json::Text(path_text(path_of(root))))),
    ensures
        remembered_root(object_entries(text), key) == Some(root),
        other != key ==> remembered_root(object_entries(text), other) == remembered_root(
            entries_before(json),
            other,
        ),
{
}

/// An empty key is never remembered, whatever the file holds.
pub proof fn law_empty_keys_never_match(entries: Map<Seq<char>, Json>)
    ensures
        remembered_root(entries, Seq::empty()) is None,
{
}

/// The key of a project on a platform: the workspace's label and the folder that the pane was
/// spawned in, with slashes, and in small letters where the platform ignores case.
pub open spec fn root_key(label: Seq<char>, cwd: Seq<char>, windows: bool) -> Seq<char> {
    let slashed = replaced(cwd, '\\', '/');
    label + "::"@ + if windows {
        ascii_lower_text(slashed)
    } else {
        slashed
    }
}

/// The key of a project on a platform. Roots are project state, not workspace state.
pub fn remembered_root_key_on(workspace_label: &str, spawn_cwd: &Path, windows: bool) -> (r: String)
    ensures
        r@ == root_key(workspace_label@, path_text(spawn_cwd), windows),
{
    let mut cwd = replace_char(show(spawn_cwd).as_str(), '\\', '/');
    if windows {
        cwd = ascii_lower(cwd.as_str());
    }
    concat3(workspace_label, "::", cwd.as_str())
}

/// The key of a project on this platform.
pub fn remembered_root_key(workspace_label: &str, spawn_cwd: &Path) -> (r: String)
    ensures
        r@ == root_key(workspace_label@, path_text(spawn_cwd), true) || r@ == root_key(
            workspace_label@,
            path_text(spawn_cwd),
            false,
        ),
{
    remembered_root_key_on(workspace_label, spawn_cwd, on_windows())
}

/// A project's key is never empty, and its folder part holds no backslash.
pub proof fn law_root_keys_are_usable(label: Seq<char>, cwd: Seq<char>, windows: bool)
    ensures
        root_key(label, cwd, windows).len() > 0,
        forall|i: int|
            label.len() <= i < root_key(label, cwd, windows).len() ==> #[trigger] root_key(
                label,
                cwd,
                windows,
            )[i] != '\\',
{
    reveal_strlit("::");
}

/// The directory that the tree is built from: the remembered root, else the root of an earlier
/// release that contains the folder the pane was spawned in, else that folder.
pub open spec fn resolved_root(
    remembered: Option<PathBuf>,
    remembered_is_dir: bool,
    legacy: Option<PathBuf>,
    legacy_is_dir: bool,
    spawn_cwd: PathBuf,
) -> PathBuf {
    if remembered is Some && remembered_is_dir {
        remembered->0
    } else if legacy is Some && legacy_is_dir && begins_with(
        path_of(spawn_cwd),
        path_of(legacy->0),
    ) {
        legacy->0
    } else {
        spawn_cwd
    }
}

/// The directory that the tree is built from. A remembered root that has since been deleted is
/// ignored rather than yielding an empty tree, and a root kept under the workspace's label alone,
/// as an earlier release did, counts only where it contains this tab's folder: sibling project
/// tabs must not all inherit the same old entry.
pub fn resolve_root(
    remembered: Option<PathBuf>,
    remembered_is_dir: bool,
    legacy: Option<PathBuf>,
    legacy_is_dir: bool,
    spawn_cwd: &PathBuf,
) -> (r: PathBuf)
    ensures
        r == resolved_root(remembered, remembered_is_dir, legacy, legacy_is_dir, *spawn_cwd),
{
    if let Some(root) = remembered {
        if remembered_is_dir {
            return root;
        }
    }
    if let Some(root) = legacy {
        if legacy_is_dir && starts_with(as_path(spawn_cwd), as_path(&root)) {
            return root;
        }
    }
    spawn_cwd.clone()
}

} // verus!
