//! The shape of the tree that a freshly opened sidebar starts with, kept per root in one file.

use crate::json::{
    as_str, fields_of, into_object, json_of, map_get, map_insert, member, nested_within, new_map,
    object_value, optional_text, optional_text_value, parse_json, parsed_json, says, text_at,
    text_in, texts_at, texts_json, texts_of, texts_value, texts_view, write_json, Json, DEPTH_LIMIT,
};
use crate::paths::{as_path, path_from, path_from_text, path_of, path_text, show, spelled};
use crate::text::{seen, trim_bom, without_bom};
use serde_json::Map as JsonMap;
use serde_json::Value;
use std::path::Path;
use std::path::PathBuf;
use vstd::prelude::*;
use vstd::string::*;

verus! {

/// The directories that are expanded and the row that is selected. Captured when a sidebar
/// starts: expanding a folder in one tab does not reach into tabs that are already open.
#[derive(Clone, Debug, PartialEq, Eq)]
pub struct TreeState {
    pub expanded: Vec<PathBuf>,
    pub selected: Option<PathBuf>,
}

/// What a tree state holds.
#[verifier::ext_equal]
pub struct TreeShape {
    pub expanded: Seq<PathBuf>,
    pub selected: Option<PathBuf>,
}

impl TreeState {
    /// What this state holds.
    pub open spec fn shape(self) -> TreeShape {
        TreeShape { expanded: self.expanded@, selected: self.selected }
    }
}

impl TreeShape {
    /// Nothing expanded, nothing selected.
    pub open spec fn nothing() -> TreeShape {
        TreeShape { expanded: Seq::empty(), selected: None }
    }

    /// Every path is spelled by the text that it is shown as.
    pub open spec fn spelled_out(self) -> bool {
        &&& forall|i: int| 0 <= i < self.expanded.len() ==> spelled(#[trigger] self.expanded[i])
        &&& self.selected matches Some(path) ==> spelled(path)
    }
}

impl Default for TreeState {
    fn default() -> (r: TreeState)
        ensures
            r.shape() == TreeShape::nothing(),
    {
        TreeState { expanded: Vec::new(), selected: None }
    }
}

/// The whole file: tree state per workspace root. One file serves every sidebar of the session,
/// and each tab is rooted somewhere else.
pub type TreeFile = JsonMap<String, Value>;

/// The entries of a tree file by root. A text that is no object, or an object that has the shape
/// from before the file was keyed by root, has none.
pub open spec fn tree_entries(text: Seq<char>) -> Map<Seq<char>, Json> {
    match parsed_json(without_bom(text)) {
        Ok(Json::Object(fields)) => if fields.dom().contains("expanded"@) {
            Map::empty()
        } else {
            fields
        },
        _ => Map::empty(),
    }
}

/// Forgiving decode: anything missing, truncated, or written before the file was keyed by root
/// yields an empty map. The old shapes cannot be attributed to a root, so they are dropped
/// instead of applied to whoever opens first.
pub fn decode_tree_file(json: &str) -> (r: TreeFile)
    ensures
        fields_of(r) == tree_entries(json@),
        nested_within(Json::Object(fields_of(r)), DEPTH_LIMIT as nat),
{
    let text = trim_bom(json);
    if let Ok(value) = parse_json(text.as_str()) {
        if let Some(map) = into_object(value) {
            if map_get(&map, "expanded").is_none() {
                return map;
            }
        }
    }
    new_map()
}

/// The paths that a list of texts spells.
pub open spec fn paths_from(texts: Seq<Seq<char>>) -> Seq<PathBuf> {
    texts.map_values(|text: Seq<char>| path_from(text))
}

/// What an entry says: missing and garbled fields are empty.
pub open spec fn shape_in(entry: Json) -> TreeShape {
    TreeShape {
        expanded: paths_from(texts_at(entry, "expanded"@)),
        selected: match text_in(member(entry, "selected"@)) {
            Some(text) => Some(path_from(text)),
            None => None,
        },
    }
}

/// What the entries say of a root; an unknown root starts fresh.
pub open spec fn shape_for(entries: Map<Seq<char>, Json>, root: Seq<char>) -> TreeShape {
    if entries.dom().contains(root) {
        shape_in(entries[root])
    } else {
        TreeShape::nothing()
    }
}

/// The paths that a list of texts spells.
fn paths_of(texts: &Vec<String>) -> (r: Vec<PathBuf>)
    ensures
        r@ == paths_from(texts_view(texts@)),
{
    let mut out: Vec<PathBuf> = Vec::new();
    for i in 0..texts.len()
        invariant
            out@ == paths_from(texts_view(texts@)).take(i as int),
    {
        out.push(path_from_text(texts[i].as_str()));
        assert(out@ =~= paths_from(texts_view(texts@)).take(i as int + 1));
    }
    assert(out@ =~= paths_from(texts_view(texts@)));
    out
}

/// One root's entry.
pub fn tree_state_for(file: &TreeFile, root: &Path) -> (r: TreeState)
    ensures
        r.shape() == shape_for(fields_of(*file), path_text(root)),
{
    let key = show(root);
    match map_get(file, key.as_str()) {
        Some(entry) => TreeState {
            expanded: paths_of(&texts_of(entry, "expanded")),
            selected: match text_at(entry, "selected") {
                Some(text) => Some(path_from_text(text.as_str())),
                None => None,
            },
        },
        None => TreeState::default(),
    }
}

/// The tree state saved for `root` in a file of that text, for a sidebar starting up in it; no
/// text stands for a file that cannot be read.
pub fn load_tree_state(json: Option<&str>, root: &Path) -> (r: TreeState)
    ensures
        r.shape() == match json {
            Some(text) => shape_for(tree_entries(text@), path_text(root)),
            None => TreeShape::nothing(),
        },
{
    match json {
        Some(text) => tree_state_for(&decode_tree_file(text), root),
        None => TreeState::default(),
    }
}

/// The texts that paths are shown as.
pub open spec fn shown(paths: Seq<PathBuf>) -> Seq<Seq<char>> {
    paths.map_values(|path: PathBuf| path_text(path_of(path)))
}

/// The entry that says `shape`.
pub open spec fn shape_json(shape: TreeShape) -> Json {
    Json::Object(
        Map::empty().insert("expanded"@, texts_json(shown(shape.expanded))).insert(
            "selected"@,
            optional_text(
                match shape.selected {
                    Some(path) => Some(path_text(path_of(path))),
                    None => None,
                },
            ),
        ),
    )
}

/// The texts that paths are shown as.
fn show_all(paths: &Vec<PathBuf>) -> (r: Vec<String>)
    ensures
        texts_view(r@) == shown(paths@),
{
    let mut out: Vec<String> = Vec::new();
    for i in 0..paths.len()
        invariant
            texts_view(out@) == shown(paths@).take(i as int),
    {
        let ghost before = out@;
        out.push(show(as_path(&paths[i])));
        proof {
            assert(texts_view(out@) =~= texts_view(before).push(path_text(path_of(paths@[i as int]))));
            assert(texts_view(out@) =~= shown(paths@).take(i as int + 1));
        }
    }
    assert(texts_view(out@) =~= shown(paths@));
    out
}

/// The entry that says `state`.
fn entry_value(state: &TreeState) -> (r: Value)
    ensures
        json_of(r) == shape_json(state.shape()),
{
    let mut entry = new_map();
    map_insert(&mut entry, "expanded".to_owned(), texts_value(&show_all(&state.expanded)));
    let selected = match &state.selected {
        Some(path) => Some(show(as_path(path))),
        None => None,
    };
    map_insert(&mut entry, "selected".to_owned(), optional_text_value(&selected));
    object_value(entry)
}

/// The entries of a file that may not be readable: none then.
pub open spec fn entries_before(json: Option<Seq<char>>) -> Map<Seq<char>, Json> {
    match json {
        Some(text) => tree_entries(text),
        None => Map::empty(),
    }
}

/// The text of the file after `root`'s entry is set to `state`, leaving every other root's entry
/// alone: concurrent sidebars in different roots must not erase each other's entries. `json` is
/// the text of the file under the write lock.
pub fn save_tree_state(json: Option<&str>, root: &Path, state: &TreeState) -> (r: Option<String>)
    ensures
        r is Some,
        r matches Some(text) ==> ({
            let after = entries_before(seen(json)).insert(
                path_text(root),
                shape_json(state.shape()),
            );
            says(text@, after)
        }),
        r matches Some(text) ==> without_bom(text@) == text@,
{
    let mut file = match json {
        Some(text) => decode_tree_file(text),
        None => new_map(),
    };
    let ghost before = fields_of(file);
    proof {
        assert(before =~= entries_before(seen(json)));
    }
    map_insert(&mut file, show(root), entry_value(state));
    proof {
        lemma_entry_is_shallow(state.shape());
        let after = fields_of(file);
        assert forall|key: Seq<char>| after.dom().contains(key) implies nested_within(
            #[trigger] after[key],
            (DEPTH_LIMIT - 1) as nat,
        ) by {
            if key != path_text(root) {
                assert(before.dom().contains(key) && nested_within(
                    before[key],
                    (DEPTH_LIMIT - 1) as nat,
                ));
            }
        }
    }
    write_json(&file)
}

/// An entry is not nested deep.
proof fn lemma_entry_is_shallow(shape: TreeShape)
    ensures
        nested_within(shape_json(shape), (DEPTH_LIMIT - 1) as nat),
{
    let fields = shape_json(shape)->Object_0;
    let items = texts_json(shown(shape.expanded))->Array_0;
    assert forall|key: Seq<char>| fields.dom().contains(key) implies nested_within(
        #[trigger] fields[key],
        (DEPTH_LIMIT - 2) as nat,
    ) by {
        assert forall|i: int| 0 <= i < items.len() implies nested_within(
            #[trigger] items[i],
            (DEPTH_LIMIT - 3) as nat,
        ) by {}
        assert(nested_within(Json::Array(items), (DEPTH_LIMIT - 2) as nat));
        reveal_strlit("expanded");
        reveal_strlit("selected");
    }
}

/// What was saved for a root is read back for it, where its paths are spelled by their texts, and
/// every other root reads as before. The root named `expanded` is left out: a file with that
/// entry has the shape from before the file was keyed by root.
pub proof fn law_saved_trees_are_read_back(
    json: Option<Seq<char>>,
    root: Seq<char>,
    shape: TreeShape,
    other: Seq<char>,
    text: Seq<char>,
)
    requires
        shape.spelled_out(),
        root != "expanded"@,
        without_bom(text) == text,
        says(text, entries_before(json).insert(root, shape_json(shape))),
    ensures
        shape_for(tree_entries(text), root) == shape,
        other != root ==> shape_for(tree_entries(text), other) == shape_for(
            entries_before(json),
            other,
        ),
{
    assert(!entries_before(json).dom().contains("expanded"@));
    reveal_strlit("expanded");
    reveal_strlit("selected");
    let entry = shape_json(shape);
    assert("expanded"@ != "selected"@) by {
        assert("expanded"@[0] != "selected"@[0]);
    }
    let texts = shown(shape.expanded);
    crate::json::lemma_texts_of_texts(texts);
    assert(member(entry, "expanded"@) == Some(texts_json(texts)));
    assert(texts_at(entry, "expanded"@) == texts);
    assert(paths_from(texts) =~= shape.expanded) by {
        assert forall|i: int| 0 <= i < texts.len() implies paths_from(texts)[i]
            == shape.expanded[i] by {
            assert(spelled(shape.expanded[i]));
        }
    }
    assert(shape_in(entry).selected == shape.selected);
    assert(shape_in(entry) =~= shape);
}

/// A file from before the file was keyed by root is applied to no root.
pub proof fn law_unkeyed_tree_files_are_dropped(text: Seq<char>, root: Seq<char>)
    requires
        match parsed_json(without_bom(text)) {
            Ok(Json::Object(fields)) => fields.dom().contains("expanded"@),
            _ => true,
        },
    ensures
        shape_for(tree_entries(text), root) == TreeShape::nothing(),
{
}

} // verus!
