//! The source-control view's shape, mirrored into new tabs and kept per folder in one file.

use crate::drafts::{Drafts, Names};
use crate::json::{
    as_array, as_object, as_str, fields_of, get, json_of, map_get, map_insert, map_keys,
    map_remove, member, nested_within, new_map, number_value, object_in, object_value,
    optional_text, optional_text_value, says, text_at, text_in,
    text_value, text_view, texts_at, texts_json, texts_of, texts_value, texts_view, u64_at, u64_in,
    write_json, Json, DEPTH_LIMIT,
};
use crate::paths::{as_path, lossy_text, path_from_text, show_lossy};
use crate::roots::{decode_object_file, object_entries};
use crate::text::{
    lemma_text_order, replace_char, replaced, same_text, seen, text_less, without_bom,
};
use serde_json::Map as JsonMap;
use serde_json::Value;
use std::path::Path;
use vstd::prelude::*;
use vstd::string::*;

verus! {

/// The state worth mirroring into a fresh sidebar: which drawers are expanded (by title), the
/// active repository's root, a stable id for the selected row, the target of the file history, the
/// scroll offset, and commit drafts by repository root.
pub struct ScmState {
    pub drawers: Vec<String>,
    pub active_root: Option<String>,
    pub selected: Option<String>,
    pub history_target: Option<String>,
    pub scroll: usize,
    pub drafts: Drafts,
    /// Draft roots that this pane observed and has since emptied. Not written to the file: it
    /// only scopes what a merge removes.
    pub cleared_drafts: Names,
}

/// What of a state is written to the file.
#[verifier::ext_equal]
pub struct ScmShape {
    pub drawers: Seq<Seq<char>>,
    pub active_root: Option<Seq<char>>,
    pub selected: Option<Seq<char>>,
    pub history_target: Option<Seq<char>>,
    pub scroll: usize,
    pub drafts: Map<Seq<char>, Seq<char>>,
}

impl ScmState {
    /// What of this state is written to the file.
    pub open spec fn shape(self) -> ScmShape {
        ScmShape {
            drawers: texts_view(self.drawers@),
            active_root: text_view(self.active_root),
            selected: text_view(self.selected),
            history_target: text_view(self.history_target),
            scroll: self.scroll,
            drafts: self.drafts@,
        }
    }
}

impl ScmShape {
    /// Nothing worth mirroring.
    pub open spec fn nothing() -> ScmShape {
        ScmShape {
            drawers: Seq::empty(),
            active_root: None,
            selected: None,
            history_target: None,
            scroll: 0,
            drafts: Map::empty(),
        }
    }
}

impl Default for ScmState {
    fn default() -> (r: ScmState)
        ensures
            r.shape() == ScmShape::nothing(),
            r.cleared_drafts@ == Set::<Seq<char>>::empty(),
    {
        let r = ScmState {
            drawers: Vec::new(),
            active_root: None,
            selected: None,
            history_target: None,
            scroll: 0,
            drafts: Drafts::new(),
            cleared_drafts: Names::new(),
        };
        assert(r.shape() =~= ScmShape::nothing());
        r
    }
}

/// The whole file, by the folder of the sidebar.
pub type ScmFile = JsonMap<String, Value>;

/// A path's text with slashes throughout.
pub open spec fn path_key(text: Seq<char>) -> Seq<char> {
    replaced(text, '\\', '/')
}

/// Stable key for a filesystem path. Git commonly reports slashes on Windows while a pane's cwd
/// has backslashes; treating those spellings as different loses mirrored state in preview tabs.
pub fn scm_path_key(path: &Path) -> (r: String)
    ensures
        r@ == path_key(lossy_text(path)),
{
    replace_char(show_lossy(path).as_str(), '\\', '/')
}

/// The key of a path that `text` spells.
fn stored_key(text: &str) -> (r: String)
    ensures
        r@ == path_key(text@),
{
    let path = path_from_text(text);
    scm_path_key(as_path(&path))
}

/// Keys do not depend on how separators are spelled, and a key is its own key.
pub proof fn law_keys_ignore_separator_spelling(text: Seq<char>)
    ensures
        path_key(path_key(text)) == path_key(text),
        path_key(replaced(text, '/', '\\')) == path_key(text),
        forall|i: int| 0 <= i < text.len() ==> #[trigger] path_key(text)[i] != '\\',
{
    assert(path_key(path_key(text)) =~= path_key(text));
    assert(path_key(replaced(text, '/', '\\')) =~= path_key(text));
}

/// The shape from before the file was keyed by folder: the object is itself an entry, with its
/// list of drawers. A folder of that name has an object there.
pub open spec fn is_unkeyed(fields: Map<Seq<char>, Json>) -> bool {
    fields.dom().contains("drawers"@) && fields["drawers"@] is Array
}

/// The entries of a file by folder. A text that is no object, or an object that has the shape from
/// before the file was keyed by folder, has none.
pub open spec fn scm_entries(text: Seq<char>) -> Map<Seq<char>, Json> {
    if is_unkeyed(object_entries(text)) {
        Map::empty()
    } else {
        object_entries(text)
    }
}

/// The entries of a file that may not be readable: none then.
pub open spec fn entries_before(json: Option<Seq<char>>) -> Map<Seq<char>, Json> {
    match json {
        Some(text) => scm_entries(text),
        None => Map::empty(),
    }
}

/// Forgiving decode: anything missing, truncated, or shaped before the file was keyed by folder
/// yields an empty map.
pub fn decode_scm_file(json: &str) -> (r: ScmFile)
    ensures
        fields_of(r) == scm_entries(json@),
        nested_within(Json::Object(fields_of(r)), DEPTH_LIMIT as nat),
{
    let file = decode_object_file(json);
    if let Some(drawers) = map_get(&file, "drawers") {
        if as_array(drawers).is_some() {
            return new_map();
        }
    }
    file
}

/// A file from before the file was keyed by folder is applied to no folder.
pub proof fn law_unkeyed_scm_files_are_dropped(text: Seq<char>, key: Seq<char>)
    requires
        is_unkeyed(object_entries(text)),
    ensures
        scm_for(scm_entries(text), key) == ScmShape::nothing(),
{
}

/// `stored` is the entry for `key`: the one of exactly that spelling, else the first in the order
/// of texts that spells it otherwise.
pub open spec fn is_entry(fields: Map<Seq<char>, Json>, key: Seq<char>, stored: Seq<char>) -> bool {
    &&& fields.dom().contains(stored)
    &&& path_key(stored) == key
    &&& stored == key || (!fields.dom().contains(key) && forall|other: Seq<char>| #[trigger]
        fields.dom().contains(other) && path_key(other) == key ==> other == stored || text_less(
            stored,
            other,
        ))
}

/// The entry for `key`, if the file holds one.
pub open spec fn entry_for(fields: Map<Seq<char>, Json>, key: Seq<char>) -> Option<Json> {
    if exists|stored: Seq<char>| is_entry(fields, key, stored) {
        Some(fields[choose|stored: Seq<char>| is_entry(fields, key, stored)])
    } else {
        None
    }
}

/// There is at most one entry for a key.
proof fn lemma_single_entry(fields: Map<Seq<char>, Json>, key: Seq<char>, stored: Seq<char>)
    requires
        is_entry(fields, key, stored),
    ensures
        entry_for(fields, key) == Some(fields[stored]),
{
    let chosen = choose|other: Seq<char>| is_entry(fields, key, other);
    assert(is_entry(fields, key, chosen));
    lemma_text_order(stored, chosen);
}

/// `root` holds a draft for `key`.
pub open spec fn drafts_for(fields: Map<Seq<char>, Json>, key: Seq<char>, root: Seq<char>) -> bool {
    fields.dom().contains(root) && fields[root] is Text && path_key(root) == key
}

/// `root` is the last in the order of texts that holds a draft for `key`.
pub open spec fn last_draft(fields: Map<Seq<char>, Json>, key: Seq<char>, root: Seq<char>) -> bool {
    &&& drafts_for(fields, key, root)
    &&& forall|other: Seq<char>| #[trigger]
        drafts_for(fields, key, other) ==> other == root || text_less(other, root)
}

/// The drafts that the members of an object are: members that are no texts are dropped, and of
/// two spellings of one root the last counts.
pub open spec fn drafts_among(fields: Map<Seq<char>, Json>) -> Map<Seq<char>, Seq<char>> {
    Map::new(
        |key: Seq<char>| exists|root: Seq<char>| #[trigger] last_draft(fields, key, root),
        |key: Seq<char>|
            fields[choose|root: Seq<char>| #[trigger] last_draft(fields, key, root)]->Text_0,
    )
}

/// The drafts of an entry.
pub open spec fn drafts_in(entry: Json) -> Map<Seq<char>, Seq<char>> {
    match object_in(member(entry, "drafts"@)) {
        Some(fields) => drafts_among(fields),
        None => Map::empty(),
    }
}

/// What an entry says: unknown and missing fields are empty.
pub open spec fn scm_in(entry: Json) -> ScmShape {
    ScmShape {
        drawers: texts_at(entry, "drawers"@),
        active_root: text_in(member(entry, "active_root"@)),
        selected: text_in(member(entry, "selected"@)),
        history_target: text_in(member(entry, "history_target"@)),
        scroll: match u64_in(member(entry, "scroll"@)) {
            Some(n) => n as usize,
            None => 0,
        },
        drafts: drafts_in(entry),
    }
}

/// What the entries say of a key.
pub open spec fn scm_for(fields: Map<Seq<char>, Json>, key: Seq<char>) -> ScmShape {
    match entry_for(fields, key) {
        Some(entry) => scm_in(entry),
        None => ScmShape::nothing(),
    }
}

/// The key under which the entry for `key` is stored.
fn find_entry(file: &ScmFile, key: &str) -> (r: Option<String>)
    requires
        path_key(key@) == key@,
    ensures
        match r {
            Some(stored) => is_entry(fields_of(*file), key@, stored@),
            None => forall|stored: Seq<char>|
                fields_of(*file).dom().contains(stored) ==> path_key(stored) != key@,
        },
{
    if map_get(file, key).is_some() {
        return Some(key.to_owned());
    }
    let keys = map_keys(file);
    for i in 0..keys.len()
        invariant
            forall|j: int| 0 <= j < i ==> path_key((#[trigger] keys@[j])@) != key@,
            forall|j: int|
                0 <= j < keys@.len() ==> fields_of(*file).dom().contains((#[trigger] keys@[j])@),
            forall|k: Seq<char>| #[trigger]
                fields_of(*file).dom().contains(k) ==> exists|j: int|
                    0 <= j < keys@.len() && (#[trigger] keys@[j])@ == k,
            forall|a: int, b: int| 0 <= a < b < keys@.len() ==> text_less(keys@[a]@, keys@[b]@),
            !fields_of(*file).dom().contains(key@),
    {
        if same_text(stored_key(keys[i].as_str()).as_str(), key) {
            proof {
                let stored = keys@[i as int]@;
                assert forall|other: Seq<char>| #[trigger]
                    fields_of(*file).dom().contains(other) && path_key(other) == key@ implies other
                    == stored || text_less(stored, other) by {
                    let j = choose|j: int| 0 <= j < keys@.len() && (#[trigger] keys@[j])@ == other;
                    assert(j >= i);
                }
            }
            return Some(keys[i].clone());
        }
    }
    None
}

/// The drafts that the members of an object are.
fn read_drafts(map: &JsonMap<String, Value>) -> (r: Drafts)
    ensures
        r@ == drafts_among(fields_of(*map)),
{
    let ghost fields = fields_of(*map);
    let keys = map_keys(map);
    let ghost names = texts_view(keys@);
    let mut drafts = Drafts::new();
    for i in 0..keys.len()
        invariant
            fields == fields_of(*map),
            names == texts_view(keys@),
            forall|k: Seq<char>, j: int|
                0 <= j < i && #[trigger] drafts_for(fields, k, names[j]) ==> drafts@.dom().contains(
                    k,
                ),
            forall|k: Seq<char>| #[trigger]
                drafts@.dom().contains(k) ==> drawn(fields, drafts@, k, names, i as int),
    {
        let ghost before = drafts@;
        let ghost root = names[i as int];
        if let Some(value) = map_get(map, keys[i].as_str()) {
            if let Some(text) = as_str(value) {
                drafts.insert(stored_key(keys[i].as_str()), text.to_owned());
                proof {
                    assert(drafts_for(fields, path_key(root), root));
                }
            }
        }
        proof {
            assert forall|k: Seq<char>| #[trigger] drafts@.dom().contains(k) implies drawn(
                fields,
                drafts@,
                k,
                names,
                i + 1,
            ) by {
                if drafts_for(fields, k, root) {
                    assert(latest(fields, k, names, i as int, i + 1));
                } else {
                    assert(before.dom().contains(k));
                    assert(drawn(fields, before, k, names, i as int));
                    let j = choose|j: int|
                        0 <= j < i && #[trigger] latest(fields, k, names, j, i as int) && before[k]
                            == fields[names[j]]->Text_0;
                    assert(latest(fields, k, names, j, i + 1));
                }
            }
        }
    }
    proof {
        let goal = drafts_among(fields);
        let n = names.len() as int;
        assert forall|k: Seq<char>| drafts@.dom().contains(k) implies goal.dom().contains(k)
            && goal[k] == #[trigger] drafts@[k] by {
            assert(drawn(fields, drafts@, k, names, n));
            let j = choose|j: int|
                0 <= j < n && #[trigger] latest(fields, k, names, j, n) && drafts@[k]
                    == fields[names[j]]->Text_0;
            let root = names[j];
            assert forall|other: Seq<char>| #[trigger] drafts_for(fields, k, other) implies other
                == root || text_less(other, root) by {
                let m = choose|m: int| 0 <= m < n && (#[trigger] keys@[m])@ == other;
                assert(names[m] == other);
                assert(m <= j);
            }
            assert(last_draft(fields, k, root));
            let chosen = choose|r: Seq<char>| #[trigger] last_draft(fields, k, r);
            lemma_text_order(root, chosen);
            assert(chosen == root);
        }
        assert forall|k: Seq<char>| goal.dom().contains(k) implies drafts@.dom().contains(k) by {
            let root = choose|r: Seq<char>| #[trigger] last_draft(fields, k, r);
            let m = choose|m: int| 0 <= m < n && (#[trigger] keys@[m])@ == root;
            assert(drafts_for(fields, k, names[m]));
        }
        assert(drafts@ =~= goal);
    }
    drafts
}

/// Of the first `end` keys, the one at `at` is the last that holds a draft for `key`.
spec fn latest(
    fields: Map<Seq<char>, Json>,
    key: Seq<char>,
    keys: Seq<Seq<char>>,
    at: int,
    end: int,
) -> bool {
    &&& drafts_for(fields, key, keys[at])
    &&& forall|m: int| at < m < end ==> !drafts_for(fields, key, #[trigger] keys[m])
}

/// The draft for `key` is that of the last of the first `end` keys that hold one.
spec fn drawn(
    fields: Map<Seq<char>, Json>,
    drafts: Map<Seq<char>, Seq<char>>,
    key: Seq<char>,
    keys: Seq<Seq<char>>,
    end: int,
) -> bool {
    exists|at: int|
        0 <= at < end && #[trigger] latest(fields, key, keys, at, end) && drafts[key]
            == fields[keys[at]]->Text_0
}

/// What an entry says.
fn scm_state_of(entry: &Value) -> (r: ScmState)
    ensures
        r.shape() == scm_in(json_of(*entry)),
        r.cleared_drafts@ == Set::<Seq<char>>::empty(),
{
    let scroll: u64 = match u64_at(entry, "scroll") {
        Some(n) => n,
        None => 0,
    };
    let drafts = match get(entry, "drafts") {
        Some(found) => match as_object(found) {
            Some(map) => read_drafts(map),
            None => Drafts::new(),
        },
        None => Drafts::new(),
    };
    let r = ScmState {
        drawers: texts_of(entry, "drawers"),
        active_root: text_at(entry, "active_root"),
        selected: text_at(entry, "selected"),
        history_target: text_at(entry, "history_target"),
        scroll: scroll as usize,
        drafts,
        cleared_drafts: Names::new(),
    };
    assert(r.shape() =~= scm_in(json_of(*entry)));
    r
}

/// One folder's entry. Unknown and missing fields default.
pub fn scm_state_for(file: &ScmFile, cwd: &Path) -> (r: ScmState)
    ensures
        r.shape() == scm_for(fields_of(*file), path_key(lossy_text(cwd))),
        r.cleared_drafts@ == Set::<Seq<char>>::empty(),
{
    let key = scm_path_key(cwd);
    proof {
        law_keys_ignore_separator_spelling(lossy_text(cwd));
    }
    match find_entry(file, key.as_str()) {
        Some(stored) => {
            proof {
                lemma_single_entry(fields_of(*file), key@, stored@);
            }
            match map_get(file, stored.as_str()) {
                Some(entry) => scm_state_of(entry),
                None => ScmState::default(),
            }
        },
        None => ScmState::default(),
    }
}

/// The state saved for `cwd` in a file of that text, for a sidebar starting up in it; no text
/// stands for a file that cannot be read.
pub fn load_scm_state(json: Option<&str>, cwd: &Path) -> (r: ScmState)
    ensures
        r.shape() == match json {
            Some(text) => scm_for(scm_entries(text@), path_key(lossy_text(cwd))),
            None => ScmShape::nothing(),
        },
        r.cleared_drafts@ == Set::<Seq<char>>::empty(),
{
    match json {
        Some(text) => scm_state_for(&decode_scm_file(text), cwd),
        None => ScmState::default(),
    }
}

/// The drafts after a pane's are merged in: what it cleared is gone, what it holds is set, and
/// what it never observed stays.
pub open spec fn merged_drafts(
    stored: Map<Seq<char>, Seq<char>>,
    cleared: Set<Seq<char>>,
    drafts: Map<Seq<char>, Seq<char>>,
) -> Map<Seq<char>, Seq<char>> {
    stored.remove_keys(cleared).union_prefer_right(drafts)
}

/// Merges a pane's drafts into those that are stored.
pub fn merge_scm_drafts(stored: &mut Drafts, state: &ScmState)
    ensures
        final(stored)@ == merged_drafts(old(stored)@, state.cleared_drafts@, state.drafts@),
{
    let ghost first = stored@;
    state.cleared_drafts.remove_from(stored);
    let ghost base = stored@;
    let count: usize = state.drafts.len();
    let ghost keys = state.drafts.keys();
    for i in 0..count
        invariant
            keys == state.drafts.keys(),
            count == keys.len(),
            forall|k: Seq<char>| #[trigger]
                stored@.dom().contains(k) <==> base.dom().contains(k) || keys.take(
                    i as int,
                ).contains(k),
            forall|k: Seq<char>|
                keys.take(i as int).contains(k) ==> #[trigger] stored@[k] == state.drafts@[k],
            forall|k: Seq<char>|
                !keys.take(i as int).contains(k) ==> #[trigger] stored@[k] == base[k],
    {
        if let Some((root, message)) = state.drafts.entry(i) {
            stored.insert(root.clone(), message.clone());
            proof {
                let next = keys.take(i as int + 1);
                assert(next =~= keys.take(i as int).push(root@));
                assert forall|k: Seq<char>| next.contains(k) <==> keys.take(i as int).contains(k)
                    || k == root@ by {
                    if keys.take(i as int).contains(k) {
                        let j = choose|j: int|
                            0 <= j < i && keys.take(i as int)[j] == k;
                        assert(next[j] == k);
                    }
                    if k == root@ {
                        assert(next[i as int] == k);
                    }
                }
            }
        }
    }
    proof {
        assert(keys.take(count as int) =~= keys);
        assert(stored@ =~= merged_drafts(first, state.cleared_drafts@, state.drafts@));
    }
}

/// A draft that the pane neither holds nor cleared stays as it is stored; one that it holds is
/// set, and one that it cleared and does not hold is gone.
pub proof fn law_merges_keep_unobserved_drafts(
    stored: Map<Seq<char>, Seq<char>>,
    cleared: Set<Seq<char>>,
    drafts: Map<Seq<char>, Seq<char>>,
    root: Seq<char>,
)
    ensures
        !cleared.contains(root) && !drafts.dom().contains(root) ==> (merged_drafts(
            stored,
            cleared,
            drafts,
        ).dom().contains(root) <==> stored.dom().contains(root)) && (stored.dom().contains(root)
            ==> merged_drafts(stored, cleared, drafts)[root] == stored[root]),
        drafts.dom().contains(root) ==> merged_drafts(stored, cleared, drafts).dom().contains(root)
            && merged_drafts(stored, cleared, drafts)[root] == drafts[root],
        cleared.contains(root) && !drafts.dom().contains(root) ==> !merged_drafts(
            stored,
            cleared,
            drafts,
        ).dom().contains(root),
{
}

/// Drafts as JSON.
pub open spec fn drafts_json(drafts: Map<Seq<char>, Seq<char>>) -> Json {
    Json::Object(drafts.map_values(|text: Seq<char>| Json::Text(text)))
}

/// The entry that says `shape`.
pub open spec fn scm_json(shape: ScmShape) -> Json {
    Json::Object(
        Map::empty().insert("drawers"@, texts_json(shape.drawers)).insert(
            "active_root"@,
            optional_text(shape.active_root),
        ).insert("selected"@, optional_text(shape.selected)).insert(
            "history_target"@,
            optional_text(shape.history_target),
        ).insert("scroll"@, Json::Number(Some(shape.scroll as int))).insert(
            "drafts"@,
            drafts_json(shape.drafts),
        ),
    )
}

/// Drafts as JSON.
fn drafts_value(drafts: &Drafts) -> (r: Value)
    ensures
        json_of(r) == drafts_json(drafts@),
{
    let mut map = new_map();
    let count: usize = drafts.len();
    let ghost keys = drafts.keys();
    for i in 0..count
        invariant
            keys == drafts.keys(),
            count == keys.len(),
            forall|k: Seq<char>| #[trigger]
                fields_of(map).dom().contains(k) <==> keys.take(i as int).contains(k),
            forall|k: Seq<char>|
                keys.take(i as int).contains(k) ==> #[trigger] fields_of(map)[k] == Json::Text(
                    drafts@[k],
                ),
    {
        if let Some((root, message)) = drafts.entry(i) {
            map_insert(&mut map, root.clone(), text_value(message.clone()));
            proof {
                let next = keys.take(i as int + 1);
                assert(next =~= keys.take(i as int).push(root@));
                assert forall|k: Seq<char>| next.contains(k) <==> keys.take(i as int).contains(k)
                    || k == root@ by {
                    if keys.take(i as int).contains(k) {
                        let j = choose|j: int|
                            0 <= j < i && keys.take(i as int)[j] == k;
                        assert(next[j] == k);
                    }
                    if k == root@ {
                        assert(next[i as int] == k);
                    }
                }
            }
        }
    }
    proof {
        assert(keys.take(count as int) =~= keys);
        assert(fields_of(map) =~= drafts@.map_values(|text: Seq<char>| Json::Text(text)));
    }
    object_value(map)
}

/// The entry that says `state` with those drafts.
fn entry_value(state: &ScmState, drafts: &Drafts) -> (r: Value)
    ensures
        json_of(r) == scm_json(ScmShape { drafts: drafts@, ..state.shape() }),
{
    let mut entry = new_map();
    map_insert(&mut entry, "drawers".to_owned(), texts_value(&state.drawers));
    map_insert(&mut entry, "active_root".to_owned(), optional_text_value(&state.active_root));
    map_insert(&mut entry, "selected".to_owned(), optional_text_value(&state.selected));
    map_insert(&mut entry, "history_target".to_owned(), optional_text_value(&state.history_target));
    map_insert(&mut entry, "scroll".to_owned(), number_value(state.scroll as u64));
    map_insert(&mut entry, "drafts".to_owned(), drafts_value(drafts));
    object_value(entry)
}

/// The entries without those of a key, however it is spelled.
pub open spec fn without_key(fields: Map<Seq<char>, Json>, key: Seq<char>) -> Map<Seq<char>, Json> {
    fields.remove_keys(Set::new(|stored: Seq<char>| path_key(stored) == key))
}

/// Takes every spelling of a key out.
fn drop_key(file: &mut ScmFile, key: &str)
    ensures
        fields_of(*final(file)) == without_key(fields_of(*old(file)), key@),
{
    let ghost before = fields_of(*file);
    let keys = map_keys(file);
    for i in 0..keys.len()
        invariant
            forall|k: Seq<char>| #[trigger]
                before.dom().contains(k) ==> exists|j: int|
                    0 <= j < keys@.len() && (#[trigger] keys@[j])@ == k,
            forall|k: Seq<char>| #[trigger]
                fields_of(*file).dom().contains(k) ==> before.dom().contains(k),
            forall|k: Seq<char>| #[trigger]
                before.dom().contains(k) && path_key(k) != key@ ==> fields_of(
                    *file,
                ).dom().contains(k),
            forall|j: int|
                0 <= j < i && path_key((#[trigger] keys@[j])@) == key@ ==> !fields_of(
                    *file,
                ).dom().contains(keys@[j]@),
            forall|k: Seq<char>|
                fields_of(*file).dom().contains(k) ==> #[trigger] fields_of(*file)[k] == before[k],
    {
        if same_text(stored_key(keys[i].as_str()).as_str(), key) {
            map_remove(file, keys[i].as_str());
        }
    }
    proof {
        let goal = without_key(before, key@);
        assert forall|k: Seq<char>| fields_of(*file).dom().contains(k) <==> goal.dom().contains(
            k,
        ) by {
            if fields_of(*file).dom().contains(k) && path_key(k) == key@ {
                let j = choose|j: int| 0 <= j < keys@.len() && (#[trigger] keys@[j])@ == k;
                assert(false);
            }
        }
        assert(fields_of(*file) =~= goal);
    }
}

/// The entries after a pane saved its state for a key: every spelling of the key gives way to one
/// entry, with the pane's drafts merged into the stored ones, and every other key stays.
pub open spec fn saved_entries(
    fields: Map<Seq<char>, Json>,
    key: Seq<char>,
    shape: ScmShape,
    cleared: Set<Seq<char>>,
) -> Map<Seq<char>, Json> {
    without_key(fields, key).insert(
        key,
        scm_json(
            ScmShape {
                drafts: merged_drafts(scm_for(fields, key).drafts, cleared, shape.drafts),
                ..shape
            },
        ),
    )
}

/// The text of the file after `cwd`'s entry is set, leaving every other folder's alone. `json` is
/// the text of the file under the write lock.
pub fn save_scm_state(json: Option<&str>, cwd: &Path, state: &ScmState) -> (r: Option<String>)
    ensures
        r is Some,
        r matches Some(text) ==> ({
            let after = saved_entries(
                entries_before(seen(json)),
                path_key(lossy_text(cwd)),
                state.shape(),
                state.cleared_drafts@,
            );
            says(text@, after)
        }),
        r matches Some(text) ==> without_bom(text@) == text@,
{
    let mut file = match json {
        Some(text) => decode_scm_file(text),
        None => new_map(),
    };
    let ghost before = fields_of(file);
    proof {
        assert(before =~= entries_before(seen(json)));
    }
    let key = scm_path_key(cwd);
    let mut drafts = scm_state_for(&file, cwd).drafts;
    merge_scm_drafts(&mut drafts, state);
    drop_key(&mut file, key.as_str());
    let ghost shape = ScmShape { drafts: drafts@, ..state.shape() };
    let ghost name = key@;
    map_insert(&mut file, key, entry_value(state, &drafts));
    proof {
        lemma_entry_is_shallow(shape);
        let after = fields_of(file);
        assert forall|k: Seq<char>| after.dom().contains(k) implies nested_within(
            #[trigger] after[k],
            (DEPTH_LIMIT - 1) as nat,
        ) by {
            if k != name {
                assert(before.dom().contains(k) && nested_within(
                    before[k],
                    (DEPTH_LIMIT - 1) as nat,
                ));
            }
        }
    }
    write_json(&file)
}

/// An entry is not nested deep.
proof fn lemma_entry_is_shallow(shape: ScmShape)
    ensures
        nested_within(scm_json(shape), (DEPTH_LIMIT - 1) as nat),
{
    let fields = scm_json(shape)->Object_0;
    let items = texts_json(shape.drawers)->Array_0;
    let drafts = drafts_json(shape.drafts)->Object_0;
    assert forall|key: Seq<char>| fields.dom().contains(key) implies nested_within(
        #[trigger] fields[key],
        (DEPTH_LIMIT - 2) as nat,
    ) by {
        assert forall|i: int| 0 <= i < items.len() implies nested_within(
            #[trigger] items[i],
            (DEPTH_LIMIT - 3) as nat,
        ) by {}
        assert(nested_within(Json::Array(items), (DEPTH_LIMIT - 2) as nat));
        assert forall|k: Seq<char>| drafts.dom().contains(k) implies nested_within(
            #[trigger] drafts[k],
            (DEPTH_LIMIT - 3) as nat,
        ) by {}
        assert(nested_within(Json::Object(drafts), (DEPTH_LIMIT - 2) as nat));
    }
}

/// The names of an entry's members are all different.
proof fn lemma_entry_names()
    ensures
        "drawers"@.len() == 7,
        "active_root"@.len() == 11,
        "selected"@.len() == 8,
        "history_target"@.len() == 14,
        "scroll"@.len() == 6,
        "drafts"@.len() == 6,
        "scroll"@ != "drafts"@,
{
    reveal_strlit("drawers");
    reveal_strlit("active_root");
    reveal_strlit("selected");
    reveal_strlit("history_target");
    reveal_strlit("scroll");
    reveal_strlit("drafts");
    assert("scroll"@[0] != "drafts"@[0]);
}

/// An entry says what was put into it, where its drafts are kept under keys.
proof fn lemma_entry_says_the_shape(shape: ScmShape)
    requires
        forall|root: Seq<char>| #[trigger] shape.drafts.dom().contains(root) ==> path_key(root) == root,
    ensures
        scm_in(scm_json(shape)) == shape,
{
    lemma_entry_names();
    let entry = scm_json(shape);
    crate::json::lemma_texts_of_texts(shape.drawers);
    assert(member(entry, "drawers"@) == Some(texts_json(shape.drawers)));
    assert(member(entry, "active_root"@) == Some(optional_text(shape.active_root)));
    assert(member(entry, "selected"@) == Some(optional_text(shape.selected)));
    assert(member(entry, "history_target"@) == Some(optional_text(shape.history_target)));
    assert(member(entry, "scroll"@) == Some(Json::Number(Some(shape.scroll as int))));
    assert(member(entry, "drafts"@) == Some(drafts_json(shape.drafts)));
    let fields = drafts_json(shape.drafts)->Object_0;
    let read = drafts_among(fields);
    assert forall|key: Seq<char>| read.dom().contains(key) <==> shape.drafts.dom().contains(
        key,
    ) by {
        if read.dom().contains(key) {
            let root = choose|r: Seq<char>| #[trigger] last_draft(fields, key, r);
            assert(shape.drafts.dom().contains(root));
        }
        if shape.drafts.dom().contains(key) {
            lemma_last_draft(shape.drafts, key);
        }
    }
    assert forall|key: Seq<char>| read.dom().contains(key) implies #[trigger] read[key]
        == shape.drafts[key] by {
        let root = choose|r: Seq<char>| #[trigger] last_draft(fields, key, r);
        assert(shape.drafts.dom().contains(root));
        assert(root == key);
    }
    assert(read =~= shape.drafts);
    assert(scm_in(entry) =~= shape);
}

/// A draft under a key is the only one for that key.
proof fn lemma_last_draft(drafts: Map<Seq<char>, Seq<char>>, key: Seq<char>)
    requires
        forall|root: Seq<char>| #[trigger] drafts.dom().contains(root) ==> path_key(root) == root,
        drafts.dom().contains(key),
    ensures
        last_draft(drafts_json(drafts)->Object_0, key, key),
{
    let fields = drafts_json(drafts)->Object_0;
    assert(drafts_for(fields, key, key));
    assert forall|other: Seq<char>| #[trigger] drafts_for(fields, key, other) implies other == key
        || text_less(other, key) by {
        assert(drafts.dom().contains(other));
    }
}

/// What a pane saved for a folder is read back for it, with the drafts merged and under their
/// keys, and every other folder reads as before. Drafts are left out that stand under a root with
/// backslashes: reading puts them under the key of that root.
pub proof fn law_saved_states_are_read_back(
    json: Option<Seq<char>>,
    key: Seq<char>,
    shape: ScmShape,
    cleared: Set<Seq<char>>,
    other: Seq<char>,
    text: Seq<char>,
)
    requires
        path_key(key) == key,
        forall|root: Seq<char>| #[trigger]
            shape.drafts.dom().contains(root) ==> path_key(root) == root,
        without_bom(text) == text,
        says(text, saved_entries(entries_before(json), key, shape, cleared)),
    ensures
        scm_for(scm_entries(text), key) == (ScmShape {
            drafts: merged_drafts(scm_for(entries_before(json), key).drafts, cleared, shape.drafts),
            ..shape
        }),
        other != key ==> scm_for(scm_entries(text), other) == scm_for(entries_before(json), other),
{
    let before = entries_before(json);
    assert(!is_unkeyed(before));
    assert(!is_unkeyed(saved_entries(before, key, shape, cleared)));
    lemma_saved_entries(before, key, shape, cleared, other);
}

/// What the entries say after a pane saved its state for a key.
proof fn lemma_saved_entries(
    before: Map<Seq<char>, Json>,
    key: Seq<char>,
    shape: ScmShape,
    cleared: Set<Seq<char>>,
    other: Seq<char>,
)
    requires
        path_key(key) == key,
        forall|root: Seq<char>| #[trigger]
            shape.drafts.dom().contains(root) ==> path_key(root) == root,
    ensures
        scm_for(saved_entries(before, key, shape, cleared), key) == (ScmShape {
            drafts: merged_drafts(scm_for(before, key).drafts, cleared, shape.drafts),
            ..shape
        }),
        other != key ==> scm_for(saved_entries(before, key, shape, cleared), other) == scm_for(
            before,
            other,
        ),
{
    let after = saved_entries(before, key, shape, cleared);
    let merged = ScmShape {
        drafts: merged_drafts(scm_for(before, key).drafts, cleared, shape.drafts),
        ..shape
    };
    assert(is_entry(after, key, key));
    lemma_single_entry(after, key, key);
    assert forall|root: Seq<char>| #[trigger] merged.drafts.dom().contains(root) implies path_key(
        root,
    ) == root by {
        if !shape.drafts.dom().contains(root) {
            assert(scm_for(before, key).drafts.dom().contains(root));
            lemma_read_drafts_are_keyed(before, key, root);
        }
    }
    lemma_entry_says_the_shape(merged);
    if other != key {
        assert forall|k: Seq<char>| is_entry(before, other, k) <==> is_entry(after, other, k) by {
            assert(path_key(k) == other ==> (before.dom().contains(k) <==> after.dom().contains(
                k,
            )));
            if is_entry(before, other, k) && k != other {
                assert(!after.dom().contains(other));
                assert forall|o: Seq<char>| #[trigger]
                    after.dom().contains(o) && path_key(o) == other implies o == k || text_less(
                    k,
                    o,
                ) by {
                    assert(before.dom().contains(o));
                }
            }
            if is_entry(after, other, k) && k != other {
                if before.dom().contains(other) {
                    law_keys_ignore_separator_spelling(k);
                    assert(path_key(other) == other);
                    assert(after.dom().contains(other));
                }
                assert forall|o: Seq<char>| #[trigger]
                    before.dom().contains(o) && path_key(o) == other implies o == k || text_less(
                    k,
                    o,
                ) by {
                    assert(after.dom().contains(o));
                }
            }
        }
        if exists|k: Seq<char>| is_entry(before, other, k) {
            let k = choose|k: Seq<char>| is_entry(before, other, k);
            lemma_single_entry(before, other, k);
            assert(is_entry(after, other, k));
            lemma_single_entry(after, other, k);
            assert(after[k] == before[k]);
        } else {
            assert(!exists|k: Seq<char>| is_entry(after, other, k));
        }
    }
}

/// Drafts are read under keys.
proof fn lemma_read_drafts_are_keyed(
    fields: Map<Seq<char>, Json>,
    key: Seq<char>,
    root: Seq<char>,
)
    requires
        scm_for(fields, key).drafts.dom().contains(root),
    ensures
        path_key(root) == root,
{
    let entry = entry_for(fields, key)->0;
    let drafts = object_in(member(entry, "drafts"@))->0;
    let spelling = choose|r: Seq<char>| #[trigger] last_draft(drafts, root, r);
    law_keys_ignore_separator_spelling(spelling);
}

} // verus!
