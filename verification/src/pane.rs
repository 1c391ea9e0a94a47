//! The pane that a view runs in: what is asked of the host about it, and what its answers say.

use crate::json::{
    array_in, as_array, as_bool, as_str, bool_in, bool_value, fields_of, get, json_of, jsons_of,
    map_insert, member, new_map, object_value, parse_json, parsed_json, text_in, text_value,
    texts_json, texts_value, texts_view, Json,
};
use crate::paths::{path_text, show};
use crate::state::{View, EXECUTABLE_NAME};
use crate::text::{concat3, same_text, trim_bom, without_bom};
use serde_json::Map as JsonMap;
use serde_json::Value;
use std::path::Path;
use vstd::prelude::*;
use vstd::string::*;
use vstd::view::View as _;

verus! {

/// A handle on the view's own pane.
#[derive(Debug)]
pub struct PaneCtl {
    pub pane_id: String,
}

/// An identity token of a pane: that of a view, stamped or cleared.
#[derive(Clone, Copy, PartialEq, Eq, Debug, Structural)]
pub struct Token {
    pub view: View,
    pub stamped: bool,
}

/// The parameters of a call about a pane.
pub open spec fn pane_fields(pane_id: Seq<char>) -> Map<Seq<char>, Json> {
    Map::empty().insert("pane_id"@, Json::Text(pane_id))
}

impl PaneCtl {
    /// The pane that the environment names, if it names one.
    pub fn from_env(pane_id: Option<String>) -> (r: Option<PaneCtl>)
        ensures
            match r {
                Some(ctl) => pane_id == Some(ctl.pane_id) && ctl.pane_id@.len() > 0,
                None => pane_id matches Some(id) ==> id@.len() == 0,
            },
    {
        match pane_id {
            Some(pane_id) => if pane_id.as_str().is_empty() {
                None
            } else {
                Some(PaneCtl { pane_id })
            },
            None => None,
        }
    }

    /// The identity tokens to report: always the view's own, so that launchers recognise this
    /// pane; in the unified sidebar the other view's too, since one pane serves both launchers,
    /// else the other view's is cleared.
    pub fn report_tokens(&self, my: View, merged: bool) -> (r: (Token, Token))
        ensures
            r.0 == (Token { view: my, stamped: true }),
            r.1 == (Token { view: my.other_view(), stamped: merged }),
    {
        (Token { view: my, stamped: true }, Token { view: my.other(), stamped: merged })
    }

    /// The parameters of a call about this pane.
    pub fn params(&self) -> (r: Value)
        ensures
            json_of(r) == Json::Object(pane_fields(self.pane_id@)),
    {
        let mut params = new_map();
        map_insert(&mut params, "pane_id".to_owned(), text_value(self.pane_id.clone()));
        object_value(params)
    }

    /// The parameters that set or clear the pane's label.
    pub fn set_label(&self, label: Option<&str>) -> (r: Value)
        ensures
            json_of(r) == Json::Object(
                match label {
                    Some(label) => pane_fields(self.pane_id@).insert(
                        "label"@,
                        Json::Text(label@),
                    ),
                    None => pane_fields(self.pane_id@),
                },
            ),
    {
        let mut params = new_map();
        map_insert(&mut params, "pane_id".to_owned(), text_value(self.pane_id.clone()));
        if let Some(label) = label {
            map_insert(&mut params, "label".to_owned(), text_value(label.to_owned()));
        }
        object_value(params)
    }
}

/// The command that starts a view in a pane of its own.
pub fn view_command(view: View) -> (r: String)
    ensures
        r@ == EXECUTABLE_NAME@ + " --view "@ + view.flag_text(),
{
    concat3(EXECUTABLE_NAME, " --view ", view.view_flag())
}

/// The parameters that type a command into a pane and send it off.
pub fn send_command(pane_id: &str, command: &str) -> (r: Value)
    ensures
        json_of(r) == Json::Object(
            pane_fields(pane_id@).insert("text"@, Json::Text(command@)).insert(
                "keys"@,
                texts_json(Seq::empty().push("Enter"@)),
            ),
        ),
{
    let mut params = new_map();
    map_insert(&mut params, "pane_id".to_owned(), text_value(pane_id.to_owned()));
    map_insert(&mut params, "text".to_owned(), text_value(command.to_owned()));
    let mut keys: Vec<String> = Vec::new();
    keys.push("Enter".to_owned());
    assert(texts_view(keys@) =~= Seq::empty().push("Enter"@));
    map_insert(&mut params, "keys".to_owned(), texts_value(&keys));
    object_value(params)
}

/// The parameters that split a pane: a new one beside it, in a folder and with an environment,
/// that does not take the focus. How the width is shared is for the caller to add.
pub open spec fn split_fields(pane_id: Seq<char>, cwd: Seq<char>, env: Json) -> Map<
    Seq<char>,
    Json,
> {
    Map::empty().insert("target_pane_id"@, Json::Text(pane_id)).insert(
        "direction"@,
        Json::Text("right"@),
    ).insert("focus"@, Json::Bool(false)).insert("cwd"@, Json::Text(cwd)).insert("env"@, env)
}

/// The parameters that split a pane.
pub fn split_params(pane_id: &str, cwd: &Path, env: Value) -> (r: JsonMap<String, Value>)
    ensures
        fields_of(r) == split_fields(pane_id@, path_text(cwd), json_of(env)),
{
    let mut params = new_map();
    map_insert(&mut params, "target_pane_id".to_owned(), text_value(pane_id.to_owned()));
    map_insert(&mut params, "direction".to_owned(), text_value("right".to_owned()));
    map_insert(&mut params, "focus".to_owned(), bool_value(false));
    map_insert(&mut params, "cwd".to_owned(), text_value(show(cwd)));
    map_insert(&mut params, "env".to_owned(), env);
    params
}

/// The first of `items` from `from` on whose member `name` is the text `sought`.
pub open spec fn first_with(
    items: Seq<Json>,
    name: Seq<char>,
    sought: Seq<char>,
    from: int,
) -> Option<Json>
    decreases items.len() - from,
{
    if from < 0 || from >= items.len() {
        None
    } else if text_in(member(items[from], name)) == Some(sought) {
        Some(items[from])
    } else {
        first_with(items, name, sought, from + 1)
    }
}

/// The first of `items` whose member `name` is the text `sought`.
pub(crate) fn find_with<'a>(items: &'a Vec<Value>, name: &str, sought: &str) -> (r: Option<
    &'a Value,
>)
    ensures
        match r {
            Some(found) => first_with(jsons_of(items@), name@, sought@, 0) == Some(
                json_of(*found),
            ),
            None => first_with(jsons_of(items@), name@, sought@, 0) is None,
        },
{
    let ghost all = jsons_of(items@);
    for i in 0..items.len()
        invariant
            all == jsons_of(items@),
            all.len() == items@.len(),
            first_with(all, name@, sought@, 0) == first_with(all, name@, sought@, i as int),
    {
        assert(all[i as int] == json_of(items@[i as int]));
        if let Some(value) = get(&items[i], name) {
            if let Some(text) = as_str(value) {
                if same_text(text, sought) {
                    return Some(&items[i]);
                }
            }
        }
    }
    None
}

/// The items of the list under `name` in the result of an answer.
pub open spec fn result_list(answer: Json, name: Seq<char>) -> Option<Seq<Json>> {
    match member(answer, "result"@) {
        Some(result) => array_in(member(result, name)),
        None => None,
    }
}

/// The items of the list under `name` in the result of an answer.
pub(crate) fn list_in_result<'a>(answer: &'a Value, name: &str) -> (r: Option<&'a Vec<Value>>)
    ensures
        match r {
            Some(items) => result_list(json_of(*answer), name@) == Some(jsons_of(items@)),
            None => result_list(json_of(*answer), name@) is None,
        },
{
    match get(answer, "result") {
        Some(result) => match get(result, name) {
            Some(list) => as_array(list),
            None => None,
        },
        None => None,
    }
}

/// Whether an answer says that a pane has the focus.
pub open spec fn says_focused(answer: Json, pane_id: Seq<char>) -> bool {
    match result_list(answer, "panes"@) {
        Some(panes) => match first_with(panes, "pane_id"@, pane_id, 0) {
            Some(pane) => bool_in(member(pane, "focused"@)) == Some(true),
            None => false,
        },
        None => false,
    }
}

/// Whether a list of panes says that one of them has the focus. An answer that is garbled, or
/// that does not know the pane, says no.
pub fn pane_focused_in(pane_list_json: &str, pane_id: &str) -> (r: bool)
    ensures
        r == match parsed_json(without_bom(pane_list_json@)) {
            Ok(answer) => says_focused(answer, pane_id@),
            Err(_) => false,
        },
{
    let text = trim_bom(pane_list_json);
    let answer = match parse_json(text.as_str()) {
        Ok(answer) => answer,
        Err(_) => {
            return false;
        },
    };
    match list_in_result(&answer, "panes") {
        Some(panes) => match find_with(panes, "pane_id", pane_id) {
            Some(pane) => match get(pane, "focused") {
                Some(focused) => match as_bool(focused) {
                    Some(b) => b,
                    None => false,
                },
                None => false,
            },
            None => false,
        },
        None => false,
    }
}

/// What an answer says of a pane depends on the first entry of that pane alone: an answer in
/// which no entry names it says no.
pub proof fn law_unknown_panes_have_no_focus(answer: Json, pane_id: Seq<char>)
    requires
        match result_list(answer, "panes"@) {
            Some(panes) => forall|i: int|
                0 <= i < panes.len() ==> text_in(member(#[trigger] panes[i], "pane_id"@)) != Some(
                    pane_id,
                ),
            None => true,
        },
    ensures
        !says_focused(answer, pane_id),
{
    if let Some(panes) = result_list(answer, "panes"@) {
        lemma_none_named(panes, "pane_id"@, pane_id, 0);
    }
}

proof fn lemma_none_named(items: Seq<Json>, name: Seq<char>, sought: Seq<char>, from: int)
    requires
        forall|i: int|
            0 <= i < items.len() ==> text_in(member(#[trigger] items[i], name)) != Some(sought),
    ensures
        first_with(items, name, sought, from) is None,
    decreases items.len() - from,
{
    if 0 <= from < items.len() {
        lemma_none_named(items, name, sought, from + 1);
    }
}

} // verus!
