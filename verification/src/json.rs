//! JSON values: what a `serde_json` value holds, and the calls into that crate.

use crate::text::decimal_text;
use crate::text::text_less;
use serde_json::Map as JsonMap;
use serde_json::Value;
use vstd::prelude::*;

verus! {

#[verifier::external_type_specification]
#[verifier::external_body]
pub struct ExJsonValue(serde_json::Value);

#[verifier::external_type_specification]
#[verifier::external_body]
#[verifier::reject_recursive_types(K)]
#[verifier::reject_recursive_types(V)]
pub struct ExJsonMap<K, V>(serde_json::Map<K, V>);

/// What a JSON value holds. A number is the integer that it is, or nothing where it is written
/// with a fraction or an exponent or is too large to be kept as an integer.
#[verifier::ext_equal]
pub enum Json {
    Null,
    Bool(bool),
    Number(Option<int>),
    Text(Seq<char>),
    Array(Seq<Json>),
    Object(Map<Seq<char>, Json>),
}

/// The member of an object under a key, if `json` is an object that has it.
pub open spec fn member(json: Json, key: Seq<char>) -> Option<Json> {
    match json {
        Json::Object(fields) => if fields.dom().contains(key) {
            Some(fields[key])
        } else {
            None
        },
        _ => None,
    }
}

/// The truth value that `json` is, if it is one.
pub open spec fn bool_in(json: Option<Json>) -> Option<bool> {
    match json {
        Some(Json::Bool(b)) => Some(b),
        _ => None,
    }
}

/// The text that `json` is, if it is one.
pub open spec fn text_in(json: Option<Json>) -> Option<Seq<char>> {
    match json {
        Some(Json::Text(text)) => Some(text),
        _ => None,
    }
}

/// The unsigned integer that `json` is, if it is one.
pub open spec fn u64_in(json: Option<Json>) -> Option<u64> {
    match json {
        Some(Json::Number(Some(n))) => if 0 <= n <= u64::MAX {
            Some(n as u64)
        } else {
            None
        },
        _ => None,
    }
}

/// The items of the array that `json` is, if it is one.
pub open spec fn array_in(json: Option<Json>) -> Option<Seq<Json>> {
    match json {
        Some(Json::Array(items)) => Some(items),
        _ => None,
    }
}

/// The members of the object that `json` is, if it is one.
pub open spec fn object_in(json: Option<Json>) -> Option<Map<Seq<char>, Json>> {
    match json {
        Some(Json::Object(fields)) => Some(fields),
        _ => None,
    }
}

/// No more than `depth` arrays and objects of `json` lie inside one another.
pub open spec fn nested_within(json: Json, depth: nat) -> bool
    decreases depth,
{
    match json {
        Json::Array(items) => depth > 0 && forall|i: int|
            0 <= i < items.len() ==> nested_within(#[trigger] items[i], (depth - 1) as nat),
        Json::Object(fields) => depth > 0 && forall|key: Seq<char>|
            fields.dom().contains(key) ==> nested_within(
                #[trigger] fields[key],
                (depth - 1) as nat,
            ),
        _ => true,
    }
}

/// How deep arrays and objects may lie inside one another in a text that is read.
pub const DEPTH_LIMIT: usize = 127;

/// A value without parts, as a flat object holds it.
pub enum Scalar {
    Bool(bool),
    Number(nat),
    Text(Seq<char>),
}

/// The members of a flat object, in the order in which they are written.
pub type Members = Seq<(Seq<char>, Scalar)>;

/// A name that JSON quotes without escapes: ASCII letters, digits, `-` and `_`.
pub open spec fn plain_name(text: Seq<char>) -> bool {
    forall|i: int| 0 <= i < text.len() ==> plain_char(#[trigger] text[i])
}

/// An ASCII letter, a digit, `-` or `_`.
pub open spec fn plain_char(c: char) -> bool {
    'a' <= c <= 'z' || 'A' <= c <= 'Z' || '0' <= c <= '9' || c == '-' || c == '_'
}

/// `text` between double quotes.
pub open spec fn quoted(text: Seq<char>) -> Seq<char> {
    seq!['"'] + text + seq!['"']
}

/// How a scalar is written.
pub open spec fn scalar_text(scalar: Scalar) -> Seq<char> {
    match scalar {
        Scalar::Bool(true) => "true"@,
        Scalar::Bool(false) => "false"@,
        Scalar::Number(n) => decimal_text(n),
        Scalar::Text(text) => quoted(text),
    }
}

/// The value that a scalar is.
pub open spec fn scalar_json(scalar: Scalar) -> Json {
    match scalar {
        Scalar::Bool(b) => Json::Bool(b),
        Scalar::Number(n) => Json::Number(Some(n as int)),
        Scalar::Text(text) => Json::Text(text),
    }
}

/// How one member of an object is written.
pub open spec fn member_text(name: Seq<char>, value: Scalar) -> Seq<char> {
    quoted(name) + seq![':'] + scalar_text(value)
}

/// How members are written, one behind the other, with commas between.
pub open spec fn members_text(members: Members) -> Seq<char>
    decreases members.len(),
{
    if members.len() == 0 {
        Seq::empty()
    } else if members.len() == 1 {
        member_text(members[0].0, members[0].1)
    } else {
        members_text(members.drop_last()) + seq![','] + member_text(
            members.last().0,
            members.last().1,
        )
    }
}

/// How a flat object is written, without spaces.
pub open spec fn flat_text(members: Members) -> Seq<char> {
    seq!['{'] + members_text(members) + seq!['}']
}

/// What a flat object holds; of members with one name the last counts.
pub open spec fn flat_fields(members: Members) -> Map<Seq<char>, Json>
    decreases members.len(),
{
    if members.len() == 0 {
        Map::empty()
    } else {
        flat_fields(members.drop_last()).insert(members.last().0, scalar_json(members.last().1))
    }
}

/// Members whose names and texts need no escapes and whose numbers are 64-bit.
pub open spec fn plain_members(members: Members) -> bool {
    forall|i: int|
        0 <= i < members.len() ==> plain_name((#[trigger] members[i]).0) && match members[i].1 {
            Scalar::Text(text) => plain_name(text),
            Scalar::Number(n) => n <= u64::MAX,
            Scalar::Bool(_) => true,
        }
}

/// What `value` holds.
pub uninterp spec fn json_of(value: Value) -> Json;

/// What the members of `map` hold, by key.
pub uninterp spec fn fields_of(map: JsonMap<String, Value>) -> Map<Seq<char>, Json>;

/// What reading `text` as JSON gives: the value, or the text of the error.
pub uninterp spec fn parsed_json(text: Seq<char>) -> Result<Json, Seq<char>>;

/// The result of reading a text that says `json`.
pub open spec fn read_as(json: Json) -> Result<Json, Seq<char>> {
    Ok(json)
}

/// The result of reading a text that is no JSON, with the text of the error.
pub open spec fn refused(error: Seq<char>) -> Result<Json, Seq<char>> {
    Err(error)
}

/// The members of an empty object.
pub open spec fn no_fields() -> Map<Seq<char>, Json> {
    Map::empty()
}

/// What each value of a list holds.
pub open spec fn jsons_of(values: Seq<Value>) -> Seq<Json> {
    values.map_values(|value: Value| json_of(value))
}

/// A flat object in its shortest spelling is read as what it says.
pub open spec fn flat_objects_are_read(text: Seq<char>, r: Result<Value, String>) -> bool {
    forall|members: Members| #[trigger]
        flat_text(members) == text && plain_members(members) ==> (r matches Ok(value) && json_of(
            value,
        ) == Json::Object(flat_fields(members)))
}

/// `serde_json::from_str`: reads `text` as one JSON value. What it gives is named
/// (`parsed_json`). Claimed besides: a value that was read is nested at most `DEPTH_LIMIT` deep
/// (the reader refuses more), and a flat object in its shortest spelling is read as what it says.
#[verifier::external_body]
pub(crate) fn parse_json(text: &str) -> (r: Result<Value, String>)
    ensures
        match r {
            Ok(value) => parsed_json(text@) == read_as(json_of(value)),
            Err(error) => parsed_json(text@) == refused(error@),
        },
        r matches Ok(value) ==> nested_within(json_of(value), DEPTH_LIMIT as nat),
        flat_objects_are_read(text@, r),
{
    serde_json::from_str::<Value>(text).map_err(|error| error.to_string())
}

/// `text` says the object of those members: it starts with the object's brace, and reading it
/// gives the object.
pub open spec fn says(text: Seq<char>, fields: Map<Seq<char>, Json>) -> bool {
    &&& text.len() > 0 && text[0] == '{'
    &&& parsed_json(text) == read_as(Json::Object(fields))
}

/// `serde_json::to_string` on an object that is not nested too deep: its text. The writer fails
/// on keys that are no texts and on a sink that refuses bytes, and there is neither. Claimed: the
/// text says the object. How it spells it (spaces, escapes) is not stated.
///
/// Numbers that are no integers are printed with a point or an exponent, so they are read as
/// such, and none is refused. The reader multiplies the digits by a power of ten, and refuses
/// what comes out infinite; of the decimals of up to 17 digits that stand for finite numbers that
/// is 1.7976931348623158e308 alone, while the largest number is printed as its nearest decimal,
/// 1.7976931348623157e308.
#[verifier::external_body]
pub(crate) fn write_json(map: &JsonMap<String, Value>) -> (r: Option<String>)
    requires
        nested_within(Json::Object(fields_of(*map)), DEPTH_LIMIT as nat),
    ensures
        r is Some,
        r matches Some(text) ==> says(text@, fields_of(*map)),
{
    serde_json::to_string(map).ok()
}

/// `serde_json::Value::get` with a text: the member of an object under that key.
#[verifier::external_body]
pub(crate) fn get<'a>(value: &'a Value, key: &str) -> (r: Option<&'a Value>)
    ensures
        match r {
            Some(found) => member(json_of(*value), key@) == Some(json_of(*found)),
            None => member(json_of(*value), key@) is None,
        },
{
    value.get(key)
}

/// `serde_json::Value::as_bool`.
#[verifier::external_body]
pub(crate) fn as_bool(value: &Value) -> (r: Option<bool>)
    ensures
        r == bool_in(Some(json_of(*value))),
{
    value.as_bool()
}

/// `serde_json::Value::as_u64`.
#[verifier::external_body]
pub(crate) fn as_u64(value: &Value) -> (r: Option<u64>)
    ensures
        r == u64_in(Some(json_of(*value))),
{
    value.as_u64()
}

/// `serde_json::Value::as_str`.
#[verifier::external_body]
pub(crate) fn as_str(value: &Value) -> (r: Option<&str>)
    ensures
        match r {
            Some(text) => text_in(Some(json_of(*value))) == Some(text@),
            None => text_in(Some(json_of(*value))) is None,
        },
{
    value.as_str()
}

/// `serde_json::Value::as_array`.
#[verifier::external_body]
pub(crate) fn as_array(value: &Value) -> (r: Option<&Vec<Value>>)
    ensures
        match r {
            Some(items) => array_in(Some(json_of(*value))) == Some(jsons_of(items@)),
            None => array_in(Some(json_of(*value))) is None,
        },
{
    value.as_array()
}

/// `serde_json::Value::as_object`.
#[verifier::external_body]
pub(crate) fn as_object(value: &Value) -> (r: Option<&JsonMap<String, Value>>)
    ensures
        match r {
            Some(map) => object_in(Some(json_of(*value))) == Some(fields_of(*map)),
            None => object_in(Some(json_of(*value))) is None,
        },
{
    value.as_object()
}

/// The object that a `serde_json::Value` is, taken out of it.
#[verifier::external_body]
pub(crate) fn into_object(value: Value) -> (r: Option<JsonMap<String, Value>>)
    ensures
        match r {
            Some(map) => object_in(Some(json_of(value))) == Some(fields_of(map)),
            None => object_in(Some(json_of(value))) is None,
        },
{
    match value {
        Value::Object(map) => Some(map),
        _ => None,
    }
}

/// `serde_json::Map::new`: an object without members.
#[verifier::external_body]
pub(crate) fn new_map() -> (r: JsonMap<String, Value>)
    ensures
        fields_of(r) == no_fields(),
{
    JsonMap::new()
}

/// `serde_json::Map::get`.
#[verifier::external_body]
pub(crate) fn map_get<'a>(map: &'a JsonMap<String, Value>, key: &str) -> (r: Option<&'a Value>)
    ensures
        match r {
            Some(found) => fields_of(*map).dom().contains(key@) && fields_of(*map)[key@] == json_of(
                *found,
            ),
            None => !fields_of(*map).dom().contains(key@),
        },
{
    map.get(key)
}

/// `serde_json::Map::insert`: sets the member under `key`.
#[verifier::external_body]
pub(crate) fn map_insert(map: &mut JsonMap<String, Value>, key: String, value: Value)
    ensures
        fields_of(*final(map)) == fields_of(*old(map)).insert(key@, json_of(value)),
{
    map.insert(key, value);
}

/// `serde_json::Map::remove`: takes the member under `key` out.
#[verifier::external_body]
pub(crate) fn map_remove(map: &mut JsonMap<String, Value>, key: &str)
    ensures
        fields_of(*final(map)) == fields_of(*old(map)).remove(key@),
{
    map.remove(key);
}

/// `serde_json::Map::keys`: every key once, in the order of the texts.
#[verifier::external_body]
pub(crate) fn map_keys(map: &JsonMap<String, Value>) -> (r: Vec<String>)
    ensures
        forall|i: int|
            0 <= i < r@.len() ==> fields_of(*map).dom().contains((#[trigger] r@[i])@),
        forall|key: Seq<char>| #[trigger]
            fields_of(*map).dom().contains(key) ==> exists|i: int|
                0 <= i < r@.len() && (#[trigger] r@[i])@ == key,
        forall|i: int, j: int| 0 <= i < j < r@.len() ==> text_less(r@[i]@, r@[j]@),
{
    map.keys().cloned().collect()
}

/// `serde_json::Value::Null`.
#[verifier::external_body]
pub(crate) fn null_value() -> (r: Value)
    ensures
        json_of(r) == Json::Null,
{
    Value::Null
}

/// `serde_json::Value::from` an unsigned integer.
#[verifier::external_body]
pub(crate) fn number_value(n: u64) -> (r: Value)
    ensures
        json_of(r) == Json::Number(Some(n as int)),
{
    Value::from(n)
}

/// `serde_json::Value::Bool`.
#[verifier::external_body]
pub(crate) fn bool_value(b: bool) -> (r: Value)
    ensures
        json_of(r) == Json::Bool(b),
{
    Value::Bool(b)
}

/// `serde_json::Value::String`.
#[verifier::external_body]
pub(crate) fn text_value(text: String) -> (r: Value)
    ensures
        json_of(r) == Json::Text(text@),
{
    Value::String(text)
}

/// `serde_json::Value::Array`.
#[verifier::external_body]
pub(crate) fn array_value(items: Vec<Value>) -> (r: Value)
    ensures
        json_of(r) == Json::Array(jsons_of(items@)),
{
    Value::Array(items)
}

/// `serde_json::Value::Object`.
#[verifier::external_body]
pub(crate) fn object_value(map: JsonMap<String, Value>) -> (r: Value)
    ensures
        json_of(r) == Json::Object(fields_of(map)),
{
    Value::Object(map)
}

/// A text, or nothing, as JSON.
pub open spec fn optional_text(text: Option<Seq<char>>) -> Json {
    match text {
        Some(t) => Json::Text(t),
        None => Json::Null,
    }
}

/// The view of a text that may be missing.
pub open spec fn text_view(text: Option<String>) -> Option<Seq<char>> {
    match text {
        Some(t) => Some(t@),
        None => None,
    }
}

/// A text, or null for none.
pub(crate) fn optional_text_value(text: &Option<String>) -> (r: Value)
    ensures
        json_of(r) == optional_text(text_view(*text)),
{
    match text {
        Some(t) => text_value(t.clone()),
        None => null_value(),
    }
}

/// The texts among `items`, in order.
pub open spec fn texts_among(items: Seq<Json>) -> Seq<Seq<char>>
    decreases items.len(),
{
    if items.len() == 0 {
        Seq::empty()
    } else {
        match items.last() {
            Json::Text(text) => texts_among(items.drop_last()).push(text),
            _ => texts_among(items.drop_last()),
        }
    }
}

/// The views of a list of texts.
pub open spec fn texts_view(texts: Seq<String>) -> Seq<Seq<char>> {
    texts.map_values(|text: String| text@)
}

/// The texts of the array under `key`, in order; none where there is no array.
pub open spec fn texts_at(json: Json, key: Seq<char>) -> Seq<Seq<char>> {
    match array_in(member(json, key)) {
        Some(items) => texts_among(items),
        None => Seq::empty(),
    }
}

/// The truth value under `key`.
pub(crate) fn bool_at(value: &Value, key: &str) -> (r: Option<bool>)
    ensures
        r == bool_in(member(json_of(*value), key@)),
{
    match get(value, key) {
        Some(found) => as_bool(found),
        None => None,
    }
}

/// The unsigned integer under `key`.
pub(crate) fn u64_at(value: &Value, key: &str) -> (r: Option<u64>)
    ensures
        r == u64_in(member(json_of(*value), key@)),
{
    match get(value, key) {
        Some(found) => as_u64(found),
        None => None,
    }
}

/// The text under `key`.
pub(crate) fn text_at(value: &Value, key: &str) -> (r: Option<String>)
    ensures
        text_view(r) == text_in(member(json_of(*value), key@)),
{
    match get(value, key) {
        Some(found) => match as_str(found) {
            Some(text) => Some(text.to_owned()),
            None => None,
        },
        None => None,
    }
}

/// The texts of the array under `key`, in order; none where there is no array.
pub(crate) fn texts_of(value: &Value, key: &str) -> (r: Vec<String>)
    ensures
        texts_view(r@) == texts_at(json_of(*value), key@),
{
    let mut out: Vec<String> = Vec::new();
    if let Some(found) = get(value, key) {
        if let Some(items) = as_array(found) {
            let ghost all = jsons_of(items@);
            for i in 0..items.len()
                invariant
                    all == jsons_of(items@),
                    texts_view(out@) == texts_among(all.take(i as int)),
            {
                proof {
                    assert(all.take(i as int + 1).drop_last() =~= all.take(i as int));
                    assert(all.take(i as int + 1).last() == json_of(items@[i as int]));
                }
                if let Some(text) = as_str(&items[i]) {
                    let ghost before = out@;
                    out.push(text.to_owned());
                    proof {
                        assert(texts_view(out@) =~= texts_view(before).push(text@));
                    }
                }
            }
            assert(all.take(all.len() as int) =~= all);
            return out;
        }
    }
    assert(texts_view(out@) =~= Seq::<Seq<char>>::empty());
    out
}

/// A list of texts as JSON.
pub open spec fn texts_json(texts: Seq<Seq<char>>) -> Json {
    Json::Array(texts.map_values(|text: Seq<char>| Json::Text(text)))
}

/// A list of texts as JSON.
pub(crate) fn texts_value(texts: &Vec<String>) -> (r: Value)
    ensures
        json_of(r) == texts_json(texts_view(texts@)),
{
    let mut items: Vec<Value> = Vec::new();
    for i in 0..texts.len()
        invariant
            items@.len() == i,
            forall|j: int|
                0 <= j < i ==> json_of(#[trigger] items@[j]) == Json::Text(texts@[j]@),
    {
        items.push(text_value(texts[i].clone()));
    }
    let r = array_value(items);
    proof {
        assert(jsons_of(items@) =~= texts_view(texts@).map_values(
            |text: Seq<char>| Json::Text(text),
        ));
    }
    r
}

/// The texts of a list of texts are that list.
pub proof fn lemma_texts_of_texts(texts: Seq<Seq<char>>)
    ensures
        texts_among(texts.map_values(|text: Seq<char>| Json::Text(text))) == texts,
    decreases texts.len(),
{
    let items = texts.map_values(|text: Seq<char>| Json::Text(text));
    if texts.len() > 0 {
        lemma_texts_of_texts(texts.drop_last());
        assert(items.drop_last() =~= texts.drop_last().map_values(
            |text: Seq<char>| Json::Text(text),
        ));
        assert(texts.drop_last().push(texts.last()) =~= texts);
    }
}

} // verus!
