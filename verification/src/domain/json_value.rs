//! A JSON document as values, and the action names that the script's list
//! of actions gives.
use crate::text::str_eq;
use vstd::prelude::*;

verus! {

/// A JSON value. Numbers are kept as their text; an object keeps its
/// members, each key once, in the order the reader gave them.
pub enum JsonValue {
    Null,
    Bool(bool),
    Number(String),
    String(String),
    Array(Vec<JsonValue>),
    Object(Vec<(String, JsonValue)>),
}

/// `serde_json::Value`, carried as an opaque value.
#[verifier::external_type_specification]
#[verifier::external_body]
pub struct ExSerdeJsonValue(serde_json::Value);

/// What `serde_json::from_str` reads from a text, in this library's form:
/// `None` when the text is not JSON.
pub uninterp spec fn json_of_text(text: Seq<char>) -> Option<JsonValue>;

/// `serde_json::Value` in this library's form: one arm per variant, a
/// number as its text, an object's members in the map's order.
#[verifier::external_body]
fn json_value_from_serde(v: &serde_json::Value) -> JsonValue {
    match v {
        serde_json::Value::Null => JsonValue::Null,
        serde_json::Value::Bool(b) => JsonValue::Bool(*b),
        serde_json::Value::Number(n) => JsonValue::Number(n.to_string()),
        serde_json::Value::String(s) => JsonValue::String(s.clone()),
        serde_json::Value::Array(a) => JsonValue::Array(a.iter().map(json_value_from_serde).collect()),
        serde_json::Value::Object(m) => JsonValue::Object(
            m.iter().map(|(k, x)| (k.clone(), json_value_from_serde(x))).collect(),
        ),
    }
}

/// `serde_json::from_str` into a `Value`, converted to this library's form:
/// claims only that the result is the named one, a function of the text.
#[verifier::external_body]
pub(crate) fn read_json(text: &str) -> (r: Option<JsonValue>)
    ensures
        r == json_of_text(text@),
{
    serde_json::from_str::<serde_json::Value>(text).ok().map(|v| json_value_from_serde(&v))
}

/// The value of the first member of `members` whose key is `key`.
pub open spec fn member_value(members: Seq<(String, JsonValue)>, key: Seq<char>) -> Option<JsonValue>
    decreases members.len(),
{
    if members.len() == 0 {
        None
    } else if members[0].0@ == key {
        Some(members[0].1)
    } else {
        member_value(members.drop_first(), key)
    }
}

/// The `action_name` of a listed action: the member `action_name` of an
/// object, when it is a string.
pub open spec fn action_name_of(item: JsonValue) -> Option<Seq<char>> {
    match item {
        JsonValue::Object(members) => match member_value(members@, "action_name"@) {
            Some(JsonValue::String(s)) => Some(s@),
            _ => None,
        },
        _ => None,
    }
}

/// For a JSON array, the `action_name` of each element in order; `None`
/// for any other value.
pub open spec fn action_names_of(v: JsonValue) -> Option<Seq<Option<Seq<char>>>> {
    match v {
        JsonValue::Array(items) => Some(items@.map_values(|i: JsonValue| action_name_of(i))),
        _ => None,
    }
}

/// An optional text as values.
pub open spec fn opt_view(o: Option<String>) -> Option<Seq<char>> {
    match o {
        Some(s) => Some(s@),
        None => None,
    }
}

/// The `action_name` of one listed action.
pub fn action_name_from_item(item: &JsonValue) -> (r: Option<String>)
    ensures
        opt_view(r) == action_name_of(*item),
{
    match item {
        JsonValue::Object(members) => {
            let mut i: usize = 0;
            assert(members@.skip(0) =~= members@);
            while i < members.len()
                invariant
                    *item == JsonValue::Object(*members),
                    i <= members.len(),
                    member_value(members@, "action_name"@) == member_value(
                        members@.skip(i as int),
                        "action_name"@,
                    ),
                decreases members.len() - i,
            {
                assert(members@.skip(i as int).drop_first() =~= members@.skip(i + 1));
                assert(members@.skip(i as int)[0] == members@[i as int]);
                if str_eq(members[i].0.as_str(), "action_name") {
                    assert(member_value(members@, "action_name"@) == Some(members@[i as int].1));
                    let val = &members[i].1;
                    let r = match val {
                        JsonValue::String(s) => Some(s.clone()),
                        _ => None,
                    };
                    assert(opt_view(r) == match *val {
                        JsonValue::String(s) => Some(s@),
                        _ => None,
                    });
                    return r;
                }
                i = i + 1;
            }
            assert(members@.skip(members.len() as int) =~= Seq::<(String, JsonValue)>::empty());
            None
        },
        _ => None,
    }
}

/// For a JSON array, the `action_name` of each element in order; `None`
/// for any other value.
pub fn action_names_from_value(v: &JsonValue) -> (r: Option<Vec<Option<String>>>)
    ensures
        match r {
            None => action_names_of(*v) is None,
            Some(names) => action_names_of(*v) == Some(names@.map_values(|o: Option<String>| opt_view(o))),
        },
{
    match v {
        JsonValue::Array(items) => {
            let mut names: Vec<Option<String>> = Vec::new();
            let mut i: usize = 0;
            while i < items.len()
                invariant
                    i <= items.len(),
                    names@.map_values(|o: Option<String>| opt_view(o)) == items@.subrange(
                        0,
                        i as int,
                    ).map_values(|it: JsonValue| action_name_of(it)),
                decreases items.len() - i,
            {
                let n = action_name_from_item(&items[i]);
                let ghost prev = names@.map_values(|o: Option<String>| opt_view(o));
                names.push(n);
                assert(names@.map_values(|o: Option<String>| opt_view(o)) =~= prev.push(opt_view(n)));
                assert(items@.subrange(0, i + 1) =~= items@.subrange(0, i as int).push(items@[i as int]));
                assert(names@.map_values(|o: Option<String>| opt_view(o)) =~= items@.subrange(
                    0,
                    i + 1,
                ).map_values(|it: JsonValue| action_name_of(it)));
                i = i + 1;
            }
            assert(items@.subrange(0, items.len() as int) =~= items@);
            Some(names)
        },
        _ => None,
    }
}

} // verus!
