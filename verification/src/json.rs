use vstd::prelude::*;
use vstd::string::*;

verus! {

/// A JSON document as the registry answers it: the library reads these values,
/// whichever parser produced them.
pub enum JsonValue {
    Null,
    Bool(bool),
    /// A number, kept in its textual form.
    Number(String),
    String(String),
    Array(Vec<JsonValue>),
    /// The members of an object, in order.
    Object(Vec<(String, JsonValue)>),
}

/// The value of the first member named `key`.
pub open spec fn member(entries: Seq<(String, JsonValue)>, key: Seq<char>) -> Option<JsonValue>
    decreases entries.len(),
{
    if entries.len() == 0 {
        None
    } else if entries[0].0@ == key {
        Some(entries[0].1)
    } else {
        member(entries.drop_first(), key)
    }
}

/// `v[key]` as `serde_json` indexes a value by a member name: the member of an
/// object, or `Null` when `v` is no object or has no such member. Objects that
/// `parse_json` gives hold each name once, the last of duplicate members in the
/// text, so the first member named `key` is the only one.
pub open spec fn field(v: JsonValue, key: Seq<char>) -> JsonValue {
    match v {
        JsonValue::Object(entries) => match member(entries@, key) {
            Some(x) => x,
            None => JsonValue::Null,
        },
        _ => JsonValue::Null,
    }
}

/// The member of `v` named `key`, if `v` is an object that has one.
pub fn get_field<'a>(v: &'a JsonValue, key: &str) -> (r: Option<&'a JsonValue>)
    ensures
        match r {
            Some(x) => *x == field(*v, key@) && (*v is Object),
            None => field(*v, key@) == JsonValue::Null,
        },
        (*v is Object && member(v->Object_0@, key@) is Some) <==> r is Some,
{
    match v {
        JsonValue::Object(entries) => {
            let k = String::from_str(key);
            let mut i: usize = 0;
            assert(entries@.skip(0) =~= entries@);
            while i < entries.len()
                invariant
                    *v == JsonValue::Object(*entries),
                    k@ == key@,
                    i <= entries@.len(),
                    member(entries@, key@) == member(entries@.skip(i as int), key@),
                decreases entries.len() - i,
            {
                let ghost rest = entries@.skip(i as int);
                assert(rest.drop_first() =~= entries@.skip(i + 1));
                if entries[i].0 == k {
                    return Some(&entries[i].1);
                }
                i = i + 1;
            }
            assert(entries@.skip(i as int) =~= Seq::<(String, JsonValue)>::empty());
            None
        },
        _ => None,
    }
}


#[verifier::external_type_specification]
#[verifier::external_body]
pub struct ExSerdeValue(serde_json::Value);

/// The document that `serde_json` reads from `text` into a `serde_json::Value`,
/// in the library's terms; `None` where the text is no JSON document.
pub uninterp spec fn json_document(text: Seq<char>) -> Option<JsonValue>;

/// Turns a `serde_json::Value` into the library's `JsonValue`, member for
/// member and element for element; a number keeps its `to_string` text.
#[verifier::external_body]
fn from_serde(v: serde_json::Value) -> JsonValue {
    match v {
        serde_json::Value::Null => JsonValue::Null,
        serde_json::Value::Bool(b) => JsonValue::Bool(b),
        serde_json::Value::Number(n) => JsonValue::Number(n.to_string()),
        serde_json::Value::String(t) => JsonValue::String(t),
        serde_json::Value::Array(a) => JsonValue::Array(a.into_iter().map(from_serde).collect()),
        serde_json::Value::Object(m) => JsonValue::Object(m.into_iter().map(|(k, x)| (k, from_serde(x))).collect()),
    }
}

/// `serde_json::from_str` into a `serde_json::Value`, turned into a
/// `JsonValue`: what it gives is named by `json_document`.
#[verifier::external_body]
pub fn parse_json(text: &str) -> (r: Option<JsonValue>)
    ensures
        r == json_document(text@),
{
    match serde_json::from_str::<serde_json::Value>(text) {
        Ok(v) => Some(from_serde(v)),
        Err(_) => None,
    }
}

/// The position of the first member named `key`.
fn member_index(entries: &Vec<(String, JsonValue)>, key: &str) -> (r: Option<usize>)
    ensures
        match r {
            Some(i) => i < entries@.len() && member(entries@, key@) == Some(entries@[i as int].1),
            None => member(entries@, key@) is None,
        },
{
    let k = String::from_str(key);
    let mut i: usize = 0;
    assert(entries@.skip(0) =~= entries@);
    while i < entries.len()
        invariant
            k@ == key@,
            i <= entries@.len(),
            member(entries@, key@) == member(entries@.skip(i as int), key@),
        decreases entries.len() - i,
    {
        let ghost rest = entries@.skip(i as int);
        assert(rest.drop_first() =~= entries@.skip(i + 1));
        if entries[i].0 == k {
            return Some(i);
        }
        i = i + 1;
    }
    assert(entries@.skip(i as int) =~= Seq::<(String, JsonValue)>::empty());
    None
}

/// The member of `v` named `key`, taken out of `v`: `v[key]`, or `None` where
/// that is `Null` for want of such a member.
pub fn into_field(v: JsonValue, key: &str) -> (r: Option<JsonValue>)
    ensures
        match r {
            Some(x) => x == field(v, key@),
            None => field(v, key@) == JsonValue::Null,
        },
        (v is Object && member(v->Object_0@, key@) is Some) <==> r is Some,
{
    match v {
        JsonValue::Object(mut entries) => {
            let ghost before = entries@;
            match member_index(&entries, key) {
                Some(i) => {
                    let (_, x) = entries.remove(i);
                    assert(x == before[i as int].1);
                    Some(x)
                },
                None => None,
            }
        },
        _ => None,
    }
}

} // verus!
