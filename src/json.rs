//! A JSON document as plain values, read by serde_json, and lookups in it.
use vstd::prelude::*;

verus! {

#[verifier::external_type_specification]
#[verifier::external_body]
pub struct ExValue(serde_json::Value);

/// A JSON value. Numbers keep the decimal text that serde_json prints for them.
pub enum Json {
    Null,
    Bool(bool),
    Number(String),
    Str(String),
    Array(Vec<Json>),
    Object(Vec<Member>),
}

/// One key and its value in a JSON object.
pub struct Member {
    pub key: String,
    pub value: Json,
}

/// The document that serde_json reads from a text, or `None` where it
/// rejects the text.
pub uninterp spec fn json_read(text: Seq<char>) -> Option<Json>;

/// Relies on serde_json::from_str::<serde_json::Value>: it reads a whole
/// document or fails, and gives the same tree for the same text.
#[verifier::external_body]
pub fn read_json(text: &str) -> (r: Option<Json>)
    ensures
        r == json_read(text@),
{
    serde_json::from_str::<serde_json::Value>(text).ok().map(tree_of)
}

/// Carries a serde_json value over, variant by variant; a number as its
/// `Display` text, an object's entries in serde_json's order.
#[verifier::external_body]
fn tree_of(v: serde_json::Value) -> Json {
    match v {
        serde_json::Value::Null => Json::Null,
        serde_json::Value::Bool(b) => Json::Bool(b),
        serde_json::Value::Number(n) => Json::Number(n.to_string()),
        serde_json::Value::String(s) => Json::Str(s),
        serde_json::Value::Array(a) => Json::Array(a.into_iter().map(tree_of).collect()),
        serde_json::Value::Object(o) => Json::Object(
            o.into_iter().map(|(key, value)| Member { key, value: tree_of(value) }).collect(),
        ),
    }
}

/// The value of the first member named `key`.
pub open spec fn member_of(ms: Seq<Member>, key: Seq<char>) -> Option<Json>
    decreases ms.len(),
{
    if ms.len() == 0 {
        None
    } else if ms[0].key@ == key {
        Some(ms[0].value)
    } else {
        member_of(ms.skip(1), key)
    }
}

/// The member `key` of an object; `None` for anything else.
pub open spec fn get(j: Json, key: Seq<char>) -> Option<Json> {
    match j {
        Json::Object(ms) => member_of(ms@, key),
        _ => None,
    }
}

/// `get` through an optional value.
pub open spec fn get_in(j: Option<Json>, key: Seq<char>) -> Option<Json> {
    match j {
        Some(v) => get(v, key),
        None => None,
    }
}

/// The text of a JSON string.
pub open spec fn text_of(j: Option<Json>) -> Option<Seq<char>> {
    match j {
        Some(Json::Str(s)) => Some(s@),
        _ => None,
    }
}

/// The decimal text of a JSON number.
pub open spec fn number_of(j: Option<Json>) -> Option<Seq<char>> {
    match j {
        Some(Json::Number(s)) => Some(s@),
        _ => None,
    }
}

/// Whether two texts are equal, character by character.
pub fn same_text(a: &str, b: &str) -> (r: bool)
    ensures
        r == (a@ == b@),
{
    let n = a.unicode_len();
    if n != b.unicode_len() {
        return false;
    }
    let mut i: usize = 0;
    while i < n
        invariant
            i <= n,
            n == a@.len(),
            n == b@.len(),
            forall|j: int| 0 <= j < i ==> a@[j] == b@[j],
        decreases n - i,
    {
        if a.get_char(i) != b.get_char(i) {
            return false;
        }
        i = i + 1;
    }
    assert(a@ =~= b@);
    true
}

/// Looks up the member `key` of an object.
pub fn member<'a>(j: &'a Json, key: &str) -> (r: Option<&'a Json>)
    ensures
        match r {
            Some(v) => get(*j, key@) == Some(*v),
            None => get(*j, key@) is None,
        },
{
    match j {
        Json::Object(ms) => {
            let mut i: usize = 0;
            assert(ms@.skip(0) =~= ms@);
            while i < ms.len()
                invariant
                    i <= ms@.len(),
                    get(*j, key@) == member_of(ms@, key@),
                    member_of(ms@, key@) == member_of(ms@.skip(i as int), key@),
                decreases ms@.len() - i,
            {
                proof {
                    assert(ms@.skip(i as int).skip(1) =~= ms@.skip(i as int + 1));
                    assert(ms@.skip(i as int)[0] == ms@[i as int]);
                }
                let m = &ms[i];
                if same_text(m.key.as_str(), key) {
                    assert(member_of(ms@.skip(i as int), key@) == Some(m.value));
                    return Some(&m.value);
                }
                i = i + 1;
            }
            None
        },
        _ => None,
    }
}

/// Copies the text of the string member `key`.
pub fn text_member(j: &Json, key: &str) -> (r: Option<String>)
    ensures
        match r {
            Some(s) => text_of(get(*j, key@)) == Some(s@),
            None => text_of(get(*j, key@)) is None,
        },
{
    match member(j, key) {
        Some(Json::Str(s)) => Some(String::from_str(s.as_str())),
        _ => None,
    }
}

} // verus!
