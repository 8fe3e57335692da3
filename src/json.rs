use vstd::prelude::*;

verus! {

/// A JSON value as the decoder reads it. A number keeps the text that the
/// parser renders for it, so that no digit is lost on the way.
#[derive(Debug)]
pub enum Json {
    Null,
    Bool(bool),
    Number(String),
    Str(String),
    Array(Vec<Json>),
    Object(Vec<(String, Json)>),
}

/// Entry `i` is the first one of `entries` under `key`.
pub open spec fn is_first_key(entries: Seq<(String, Json)>, key: Seq<char>, i: int) -> bool {
    &&& 0 <= i < entries.len()
    &&& entries[i].0@ == key
    &&& forall|j: int| 0 <= j < i ==> #[trigger] entries[j].0@ != key
}

/// The value of the member `key` of an object: the first one, should the key repeat.
pub open spec fn member(j: Json, key: Seq<char>) -> Option<Json> {
    match j {
        Json::Object(entries) => if exists|i: int| is_first_key(entries@, key, i) {
            Some(entries@[choose|i: int| is_first_key(entries@, key, i)].1)
        } else {
            None
        },
        _ => None,
    }
}

/// A borrowed optional value, read as the value itself.
pub open spec fn opt(o: Option<&Json>) -> Option<Json> {
    match o {
        Some(v) => Some(*v),
        None => None,
    }
}

/// The characters of a string value.
pub open spec fn text_of(j: Option<Json>) -> Option<Seq<char>> {
    match j {
        Some(Json::Str(s)) => Some(s@),
        _ => None,
    }
}

/// The rendered digits of a number value.
pub open spec fn number_of(j: Option<Json>) -> Option<Seq<char>> {
    match j {
        Some(Json::Number(s)) => Some(s@),
        _ => None,
    }
}

/// What the JSON parser makes of a document: `None` where the text is not JSON.
pub uninterp spec fn json_document(text: Seq<char>) -> Option<Json>;

impl Json {
    /// The member `key` of an object; `None` for a missing key or a value that
    /// is not an object.
    pub fn member(&self, key: &str) -> (r: Option<&Json>)
        ensures
            opt(r) == member(*self, key@),
    {
        match self {
            Json::Object(entries) => {
                let wanted: String = key.to_owned();
                let mut i: usize = 0;
                while i < entries.len()
                    invariant
                        0 <= i <= entries@.len(),
                        *self == Json::Object(*entries),
                        wanted@ == key@,
                        forall|j: int| 0 <= j < i ==> #[trigger] entries@[j].0@ != key@,
                    decreases entries@.len() - i,
                {
                    if entries[i].0 == wanted {
                        proof {
                            assert(is_first_key(entries@, key@, i as int));
                            assert forall|k: int| is_first_key(entries@, key@, k) implies k == i by {
                                if k < i {
                                    assert(entries@[k].0@ != key@);
                                } else if k > i {
                                    assert(entries@[i as int].0@ != key@);
                                }
                            }
                        }
                        return Some(&entries[i].1);
                    }
                    i += 1;
                }
                None
            },
            _ => None,
        }
    }

    /// The characters of a string value.
    pub fn as_text(&self) -> (r: Option<&String>)
        ensures
            match r {
                Some(s) => text_of(Some(*self)) == Some(s@),
                None => text_of(Some(*self)) is None,
            },
    {
        match self {
            Json::Str(s) => Some(s),
            _ => None,
        }
    }
}

/// Relies on serde_json::from_str into serde_json::Value: parses a document,
/// and the outcome depends on the text alone.
#[verifier::external_body]
pub(crate) fn parse_document(text: &str) -> (r: Result<Json, String>)
    ensures
        match r {
            Ok(j) => json_document(text@) == Some(j),
            Err(_) => json_document(text@) is None,
        },
{
    match serde_json::from_str::<serde_json::Value>(text) {
        Ok(v) => Ok(from_value(v)),
        Err(e) => Err(e.to_string()),
    }
}

#[verifier::external_type_specification]
#[verifier::external_body]
pub struct ExValue(serde_json::Value);

/// Relies on the variants of serde_json::Value: moves each one into the
/// variant of the same name, a number as the text that its Display renders.
#[verifier::external_body]
fn from_value(v: serde_json::Value) -> Json {
    match v {
        serde_json::Value::Null => Json::Null,
        serde_json::Value::Bool(b) => Json::Bool(b),
        serde_json::Value::Number(n) => Json::Number(n.to_string()),
        serde_json::Value::String(s) => Json::Str(s),
        serde_json::Value::Array(a) => Json::Array(a.into_iter().map(from_value).collect()),
        serde_json::Value::Object(m) => Json::Object(m.into_iter().map(|(k, v)| (k, from_value(v))).collect()),
    }
}

} // verus!
