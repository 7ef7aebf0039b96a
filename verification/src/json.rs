//! A JSON document as an owned tree of plain values, and the parser that
//! produces one from text.
//!
//! Parsing itself is done by serde_json; everything that reads the parsed
//! tree — object lookup, array indexing, string access — is the library's own
//! verified code over [`JsonValue`].

use vstd::prelude::*;
use crate::text::str_eq;

verus! {

/// One JSON value as an owned tree.
///
/// Object entries keep the parser's order and carry unique keys; numeric
/// content is not kept, because nothing in this library reads a number.
#[derive(Debug)]
pub enum JsonValue {
    Null,
    Bool(bool),
    Number,
    Str(String),
    Array(Vec<JsonValue>),
    Object(Vec<(String, JsonValue)>),
}

/// What parsing a text as one JSON document yields: the tree on success, the
/// failure's description otherwise. The result depends on the text alone.
pub uninterp spec fn json_doc(text: Seq<char>) -> Result<JsonValue, Seq<char>>;

#[verifier::external_type_specification]
#[verifier::external_body]
pub struct ExJsonValue(serde_json::Value);

/// Relies on the shape of `serde_json::Value`: each variant is carried over
/// one for one; arrays and objects are converted entrywise, and numeric
/// content, which this library never reads, is not kept.
#[verifier::external_body]
fn json_to_tree(value: serde_json::Value) -> JsonValue {
    match value {
        serde_json::Value::Null => JsonValue::Null,
        serde_json::Value::Bool(b) => JsonValue::Bool(b),
        serde_json::Value::Number(_) => JsonValue::Number,
        serde_json::Value::String(s) => JsonValue::Str(s),
        serde_json::Value::Array(items) => JsonValue::Array(
            items.into_iter().map(json_to_tree).collect(),
        ),
        serde_json::Value::Object(entries) => JsonValue::Object(
            entries.into_iter().map(|(key, value)| (key, json_to_tree(value))).collect(),
        ),
    }
}

/// Relies on `serde_json::from_str::<serde_json::Value>`: it returns `Ok`
/// exactly when the text is one valid JSON document, and both the parsed
/// tree — rebuilt here as a [`JsonValue`] — and the failure's description
/// are functions of the text alone.
#[verifier::external_body]
pub(crate) fn parse_json(text: &str) -> (r: Result<JsonValue, String>)
    ensures
        r is Ok <==> json_doc(text@) is Ok,
        r matches Ok(v) ==> v == json_doc(text@)->Ok_0,
        r matches Err(e) ==> e@ == json_doc(text@)->Err_0,
{
    match serde_json::from_str::<serde_json::Value>(text) {
        Ok(value) => Ok(json_to_tree(value)),
        Err(error) => Err(error.to_string()),
    }
}

/// The value under `key` among object entries: the first entry whose key
/// matches.
pub open spec fn obj_lookup(
    entries: Seq<(String, JsonValue)>,
    key: Seq<char>,
) -> Option<JsonValue>
    decreases entries.len(),
{
    if entries.len() == 0 {
        None
    } else if entries[0].0@ == key {
        Some(entries[0].1)
    } else {
        obj_lookup(entries.drop_first(), key)
    }
}

impl JsonValue {
    /// The entry under `key`, when this value is an object that has one.
    pub open spec fn spec_get(self, key: Seq<char>) -> Option<JsonValue> {
        match self {
            JsonValue::Object(entries) => obj_lookup(entries@, key),
            _ => None,
        }
    }

    /// The element at `i`, when this value is an array that is long enough.
    pub open spec fn spec_index(self, i: int) -> Option<JsonValue> {
        match self {
            JsonValue::Array(items) => if 0 <= i < items@.len() {
                Some(items@[i])
            } else {
                None
            },
            _ => None,
        }
    }

    /// The text held, when this value is a string.
    pub open spec fn spec_as_str(self) -> Option<String> {
        match self {
            JsonValue::Str(s) => Some(s),
            _ => None,
        }
    }

    /// Looks up `key` in an object; `None` for a missing key or any other
    /// kind of value.
    pub fn get_key<'a>(&'a self, key: &str) -> (r: Option<&'a JsonValue>)
        ensures
            match r {
                Some(v) => self.spec_get(key@) == Some(*v),
                None => self.spec_get(key@) is None,
            },
    {
        match self {
            JsonValue::Object(entries) => {
                let n = entries.len();
                let mut i: usize = 0;
                proof {
                    assert(entries@.skip(0) =~= entries@);
                }
                while i < n
                    invariant
                        i <= n,
                        n == entries@.len(),
                        self.spec_get(key@) == obj_lookup(entries@, key@),
                        obj_lookup(entries@, key@) == obj_lookup(entries@.skip(i as int), key@),
                    decreases n - i,
                {
                    if str_eq(entries[i].0.as_str(), key) {
                        proof {
                            assert(entries@.skip(i as int)[0] == entries@[i as int]);
                            assert(obj_lookup(entries@.skip(i as int), key@) == Some(
                                entries@[i as int].1,
                            ));
                        }
                        return Some(&entries[i].1);
                    }
                    proof {
                        assert(entries@.skip(i as int).drop_first() =~= entries@.skip(i + 1));
                    }
                    i += 1;
                }
                None
            },
            _ => None,
        }
    }

    /// Indexes into an array; `None` past the end or for any other kind of
    /// value.
    pub fn get_index(&self, i: usize) -> (r: Option<&JsonValue>)
        ensures
            match r {
                Some(v) => self.spec_index(i as int) == Some(*v),
                None => self.spec_index(i as int) is None,
            },
    {
        match self {
            JsonValue::Array(items) => {
                if i < items.len() {
                    Some(&items[i])
                } else {
                    None
                }
            },
            _ => None,
        }
    }

    /// The held text of a string value; `None` for any other kind.
    pub fn as_text(&self) -> (r: Option<&String>)
        ensures
            match r {
                Some(s) => self.spec_as_str() == Some(*s),
                None => self.spec_as_str() is None,
            },
    {
        match self {
            JsonValue::Str(s) => Some(s),
            _ => None,
        }
    }
}

} // verus!
