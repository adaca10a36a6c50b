//! A plain-value model of JSON documents. Parsing itself is `serde_json`'s
//! job; this module only carries the parsed tree into verified code, where
//! the shapes ksforge reads (result envelopes, API replies, event streams)
//! are decoded with stated rules.
use vstd::prelude::*;

use crate::text::{chars_eq, chars_of};

verus! {

#[verifier::external_type_specification]
#[verifier::external_body]
pub struct ExJsonValue(serde_json::Value);

/// A JSON value. Numbers keep their textual form; object members keep the
/// order `serde_json` reports them in, one entry per key.
pub enum Json {
    Null,
    Bool(bool),
    Number(String),
    Str(String),
    Array(Vec<Json>),
    Object(Vec<(String, Json)>),
}

/// What `serde_json::from_str::<serde_json::Value>` makes of a text: the
/// document, or the text of its error when the text is not JSON.
pub uninterp spec fn json_parse(text: Seq<char>) -> Result<Json, Seq<char>>;

pub open spec fn view_parse(r: Result<Json, String>) -> Result<Json, Seq<char>> {
    match r {
        Ok(j) => Ok(j),
        Err(e) => Err(e@),
    }
}

/// `serde_json::from_str::<serde_json::Value>`, with the tree converted
/// member by member into [`Json`] and an error replaced by its `Display`
/// text. Claims only that the outcome is a function of the text, named
/// `json_parse`.
#[verifier::external_body]
pub fn parse_json(text: &str) -> (r: Result<Json, String>)
    ensures
        view_parse(r) == json_parse(text@),
{
    serde_json::from_str::<serde_json::Value>(text).map(json_from_value).map_err(|e| e.to_string())
}

/// `serde_json::from_str::<serde_json::Value>` keeping the error itself,
/// for callers that report it as a JSON error. The same outcome as
/// [`parse_json`]: a document exactly when `json_parse` gives one.
#[verifier::external_body]
pub fn parse_json_value(text: &str) -> (r: Result<Json, serde_json::Error>)
    ensures
        match r {
            Ok(j) => json_parse(text@) == Ok::<Json, Seq<char>>(j),
            Err(_) => json_parse(text@) is Err,
        },
{
    serde_json::from_str::<serde_json::Value>(text).map(json_from_value)
}

/// What `serde_json::from_str::<Vec<serde_json::Value>>` makes of a text:
/// the elements when it reads the text as an array, `None` when it
/// refuses it.
pub uninterp spec fn json_parse_array(text: Seq<char>) -> Option<Seq<Json>>;

/// `serde_json::from_str::<Vec<serde_json::Value>>`, each element
/// converted as [`parse_json`] converts. Claims only that the outcome is a
/// function of the text, named `json_parse_array`.
#[verifier::external_body]
pub fn parse_json_array(text: &str) -> (r: Result<Vec<Json>, serde_json::Error>)
    ensures
        match r {
            Ok(v) => json_parse_array(text@) == Some(v@),
            Err(_) => json_parse_array(text@) is None,
        },
{
    serde_json::from_str::<Vec<serde_json::Value>>(text).map(|v| v.into_iter().map(json_from_value).collect())
}

/// The document a text holds, when it is JSON.
pub open spec fn parsed_json(text: Seq<char>) -> Option<Json> {
    match json_parse(text) {
        Ok(j) => Some(j),
        Err(_) => None,
    }
}

/// Converts a `serde_json::Value` into [`Json`], variant by variant.
#[verifier::external_body]
fn json_from_value(v: serde_json::Value) -> Json {
    match v {
        serde_json::Value::Null => Json::Null,
        serde_json::Value::Bool(b) => Json::Bool(b),
        serde_json::Value::Number(n) => Json::Number(n.to_string()),
        serde_json::Value::String(s) => Json::Str(s),
        serde_json::Value::Array(a) => Json::Array(a.into_iter().map(json_from_value).collect()),
        serde_json::Value::Object(m) => Json::Object(
            m.into_iter().map(|(k, v)| (k, json_from_value(v))).collect(),
        ),
    }
}

/// The value of the first member named `key` in `fields`.
pub open spec fn lookup(fields: Seq<(String, Json)>, key: Seq<char>) -> Option<Json>
    decreases fields.len(),
{
    if fields.len() == 0 {
        None
    } else if fields[0].0@ == key {
        Some(fields[0].1)
    } else {
        lookup(fields.drop_first(), key)
    }
}

/// `value.get(key)` for an object; `None` for anything else.
pub open spec fn member(j: Json, key: Seq<char>) -> Option<Json> {
    match j {
        Json::Object(fields) => lookup(fields@, key),
        _ => None,
    }
}

/// `value.get(key).and_then(|v| v.as_str())`.
pub open spec fn member_str(j: Json, key: Seq<char>) -> Option<Seq<char>> {
    match member(j, key) {
        Some(Json::Str(s)) => Some(s@),
        _ => None,
    }
}

/// Serde's reading of an optional string field carrying `#[serde(default)]`:
/// absent or `null` is `None`, a string is `Some`, anything else fails.
pub open spec fn opt_string_field(v: Option<Json>) -> Option<Option<Seq<char>>> {
    match v {
        None => Some(None),
        Some(Json::Null) => Some(None),
        Some(Json::Str(s)) => Some(Some(s@)),
        _ => None,
    }
}

/// Serde's reading of a `bool` field carrying `#[serde(default)]`.
pub open spec fn bool_field(v: Option<Json>) -> Option<bool> {
    match v {
        None => Some(false),
        Some(Json::Bool(b)) => Some(b),
        _ => None,
    }
}

proof fn lemma_lookup_skip(fields: Seq<(String, Json)>, key: Seq<char>, i: int)
    requires
        0 <= i <= fields.len(),
        forall|j: int| 0 <= j < i ==> (#[trigger] fields[j]).0@ != key,
    ensures
        lookup(fields, key) == lookup(fields.skip(i), key),
    decreases i,
{
    if i > 0 {
        assert(fields.drop_first().skip(i - 1) =~= fields.skip(i));
        lemma_lookup_skip(fields.drop_first(), key, i - 1);
    } else {
        assert(fields.skip(0) =~= fields);
    }
}

impl Json {
    /// `value.get(key)`.
    pub fn get(&self, key: &str) -> (r: Option<&Json>)
        ensures
            r matches Some(v) ==> member(*self, key@) == Some(*v),
            r is None ==> member(*self, key@) is None,
    {
        match self {
            Json::Object(fields) => {
                let k = chars_of(key);
                let mut i: usize = 0;
                while i < fields.len()
                    invariant
                        i <= fields@.len(),
                        k@ == key@,
                        *self == Json::Object(*fields),
                        forall|j: int| 0 <= j < i ==> (#[trigger] fields@[j]).0@ != key@,
                    decreases fields@.len() - i,
                {
                    let name = chars_of(fields[i].0.as_str());
                    if chars_eq(name.as_slice(), k.as_slice()) {
                        proof {
                            lemma_lookup_skip(fields@, key@, i as int);
                            let rest = fields@.skip(i as int);
                            assert(rest[0] == fields@[i as int]);
                        }
                        return Some(&fields[i].1);
                    }
                    i = i + 1;
                }
                proof {
                    lemma_lookup_skip(fields@, key@, i as int);
                }
                None
            },
            _ => None,
        }
    }

    /// `value.get(key).and_then(|v| v.as_str())`, copied.
    pub fn get_str(&self, key: &str) -> (r: Option<String>)
        ensures
            r matches Some(s) ==> member_str(*self, key@) == Some(s@),
            r is None ==> member_str(*self, key@) is None,
    {
        match self.get(key) {
            Some(Json::Str(s)) => Some(s.clone()),
            _ => None,
        }
    }
}

pub open spec fn deref(v: Option<&Json>) -> Option<Json> {
    match v {
        Some(j) => Some(*j),
        None => None,
    }
}

pub open spec fn opt_view(o: Option<String>) -> Option<Seq<char>> {
    match o {
        Some(s) => Some(s@),
        None => None,
    }
}

/// [`opt_string_field`] on a looked-up member.
pub fn read_opt_string(v: Option<&Json>) -> (r: Result<Option<String>, ()>)
    ensures
        r is Err <==> opt_string_field(deref(v)) is None,
        r matches Ok(o) ==> opt_string_field(deref(v)) == Some(opt_view(o)),
{
    match v {
        None => Ok(None),
        Some(Json::Null) => Ok(None),
        Some(Json::Str(s)) => Ok(Some(s.clone())),
        _ => Err(()),
    }
}

/// [`bool_field`] on a looked-up member.
pub fn read_bool(v: Option<&Json>) -> (r: Result<bool, ()>)
    ensures
        r is Err <==> bool_field(deref(v)) is None,
        r matches Ok(b) ==> bool_field(deref(v)) == Some(b),
{
    match v {
        None => Ok(false),
        Some(Json::Bool(b)) => Ok(*b),
        _ => Err(()),
    }
}

} // verus!
