//! A plain-value model of a parsed JSON document.
//!
//! The device service and the log sink answer with loosely structured JSON.
//! Parsing the raw text is left to `serde_json`; everything the library then
//! reads out of a document — which top-level value is an object with a
//! `temperature` key, how its sample pairs decode, what a `result` field
//! holds — is done on [`JsonVal`], a tree of plain values, so that the shape
//! logic is verified.

use vstd::prelude::*;

verus! {

#[verifier::external_type_specification]
#[verifier::external_body]
pub struct ExValue(serde_json::Value);

#[verifier::external_type_specification]
#[verifier::external_body]
pub struct ExNumber(serde_json::Number);

/// Relies on `serde_json::Number`'s `Clone` impl (derived), which yields a
/// number equal to the original.
pub assume_specification[ <serde_json::Number as Clone>::clone ](
    n: &serde_json::Number,
) -> (r: serde_json::Number)
    ensures
        r == *n,
;

/// A JSON number. The exact numeric value stays inside the opaque
/// `serde_json::Number`, which the library only carries through; the two
/// `Option` fields record whether the number is representable as a signed or
/// unsigned 64-bit integer, which is all the decoding logic reads.
pub struct JsonNum {
    /// `Some` when the number is an integer representable as `i64`.
    pub int_value: Option<i64>,
    /// `Some` when the number is an integer representable as `u64`.
    pub uint_value: Option<u64>,
    /// The number as `serde_json` holds it.
    pub raw: serde_json::Number,
}

impl JsonNum {
    /// An equal copy of this number.
    pub fn duplicate(&self) -> (r: JsonNum)
        ensures
            r == *self,
    {
        JsonNum { int_value: self.int_value, uint_value: self.uint_value, raw: self.raw.clone() }
    }
}

/// A JSON value as the library models it.
pub enum JsonVal {
    Null,
    Bool(bool),
    Num(JsonNum),
    Str(String),
    Arr(Vec<JsonVal>),
    Obj(Vec<(String, JsonVal)>),
}

/// The model of what a given `serde_json::Value` holds.
pub uninterp spec fn json_val_model(v: serde_json::Value) -> JsonVal;

/// What parsing a body as a JSON document yields: `None` when the text is not
/// valid JSON, otherwise the model of the parsed value. `serde_json` parsing
/// is deterministic (its maps iterate in a fixed order), so this is a
/// function of the body alone.
pub uninterp spec fn json_doc_of(body: Seq<char>) -> Option<JsonVal>;

/// Relies on the `serde_json::Value` enum: one arm per variant, moving each
/// field into the model; `Number::as_i64` and `Number::as_u64` report whether
/// the number is an integer in the respective range.
#[verifier::external_body]
fn json_val_of(v: serde_json::Value) -> (r: JsonVal)
    ensures
        r == json_val_model(v),
{
    match v {
        serde_json::Value::Null => JsonVal::Null,
        serde_json::Value::Bool(b) => JsonVal::Bool(b),
        serde_json::Value::Number(n) => JsonVal::Num(
            JsonNum { int_value: n.as_i64(), uint_value: n.as_u64(), raw: n },
        ),
        serde_json::Value::String(s) => JsonVal::Str(s),
        serde_json::Value::Array(a) => JsonVal::Arr(a.into_iter().map(json_val_of).collect()),
        serde_json::Value::Object(m) => JsonVal::Obj(
            m.into_iter().map(|(k, w)| (k, json_val_of(w))).collect(),
        ),
    }
}

/// Relies on `serde_json::from_str::<serde_json::Value>`: `Ok` exactly when
/// the body is valid JSON, and then the parsed value.
#[verifier::external_body]
pub(crate) fn parse_json(body: &str) -> (r: Option<JsonVal>)
    ensures
        r == json_doc_of(body@),
{
    match serde_json::from_str::<serde_json::Value>(body) {
        Ok(v) => Some(json_val_of(v)),
        Err(_) => None,
    }
}

} // verus!
