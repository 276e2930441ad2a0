//! A plain-value model of the JSON documents this client consumes.
//!
//! The catalogue API answers with either an array of flat book objects or a
//! single flat book object, so the model keeps two levels: a document is an
//! array of elements, an object of scalar fields, or a bare scalar; anything
//! nested deeper is recorded as `Composite` and rejected by validation.

use vstd::prelude::*;

verus! {

/// A primitive JSON value as far as the book schema reads it.
pub enum Scalar {
    Null,
    Bool(bool),
    /// A JSON number with an exact 64-bit signed integer value.
    Int(i64),
    /// A JSON number without one (a fraction, or an integer above `i64::MAX`).
    NonIntNum,
    Text(String),
    /// A nested array or object; never part of a well-formed book.
    Composite,
}

/// The mathematical value of a `Scalar`.
pub enum ScalarV {
    Null,
    Bool(bool),
    Int(int),
    NonIntNum,
    Text(Seq<char>),
    Composite,
}

impl View for Scalar {
    type V = ScalarV;

    open spec fn view(&self) -> ScalarV {
        match self {
            Scalar::Null => ScalarV::Null,
            Scalar::Bool(b) => ScalarV::Bool(*b),
            Scalar::Int(i) => ScalarV::Int(*i as int),
            Scalar::NonIntNum => ScalarV::NonIntNum,
            Scalar::Text(s) => ScalarV::Text(s@),
            Scalar::Composite => ScalarV::Composite,
        }
    }
}

/// The mathematical value of a list of object fields.
pub open spec fn fields_view(fs: Seq<(String, Scalar)>) -> Seq<(Seq<char>, ScalarV)> {
    fs.map_values(|p: (String, Scalar)| (p.0@, p.1@))
}

/// One element of a top-level JSON array.
pub enum Element {
    /// An object, given as its fields in document order.
    Object(Vec<(String, Scalar)>),
    /// An element that is not an object.
    Other,
}

/// The mathematical value of an `Element`.
pub enum ElementV {
    Object(Seq<(Seq<char>, ScalarV)>),
    Other,
}

impl View for Element {
    type V = ElementV;

    open spec fn view(&self) -> ElementV {
        match self {
            Element::Object(fs) => ElementV::Object(fields_view(fs@)),
            Element::Other => ElementV::Other,
        }
    }
}

/// A whole parsed JSON document, one level deep.
pub enum JsonValue {
    Scalar(Scalar),
    Obj(Vec<(String, Scalar)>),
    Arr(Vec<Element>),
}

/// The mathematical value of a `JsonValue`.
pub enum JsonValueV {
    Scalar(ScalarV),
    Obj(Seq<(Seq<char>, ScalarV)>),
    Arr(Seq<ElementV>),
}

impl View for JsonValue {
    type V = JsonValueV;

    open spec fn view(&self) -> JsonValueV {
        match self {
            JsonValue::Scalar(s) => JsonValueV::Scalar(s@),
            JsonValue::Obj(fs) => JsonValueV::Obj(fields_view(fs@)),
            JsonValue::Arr(es) => JsonValueV::Arr(es@.map_values(|e: Element| e@)),
        }
    }
}

/// What parsing a document yields: `serde_json::from_str` is deterministic,
/// so the outcome is a function of the characters alone.
pub uninterp spec fn parsed_json(s: Seq<char>) -> Option<JsonValueV>;

#[verifier::external_type_specification]
#[verifier::external_body]
pub struct ExJsonValue(serde_json::Value);

#[verifier::external_type_specification]
#[verifier::external_body]
#[verifier::reject_recursive_types(K)]
#[verifier::reject_recursive_types(V)]
pub struct ExJsonMap<K, V>(serde_json::Map<K, V>);

/// Relies on serde_json::Value (one arm per variant) and on
/// Number::as_i64, which answers exactly for integers in `i64` range.
/// Conversion step of `json_parse`; nothing else calls it.
#[verifier::external_body]
fn scalar_of(v: &serde_json::Value) -> Scalar {
    match v {
        serde_json::Value::Null => Scalar::Null,
        serde_json::Value::Bool(b) => Scalar::Bool(*b),
        serde_json::Value::Number(n) => match n.as_i64() {
            Some(i) => Scalar::Int(i),
            None => Scalar::NonIntNum,
        },
        serde_json::Value::String(s) => Scalar::Text(s.clone()),
        _ => Scalar::Composite,
    }
}

/// Relies on serde_json::Map iteration: each key appears once, with its
/// value. Conversion step of `json_parse`; nothing else calls it.
#[verifier::external_body]
fn fields_of(m: &serde_json::Map<String, serde_json::Value>) -> Vec<(String, Scalar)> {
    m.iter().map(|(k, v)| (k.clone(), scalar_of(v))).collect()
}

/// Relies on serde_json::Value: an array element either is an object or is
/// not. Conversion step of `json_parse`; nothing else calls it.
#[verifier::external_body]
fn element_of(v: &serde_json::Value) -> Element {
    match v {
        serde_json::Value::Object(m) => Element::Object(fields_of(m)),
        _ => Element::Other,
    }
}

/// Relies on serde_json::from_str: a valid JSON document parses to a value
/// determined by the input text alone, an invalid one to an error.
#[verifier::external_body]
pub(crate) fn json_parse(s: &str) -> (r: Option<JsonValue>)
    ensures
        r matches Some(v) ==> parsed_json(s@) == Some(v@),
        r is None ==> parsed_json(s@) is None,
{
    match serde_json::from_str::<serde_json::Value>(s) {
        Ok(serde_json::Value::Array(items)) => Some(
            JsonValue::Arr(items.iter().map(element_of).collect()),
        ),
        Ok(serde_json::Value::Object(m)) => Some(JsonValue::Obj(fields_of(&m))),
        Ok(other) => Some(JsonValue::Scalar(scalar_of(&other))),
        Err(_) => None,
    }
}

} // verus!
