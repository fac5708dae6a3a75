use vstd::prelude::*;

verus! {

/// A parsed JSON document, held in plain values so that the schema
/// decoding downstream of the parser can be verified.
pub enum Json {
    Null,
    Bool(bool),
    /// A number that is an unsigned 64-bit integer; every number the
    /// upstream schema admits is one.
    UInt(u64),
    /// Any other JSON number (negative, fractional, or out of range);
    /// no field of the upstream schema accepts it.
    OtherNum,
    Str(String),
    Arr(Vec<Json>),
    /// An object's entries; the parser hands them over with unique keys.
    Obj(Vec<(String, Json)>),
}

/// What parsing a text as JSON returns, rendered into the `Json` model:
/// `None` when the text is not valid JSON. A function of the text alone.
pub uninterp spec fn json_of(text: Seq<char>) -> Option<Json>;

#[verifier::external_type_specification]
#[verifier::external_body]
pub struct ExValue(serde_json::Value);

/// Relies on the variant shape of serde_json's `Value` and on
/// `serde_json::Number::as_u64`: renders a parsed JSON tree into the
/// `Json` model, variant for variant; a number with no unsigned 64-bit
/// representation becomes `Json::OtherNum`.
#[verifier::external_body]
fn json_of_value(v: &serde_json::Value) -> Json {
    match v {
        serde_json::Value::Null => Json::Null,
        serde_json::Value::Bool(b) => Json::Bool(*b),
        serde_json::Value::Number(n) => n.as_u64().map_or(Json::OtherNum, Json::UInt),
        serde_json::Value::String(s) => Json::Str(s.clone()),
        serde_json::Value::Array(a) => Json::Arr(a.iter().map(json_of_value).collect()),
        serde_json::Value::Object(o) => Json::Obj(
            o.iter().map(|(k, x)| (k.clone(), json_of_value(x))).collect(),
        ),
    }
}

/// Relies on `serde_json::from_str::<Value>`: parses the text as JSON,
/// deterministically, returning an error exactly when the text is not
/// valid JSON; the accepted tree, rendered into the `Json` model, is the
/// value `json_of` names.
#[verifier::external_body]
pub(crate) fn parse_json(text: &str) -> (r: Option<Json>)
    ensures
        r == json_of(text@),
{
    match serde_json::from_str::<serde_json::Value>(text) {
        Ok(v) => Some(json_of_value(&v)),
        Err(_) => None,
    }
}

} // verus!
