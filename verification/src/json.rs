//! Trusted boundary to `serde_json`: parsing response bodies into a JSON
//! value and rendering request bodies to their wire text.
use serde_json::Error as SerdeJsonError;
use vstd::prelude::*;

verus! {

#[verifier::external_type_specification]
#[verifier::external_body]
pub struct ExValue(serde_json::Value);

#[verifier::external_type_specification]
#[verifier::external_body]
pub struct ExJsonError(SerdeJsonError);

/// The JSON value that a piece of text parses to, or `None` where the text is
/// not valid JSON.
pub uninterp spec fn json_value_of(s: Seq<char>) -> Option<serde_json::Value>;

/// The text that a JSON value renders to (what `serde_json::to_string`
/// returns for it).
pub uninterp spec fn json_text_of(v: serde_json::Value) -> Seq<char>;

/// Relies on `serde_json::from_str::<Value>`: parses JSON text; the outcome
/// is a function of the text alone.
#[verifier::external_body]
pub(crate) fn parse_json(text: &str) -> (r: Result<serde_json::Value, SerdeJsonError>)
    ensures
        r is Ok <==> json_value_of(text@) is Some,
        r matches Ok(v) ==> v == json_value_of(text@)->Some_0,
{
    serde_json::from_str(text)
}

/// Relies on `serde_json::to_string`: renders a JSON value to text.
/// Serializing a `serde_json::Value` cannot fail (its maps have string keys
/// and its serializer never errors), so the `Err` arm below is unreachable.
/// The second clause is conditional because the serializer is not bounded by
/// the parser's recursion limit: a value nested too deep renders to text the
/// parser then rejects.  Where the rendered text does parse, it recovers the
/// value exactly — map keys are kept sorted, and the `float_roundtrip`
/// feature makes float parsing correctly rounded, so the shortest rendering
/// of a float reads back as the same float.
#[verifier::external_body]
pub(crate) fn render_json(value: &serde_json::Value) -> (r: String)
    ensures
        r@ == json_text_of(*value),
        json_value_of(r@) is Some ==> json_value_of(r@) == Some(*value),
{
    match serde_json::to_string(value) {
        Ok(s) => s,
        Err(_) => String::new(),
    }
}

} // verus!
