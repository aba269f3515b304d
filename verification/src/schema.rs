use vstd::prelude::*;

verus! {

/// What a transaction payload looks like once parsed: not parseable at all,
/// parseable but not an object, or an object with its optional `image` and
/// `text` string fields.
pub enum Payload {
    Malformed,
    NotObject,
    Fields { image: Option<String>, text: Option<String> },
}

/// The payload text parses as JSON.
pub uninterp spec fn json_parses(s: Seq<char>) -> bool;

/// The payload text parses as a JSON object.
pub uninterp spec fn json_object(s: Seq<char>) -> bool;

/// The string value of the named field of the payload object, when the
/// field is present and holds a string.
pub uninterp spec fn json_str_field(s: Seq<char>, field: Seq<char>) -> Option<Seq<char>>;

/// Relies on `serde_json::from_str::<Value>`, `Value::is_object`,
/// `Value::get` and `Value::as_str`: parses the payload text and reads its
/// `image` and `text` string fields.
#[verifier::external_body]
pub(crate) fn parse_payload(s: &str) -> (r: Payload)
    ensures
        (r is Malformed) == !json_parses(s@),
        (r is NotObject) == (json_parses(s@) && !json_object(s@)),
        r matches Payload::Fields { image, text } ==> image.deep_view() == json_str_field(
            s@,
            "image"@,
        ) && text.deep_view() == json_str_field(s@, "text"@),
{
    match serde_json::from_str::<serde_json::Value>(s) {
        Err(_) => Payload::Malformed,
        Ok(v) => {
            if v.is_object() {
                Payload::Fields {
                    image: v.get("image").and_then(|f| f.as_str()).map(|t| t.to_string()),
                    text: v.get("text").and_then(|f| f.as_str()).map(|t| t.to_string()),
                }
            } else {
                Payload::NotObject
            }
        },
    }
}

} // verus!
