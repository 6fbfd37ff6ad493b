use vstd::prelude::*;

verus! {

/// `serde_json::Value` is the parsed form of a JSON body. The library
/// carries such values through opaquely; only the outside crate builds or
/// inspects them.
#[verifier::external_type_specification]
#[verifier::external_body]
pub struct ExValue(serde_json::Value);

/// The value that `serde_json::from_str::<serde_json::Value>` parses the
/// given text to: `Some(v)` when the text is valid JSON, `None` when the
/// parse fails. The result depends on the text alone.
pub uninterp spec fn json_of(text: Seq<char>) -> Option<serde_json::Value>;

/// The diagnostic that `serde_json`'s parse error displays for the given
/// text; a function of the text alone.
pub uninterp spec fn json_err_of(text: Seq<char>) -> Seq<char>;

/// Relies on `serde_json::from_str::<Value>`: parsing succeeds exactly on
/// valid JSON text and yields the value that the text denotes; on failure
/// the error's `Display` message depends on the text alone.
#[verifier::external_body]
pub fn parse_json(text: &str) -> (parsed: Result<serde_json::Value, String>)
    ensures
        parsed is Ok <==> json_of(text@) is Some,
        parsed matches Ok(v) ==> json_of(text@) == Some(v),
        parsed matches Err(m) ==> m@ == json_err_of(text@),
{
    serde_json::from_str::<serde_json::Value>(text).map_err(|e| e.to_string())
}

} // verus!
