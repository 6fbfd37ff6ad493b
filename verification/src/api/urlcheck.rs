use vstd::prelude::*;

verus! {

/// Whether `url::Url::parse` accepts the given text as a well-formed
/// absolute URL; a function of the text alone.
pub uninterp spec fn url_ok(text: Seq<char>) -> bool;

/// The normalized serialization (`Url`'s `Display`) of the URL that the
/// given text parses to; meaningful only when `url_ok` holds of the text.
pub uninterp spec fn url_normalized(text: Seq<char>) -> Seq<char>;

/// The diagnostic that `url::ParseError`'s `Display` gives when the given
/// text is rejected; meaningful only when `url_ok` does not hold.
pub uninterp spec fn url_parse_err(text: Seq<char>) -> Seq<char>;

/// Relies on `url::Url::parse`: it accepts exactly the well-formed absolute
/// URLs; `Url`'s `Display` re-serializes the parsed URL in normalized form
/// and `ParseError`'s `Display` describes the rejection, each a function of
/// the text alone.
#[verifier::external_body]
pub fn parse_url(text: &str) -> (parsed: Result<String, String>)
    ensures
        parsed is Ok <==> url_ok(text@),
        parsed matches Ok(u) ==> u@ == url_normalized(text@),
        parsed matches Err(m) ==> m@ == url_parse_err(text@),
{
    match url::Url::parse(text) {
        Ok(u) => Ok(u.to_string()),
        Err(e) => Err(e.to_string()),
    }
}

} // verus!
