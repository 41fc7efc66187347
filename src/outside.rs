use vstd::prelude::*;

verus! {

/// The scheme of `input` as the `url` crate parses it, or `None` where it does not parse as an
/// absolute URL.
pub uninterp spec fn parsed_scheme(input: Seq<char>) -> Option<Seq<char>>;

/// Whether `serde_json` parses `text` as one JSON value.
pub uninterp spec fn is_json_text(text: Seq<char>) -> bool;

/// Relies on `url::Url::parse`, and on `Url::scheme` of what it returns: the scheme of an
/// absolute URL, `None` where parsing fails.
#[verifier::external_body]
pub(crate) fn url_scheme(input: &str) -> (r: Option<String>)
    ensures
        r matches Some(s) ==> parsed_scheme(input@) == Some(s@),
        r is None ==> parsed_scheme(input@) is None,
{
    url::Url::parse(input).ok().map(|u| u.scheme().to_string())
}

/// Relies on `serde_json::from_str::<serde_json::Value>`: whether `text` parses as JSON.
#[verifier::external_body]
pub(crate) fn parses_as_json(text: &str) -> (r: bool)
    ensures
        r == is_json_text(text@),
{
    serde_json::from_str::<serde_json::Value>(text).is_ok()
}

} // verus!
