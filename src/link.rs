//! Checking a URL before it is handed to the operating system to open: only
//! well-formed http and https URLs pass.

use vstd::prelude::*;
use vstd::string::*;
use crate::error::RadarError;

verus! {

/// What `url::Url::parse` makes of `input`: `None` when it is not a valid
/// absolute URL, otherwise the URL's scheme and its normalised serialisation.
pub uninterp spec fn parsed_url(input: Seq<char>) -> Option<(Seq<char>, Seq<char>)>;

/// The text of an optional pair of strings.
pub open spec fn pair_text(p: Option<(String, String)>) -> Option<(Seq<char>, Seq<char>)> {
    match p {
        Some((a, b)) => Some((a@, b@)),
        None => None,
    }
}

/// The text of a string result.
pub open spec fn result_text(r: Result<String, RadarError>) -> Result<Seq<char>, RadarError> {
    match r {
        Ok(s) => Ok(s@),
        Err(e) => Err(e),
    }
}

/// The schemes that may be opened.
pub open spec fn is_web_scheme(scheme: Seq<char>) -> bool {
    scheme == "http"@ || scheme == "https"@
}

/// What to open for a parse outcome: the serialised URL when its scheme is
/// http or https; `InvalidUrl` when it did not parse; `UnsupportedScheme`
/// for any other scheme.
pub open spec fn url_target(parsed: Option<(Seq<char>, Seq<char>)>) -> Result<Seq<char>, RadarError> {
    match parsed {
        None => Err(RadarError::InvalidUrl),
        Some((scheme, text)) => if is_web_scheme(scheme) {
            Ok(text)
        } else {
            Err(RadarError::UnsupportedScheme)
        },
    }
}

/// Relies on `url::Url::parse`, and on the parsed URL's `scheme` and
/// `as_str`: whether the text is a valid absolute URL, its scheme, and its
/// serialisation.
#[verifier::external_body]
fn parse_url(input: &str) -> (r: Option<(String, String)>)
    ensures
        pair_text(r) == parsed_url(input@),
{
    match url::Url::parse(input) {
        Ok(u) => Some((u.scheme().to_string(), u.as_str().to_string())),
        Err(_) => None,
    }
}

/// What to open for a parse outcome given as (scheme, serialisation).
pub fn target_of_parsed(parsed: Option<(String, String)>) -> (r: Result<String, RadarError>)
    ensures
        result_text(r) == url_target(pair_text(parsed)),
{
    match parsed {
        None => Err(RadarError::InvalidUrl),
        Some((scheme, text)) => {
            let http = String::from_str("http");
            let https = String::from_str("https");
            if scheme == http || scheme == https {
                Ok(text)
            } else {
                Err(RadarError::UnsupportedScheme)
            }
        },
    }
}

/// The URL to hand to the operating system for `url`, or why it may not be
/// opened.
pub fn external_url_target(url: &str) -> (r: Result<String, RadarError>)
    ensures
        result_text(r) == url_target(parsed_url(url@)),
{
    target_of_parsed(parse_url(url))
}

} // verus!
