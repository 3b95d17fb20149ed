//! Building the URL of a request from the base URL and a target.

use crate::config::ConfigError;
use crate::config::ConfigErrorView;
use vstd::prelude::*;

verus! {

/// Whether `url` parses as a URI, as `hyper::Uri`'s `FromStr` decides it.
pub uninterp spec fn uri_parses(url: Seq<char>) -> bool;

/// `<hyper::Uri as FromStr>::from_str`, reached through `str::parse`: tells
/// whether the text parses as a URI. The parser reads nothing but the text,
/// so the answer is a fixed property of it.
#[verifier::external_body]
fn parses_as_uri(url: &str) -> (well_formed: bool)
    ensures
        well_formed == uri_parses(url@),
{
    url.parse::<hyper::Uri>().is_ok()
}

/// The URL itself where it is well formed, the error that names it where it
/// is not.
pub open spec fn checked(url: Seq<char>, well_formed: bool) -> Result<Seq<char>, ConfigErrorView> {
    if well_formed {
        Ok(url)
    } else {
        Err(ConfigErrorView::InvalidUrl(url))
    }
}

/// The views of a URL or of the error in its place.
pub open spec fn url_view(r: Result<String, ConfigError>) -> Result<Seq<char>, ConfigErrorView> {
    match r {
        Ok(url) => Ok(url@),
        Err(error) => Err(error@),
    }
}

/// Passes a URL on where it was found well formed and turns it into an
/// invalid-URL error where it was not.
pub fn checked_url(url: String, well_formed: bool) -> (r: Result<String, ConfigError>)
    ensures
        url_view(r) == checked(url@, well_formed),
{
    if well_formed {
        Ok(url)
    } else {
        Err(ConfigError::InvalidUrl(url))
    }
}

/// The URL of a request: `target` appended to `base`, which must parse as a
/// URI. Nothing is put between the two.
pub fn request_url(base: &str, target: &str) -> (r: Result<String, ConfigError>)
    ensures
        url_view(r) == checked(base@ + target@, uri_parses(base@ + target@)),
{
    let mut url = String::from_str(base);
    url.append(target);
    let well_formed = parses_as_uri(url.as_str());
    checked_url(url, well_formed)
}

} // verus!
