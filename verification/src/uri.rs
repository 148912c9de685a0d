//! URIs parsed by the http crate, each kept with the text it was parsed from.

use vstd::prelude::*;

verus! {

/// A URI as the http crate holds it.
#[verifier::external_type_specification]
#[verifier::external_body]
pub struct ExUri(http::Uri);

/// Whether `http::Uri` accepts the characters `s` as a URI.
pub uninterp spec fn uri_parses(s: Seq<char>) -> bool;

/// A URI together with the text it was parsed from. Only `parse_uri` makes
/// one, so the URI is always the one parsed from the text.
#[derive(Debug)]
pub struct ParsedUri {
    text: String,
    uri: http::Uri,
}

impl ParsedUri {
    /// The text the URI was parsed from.
    pub closed spec fn text_view(&self) -> Seq<char> {
        self.text@
    }

    /// The text the URI was parsed from.
    pub fn text(&self) -> (r: &String)
        ensures
            r@ == self.text_view(),
    {
        &self.text
    }

    /// The URI parsed from `text()`.
    pub fn into_uri(self) -> http::Uri {
        self.uri
    }
}

/// Calls `<http::Uri as FromStr>::from_str`. Claimed: it succeeds exactly
/// where `uri_parses` holds of the slice's characters, and the URI it returns
/// is kept beside the slice it was parsed from. Nothing more is claimed of
/// the `Uri` itself.
#[verifier::external_body]
pub(crate) fn parse_uri(s: &str) -> (r: Result<ParsedUri, http::uri::InvalidUri>)
    ensures
        r is Ok == uri_parses(s@),
        r matches Ok(p) ==> p.text_view() == s@,
{
    match s.parse::<http::Uri>() {
        Ok(uri) => Ok(ParsedUri { text: s.to_string(), uri }),
        Err(e) => Err(e),
    }
}

} // verus!
