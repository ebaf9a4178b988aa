//! The endpoint a client is made from: a URL whose fragment carries the
//! client's configuration. Parsing the URL is the `url` crate's work; the
//! trusted functions below name its results.

use vstd::prelude::*;
use crate::result::JSONRPCError;

verus! {

/// `url::Url`, carried through as an opaque value.
#[verifier::external_type_specification]
#[verifier::external_body]
pub struct ExUrl(url::Url);

/// What `Url::parse` returns for `text`.
pub uninterp spec fn url_parse(text: Seq<char>) -> Result<url::Url, url::ParseError>;

/// What `Url::fragment` returns for `u`: the text after the first `#`,
/// where the URL has one.
pub uninterp spec fn url_fragment(u: url::Url) -> Option<Seq<char>>;

/// Trusted: calls `Url::parse`, whose result depends on `text` alone.
#[verifier::external_body]
pub(crate) fn parse_url(text: &str) -> (r: Result<url::Url, url::ParseError>)
    ensures
        r == url_parse(text@),
{
    url::Url::parse(text)
}

/// Trusted: calls `Url::fragment` and copies the text it returns.
#[verifier::external_body]
pub(crate) fn fragment(u: &url::Url) -> (r: Option<String>)
    ensures
        match r {
            Some(s) => url_fragment(*u) == Some(s@),
            None => url_fragment(*u).is_none(),
        },
{
    u.fragment().map(|s| s.to_owned())
}

/// The configuration text of a URL: its fragment, or the empty text where
/// it has none.
pub open spec fn spec_config_text(u: url::Url) -> Seq<char> {
    match url_fragment(u) {
        Some(s) => s,
        None => Seq::empty(),
    }
}

/// Reads the configuration text of a URL.
pub fn config_text(u: &url::Url) -> (r: String)
    ensures
        r@ == spec_config_text(*u),
{
    match fragment(u) {
        Some(s) => s,
        None => String::new(),
    }
}

/// Parses an endpoint. An endpoint that is a URL gives the URL and its
/// configuration text; one that is no URL gives the error `URLParse` with
/// the parser's reason.
pub fn parse_endpoint(endpoint: &str) -> (r: Result<(url::Url, String), JSONRPCError>)
    ensures
        match url_parse(endpoint@) {
            Ok(u) => r.is_ok() && r->Ok_0.0 == u && r->Ok_0.1@ == spec_config_text(u),
            Err(e) => r == Err::<(url::Url, String), JSONRPCError>(JSONRPCError::URLParse(e)),
        },
{
    match parse_url(endpoint) {
        Ok(u) => {
            let text = config_text(&u);
            Ok((u, text))
        },
        Err(e) => Err(JSONRPCError::URLParse(e)),
    }
}

} // verus!
