//! Options for an object store, as pairs of key and value, from the
//! fragment of a URL or from the variables of the environment.

use vstd::prelude::*;
use crate::endpoint::{config_text, spec_config_text};

verus! {

/// The pairs that `querystring::querify` reads from `text`.
pub uninterp spec fn query_pairs(text: Seq<char>) -> Seq<(Seq<char>, Seq<char>)>;

/// What `str::to_lowercase` returns for `text`.
pub uninterp spec fn lowercase(text: Seq<char>) -> Seq<char>;

/// A list of pairs as contracts see it.
pub open spec fn spec_pairs(pairs: Seq<(String, String)>) -> Seq<(Seq<char>, Seq<char>)> {
    Seq::new(pairs.len(), |i: int| (pairs[i].0@, pairs[i].1@))
}

/// Trusted: calls `querystring::querify` and copies each pair of string
/// slices it returns into a pair of strings, in the order it returns them.
#[verifier::external_body]
pub(crate) fn querify(text: &str) -> (r: Vec<(String, String)>)
    ensures
        spec_pairs(r@) == query_pairs(text@),
{
    querystring::querify(text).into_iter().map(|(k, v)| (k.to_string(), v.to_string())).collect()
}

/// Trusted: calls `str::to_lowercase`.
#[verifier::external_body]
pub(crate) fn to_lowercase(text: &str) -> (r: String)
    ensures
        r@ == lowercase(text@),
{
    text.to_lowercase()
}

/// The options that the fragment of `u` holds; none where `u` has no
/// fragment.
pub fn opts_from_url(u: &url::Url) -> (r: Vec<(String, String)>)
    ensures
        spec_pairs(r@) == query_pairs(spec_config_text(*u)),
{
    let text = config_text(u);
    querify(text.as_str())
}

/// The options that a list of environment variables holds: every variable,
/// in the order of the list, its name in lower case and its value as it is.
pub fn opts_from_vars(vars: Vec<(String, String)>) -> (r: Vec<(String, String)>)
    ensures
        r@.len() == vars@.len(),
        forall|i: int|
            0 <= i < vars@.len() ==> (#[trigger] r@[i]).0@ == lowercase(vars@[i].0@) && r@[i].1
                == vars@[i].1,
{
    let ghost all = vars@;
    let mut out: Vec<(String, String)> = Vec::new();
    for pair in it: vars
        invariant
            it.seq() == all,
            out@.len() == it.index(),
            forall|i: int|
                0 <= i < it.index() ==> (#[trigger] out@[i]).0@ == lowercase(all[i].0@) && out@[i].1
                    == all[i].1,
    {
        let (k, v) = pair;
        let key = to_lowercase(k.as_str());
        out.push((key, v));
    }
    out
}

} // verus!
