//! Appending path segments to a URL.

use vstd::prelude::*;
use vstd::string::StringExecFns;
use crate::endpoint::{parse_url, url_parse};

verus! {

/// Why path segments could not be appended.
#[derive(Debug)]
pub enum UrlExtError {
    /// The URL's own text does not parse.
    Parse(url::ParseError),
    /// The URL is of a kind that has no path segments.
    CannotBeABase,
}

impl UrlExtError {
    /// The error in words.
    pub open spec fn spec_message(&self) -> Seq<char> {
        match self {
            UrlExtError::Parse(_) => "parse error"@,
            UrlExtError::CannotBeABase => "cannot be a base"@,
        }
    }

    /// The error in words.
    pub fn message(&self) -> (r: String)
        ensures
            r@ == self.spec_message(),
    {
        match self {
            UrlExtError::Parse(_) => String::from_str("parse error"),
            UrlExtError::CannotBeABase => String::from_str("cannot be a base"),
        }
    }
}

/// What `Url::as_str` returns for `u`: the URL as text.
pub uninterp spec fn url_text(u: url::Url) -> Seq<char>;

/// The URL that extending the path segments of `u` by `segments` gives
/// (`Url::path_segments_mut`, then `PathSegmentsMut::extend` on what it
/// returns), or `None` where `u` cannot be a base.
pub uninterp spec fn url_with_segments(u: url::Url, segments: Seq<Seq<char>>) -> Option<url::Url>;

/// A list of strings as contracts see it.
pub open spec fn spec_texts(segments: Seq<String>) -> Seq<Seq<char>> {
    Seq::new(segments.len(), |i: int| segments[i]@)
}

/// Trusted: calls `Url::as_str`.
#[verifier::external_body]
pub(crate) fn as_str(u: &url::Url) -> (r: &str)
    ensures
        r@ == url_text(*u),
{
    u.as_str()
}

/// The longest URL text, in bytes, that segments are appended to, and the
/// most room, in bytes, that the appended segments may take.
pub const MAX_URL_BYTES: usize = 1_073_741_824;

/// The length of `text` in bytes.
pub open spec fn spec_byte_len(text: Seq<char>) -> nat {
    vstd::utf8::encode_utf8(text).len()
}

/// The room that appended segments take at most: for each segment a slash,
/// and three bytes for each of its bytes, which is what a byte takes once
/// it is percent-encoded.
pub open spec fn spec_room(segments: Seq<Seq<char>>) -> nat
    decreases segments.len(),
{
    if segments.len() == 0 {
        0
    } else {
        spec_room(segments.drop_last()) + 3 * spec_byte_len(segments.last()) + 1
    }
}

/// Whether `segments` can be appended to a URL of this text: neither the
/// text nor the room for the segments exceeds `MAX_URL_BYTES`, so that the
/// extended URL stays below the four gibibytes that `url` can address.
pub open spec fn spec_fits(text: Seq<char>, segments: Seq<Seq<char>>) -> bool {
    spec_byte_len(text) <= MAX_URL_BYTES && spec_room(segments) <= MAX_URL_BYTES
}

/// The length of `text` in bytes.
pub fn byte_len(text: &str) -> (n: usize)
    ensures
        n == spec_byte_len(text@),
{
    text.as_bytes().len()
}

/// The first segments take no more room than all of them.
proof fn lemma_room_grows(segments: Seq<Seq<char>>, k: int)
    requires
        0 <= k <= segments.len(),
    ensures
        spec_room(segments.take(k)) <= spec_room(segments),
    decreases segments.len(),
{
    if k == segments.len() {
        assert(segments.take(k) =~= segments);
    } else {
        lemma_room_grows(segments.drop_last(), k);
        assert(segments.drop_last().take(k) =~= segments.take(k));
    }
}

/// The room that `segments` take at most, or `None` where it exceeds
/// `MAX_URL_BYTES`.
pub fn room(segments: &Vec<String>) -> (r: Option<usize>)
    ensures
        match r {
            Some(n) => n == spec_room(spec_texts(segments@)) && n <= MAX_URL_BYTES,
            None => spec_room(spec_texts(segments@)) > MAX_URL_BYTES,
        },
{
    let ghost texts = spec_texts(segments@);
    let mut total: usize = 0;
    let mut i: usize = 0;
    proof {
        assert(texts.take(0) =~= Seq::<Seq<char>>::empty());
    }
    while i < segments.len()
        invariant
            i <= segments.len(),
            texts == spec_texts(segments@),
            total == spec_room(texts.take(i as int)),
            total <= MAX_URL_BYTES,
        decreases segments.len() - i,
    {
        let len = byte_len(segments[i].as_str());
        let left = MAX_URL_BYTES - total;
        proof {
            assert(texts.take(i + 1).drop_last() =~= texts.take(i as int));
            assert(texts.take(i + 1).last() == segments@[i as int]@);
            lemma_room_grows(texts, i + 1);
        }
        if left == 0 || len > (left - 1) / 3 {
            return None;
        }
        total = total + 3 * len + 1;
        i += 1;
    }
    proof {
        assert(texts.take(segments.len() as int) =~= texts);
    }
    Some(total)
}

/// Trusted: calls `Url::path_segments_mut` and, where that gives the
/// segments, `PathSegmentsMut::extend` with `segments`. `None` stands for
/// the one error of `path_segments_mut`: the URL cannot be a base. The
/// outside code keeps positions in the URL's text as `u32` and panics where
/// the text outgrows them; the text grows by at most the room of the
/// segments, which `requires` bounds.
#[verifier::external_body]
pub(crate) fn extend_path(u: url::Url, segments: &Vec<String>) -> (r: Option<url::Url>)
    requires
        spec_fits(url_text(u), spec_texts(segments@)),
    ensures
        r == url_with_segments(u, spec_texts(segments@)),
{
    let mut u = u;
    match u.path_segments_mut() {
        Ok(mut path) => {
            path.extend(segments);
        },
        Err(()) => return None,
    }
    Some(u)
}

/// What appending `segments` to the path of `u` gives: the extended URL,
/// or the error `CannotBeABase` where `u` has no path segments.
pub open spec fn spec_extend_segments(u: url::Url, segments: Seq<Seq<char>>) -> Result<
    url::Url,
    UrlExtError,
> {
    match url_with_segments(u, segments) {
        Some(extended) => Ok(extended),
        None => Err(UrlExtError::CannotBeABase),
    }
}

/// Appends `segments` to the path of `u`, each as one path segment.
pub fn extend_segments(u: url::Url, segments: &Vec<String>) -> (r: Result<url::Url, UrlExtError>)
    requires
        spec_fits(url_text(u), spec_texts(segments@)),
    ensures
        r == spec_extend_segments(u, spec_texts(segments@)),
{
    match extend_path(u, segments) {
        Some(extended) => Ok(extended),
        None => Err(UrlExtError::CannotBeABase),
    }
}

/// A copy of `u` with `segments` appended to its path, each as one path
/// segment. The copy is made by parsing the text of `u`; where that fails,
/// the result is the error `Parse`. `None` where the copy or the segments
/// are too long to be put together.
pub fn append_path_segments(u: &url::Url, segments: &Vec<String>) -> (r: Option<
    Result<url::Url, UrlExtError>,
>)
    ensures
        r == match url_parse(url_text(*u)) {
            Err(e) => Some(Err::<url::Url, UrlExtError>(UrlExtError::Parse(e))),
            Ok(copy) => if spec_fits(url_text(copy), spec_texts(segments@)) {
                Some(spec_extend_segments(copy, spec_texts(segments@)))
            } else {
                None
            },
        },
{
    match parse_url(as_str(u)) {
        Err(e) => Some(Err(UrlExtError::Parse(e))),
        Ok(copy) => {
            if byte_len(as_str(&copy)) > MAX_URL_BYTES {
                return None;
            }
            match room(segments) {
                Some(_) => Some(extend_segments(copy, segments)),
                None => None,
            }
        },
    }
}

} // verus!
