//! Deriving an `owner/repo` namespace from a remote URL.

use vstd::prelude::*;
use crate::errors::FormatError;
use crate::strings::strip_suffix;
use crate::strings::strip_suffix_spec;

verus! {

/// What the URL parser yields for a text: `None` when the text is not a
/// valid URL or its path cannot be split into segments; otherwise the path
/// segments in order.
pub uninterp spec fn url_path_segments(text: Seq<char>) -> Option<Seq<Seq<char>>>;

/// Relies on `url::Url::parse` and `Url::path_segments`: the segments of a
/// URL's path depend on its text alone; `path_segments` is absent exactly
/// for URLs that cannot be a base.
#[verifier::external_body]
fn parse_url_segments(text: &str) -> (r: Option<Vec<String>>)
    ensures
        r.deep_view() == url_path_segments(text@),
{
    let url = match url::Url::parse(text) {
        Ok(u) => u,
        Err(_) => return None,
    };
    let segments = match url.path_segments() {
        Some(s) => s,
        None => return None,
    };
    Some(segments.map(|s| s.to_owned()).collect())
}

/// The namespace derived from a URL's path segments: the last two joined
/// with `/`, a trailing `.git` stripped from the final one.
pub open spec fn spec_namespace(segments: Seq<Seq<char>>) -> Seq<char>
    recommends
        segments.len() >= 2,
{
    segments[segments.len() - 2] + "/"@ + strip_suffix_spec(
        segments[segments.len() - 1],
        ".git"@,
    )
}

/// Derives `owner/repo` from a remote URL: the last two path segments
/// joined with `/`, with a trailing `.git` removed. Fails exactly when the
/// text is no valid URL (or has no splittable path), or when fewer than
/// two segments are present.
pub fn extract_namespace(url_str: &str) -> (r: Result<String, FormatError>)
    ensures
        match r {
            Ok(ns) => url_path_segments(url_str@) matches Some(segments)
                && segments.len() >= 2 && ns@ == spec_namespace(segments),
            Err(e) => match e {
                FormatError::InvalidUrl => url_path_segments(url_str@) is None,
                FormatError::MissingSegments => url_path_segments(url_str@) matches Some(
                    segments,
                ) && segments.len() < 2,
            },
        },
{
    let segments = match parse_url_segments(url_str) {
        Some(s) => s,
        None => return Err(FormatError::InvalidUrl),
    };
    if segments.len() < 2 {
        return Err(FormatError::MissingSegments);
    }
    let owner = &segments[segments.len() - 2];
    let repo = strip_suffix(segments[segments.len() - 1].as_str(), ".git");
    proof {
        assert(segments.deep_view()[segments@.len() - 2] == owner@);
        assert(segments.deep_view()[segments@.len() - 1] == segments@[segments@.len() - 1]@);
    }
    let joined = owner.clone().concat("/").concat(repo);
    Ok(joined)
}

} // verus!
