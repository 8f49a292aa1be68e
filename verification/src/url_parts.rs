//! The parts of a URL that the library reads, as the `url` crate parses them.
use vstd::prelude::*;
use crate::text::{chars_of, slice_chars, split, split_seq, string_of};

verus! {

/// Whether `url::Url::parse` accepts the input.
pub uninterp spec fn url_parses(input: Seq<char>) -> bool;

/// What `url::Url::scheme` returns for the parsed input.
pub uninterp spec fn url_scheme(input: Seq<char>) -> Seq<char>;

/// What `url::Url::host_str` returns for the parsed input.
pub uninterp spec fn url_host(input: Seq<char>) -> Option<Seq<char>>;

/// What `url::Url::path` returns for the parsed input.
pub uninterp spec fn url_path(input: Seq<char>) -> Seq<char>;

/// The scheme, host and path of a parsed URL.
pub struct UrlParts {
    pub scheme: String,
    pub host: Option<String>,
    pub path: String,
}

/// Parses `input` with `url::Url::parse` and reads its scheme
/// (`Url::scheme`), host (`Url::host_str`) and path (`Url::path`).
/// The claim: the result is present exactly when the parse succeeds, and its
/// parts are what those three accessors return; nothing more is stated of
/// how the crate parses.
#[verifier::external_body]
pub(crate) fn parse_url(input: &str) -> (res: Option<UrlParts>)
    ensures
        res is Some <==> url_parses(input@),
        res matches Some(p) ==> {
            &&& p.scheme@ == url_scheme(input@)
            &&& p.path@ == url_path(input@)
            &&& match p.host {
                Some(h) => url_host(input@) == Some(h@),
                None => url_host(input@) is None,
            }
        },
{
    match url::Url::parse(input) {
        Ok(u) => Some(UrlParts {
            scheme: u.scheme().to_string(),
            host: u.host_str().map(|h| h.to_string()),
            path: u.path().to_string(),
        }),
        Err(_) => None,
    }
}

/// The path segments of a URL path (`url::Url::path_segments`): the pieces
/// between slashes after the leading slash, or none when the path does not
/// start with a slash.
pub open spec fn path_segments_of(path: Seq<char>) -> Option<Seq<Seq<char>>> {
    if path.len() > 0 && path[0] == '/' {
        Some(split_seq(path.drop_first(), seq!['/']))
    } else {
        None
    }
}

/// The second path segment of a URL, when it has one (the course slug of
/// `/courses/{slug}`).
pub open spec fn second_path_segment(input: Seq<char>) -> Option<Seq<char>> {
    if url_parses(input) {
        match path_segments_of(url_path(input)) {
            Some(segs) => if segs.len() > 1 { Some(segs[1]) } else { None },
            None => None,
        }
    } else {
        None
    }
}

/// The second path segment of `url`, as `path_segments().nth(1)` gives it.
pub fn second_path_segment_of(url: &str) -> (res: Option<String>)
    ensures
        match res {
            Some(s) => second_path_segment(url@) == Some(s@),
            None => second_path_segment(url@) is None,
        },
{
    match parse_url(url) {
        None => None,
        Some(parts) => {
            let path = chars_of(parts.path.as_str());
            if path.len() > 0 && path[0] == '/' {
                let rest = slice_chars(&path, 1, path.len());
                assert(rest@ =~= path@.drop_first());
                let slash = vec!['/'];
                assert(slash@ =~= seq!['/']);
                let segs = split(&rest, &slash);
                if segs.len() > 1 {
                    Some(string_of(&segs[1]))
                } else {
                    None
                }
            } else {
                None
            }
        },
    }
}

} // verus!
