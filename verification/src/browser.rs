//! Reading what the browser bridge prints: the session cookie from an
//! exported cookie file, the HLS stream found for a lecture, the course
//! structure, and when a navigation is retried.
use vstd::prelude::*;
use crate::models::{opt_view, HotmartStream};
use crate::text::{
    chars_of, contains, contains_seq, has_prefix, lines, lines_seq, push_str, replace_all,
    replace_seq, split, split_seq, starts_with, string_of, trim, trim_seq, trim_start_char,
    trim_start_char_seq, is_white_space,
};

verus! {

/// The name of the academy's session cookie.
pub const COOKIE_NAME: &'static str = "_teachable_session";

/// The line of a Netscape cookie file holds the academy's session cookie:
/// it is no comment, not blank, has at least seven tab-separated fields, its
/// domain (without leading dots) mentions `zerotomastery.io` and its name is
/// the session cookie's.
pub open spec fn is_session_cookie_line(line: Seq<char>) -> bool {
    let fields = split_seq(line, seq!['\t']);
    &&& !has_prefix(line, "#"@)
    &&& trim_seq(line).len() > 0
    &&& fields.len() >= 7
    &&& contains_seq(trim_start_char_seq(fields[0], '.'), "zerotomastery.io"@)
    &&& fields[5] == COOKIE_NAME@
}

/// The value of the session cookie in the first line that holds it.
pub open spec fn session_cookie_in(ls: Seq<Seq<char>>) -> Option<Seq<char>>
    decreases ls.len(),
{
    if ls.len() == 0 {
        None
    } else if is_session_cookie_line(ls[0]) {
        Some(split_seq(ls[0], seq!['\t'])[6])
    } else {
        session_cookie_in(ls.drop_first())
    }
}

/// The value of the academy's session cookie in an exported Netscape cookie
/// file, from the first line that holds it.
pub fn find_session_cookie(content: &str) -> (res: Option<String>)
    ensures
        opt_view(res) == session_cookie_in(lines_seq(content@)),
{
    let c = chars_of(content);
    let ls = lines(&c);
    let ghost lv = ls@.map_values(|v: Vec<char>| v@);
    let tab = vec!['\t'];
    assert(tab@ =~= seq!['\t']);
    let hash = chars_of("#");
    let dotted = chars_of("zerotomastery.io");
    let name = String::from_str(COOKIE_NAME);
    let mut k: usize = 0;
    assert(lv.skip(0) =~= lv);
    while k < ls.len()
        invariant
            k <= ls@.len(),
            lv == ls@.map_values(|v: Vec<char>| v@),
            lv == lines_seq(content@),
            tab@ == seq!['\t'],
            hash@ == "#"@,
            dotted@ == "zerotomastery.io"@,
            name@ == COOKIE_NAME@,
            session_cookie_in(lv) == session_cookie_in(lv.skip(k as int)),
        decreases ls@.len() - k,
    {
        let line = &ls[k];
        assert(lv.skip(k as int)[0] == line@);
        assert(lv.skip(k as int).drop_first() =~= lv.skip(k + 1));
        if !starts_with(line, &hash) && trim(line).len() > 0 {
            let fields = split(line, &tab);
            if fields.len() >= 7 {
                let domain = trim_start_char(&fields[0], '.');
                let field_name = string_of(&fields[5]);
                if contains(&domain, &dotted) && field_name == name {
                    return Some(string_of(&fields[6]));
                }
            }
        }
        k = k + 1;
    }
    None
}

/// The trimmed output, when it is not empty.
pub open spec fn nonempty_trimmed(out: Seq<char>) -> Option<Seq<char>> {
    if trim_seq(out).len() == 0 { None } else { Some(trim_seq(out)) }
}

/// The trimmed output of the bridge, when it printed anything (the URL of an
/// embedded player found among the browser's targets).
pub fn embed_url_from_output(stdout: &str) -> (res: Option<String>)
    ensures
        opt_view(res) == nonempty_trimmed(stdout@),
{
    let t = trim(&chars_of(stdout));
    if t.len() == 0 { None } else { Some(string_of(&t)) }
}

/// What `serde_json::from_str` gives for `text` read as a JSON value,
/// followed by `Value::get(key)` and `Value::as_str`: the string member
/// `key` of the JSON object written in `text`, if any.
pub uninterp spec fn json_string_member(text: Seq<char>, key: Seq<char>) -> Option<Seq<char>>;

/// Parses `text` with `serde_json` and reads its member `key` as a string.
/// The result is named by `json_string_member`; nothing more is stated of
/// how JSON is read.
#[verifier::external_body]
fn json_member(text: &str, key: &str) -> (res: Option<String>)
    ensures
        opt_view(res) == json_string_member(text@, key@),
{
    match serde_json::from_str::<serde_json::Value>(text) {
        Ok(v) => v.get(key).and_then(|x| x.as_str()).map(|s| s.to_string()),
        Err(_) => None,
    }
}

/// Why no stream could be found for a lecture.
#[derive(Debug, PartialEq)]
pub enum NavigationError {
    /// The bridge ran but found no HLS stream.
    NoStream { lecture_url: String },
    /// The bridge failed with the given error output (trimmed).
    BridgeFailed { lecture_url: String, detail: String },
    /// Every attempt timed out; the last error output (trimmed).
    TimedOut { lecture_url: String, detail: String },
}

pub const LOGIN_HINT: &'static str = "Make sure Chrome is open and you are logged into academy.zerotomastery.io.";

/// The message of a navigation error.
pub open spec fn navigation_error_text(e: NavigationError) -> Seq<char> {
    match e {
        NavigationError::NoStream { lecture_url } =>
            "No HLS stream found for lecture "@ + lecture_url@ + ". "@ + LOGIN_HINT@,
        NavigationError::BridgeFailed { lecture_url, detail } =>
            "browser-harness failed for "@ + lecture_url@ + ": "@ + detail@,
        NavigationError::TimedOut { lecture_url, detail } =>
            "browser-harness timed out for "@ + lecture_url@ + ": "@ + detail@,
    }
}

impl NavigationError {
    /// The message of the error.
    pub fn message(&self) -> (res: String)
        ensures
            res@ == navigation_error_text(*self),
    {
        let mut out: Vec<char> = Vec::new();
        match self {
            NavigationError::NoStream { lecture_url } => {
                push_str(&mut out, "No HLS stream found for lecture ");
                push_str(&mut out, lecture_url.as_str());
                push_str(&mut out, ". ");
                push_str(&mut out, LOGIN_HINT);
            },
            NavigationError::BridgeFailed { lecture_url, detail } => {
                push_str(&mut out, "browser-harness failed for ");
                push_str(&mut out, lecture_url.as_str());
                push_str(&mut out, ": ");
                push_str(&mut out, detail.as_str());
            },
            NavigationError::TimedOut { lecture_url, detail } => {
                push_str(&mut out, "browser-harness timed out for ");
                push_str(&mut out, lecture_url.as_str());
                push_str(&mut out, ": ");
                push_str(&mut out, detail.as_str());
            },
        }
        assert(out@ =~= navigation_error_text(*self));
        string_of(&out)
    }
}

/// The stream the bridge reported: its trimmed output, with `&amp;` read as
/// `&`, is a JSON object whose non-empty `url` is the stream and whose
/// non-empty `cookies` are the cookie header.
pub open spec fn stream_from_output(stdout: Seq<char>) -> Option<(Seq<char>, Option<Seq<char>>)> {
    let raw = trim_seq(stdout);
    let decoded = replace_seq(raw, "&amp;"@, "&"@);
    if raw.len() == 0 {
        None
    } else {
        match json_string_member(decoded, "url"@) {
            Some(u) => if u.len() == 0 {
                None
            } else {
                Some((u, match json_string_member(decoded, "cookies"@) {
                    Some(c) => if c.len() == 0 { None } else { Some(c) },
                    None => None,
                }))
            },
            None => None,
        }
    }
}

/// Reads the stream the bridge reported for a lecture.
pub fn parse_stream_output(stdout: &str, lecture_url: &str) -> (res: Result<HotmartStream, NavigationError>)
    ensures
        match res {
            Ok(s) => stream_from_output(stdout@) == Some((s.hls_url@, opt_view(s.cookie_header))),
            Err(e) => {
                &&& stream_from_output(stdout@) is None
                &&& e matches NavigationError::NoStream { lecture_url: u }
                &&& u@ == lecture_url@
            },
        },
{
    let raw = trim(&chars_of(stdout));
    if raw.len() == 0 {
        return Err(NavigationError::NoStream { lecture_url: String::from_str(lecture_url) });
    }
    let amp = chars_of("&amp;");
    let and = chars_of("&");
    let decoded = string_of(&replace_all(&raw, &amp, &and));
    let url = json_member(decoded.as_str(), "url");
    match url {
        Some(u) => {
            if u.as_str().is_empty() {
                return Err(NavigationError::NoStream { lecture_url: String::from_str(lecture_url) });
            }
            let cookies = json_member(decoded.as_str(), "cookies");
            let cookie_header = match cookies {
                Some(c) => if c.as_str().is_empty() { None } else { Some(c) },
                None => None,
            };
            Ok(HotmartStream { hls_url: u, cookie_header })
        },
        None => Err(NavigationError::NoStream { lecture_url: String::from_str(lecture_url) }),
    }
}

/// How one run of the bridge ended.
pub enum BridgeRun {
    /// The run succeeded and printed this output.
    Succeeded { stdout: String },
    /// The run failed with this error output.
    Failed { stderr: String },
}

/// What to do after a run of the bridge.
pub enum NavigationStep {
    /// Run again as attempt `attempt`, after waiting this many seconds.
    Retry { attempt: u8, wait_secs: u64 },
    /// Stop with this outcome.
    Finish { outcome: Result<HotmartStream, NavigationError> },
}

/// How many times the navigation is tried.
pub const MAX_NAVIGATION_ATTEMPTS: u8 = 3;

/// The wait before attempt `attempt` (counted from zero) of a navigation.
pub open spec fn navigation_wait(attempt: nat) -> nat {
    if attempt == 1 { 8 } else { 15 }
}

/// The decision after attempt `attempt` (counted from zero) of navigating
/// to a lecture ended as `run`: a successful run is read; a failure that
/// timed out is retried while attempts are left (after 8 s, then 15 s); any
/// other failure, or a time-out on the last attempt, ends the navigation with
/// the trimmed error output.
pub fn navigation_step(attempt: u8, lecture_url: &str, run: BridgeRun) -> (res: NavigationStep)
    requires
        attempt < MAX_NAVIGATION_ATTEMPTS,
    ensures
        match run {
            BridgeRun::Succeeded { stdout } => res matches NavigationStep::Finish { outcome } && match outcome {
                Ok(s) => stream_from_output(stdout@) == Some((s.hls_url@, opt_view(s.cookie_header))),
                Err(e) => {
                    &&& stream_from_output(stdout@) is None
                    &&& e matches NavigationError::NoStream { lecture_url: u }
                    &&& u@ == lecture_url@
                },
            },
            BridgeRun::Failed { stderr } => if contains_seq(stderr@, "TimeoutError"@) {
                if attempt + 1 < MAX_NAVIGATION_ATTEMPTS {
                    res matches NavigationStep::Retry { attempt: next, wait_secs }
                        && next == attempt + 1 && wait_secs == navigation_wait((attempt + 1) as nat)
                } else {
                    res matches NavigationStep::Finish { outcome: Err(NavigationError::TimedOut { lecture_url: u, detail }) }
                        && u@ == lecture_url@ && detail@ == trim_seq(stderr@)
                }
            } else {
                res matches NavigationStep::Finish { outcome: Err(NavigationError::BridgeFailed { lecture_url: u, detail }) }
                    && u@ == lecture_url@ && detail@ == trim_seq(stderr@)
            },
        },
{
    match run {
        BridgeRun::Succeeded { stdout } => NavigationStep::Finish {
            outcome: parse_stream_output(stdout.as_str(), lecture_url),
        },
        BridgeRun::Failed { stderr } => {
            let err = chars_of(stderr.as_str());
            let marker = chars_of("TimeoutError");
            let detail = string_of(&trim(&err));
            if contains(&err, &marker) {
                let next = attempt + 1;
                if next < MAX_NAVIGATION_ATTEMPTS {
                    NavigationStep::Retry { attempt: next, wait_secs: if next == 1 { 8 } else { 15 } }
                } else {
                    NavigationStep::Finish {
                        outcome: Err(NavigationError::TimedOut { lecture_url: String::from_str(lecture_url), detail }),
                    }
                }
            } else {
                NavigationStep::Finish {
                    outcome: Err(NavigationError::BridgeFailed { lecture_url: String::from_str(lecture_url), detail }),
                }
            }
        },
    }
}

/// The bridge printed a course structure: its trimmed output is not empty,
/// `null`, `[]` or `{}`.
pub open spec fn has_course_output(stdout: Seq<char>) -> bool {
    let raw = trim_seq(stdout);
    raw.len() > 0 && raw != "null"@ && raw != "[]"@ && raw != "{}"@
}

/// The message when the course page listed no sections.
pub open spec fn no_sections_text(course_url: Seq<char>) -> Seq<char> {
    "No course sections found on "@ + course_url + ". "@ + LOGIN_HINT@
}

/// The trimmed course-structure output of the bridge, or the message that
/// no sections were found.
pub fn course_output(stdout: &str, course_url: &str) -> (res: Result<String, String>)
    ensures
        match res {
            Ok(raw) => has_course_output(stdout@) && raw@ == trim_seq(stdout@),
            Err(msg) => !has_course_output(stdout@) && msg@ == no_sections_text(course_url@),
        },
{
    let raw = string_of(&trim(&chars_of(stdout)));
    if raw.as_str().is_empty() || raw == String::from_str("null") || raw == String::from_str("[]")
        || raw == String::from_str("{}") {
        let mut out = chars_of("No course sections found on ");
        push_str(&mut out, course_url);
        push_str(&mut out, ". ");
        push_str(&mut out, LOGIN_HINT);
        assert(out@ =~= no_sections_text(course_url@));
        Err(string_of(&out))
    } else {
        Ok(raw)
    }
}

} // verus!
