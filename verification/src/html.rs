//! Reading lecture pages and the video player's embed page: the attachment
//! id, the player URL and the lecture title, found with the page patterns
//! the platform's HTML follows.
use vstd::prelude::*;
use crate::duration::{duration_text_is_valid, is_some_duration};
use crate::hotmart::{origin_text, url_origin};
use crate::models::{opt_view, CourseInfo, CourseLecture, CourseSection, LectureType};
use crate::text::{
    chars_of, decimal, has_suffix, push_all, push_decimal, push_str, slice_chars, split, split_seq,
    string_of, trim, trim_seq,
};
use crate::url_parts::url_parses;
use crate::ztm::{course_id_from_url, course_id_of, ZTM_AUTHOR, ZTM_PLATFORM_ID};

verus! {

/// A pattern that `regex::Regex::new` refused.
#[derive(Debug, PartialEq, Eq, Structural)]
pub struct PatternError;

/// Whether `regex::Regex::new` accepts the pattern.
pub uninterp spec fn regex_compiles(pattern: Seq<char>) -> bool;

/// What `regex::Regex::captures` returns for the text: for the leftmost
/// match, each group's text (absent for a group that did not take part),
/// group 0 being the whole match; nothing when the pattern does not match.
pub uninterp spec fn regex_captures(pattern: Seq<char>, text: Seq<char>) -> Option<Seq<Option<Seq<char>>>>;

/// What `regex::Regex::captures_iter` yields for the text: the groups of
/// each successive non-overlapping match.
pub uninterp spec fn regex_captures_all(pattern: Seq<char>, text: Seq<char>) -> Seq<Seq<Option<Seq<char>>>>;

/// What `regex::Regex::replace` returns: the text with its leftmost match
/// replaced by `rep`.
pub uninterp spec fn regex_replace_first(pattern: Seq<char>, text: Seq<char>, rep: Seq<char>) -> Seq<char>;

/// What `regex::Regex::replace_all` returns: the text with every match
/// replaced by `rep`.
pub uninterp spec fn regex_replace_every(pattern: Seq<char>, text: Seq<char>, rep: Seq<char>) -> Seq<char>;

/// What `regex::Regex::split` yields for the text: the pieces of the text
/// between successive non-overlapping matches, from the start to the end.
pub uninterp spec fn regex_split(pattern: Seq<char>, text: Seq<char>) -> Seq<Seq<char>>;

/// Compiles `pattern` with `regex::Regex::new` and collects `split`; the
/// result is named by `regex_compiles` and `regex_split`.
#[verifier::external_body]
pub(crate) fn split_on(pattern: &str, text: &str) -> (res: Result<Vec<String>, PatternError>)
    ensures
        res is Ok <==> regex_compiles(pattern@),
        res matches Ok(pieces) ==> regex_split(pattern@, text@) == pieces@.map_values(|p: String| p@),
{
    match regex::Regex::new(pattern) {
        Ok(re) => Ok(re.split(text).map(|p| p.to_string()).collect()),
        Err(_) => Err(PatternError),
    }
}

/// Compiles `pattern` with `regex::Regex::new` and calls `captures`; the
/// result is named by `regex_compiles` and `regex_captures`.
#[verifier::external_body]
pub(crate) fn captures(pattern: &str, text: &str) -> (res: Result<Option<Vec<Option<String>>>, PatternError>)
    ensures
        res is Ok <==> regex_compiles(pattern@),
        res matches Ok(found) ==> match found {
            None => regex_captures(pattern@, text@) is None,
            Some(groups) => regex_captures(pattern@, text@) == Some(groups@.map_values(|g: Option<String>| crate::models::opt_view(g))),
        },
{
    match regex::Regex::new(pattern) {
        Ok(re) => Ok(re.captures(text).map(|c| c.iter().map(|m| m.map(|m| m.as_str().to_string())).collect())),
        Err(_) => Err(PatternError),
    }
}

/// Compiles `pattern` with `regex::Regex::new` and collects
/// `captures_iter`; the result is named by `regex_compiles` and
/// `regex_captures_all`.
#[verifier::external_body]
pub(crate) fn captures_all(pattern: &str, text: &str) -> (res: Result<Vec<Vec<Option<String>>>, PatternError>)
    ensures
        res is Ok <==> regex_compiles(pattern@),
        res matches Ok(all) ==> regex_captures_all(pattern@, text@) == all@.map_values(
            |c: Vec<Option<String>>| c@.map_values(|g: Option<String>| crate::models::opt_view(g)),
        ),
{
    match regex::Regex::new(pattern) {
        Ok(re) => Ok(re.captures_iter(text)
            .map(|c| c.iter().map(|m| m.map(|m| m.as_str().to_string())).collect())
            .collect()),
        Err(_) => Err(PatternError),
    }
}

/// Compiles `pattern` with `regex::Regex::new` and calls `replace`; the
/// result is named by `regex_compiles` and `regex_replace_first`.
#[verifier::external_body]
pub(crate) fn replace_first(pattern: &str, text: &str, rep: &str) -> (res: Result<String, PatternError>)
    ensures
        res is Ok <==> regex_compiles(pattern@),
        res matches Ok(s) ==> s@ == regex_replace_first(pattern@, text@, rep@),
{
    match regex::Regex::new(pattern) {
        Ok(re) => Ok(re.replace(text, rep).to_string()),
        Err(_) => Err(PatternError),
    }
}

/// Compiles `pattern` with `regex::Regex::new` and calls `replace_all`; the
/// result is named by `regex_compiles` and `regex_replace_every`.
#[verifier::external_body]
pub(crate) fn replace_every(pattern: &str, text: &str, rep: &str) -> (res: Result<String, PatternError>)
    ensures
        res is Ok <==> regex_compiles(pattern@),
        res matches Ok(s) ==> s@ == regex_replace_every(pattern@, text@, rep@),
{
    match regex::Regex::new(pattern) {
        Ok(re) => Ok(re.replace_all(text, rep).to_string()),
        Err(_) => Err(PatternError),
    }
}

/// Group `i` of a match, when present.
pub open spec fn group(caps: Seq<Option<Seq<char>>>, i: int) -> Option<Seq<char>> {
    if 0 <= i < caps.len() { caps[i] } else { None }
}

fn group_of(caps: &Vec<Option<String>>, i: usize) -> (res: Option<String>)
    ensures
        crate::models::opt_view(res) == group(caps@.map_values(|g: Option<String>| crate::models::opt_view(g)), i as int),
{
    if i < caps.len() {
        crate::models::copy_opt(&caps[i])
    } else {
        None
    }
}

/// The first group of the leftmost match of `pattern` in `text`: `Err` when
/// the pattern does not compile, nothing when it does not match or the group
/// took no part.
pub open spec fn first_group(pattern: Seq<char>, text: Seq<char>) -> Result<Option<Seq<char>>, PatternError> {
    if !regex_compiles(pattern) {
        Err(PatternError)
    } else {
        match regex_captures(pattern, text) {
            Some(caps) => Ok(group(caps, 1)),
            None => Ok(None),
        }
    }
}

fn first_group_of(pattern: &str, text: &str) -> (res: Result<Option<String>, PatternError>)
    ensures
        match res {
            Ok(g) => first_group(pattern@, text@) == Ok::<Option<Seq<char>>, PatternError>(crate::models::opt_view(g)),
            Err(e) => first_group(pattern@, text@) is Err,
        },
{
    match captures(pattern, text) {
        Err(e) => Err(e),
        Ok(None) => Ok(None),
        Ok(Some(caps)) => Ok(group_of(&caps, 1)),
    }
}

pub const TAG_PATTERN: &'static str = r#"<[^>]+>"#;
pub const TITLE_PATTERN: &'static str = r#"<title[^>]*>([^<]+)</title>"#;
pub const ATTACHMENT_PATTERN: &'static str = r#"["\']attachment_id["\']\s*[=:]\s*["']?(\d+)["']?"#;
pub const ATTACHMENT_API_PATTERN: &'static str = r#"hotmart/private_video\?attachment_id=(\d+)"#;
pub const ATTACHMENT_METADATA_PATTERN: &'static str = r#"metadata.*?attachment_id.*?([0-9]{6,})"#;
pub const VIMEO_SRC_PATTERN: &'static str = r#"(?:src|href)=["'](https://player\.vimeo\.com/video/\d+[^"']+)["']"#;
pub const VIMEO_JSON_PATTERN: &'static str = r#"["\']url["\']\s*:\s*["'](https://player\.vimeo\.com/video/[^"']+)["']"#;

/// The text with every HTML tag removed; `Err` when the tag pattern does not
/// compile.
pub open spec fn stripped(html: Seq<char>) -> Result<Seq<char>, PatternError> {
    if regex_compiles(TAG_PATTERN@) {
        Ok(regex_replace_every(TAG_PATTERN@, html, Seq::<char>::empty()))
    } else {
        Err(PatternError)
    }
}

/// Removes every HTML tag (`<...>`) from the text.
pub fn strip_html_tags(html: &str) -> (res: Result<String, PatternError>)
    ensures
        match res {
            Ok(s) => stripped(html@) == Ok::<Seq<char>, PatternError>(s@),
            Err(e) => stripped(html@) is Err,
        },
{
    let r = replace_every(TAG_PATTERN, html, "");
    proof {
        reveal_strlit("");
        assert(""@ =~= Seq::<char>::empty());
    }
    r
}

/// Why a page could not be read.
#[derive(Debug, PartialEq)]
pub enum PageError {
    /// One of the page patterns did not compile.
    Pattern,
    /// The lecture page shows no attachment id.
    NoAttachmentId { lecture_url: String },
    /// The embed page shows no player URL.
    NoVimeoUrl,
}

/// The message of a page error.
pub open spec fn page_error_text(e: PageError) -> Seq<char> {
    match e {
        PageError::Pattern => "invalid page pattern"@,
        PageError::NoAttachmentId { lecture_url } => "Could not find attachment_id on lecture page: "@ + lecture_url@,
        PageError::NoVimeoUrl => "Could not extract Vimeo URL from Hotmart embed page. Try opening the lecture in Chrome first so OmniGet can detect it automatically."@,
    }
}

impl PageError {
    /// The message of the error.
    pub fn message(&self) -> (res: String)
        ensures
            res@ == page_error_text(*self),
    {
        match self {
            PageError::Pattern => String::from_str("invalid page pattern"),
            PageError::NoAttachmentId { lecture_url } => {
                let mut out = chars_of("Could not find attachment_id on lecture page: ");
                push_str(&mut out, lecture_url.as_str());
                string_of(&out)
            },
            PageError::NoVimeoUrl => String::from_str(
                "Could not extract Vimeo URL from Hotmart embed page. Try opening the lecture in Chrome first so OmniGet can detect it automatically.",
            ),
        }
    }
}

/// The first of the patterns, in order, that finds its group in the text:
/// `Err` when a pattern tried does not compile.
pub open spec fn first_found(patterns: Seq<Seq<char>>, text: Seq<char>) -> Result<Option<Seq<char>>, PatternError>
    decreases patterns.len(),
{
    if patterns.len() == 0 {
        Ok(None)
    } else {
        match first_group(patterns[0], text) {
            Err(e) => Err(e),
            Ok(Some(g)) => Ok(Some(g)),
            Ok(None) => first_found(patterns.drop_first(), text),
        }
    }
}

/// The patterns that locate the attachment id on a lecture page, in the
/// order they are tried.
pub open spec fn attachment_patterns() -> Seq<Seq<char>> {
    seq![ATTACHMENT_PATTERN@, ATTACHMENT_API_PATTERN@, ATTACHMENT_METADATA_PATTERN@]
}

/// The patterns that locate the player URL on the embed page, in order.
pub open spec fn vimeo_patterns() -> Seq<Seq<char>> {
    seq![VIMEO_SRC_PATTERN@, VIMEO_JSON_PATTERN@]
}

/// The attachment id shown on a lecture page: the first pattern, in order,
/// that finds it.
pub fn find_attachment_id(html: &str, lecture_url: &str) -> (res: Result<String, PageError>)
    ensures
        match res {
            Ok(id) => first_found(attachment_patterns(), html@) == Ok::<Option<Seq<char>>, PatternError>(Some(id@)),
            Err(PageError::Pattern) => first_found(attachment_patterns(), html@) is Err,
            Err(PageError::NoAttachmentId { lecture_url: u }) =>
                first_found(attachment_patterns(), html@) == Ok::<Option<Seq<char>>, PatternError>(None) && u@ == lecture_url@,
            Err(PageError::NoVimeoUrl) => false,
        },
{
    proof {
        reveal_with_fuel(first_found, 4);
    }
    let ghost ps = attachment_patterns();
    assert(ps.drop_first() =~= seq![ATTACHMENT_API_PATTERN@, ATTACHMENT_METADATA_PATTERN@]);
    assert(ps.drop_first().drop_first() =~= seq![ATTACHMENT_METADATA_PATTERN@]);
    assert(ps.drop_first().drop_first().drop_first() =~= Seq::<Seq<char>>::empty());
    match first_group_of(ATTACHMENT_PATTERN, html) {
        Err(_) => return Err(PageError::Pattern),
        Ok(Some(g)) => return Ok(g),
        Ok(None) => {},
    }
    match first_group_of(ATTACHMENT_API_PATTERN, html) {
        Err(_) => return Err(PageError::Pattern),
        Ok(Some(g)) => return Ok(g),
        Ok(None) => {},
    }
    match first_group_of(ATTACHMENT_METADATA_PATTERN, html) {
        Err(_) => return Err(PageError::Pattern),
        Ok(Some(g)) => return Ok(g),
        Ok(None) => {},
    }
    Err(PageError::NoAttachmentId { lecture_url: String::from_str(lecture_url) })
}

/// The player URL shown on the video player's embed page: the first
/// pattern, in order, that finds it.
pub fn find_vimeo_url(html: &str) -> (res: Result<String, PageError>)
    ensures
        match res {
            Ok(url) => first_found(vimeo_patterns(), html@) == Ok::<Option<Seq<char>>, PatternError>(Some(url@)),
            Err(PageError::Pattern) => first_found(vimeo_patterns(), html@) is Err,
            Err(PageError::NoVimeoUrl) => first_found(vimeo_patterns(), html@) == Ok::<Option<Seq<char>>, PatternError>(None),
            Err(PageError::NoAttachmentId { .. }) => false,
        },
{
    proof {
        reveal_with_fuel(first_found, 3);
    }
    let ghost ps = vimeo_patterns();
    assert(ps.drop_first() =~= seq![VIMEO_JSON_PATTERN@]);
    assert(ps.drop_first().drop_first() =~= Seq::<Seq<char>>::empty());
    match first_group_of(VIMEO_SRC_PATTERN, html) {
        Err(_) => return Err(PageError::Pattern),
        Ok(Some(g)) => return Ok(g),
        Ok(None) => {},
    }
    match first_group_of(VIMEO_JSON_PATTERN, html) {
        Err(_) => return Err(PageError::Pattern),
        Ok(Some(g)) => return Ok(g),
        Ok(None) => {},
    }
    Err(PageError::NoVimeoUrl)
}

/// The lecture title of a page: the `<title>` text trimmed, up to the first
/// `|`, trimmed; `Lecture` when the page has no title.
pub open spec fn page_lecture_title(html: Seq<char>) -> Result<Seq<char>, PatternError> {
    match first_group(TITLE_PATTERN@, html) {
        Err(e) => Err(e),
        Ok(Some(t)) => Ok(trim_seq(split_seq(trim_seq(t), "|"@)[0])),
        Ok(None) => Ok("Lecture"@),
    }
}

/// Extracts the lecture title from the page HTML.
pub fn lecture_title_from_html(html: &str) -> (res: Result<String, PageError>)
    ensures
        match res {
            Ok(t) => page_lecture_title(html@) == Ok::<Seq<char>, PatternError>(t@),
            Err(e) => page_lecture_title(html@) is Err && e == PageError::Pattern,
        },
{
    match first_group_of(TITLE_PATTERN, html) {
        Err(_) => Err(PageError::Pattern),
        Ok(None) => Ok(String::from_str("Lecture")),
        Ok(Some(t)) => {
            let tt = trim(&chars_of(t.as_str()));
            let bar = chars_of("|");
            proof {
                reveal_strlit("|");
            }
            let pieces = split(&tt, &bar);
            proof {
                crate::text::lemma_split_nonempty(tt@, bar@);
            }
            Ok(string_of(&trim(&pieces[0])))
        },
    }
}

/// The opening tag of a section block on a course page.
pub const SECTION_TAG_PATTERN: &'static str = r#"<div[^>]*class="[^"]*course-section[^"]*"[^>]*>"#;
pub const SECTION_TITLE_PATTERN: &'static str = r#"<span[^>]*class="[^"]*section-title[^"]*"[^>]*>([\s\S]*?)</span>"#;
pub const LECTURE_PATTERN: &'static str = r#"<a[^>]*href="(/courses/[^"]+/lectures/(\d+))"[^>]*>[\s\S]*?<span[^>]*class="[^"]*lecture-name[^"]*"[^>]*>([\s\S]*?)</span>"#;
pub const DURATION_PATTERN: &'static str = r#"\((\d+:\d+)\)"#;
pub const TITLE_SUFFIX: &'static str = "| Zero To";

/// `s` with every trailing repetition of `p` removed (`str::trim_end_matches`).
pub open spec fn strip_suffixes(s: Seq<char>, p: Seq<char>) -> Seq<char>
    decreases s.len(),
{
    if p.len() > 0 && has_suffix(s, p) {
        strip_suffixes(s.subrange(0, s.len() - p.len()), p)
    } else {
        s
    }
}

fn strip_suffixes_exec(s: &[char], p: &[char]) -> (res: Vec<char>)
    ensures
        res@ == strip_suffixes(s@, p@),
{
    if p.len() == 0 {
        return slice_chars(s, 0, s.len());
    }
    let mut end: usize = s.len();
    assert(s@.subrange(0, s@.len() as int) =~= s@);
    while p.len() <= end && crate::text::ends_with(&slice_chars(s, 0, end), p)
        invariant
            p@.len() > 0,
            end <= s@.len(),
            strip_suffixes(s@, p@) == strip_suffixes(s@.subrange(0, end as int), p@),
        decreases end,
    {
        let ghost cur = s@.subrange(0, end as int);
        assert(cur.subrange(0, cur.len() - p@.len()) =~= s@.subrange(0, end - p@.len()));
        end = end - p.len();
    }
    slice_chars(s, 0, end)
}

/// The course title on a course page: the `<title>` text trimmed, without
/// trailing `| Zero To`, trimmed; `Course` when there is none.
pub open spec fn html_course_title(html: Seq<char>) -> Result<Seq<char>, PatternError> {
    match first_group(TITLE_PATTERN@, html) {
        Err(e) => Err(e),
        Ok(Some(t)) => Ok(trim_seq(strip_suffixes(trim_seq(t), TITLE_SUFFIX@))),
        Ok(None) => Ok("Course"@),
    }
}

fn html_course_title_of(html: &str) -> (res: Result<String, PatternError>)
    ensures
        match res {
            Ok(t) => html_course_title(html@) == Ok::<Seq<char>, PatternError>(t@),
            Err(_) => html_course_title(html@) is Err,
        },
{
    match first_group_of(TITLE_PATTERN, html) {
        Err(e) => Err(e),
        Ok(None) => Ok(String::from_str("Course")),
        Ok(Some(t)) => {
            let tt = trim(&chars_of(t.as_str()));
            let stripped = strip_suffixes_exec(&tt, &chars_of(TITLE_SUFFIX));
            Ok(string_of(&trim(&stripped)))
        },
    }
}

/// The title of a section on a course page: the section-title text without
/// tags, trimmed; `Section {number}` when there is none.
pub open spec fn html_section_title(section_html: Seq<char>, number: nat) -> Result<Seq<char>, PatternError> {
    match first_group(SECTION_TITLE_PATTERN@, section_html) {
        Err(e) => Err(e),
        Ok(Some(t)) => match stripped(t) {
            Ok(x) => Ok(trim_seq(x)),
            Err(e) => Err(e),
        },
        Ok(None) => Ok("Section "@ + decimal(number)),
    }
}

fn html_section_title_of(section_html: &str, number: u64) -> (res: Result<String, PatternError>)
    ensures
        match res {
            Ok(t) => html_section_title(section_html@, number as nat) == Ok::<Seq<char>, PatternError>(t@),
            Err(_) => html_section_title(section_html@, number as nat) is Err,
        },
{
    match first_group_of(SECTION_TITLE_PATTERN, section_html) {
        Err(e) => Err(e),
        Ok(None) => {
            let mut out = chars_of("Section ");
            push_decimal(&mut out, number);
            Ok(string_of(&out))
        },
        Ok(Some(t)) => match strip_html_tags(t.as_str()) {
            Ok(x) => Ok(string_of(&trim(&chars_of(x.as_str())))),
            Err(e) => Err(e),
        },
    }
}

/// The groups of a lecture link: the path, the id and the name are all
/// present and the name's tags can be removed.
pub open spec fn lecture_groups_ok(cap: Seq<Option<Seq<char>>>) -> bool {
    &&& group(cap, 1) is Some
    &&& group(cap, 2) is Some
    &&& group(cap, 3) is Some
    &&& stripped(group(cap, 3)->0) is Ok
}

/// The lecture name of a lecture link, without tags, trimmed.
pub open spec fn lecture_clean_name(cap: Seq<Option<Seq<char>>>) -> Seq<char> {
    trim_seq(stripped(group(cap, 3)->0)->Ok_0)
}

/// The duration text `(m:ss)` in a lecture name, if any.
pub open spec fn lecture_name_duration(name: Seq<char>) -> Option<Seq<char>> {
    match regex_captures(DURATION_PATTERN@, name) {
        Some(c) => group(c, 1),
        None => None,
    }
}

/// `out` is the lecture made from the lecture link `cap`, numbered `index`
/// in the course, under the site origin `base`.
pub open spec fn html_lecture_built(out: CourseLecture, cap: Seq<Option<Seq<char>>>, base: Seq<char>, index: int) -> bool {
    let name = lecture_clean_name(cap);
    let dur = lecture_name_duration(name);
    let video = is_some_duration(dur);
    &&& out.id@ == group(cap, 2)->0
    &&& out.title@ == trim_seq(regex_replace_first(DURATION_PATTERN@, name, Seq::<char>::empty()))
    &&& out.url@ == base + group(cap, 1)->0
    &&& out.index == index
    &&& opt_view(out.duration) == (if video { dur } else { None })
    &&& out.lecture_type == (if video { LectureType::Video } else { LectureType::Text })
    &&& !out.is_free_preview
}

/// The lecture made from a lecture link.
fn html_lecture_of(cap: &Vec<Option<String>>, base: &str, index: u32) -> (res: Result<CourseLecture, PatternError>)
    requires
        regex_compiles(DURATION_PATTERN@),
    ensures
        ({
            let c = cap@.map_values(|g: Option<String>| opt_view(g));
            match res {
                Ok(l) => lecture_groups_ok(c) && html_lecture_built(l, c, base@, index as int),
                Err(_) => !lecture_groups_ok(c),
            }
        }),
{
    let ghost c = cap@.map_values(|g: Option<String>| opt_view(g));
    let path = match group_of(cap, 1) { Some(p) => p, None => return Err(PatternError) };
    let id = match group_of(cap, 2) { Some(p) => p, None => return Err(PatternError) };
    let raw = match group_of(cap, 3) { Some(p) => p, None => return Err(PatternError) };
    let raw_title = match strip_html_tags(raw.as_str()) { Ok(t) => t, Err(e) => return Err(e) };
    let clean = string_of(&trim(&chars_of(raw_title.as_str())));
    let dur = match captures(DURATION_PATTERN, clean.as_str()) {
        Ok(Some(g)) => group_of(&g, 1),
        Ok(None) => None,
        Err(e) => return Err(e),
    };
    let video = match &dur {
        Some(d) => duration_text_is_valid(d.as_str()),
        None => false,
    };
    let without = match replace_first(DURATION_PATTERN, clean.as_str(), "") {
        Ok(t) => t,
        Err(e) => return Err(e),
    };
    proof {
        reveal_strlit("");
        assert(""@ =~= Seq::<char>::empty());
    }
    let title = string_of(&trim(&chars_of(without.as_str())));
    let mut url = chars_of(base);
    push_str(&mut url, path.as_str());
    Ok(CourseLecture {
        id,
        title,
        url: string_of(&url),
        index,
        duration: if video { dur } else { None },
        lecture_type: if video { LectureType::Video } else { LectureType::Text },
        is_free_preview: false,
    })
}

/// The patterns that read a course page's sections all compile.
pub open spec fn course_patterns_compile() -> bool {
    &&& regex_compiles(SECTION_TAG_PATTERN@)
    &&& regex_compiles(SECTION_TITLE_PATTERN@)
    &&& regex_compiles(LECTURE_PATTERN@)
    &&& regex_compiles(DURATION_PATTERN@)
}

/// The section blocks of a course page: the HTML after each section's
/// opening tag, up to the next one or the end of the page.
pub open spec fn section_blocks(html: Seq<char>) -> Seq<Seq<char>> {
    let pieces = regex_split(SECTION_TAG_PATTERN@, html);
    if pieces.len() == 0 { Seq::<Seq<char>>::empty() } else { pieces.drop_first() }
}

/// The HTML of section block `k`.
pub open spec fn block_html(html: Seq<char>, k: int) -> Seq<char> {
    section_blocks(html)[k]
}

/// The lecture links of section block `k`.
pub open spec fn block_lectures(html: Seq<char>, k: int) -> Seq<Seq<Option<Seq<char>>>> {
    regex_captures_all(LECTURE_PATTERN@, block_html(html, k))
}

/// Section block `k` lists lectures, and so becomes a section.
pub open spec fn block_kept(html: Seq<char>, k: int) -> bool {
    block_lectures(html, k).len() > 0
}

/// How many of the first `k` section blocks become sections.
pub open spec fn kept_before(html: Seq<char>, k: int) -> nat
    decreases k,
{
    if k <= 0 { 0 } else { kept_before(html, k - 1) + if block_kept(html, k - 1) { 1nat } else { 0nat } }
}

/// How many lecture links the first `k` section blocks hold.
pub open spec fn links_before(html: Seq<char>, k: int) -> nat
    decreases k,
{
    if k <= 0 { 0 } else { links_before(html, k - 1) + block_lectures(html, k - 1).len() }
}

/// How many of the first `j` lecture links of block `k` have a duration.
pub open spec fn block_videos(html: Seq<char>, k: int, j: int) -> nat
    decreases j,
{
    if j <= 0 {
        0
    } else {
        block_videos(html, k, j - 1) + if is_some_duration(lecture_name_duration(lecture_clean_name(block_lectures(html, k)[j - 1]))) { 1nat } else { 0nat }
    }
}

/// How many lecture links of the first `k` section blocks have a duration.
pub open spec fn videos_before(html: Seq<char>, k: int) -> nat
    decreases k,
{
    if k <= 0 { 0 } else { videos_before(html, k - 1) + block_videos(html, k - 1, block_lectures(html, k - 1).len() as int) }
}

/// Section block `k` can be read: it has its HTML, its title can be made
/// and every lecture link has its groups.
pub open spec fn block_ok(html: Seq<char>, k: int) -> bool {
    &&& html_section_title(block_html(html, k), kept_before(html, k) + 1) is Ok
    &&& forall|j: int| 0 <= j < block_lectures(html, k).len() ==> lecture_groups_ok(#[trigger] block_lectures(html, k)[j])
}

/// Every section block of the page can be read and the lectures can be
/// numbered in 32 bits.
pub open spec fn course_page_ok(html: Seq<char>) -> bool {
    &&& course_patterns_compile()
    &&& forall|k: int| 0 <= k < section_blocks(html).len() ==> block_ok(html, k)
    &&& links_before(html, section_blocks(html).len() as int) <= u32::MAX
}

/// `out` is the section made from section block `k`.
pub open spec fn html_section_built(out: CourseSection, html: Seq<char>, k: int, base: Seq<char>) -> bool {
    let number = kept_before(html, k);
    &&& out.id@ == crate::ztm::section_id(number)
    &&& html_section_title(block_html(html, k), number + 1) == Ok::<Seq<char>, PatternError>(out.title@)
    &&& out.index == number
    &&& out.lectures@.len() == block_lectures(html, k).len()
    &&& forall|j: int| 0 <= j < out.lectures@.len() ==> html_lecture_built(
        #[trigger] out.lectures@[j],
        block_lectures(html, k)[j],
        base,
        links_before(html, k) + j,
    )
}

proof fn lemma_kept_before_grows(html: Seq<char>, m: int, k: int)
    requires
        0 <= m < k,
        block_kept(html, m),
    ensures
        kept_before(html, m) < kept_before(html, k),
    decreases k - m,
{
    if k - 1 > m {
        lemma_kept_before_grows(html, m, k - 1);
    }
}

proof fn lemma_links_before_grows(html: Seq<char>, k: int, n: int)
    requires
        0 <= k <= n,
    ensures
        links_before(html, k) <= links_before(html, n),
    decreases n - k,
{
    if k < n {
        lemma_links_before_grows(html, k, n - 1);
    }
}

/// Why a course page could not be read.
#[derive(Debug, PartialEq, Eq, Structural)]
pub enum CoursePageError {
    /// A page pattern did not compile, or a match lacked a group.
    Pattern,
    /// The course URL does not parse.
    BadCourseUrl,
    /// The page lists more lectures than can be numbered.
    TooManyLectures,
}

/// Reads the course structure from the HTML of a course page: one section
/// per section block that lists lecture links, each link a lecture, numbered
/// through the course; a lecture is a video when its name carries a duration
/// such as `(5:43)`.
pub fn parse_course_from_html(html: &str, course_url: &str) -> (res: Result<CourseInfo, CoursePageError>)
    ensures
        ({
            let h = html@;
            let n = section_blocks(h).len() as int;
            match res {
                Err(CoursePageError::BadCourseUrl) => html_course_title(h) is Ok && !url_parses(course_url@),
                Err(CoursePageError::TooManyLectures) => html_course_title(h) is Ok && url_parses(course_url@)
                    && course_patterns_compile() && links_before(h, n) > u32::MAX,
                Err(CoursePageError::Pattern) => html_course_title(h) is Err
                    || (url_parses(course_url@) && !course_patterns_compile())
                    || (url_parses(course_url@) && exists|k: int| 0 <= k < n && !block_ok(h, k)),
                Ok(info) => {
                    &&& html_course_title(h) == Ok::<Seq<char>, PatternError>(info.title@)
                    &&& url_parses(course_url@)
                    &&& course_page_ok(h)
                    &&& info.sections@.len() == kept_before(h, n)
                    &&& forall|k: int| 0 <= k < n && block_kept(h, k) ==> html_section_built(
                        #[trigger] info.sections@[kept_before(h, k) as int], h, k, origin_text(course_url@)->0)
                    &&& info.total_lectures == links_before(h, n)
                    &&& info.total_video_lectures == videos_before(h, n)
                    &&& info.id@ == course_id_of(course_url@)
                    &&& info.author@ == ZTM_AUTHOR@
                    &&& info.platform@ == ZTM_PLATFORM_ID@
                    &&& info.course_url@ == course_url@
                    &&& info.thumbnail_url is None
                },
            }
        }),
{
    let course_title = match html_course_title_of(html) {
        Ok(t) => t,
        Err(_) => return Err(CoursePageError::Pattern),
    };
    let base = match url_origin(course_url) {
        Some(b) => b,
        None => return Err(CoursePageError::BadCourseUrl),
    };
    let pieces = match split_on(SECTION_TAG_PATTERN, html) {
        Ok(b) => b,
        Err(_) => return Err(CoursePageError::Pattern),
    };
    let nblocks: usize = if pieces.len() == 0 { 0 } else { pieces.len() - 1 };
    if captures(SECTION_TITLE_PATTERN, "").is_err() || captures(LECTURE_PATTERN, "").is_err()
        || captures(DURATION_PATTERN, "").is_err() {
        return Err(CoursePageError::Pattern);
    }
    let ghost h = html@;
    let ghost bs = section_blocks(h);
    let ghost ps = pieces@.map_values(|p: String| p@);
    assert(ps == regex_split(SECTION_TAG_PATTERN@, h));
    let mut sections: Vec<CourseSection> = Vec::new();
    let mut section_idx: u32 = 0;
    let mut global: u64 = 0;
    let mut videos: u64 = 0;
    let mut k: usize = 0;
    while k < nblocks
        invariant
            course_patterns_compile(),
            url_parses(course_url@),
            html_course_title(html@) == Ok::<Seq<char>, PatternError>(course_title@),
            bs == section_blocks(h),
            h == html@,
            ps == pieces@.map_values(|p: String| p@),
            ps == regex_split(SECTION_TAG_PATTERN@, h),
            bs.len() == nblocks,
            nblocks == (if pieces@.len() == 0 { 0 } else { pieces@.len() - 1 }),
            base@ == origin_text(course_url@)->0,
            k <= bs.len(),
            forall|m: int| 0 <= m < k ==> block_ok(h, m),
            section_idx == kept_before(h, k as int),
            section_idx <= global,
            global == links_before(h, k as int),
            global <= u32::MAX,
            videos == videos_before(h, k as int),
            videos <= global,
            sections@.len() == section_idx,
            forall|m: int| 0 <= m < k && block_kept(h, m) ==> html_section_built(
                #[trigger] sections@[kept_before(h, m) as int], h, m, base@),
        decreases bs.len() - k,
    {
        let section_html = &pieces[k + 1];
        assert(bs[k as int] == ps[k + 1]);
        assert(block_html(h, k as int) == section_html@);
        let title = match html_section_title_of(section_html.as_str(), section_idx as u64 + 1) {
            Ok(t) => t,
            Err(_) => {
                assert(!block_ok(h, k as int));
                return Err(CoursePageError::Pattern);
            },
        };
        let links = match captures_all(LECTURE_PATTERN, section_html.as_str()) {
            Ok(l) => l,
            Err(_) => return Err(CoursePageError::Pattern),
        };
        let ghost ls = block_lectures(h, k as int);
        assert(ls == links@.map_values(|c: Vec<Option<String>>| c@.map_values(|g: Option<String>| opt_view(g))));
        let mut lectures: Vec<CourseLecture> = Vec::new();
        let mut j: usize = 0;
        let ghost start = global as int;
        let ghost videos0 = videos as int;
        while j < links.len()
            invariant
                course_patterns_compile(),
                url_parses(course_url@),
                html_course_title(html@) is Ok,
                h == html@,
                bs == section_blocks(h),
                k < bs.len(),
                ls == block_lectures(h, k as int),
                ls == links@.map_values(|c: Vec<Option<String>>| c@.map_values(|g: Option<String>| opt_view(g))),
                base@ == origin_text(course_url@)->0,
                j <= ls.len(),
                start == links_before(h, k as int),
                global == start + j,
                global <= u32::MAX,
                videos == videos0 + block_videos(h, k as int, j as int),
                videos <= global,
                lectures@.len() == j,
                forall|m: int| 0 <= m < j ==> lecture_groups_ok(#[trigger] ls[m]),
                forall|m: int| 0 <= m < j ==> html_lecture_built(#[trigger] lectures@[m], ls[m], base@, start + m),
            decreases ls.len() - j,
        {
            assert(ls[j as int] == links@[j as int]@.map_values(|g: Option<String>| opt_view(g)));
            if global > 0xffff_ffff - 1 {
                proof {
                    lemma_links_before_grows(h, k + 1, bs.len() as int);
                }
                return Err(CoursePageError::TooManyLectures);
            }
            let lec = match html_lecture_of(&links[j], base.as_str(), global as u32) {
                Ok(l) => l,
                Err(_) => {
                    assert(!lecture_groups_ok(ls[j as int]));
                    assert(!block_ok(h, k as int));
                    return Err(CoursePageError::Pattern);
                },
            };
            if lec.lecture_type == LectureType::Video {
                videos = videos + 1;
            }
            lectures.push(lec);
            global = global + 1;
            j = j + 1;
        }
        assert(block_ok(h, k as int));
        let ghost old_sections = sections@;
        if lectures.len() > 0 {
            let mut id = chars_of("section_");
            push_decimal(&mut id, section_idx as u64);
            let section = CourseSection {
                id: string_of(&id),
                title,
                index: section_idx,
                lectures,
            };
            assert(html_section_built(section, h, k as int, base@));
            sections.push(section);
            section_idx = section_idx + 1;
        }
        proof {
            assert forall|m: int| 0 <= m < k + 1 && block_kept(h, m) implies html_section_built(
                #[trigger] sections@[kept_before(h, m) as int], h, m, base@) by {
                if m < k {
                    lemma_kept_before_grows(h, m, k as int);
                    assert(sections@[kept_before(h, m) as int] == old_sections[kept_before(h, m) as int]);
                }
            }
        }
        k = k + 1;
    }
    let course_id = course_id_from_url(course_url);
    Ok(CourseInfo {
        id: course_id,
        title: course_title,
        author: String::from_str(ZTM_AUTHOR),
        platform: String::from_str(ZTM_PLATFORM_ID),
        course_url: String::from_str(course_url),
        thumbnail_url: None,
        total_lectures: global as u32,
        total_video_lectures: videos as u32,
        sections,
    })
}

} // verus!
