//! The Zero To Mastery Academy platform: which URLs it handles, how lecture
//! URLs map to course URLs and lecture ids, and how the course structure read
//! from the browser becomes a `CourseInfo`.
use vstd::prelude::*;
use crate::duration::{duration_text_is_valid, is_some_duration};
use crate::models::{
    copy_opt, opt_view, CourseInfo, CourseLecture, CourseSection, HotmartStream, LectureMedia,
    LectureType,
};
use crate::text::{
    chars_of, find_in, find_seq, join, join_seq, push_all, push_decimal, push_str, decimal,
    replace_all, replace_seq, slice_chars, split, split_seq, string_of, trim, trim_seq,
    char_uppercase, uppercase_char, words, words_seq,
};
use crate::url_parts::{
    parse_url, second_path_segment, second_path_segment_of, url_host, url_parses, url_path,
    url_scheme,
};
use crate::catalog::{is_course_index, is_course_index_url};

verus! {

/// The host of the academy.
pub const ZTM_HOST: &'static str = "academy.zerotomastery.io";
/// Where users sign in to the academy.
pub const ZTM_LOGIN_URL: &'static str = "https://academy.zerotomastery.io/sign_in";
/// The referer the video CDN expects.
pub const HOTMART_REFERER: &'static str = "https://player.hotmart.com/";
/// The author of every academy course.
pub const ZTM_AUTHOR: &'static str = "Zero To Mastery";
/// The platform id of the academy.
pub const ZTM_PLATFORM_ID: &'static str = "zerotomastery";
/// The display name of the academy.
pub const ZTM_PLATFORM_NAME: &'static str = "Zero To Mastery Academy";

/// Downloader for Zero To Mastery Academy courses.
pub struct ZtmDownloader;

/// The URL's host is the academy's.
pub open spec fn is_ztm_url(url: Seq<char>) -> bool {
    url_parses(url) && url_host(url) == Some(ZTM_HOST@)
}

impl ZtmDownloader {
    pub fn new() -> (res: Self) {
        ZtmDownloader
    }

    /// The platform id.
    pub fn name(&self) -> (res: &'static str)
        ensures
            res@ == ZTM_PLATFORM_ID@,
    {
        ZTM_PLATFORM_ID
    }

    /// Whether the URL is on the academy's host.
    pub fn can_handle(&self, url: &str) -> (res: bool)
        ensures
            res == is_ztm_url(url@),
    {
        match parse_url(url) {
            Some(parts) => match parts.host {
                Some(h) => h == String::from_str(ZTM_HOST),
                None => false,
            },
            None => false,
        }
    }

    /// The human-readable platform name.
    pub fn course_platform_name(&self) -> (res: &'static str)
        ensures
            res@ == ZTM_PLATFORM_NAME@,
    {
        ZTM_PLATFORM_NAME
    }

    /// Whether the URL is a course page rather than a single lecture.
    pub fn is_course_url(&self, url: &str) -> (res: bool)
        ensures
            res == is_course_index(url@),
    {
        is_course_index_url(url)
    }

    /// Where to sign in.
    pub fn login_url(&self) -> (res: Option<&'static str>)
        ensures
            res matches Some(u) && u@ == ZTM_LOGIN_URL@,
    {
        Some(ZTM_LOGIN_URL)
    }

    /// The platform needs the browser's login session.
    pub fn requires_browser_auth(&self) -> (res: bool)
        ensures
            res,
    {
        true
    }
}

impl Default for ZtmDownloader {
    fn default() -> Self {
        Self::new()
    }
}

/// The course URL a lecture URL belongs to: when the parsed path holds
/// `/lectures/`, scheme, `://`, host and the path before it; otherwise the
/// URL unchanged.
pub open spec fn normalized_course_url(url: Seq<char>) -> Seq<char> {
    if url_parses(url) {
        match find_seq(url_path(url), "/lectures/"@) {
            Some(i) => url_scheme(url) + "://"@ + (match url_host(url) {
                Some(h) => h,
                None => Seq::<char>::empty(),
            }) + url_path(url).subrange(0, i),
            None => url,
        }
    } else {
        url
    }
}

/// Strips a lecture URL back to the course URL it belongs to.
pub fn normalize_to_course_url(url: &str) -> (res: String)
    ensures
        res@ == normalized_course_url(url@),
{
    if let Some(parts) = parse_url(url) {
        let path = chars_of(parts.path.as_str());
        let marker = chars_of("/lectures/");
        if let Some(idx) = find_in(&path, &marker) {
            proof {
                crate::text::lemma_find_from(path@, marker@, 0);
            }
            let mut out = chars_of(parts.scheme.as_str());
            push_str(&mut out, "://");
            match &parts.host {
                Some(h) => push_str(&mut out, h.as_str()),
                None => {},
            }
            let head = slice_chars(&path, 0, idx);
            push_all(&mut out, &head);
            proof {
                let h = match url_host(url@) { Some(h) => h, None => Seq::<char>::empty() };
                assert(out@ =~= url_scheme(url@) + "://"@ + h + url_path(url@).subrange(0, idx as int));
            }
            return string_of(&out);
        }
    }
    String::from_str(url)
}

/// The lecture id in a lecture URL: the text after the first `/lectures/`
/// and before any later one, or `unknown`.
pub open spec fn lecture_id_of(url: Seq<char>) -> Seq<char> {
    let parts = split_seq(url, "/lectures/"@);
    if parts.len() > 1 { parts[1] } else { "unknown"@ }
}

/// The lecture id in a lecture URL (`split("/lectures/").nth(1)`), or
/// `unknown`.
pub fn lecture_id_from_url(url: &str) -> (res: String)
    ensures
        res@ == lecture_id_of(url@),
{
    let c = chars_of(url);
    let marker = chars_of("/lectures/");
    proof {
        reveal_strlit("/lectures/");
    }
    let parts = split(&c, &marker);
    if parts.len() > 1 {
        string_of(&parts[1])
    } else {
        String::from_str("unknown")
    }
}

/// The media of a lecture from the stream found for it in the browser: the
/// lecture id from the URL, the generic title `Lecture`, the stream URL, the
/// player's referer and the browser cookies.
pub fn lecture_media_from_stream(lecture_url: &str, stream: HotmartStream) -> (res: LectureMedia)
    ensures
        res.lecture_id@ == lecture_id_of(lecture_url@),
        res.title@ == "Lecture"@,
        res.video_url@ == stream.hls_url@,
        res.referer matches Some(r) && r@ == HOTMART_REFERER@,
        res.cookie_header == stream.cookie_header,
{
    LectureMedia {
        lecture_id: lecture_id_from_url(lecture_url),
        title: String::from_str("Lecture"),
        video_url: stream.hls_url,
        referer: Some(String::from_str(HOTMART_REFERER)),
        cookie_header: stream.cookie_header,
    }
}

/// A lecture title without its duration text: the `(duration)` and then any
/// bare `duration` removed, and surrounding white space trimmed.
pub open spec fn cleaned_title(raw: Seq<char>, duration: Option<Seq<char>>) -> Seq<char> {
    match duration {
        Some(d) => trim_seq(replace_seq(replace_seq(raw, "("@ + d + ")"@, Seq::<char>::empty()), d, Seq::<char>::empty())),
        None => trim_seq(raw),
    }
}

/// Removes the duration text such as `(5:43)` from a lecture title and trims it.
pub fn clean_lecture_title(raw: &str, duration: Option<&str>) -> (res: String)
    ensures
        res@ == cleaned_title(raw@, match duration { Some(d) => Some(d@), None => None }),
{
    let r = chars_of(raw);
    let empty: Vec<char> = Vec::new();
    match duration {
        Some(dur) => {
            let d = chars_of(dur);
            let mut wrapped = chars_of("(");
            push_all(&mut wrapped, &d);
            push_str(&mut wrapped, ")");
            let first = replace_all(&r, &wrapped, &empty);
            let second = replace_all(&first, &d, &empty);
            assert(empty@ =~= Seq::<char>::empty());
            string_of(&trim(&second))
        },
        None => string_of(&trim(&r)),
    }
}

/// A word with its first character upper-cased.
pub open spec fn capitalized(w: Seq<char>) -> Seq<char> {
    if w.len() == 0 { Seq::<char>::empty() } else { char_uppercase(w[0]) + w.drop_first() }
}

/// A URL slug as a title: dashes read as spaces, each word capitalized,
/// words joined by single spaces.
pub open spec fn slug_title(slug: Seq<char>) -> Seq<char> {
    join_seq(words_seq(replace_seq(slug, "-"@, " "@)).map_values(|w: Seq<char>| capitalized(w)), " "@)
}

/// Title-cases a URL slug (`machine-learning` becomes `Machine Learning`).
pub fn title_from_slug(slug: &str) -> (res: String)
    ensures
        res@ == slug_title(slug@),
{
    let s = chars_of(slug);
    let dash = chars_of("-");
    let space = chars_of(" ");
    let spaced = replace_all(&s, &dash, &space);
    let ws = words(&spaced);
    let ghost wv = ws@.map_values(|v: Vec<char>| v@);
    let mut caps: Vec<Vec<char>> = Vec::new();
    let mut k: usize = 0;
    while k < ws.len()
        invariant
            k <= ws@.len(),
            wv == ws@.map_values(|v: Vec<char>| v@),
            caps@.map_values(|v: Vec<char>| v@) == wv.take(k as int).map_values(|w: Seq<char>| capitalized(w)),
        decreases ws@.len() - k,
    {
        let w = &ws[k];
        let mut c: Vec<char> = Vec::new();
        if w.len() > 0 {
            let up = uppercase_char(w[0]);
            push_str(&mut c, up.as_str());
            let rest = slice_chars(w, 1, w.len());
            assert(rest@ =~= w@.drop_first());
            push_all(&mut c, &rest);
            assert(c@ =~= capitalized(w@));
        } else {
            assert(c@ =~= capitalized(w@));
        }
        let ghost before = caps@.map_values(|v: Vec<char>| v@);
        let ghost cv = c@;
        assert(wv[k as int] == w@);
        caps.push(c);
        assert(caps@.map_values(|v: Vec<char>| v@) =~= before.push(cv));
        assert(wv.take(k + 1).map_values(|w: Seq<char>| capitalized(w)) =~= wv.take(k as int).map_values(|w: Seq<char>| capitalized(w)).push(capitalized(wv[k as int])));
        assert(caps@.map_values(|v: Vec<char>| v@) =~= wv.take(k + 1).map_values(|w: Seq<char>| capitalized(w)));
        k = k + 1;
    }
    assert(wv.take(k as int) =~= wv);
    string_of(&join(&caps, &space))
}

/// The course id of a course URL: its second path segment, or `unknown`.
pub open spec fn course_id_of(url: Seq<char>) -> Seq<char> {
    match second_path_segment(url) {
        Some(s) => s,
        None => "unknown"@,
    }
}

/// The course id of a course URL.
pub fn course_id_from_url(url: &str) -> (res: String)
    ensures
        res@ == course_id_of(url@),
{
    match second_path_segment_of(url) {
        Some(s) => s,
        None => String::from_str("unknown"),
    }
}

/// A lecture as the course page in the browser lists it.
pub struct BrowserLecture {
    pub id: String,
    pub lec_title: String,
    pub url: String,
    pub duration: Option<String>,
}

/// A section as the course page in the browser lists it.
pub struct BrowserSection {
    pub sec_title: String,
    pub lectures: Vec<BrowserLecture>,
}

/// The course structure read from the course page in the browser.
pub struct BrowserCourseData {
    pub course_title: String,
    pub sections: Vec<BrowserSection>,
}

/// All lectures of the sections, in order.
pub open spec fn flat_lectures(sections: Seq<BrowserSection>) -> Seq<BrowserLecture>
    decreases sections.len(),
{
    if sections.len() == 0 {
        Seq::<BrowserLecture>::empty()
    } else {
        flat_lectures(sections.drop_last()) + sections.last().lectures@
    }
}

/// The lecture's duration text reads as a duration.
pub open spec fn has_video_duration(l: BrowserLecture) -> bool {
    is_some_duration(opt_view(l.duration))
}

/// How many of the lectures have a duration (and so are videos).
pub open spec fn video_count(ls: Seq<BrowserLecture>) -> nat
    decreases ls.len(),
{
    if ls.len() == 0 {
        0
    } else {
        video_count(ls.drop_last()) + if has_video_duration(ls.last()) { 1nat } else { 0nat }
    }
}

/// `out` is the course lecture made from the browser lecture `inp` at
/// position `index` of the whole course.
pub open spec fn lecture_built_from(out: CourseLecture, inp: BrowserLecture, index: int) -> bool {
    let video = has_video_duration(inp);
    &&& out.id@ == inp.id@
    &&& out.title@ == cleaned_title(inp.lec_title@, opt_view(inp.duration))
    &&& out.url@ == inp.url@
    &&& out.index == index
    &&& opt_view(out.duration) == (if video { opt_view(inp.duration) } else { None })
    &&& out.lecture_type == (if video { LectureType::Video } else { LectureType::Text })
    &&& !out.is_free_preview
}

/// The id of the `i`-th section.
pub open spec fn section_id(i: nat) -> Seq<char> {
    "section_"@ + decimal(i)
}

/// `out` is the course section made from the browser section `inp` at
/// position `i`, whose first lecture is the course's lecture number `offset`.
pub open spec fn section_built_from(out: CourseSection, inp: BrowserSection, i: int, offset: int) -> bool {
    &&& out.id@ == section_id(i as nat)
    &&& out.title@ == inp.sec_title@
    &&& out.index == i as u32
    &&& out.lectures@.len() == inp.lectures@.len()
    &&& forall|j: int| 0 <= j < out.lectures@.len() ==>
        lecture_built_from(#[trigger] out.lectures@[j], inp.lectures@[j], offset + j)
}

/// The course title: the one the page shows, or else the title-cased slug.
pub open spec fn browser_course_title(shown: Seq<char>, course_url: Seq<char>) -> Seq<char> {
    if shown.len() > 0 { shown } else { slug_title(course_id_of(course_url)) }
}

proof fn lemma_flat_push(sections: Seq<BrowserSection>, i: int)
    requires
        0 <= i < sections.len(),
    ensures
        flat_lectures(sections.take(i + 1)) == flat_lectures(sections.take(i)) + sections[i].lectures@,
{
    assert(sections.take(i + 1).drop_last() =~= sections.take(i));
}

proof fn lemma_video_count_append(a: Seq<BrowserLecture>, b: Seq<BrowserLecture>)
    ensures
        video_count(a + b) == video_count(a) + video_count(b),
    decreases b.len(),
{
    if b.len() == 0 {
        assert(a + b =~= a);
    } else {
        lemma_video_count_append(a, b.drop_last());
        assert((a + b).drop_last() =~= a + b.drop_last());
    }
}

/// Builds one course lecture from a browser lecture.
fn lecture_from_browser(lec: &BrowserLecture, index: u32) -> (res: CourseLecture)
    ensures
        lecture_built_from(res, *lec, index as int),
{
    let video = match &lec.duration {
        Some(d) => duration_text_is_valid(d.as_str()),
        None => false,
    };
    let title = match &lec.duration {
        Some(d) => clean_lecture_title(lec.lec_title.as_str(), Some(d.as_str())),
        None => clean_lecture_title(lec.lec_title.as_str(), None),
    };
    CourseLecture {
        id: lec.id.clone(),
        title,
        url: lec.url.clone(),
        index,
        duration: if video { copy_opt(&lec.duration) } else { None },
        lecture_type: if video { LectureType::Video } else { LectureType::Text },
        is_free_preview: false,
    }
}

/// Assembles the course structure read from the course page in the browser:
/// one section per listed section, its lectures numbered through the whole
/// course, a lecture being a video exactly when its duration text reads as a
/// duration.
pub fn course_info_from_browser_data(data: &BrowserCourseData, course_url: &str) -> (res: CourseInfo)
    requires
        flat_lectures(data.sections@).len() <= u32::MAX,
    ensures
        res.sections@.len() == data.sections@.len(),
        forall|i: int| 0 <= i < res.sections@.len() ==> section_built_from(
            #[trigger] res.sections@[i],
            data.sections@[i],
            i,
            flat_lectures(data.sections@.take(i)).len() as int,
        ),
        res.total_lectures == flat_lectures(data.sections@).len(),
        res.total_video_lectures == video_count(flat_lectures(data.sections@)),
        res.id@ == course_id_of(course_url@),
        res.title@ == browser_course_title(data.course_title@, course_url@),
        res.author@ == ZTM_AUTHOR@,
        res.platform@ == ZTM_PLATFORM_ID@,
        res.course_url@ == course_url@,
        res.thumbnail_url is None,
{
    let ghost secs = data.sections@;
    let mut sections: Vec<CourseSection> = Vec::new();
    let mut global_idx: u32 = 0;
    let mut video: u32 = 0;
    let mut i: usize = 0;
    assert(secs.take(0) =~= Seq::<BrowserSection>::empty());
    while i < data.sections.len()
        invariant
            secs == data.sections@,
            i <= secs.len(),
            flat_lectures(secs).len() <= u32::MAX,
            global_idx == flat_lectures(secs.take(i as int)).len(),
            video == video_count(flat_lectures(secs.take(i as int))),
            video <= global_idx,
            sections@.len() == i,
            forall|k: int| 0 <= k < i ==> section_built_from(
                #[trigger] sections@[k],
                secs[k],
                k,
                flat_lectures(secs.take(k)).len() as int,
            ),
        decreases secs.len() - i,
    {
        let sec = &data.sections[i];
        proof {
            lemma_flat_push(secs, i as int);
            lemma_flat_prefix_len(secs, i + 1);
        }
        let ghost offset = global_idx as int;
        let mut lectures: Vec<CourseLecture> = Vec::new();
        let mut j: usize = 0;
        while j < sec.lectures.len()
            invariant
                secs == data.sections@,
                i < secs.len(),
                *sec == secs[i as int],
                j <= sec.lectures@.len(),
                offset + sec.lectures@.len() <= u32::MAX,
                global_idx == offset + j,
                video <= global_idx,
                video == video_count(flat_lectures(secs.take(i as int)) + sec.lectures@.take(j as int)),
                lectures@.len() == j,
                forall|m: int| 0 <= m < j ==>
                    lecture_built_from(#[trigger] lectures@[m], sec.lectures@[m], offset + m),
            decreases sec.lectures@.len() - j,
        {
            let lec = &sec.lectures[j];
            let built = lecture_from_browser(lec, global_idx);
            proof {
                let before = flat_lectures(secs.take(i as int)) + sec.lectures@.take(j as int);
                assert((flat_lectures(secs.take(i as int)) + sec.lectures@.take(j + 1)).drop_last() =~= before);
                assert((flat_lectures(secs.take(i as int)) + sec.lectures@.take(j + 1)).last() == *lec);
            }
            if built.lecture_type == LectureType::Video {
                video = video + 1;
            }
            lectures.push(built);
            global_idx = global_idx + 1;
            j = j + 1;
        }
        assert(sec.lectures@.take(j as int) =~= sec.lectures@);
        let mut id = chars_of("section_");
        push_decimal(&mut id, i as u64);
        let section = CourseSection {
            id: string_of(&id),
            title: sec.sec_title.clone(),
            index: i as u32,
            lectures,
        };
        sections.push(section);
        i = i + 1;
    }
    assert(secs.take(i as int) =~= secs);
    let course_id = course_id_from_url(course_url);
    let title = if !data.course_title.as_str().is_empty() {
        data.course_title.clone()
    } else {
        title_from_slug(course_id.as_str())
    };
    CourseInfo {
        id: course_id,
        title,
        author: String::from_str(ZTM_AUTHOR),
        platform: String::from_str(ZTM_PLATFORM_ID),
        course_url: String::from_str(course_url),
        thumbnail_url: None,
        total_lectures: global_idx,
        total_video_lectures: video,
        sections,
    }
}

/// The lectures of a prefix of the sections are no more than all lectures.
proof fn lemma_flat_prefix_len(sections: Seq<BrowserSection>, i: int)
    requires
        0 <= i <= sections.len(),
    ensures
        flat_lectures(sections.take(i)).len() <= flat_lectures(sections).len(),
    decreases sections.len() - i,
{
    if i < sections.len() {
        lemma_flat_prefix_len(sections, i + 1);
        lemma_flat_push(sections, i);
    } else {
        assert(sections.take(i) =~= sections);
    }
}

} // verus!
