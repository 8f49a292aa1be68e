//! Planning the download of a course: which lectures are fetched, the
//! folders and file names they go to, and the decisions taken while a
//! lecture stream is downloaded.
use vstd::prelude::*;
use crate::models::{copy_opt, opt_view, CourseInfo, CourseLecture, CourseSection, LectureType};
use crate::text::{
    chars_of, contains, contains_seq, decimal, decimal2, push_decimal, push_str, string_of,
};

verus! {

/// A character that file names may not hold on any platform:
/// `/ ? < > \ : * | "`.
pub open spec fn is_illegal_file_char(c: char) -> bool {
    c == '/' || c == '?' || c == '<' || c == '>' || c == '\\' || c == ':' || c == '*' || c == '|'
        || c == '"'
}

/// A control character: U+0000 to U+001F or U+0080 to U+009F.
pub open spec fn is_control_file_char(c: char) -> bool {
    ('\u{0}' <= c && c <= '\u{1f}') || ('\u{80}' <= c && c <= '\u{9f}')
}

/// What every result of `sanitize_filename::sanitize` satisfies: no illegal
/// or control character, and at most 255 characters.
pub open spec fn is_sanitized_name(s: Seq<char>) -> bool {
    &&& s.len() <= 255
    &&& forall|i: int| 0 <= i < s.len() ==> !is_illegal_file_char(#[trigger] s[i]) && !is_control_file_char(s[i])
}

/// The number of bytes of the UTF-8 encoding of a text.
pub open spec fn utf8_len(s: Seq<char>) -> nat
    decreases s.len(),
{
    if s.len() == 0 {
        0
    } else {
        let c = s.last() as u32;
        utf8_len(s.drop_last()) + if c < 0x80 { 1nat } else if c < 0x800 { 2nat } else if c < 0x10000 { 3nat } else { 4nat }
    }
}

/// An ASCII letter in lower case; any other character unchanged.
pub open spec fn ascii_lower(c: char) -> char {
    if 'A' <= c && c <= 'Z' { ((c as u32) + 32) as char } else { c }
}

/// The text starts with the three letters `w`, in any ASCII case.
pub open spec fn starts_with_word(s: Seq<char>, w: Seq<char>) -> bool {
    s.len() >= 3 && ascii_lower(s[0]) == w[0] && ascii_lower(s[1]) == w[1] && ascii_lower(s[2]) == w[2]
}

/// The text ends at position `k` or goes on with a `.` there.
pub open spec fn ends_or_dot_at(s: Seq<char>, k: int) -> bool {
    s.len() == k || (s.len() > k && s[k] == '.')
}

/// A name Windows reserves for a device, in any case, alone or with an
/// extension: `con`, `prn`, `aux`, `nul`, `com0`..`com9`, `lpt0`..`lpt9`.
pub open spec fn is_device_name(s: Seq<char>) -> bool {
    ||| (starts_with_word(s, "con"@) || starts_with_word(s, "prn"@) || starts_with_word(s, "aux"@)
        || starts_with_word(s, "nul"@)) && ends_or_dot_at(s, 3)
    ||| (starts_with_word(s, "com"@) || starts_with_word(s, "lpt"@)) && s.len() >= 4 && '0' <= s[3] && s[3] <= '9'
        && ends_or_dot_at(s, 4)
}

/// A file name that needs no change on any platform: no illegal or control
/// character, no trailing dot or space, no device name, and at most 255
/// bytes long.
pub open spec fn is_clean_file_name(s: Seq<char>) -> bool {
    &&& forall|i: int| 0 <= i < s.len() ==> !is_illegal_file_char(#[trigger] s[i]) && !is_control_file_char(s[i])
    &&& s.len() > 0 ==> s.last() != '.' && s.last() != ' '
    &&& !is_device_name(s)
    &&& utf8_len(s) <= 255
}

/// A character that `sanitize_filename::sanitize` keeps on every target:
/// neither illegal nor a control character.
pub open spec fn keeps_file_char(c: char) -> bool {
    !is_illegal_file_char(c) && !is_control_file_char(c)
}

/// The text with its illegal and control characters deleted.
pub open spec fn kept_file_chars(s: Seq<char>) -> Seq<char>
    decreases s.len(),
{
    if s.len() == 0 {
        s
    } else {
        let rest = kept_file_chars(s.drop_last());
        if keeps_file_char(s.last()) { rest.push(s.last()) } else { rest }
    }
}

/// Deleting the illegal and control characters of two texts put together
/// deletes them from each.
proof fn lemma_kept_concat(a: Seq<char>, b: Seq<char>)
    ensures
        kept_file_chars(a + b) == kept_file_chars(a) + kept_file_chars(b),
    decreases b.len(),
{
    if b.len() == 0 {
        assert(a + b =~= a);
        assert(kept_file_chars(a) + kept_file_chars(b) =~= kept_file_chars(a));
    } else {
        assert((a + b).drop_last() =~= a + b.drop_last());
        assert((a + b).last() == b.last());
        lemma_kept_concat(a, b.drop_last());
        if keeps_file_char(b.last()) {
            assert(kept_file_chars(a) + kept_file_chars(b.drop_last()).push(b.last())
                =~= (kept_file_chars(a) + kept_file_chars(b.drop_last())).push(b.last()));
        }
    }
}

/// A text of characters that are kept stays as it is.
proof fn lemma_kept_all(s: Seq<char>)
    requires
        forall|i: int| 0 <= i < s.len() ==> keeps_file_char(#[trigger] s[i]),
    ensures
        kept_file_chars(s) == s,
    decreases s.len(),
{
    if s.len() > 0 {
        lemma_kept_all(s.drop_last());
        assert(s.drop_last().push(s.last()) =~= s);
    }
}

/// The digits of a number are kept in file names.
proof fn lemma_decimal_kept(n: nat)
    ensures
        forall|i: int| 0 <= i < decimal(n).len() ==> keeps_file_char(#[trigger] decimal(n)[i]),
    decreases n,
{
    if n >= 10 {
        lemma_decimal_kept(n / 10);
        assert forall|i: int| 0 <= i < decimal(n).len() implies keeps_file_char(#[trigger] decimal(n)[i]) by {
            if i < decimal(n / 10).len() {
                assert(decimal(n)[i] == decimal(n / 10)[i]);
            }
        }
    }
}

/// A non-empty name made only of dots.
pub open spec fn only_dots(s: Seq<char>) -> bool {
    s.len() > 0 && forall|i: int| 0 <= i < s.len() ==> s[i] == '.'
}

/// A name that Windows would not change further: no device name, no
/// trailing dot or space.
pub open spec fn is_target_neutral(s: Seq<char>) -> bool {
    &&& !is_device_name(s)
    &&& s.len() > 0 ==> s.last() != '.' && s.last() != ' '
}

/// The longest start of the text whose UTF-8 encoding takes at most 255
/// bytes.
pub open spec fn truncated_255(s: Seq<char>) -> Seq<char>
    decreases s.len(),
{
    if utf8_len(s) <= 255 || s.len() == 0 { s } else { truncated_255(s.drop_last()) }
}

/// Calls `sanitize_filename::sanitize`, which deletes the illegal and
/// control characters, empties a name made only of dots, and truncates the
/// name to 255 bytes; when compiled for Windows it also deletes a device
/// name and trailing dots and spaces before truncating.  As the result
/// depends on the target, only what holds on every target is stated: the
/// illegal and control characters are gone, the name has at most 255
/// characters, a name that is only dots once they are gone becomes empty,
/// and one that Windows would not change further is cut to 255 bytes.
/// What remains of a device name or of a name with trailing dots or spaces
/// is left unsaid.
#[verifier::external_body]
pub(crate) fn sanitize(name: &str) -> (res: String)
    ensures
        is_sanitized_name(res@),
        only_dots(kept_file_chars(name@)) ==> res@ == Seq::<char>::empty(),
        is_target_neutral(kept_file_chars(name@)) ==> res@ == truncated_255(kept_file_chars(name@)),
{
    sanitize_filename::sanitize(name)
}

/// The folder name of the course: the course title sanitized.
pub fn course_dir_name(title: &str) -> (res: String)
    ensures
        is_sanitized_name(res@),
        is_clean_file_name(kept_file_chars(title@)) ==> res@ == kept_file_chars(title@),
        only_dots(kept_file_chars(title@)) ==> res@ == Seq::<char>::empty(),
        is_target_neutral(kept_file_chars(title@)) ==> res@ == truncated_255(kept_file_chars(title@)),
{
    sanitize(title)
}

/// The folder name of a section: `S{number:02} - {title}`, numbered from 1,
/// with the title sanitized.
pub open spec fn section_dir_text(number: nat, safe_title: Seq<char>) -> Seq<char> {
    "S"@ + decimal2(number) + " - "@ + safe_title
}

/// The folder name of the section at (zero-based) position `sec_idx`.
pub fn section_dir_name(sec_idx: usize, section_title: &str) -> (res: String)
    requires
        sec_idx < usize::MAX,
    ensures
        exists|safe: Seq<char>| is_sanitized_name(safe) && res@ == section_dir_text((sec_idx + 1) as nat, safe),
        is_clean_file_name(kept_file_chars(section_title@))
            ==> res@ == section_dir_text((sec_idx + 1) as nat, kept_file_chars(section_title@)),
        only_dots(kept_file_chars(section_title@))
            ==> res@ == section_dir_text((sec_idx + 1) as nat, Seq::<char>::empty()),
        is_target_neutral(kept_file_chars(section_title@))
            ==> res@ == section_dir_text((sec_idx + 1) as nat, truncated_255(kept_file_chars(section_title@))),
{
    let safe = sanitize(section_title);
    let n = sec_idx + 1;
    let mut out = chars_of("S");
    if n < 10 {
        out.push('0');
    }
    push_decimal(&mut out, n as u64);
    push_str(&mut out, " - ");
    push_str(&mut out, safe.as_str());
    proof {
        assert(out@ =~= section_dir_text((sec_idx + 1) as nat, safe@));
    }
    string_of(&out)
}

/// The name, before sanitizing, of the video of the lecture numbered
/// `number` in the course (from 1): `{number:02} - {title}`.
pub open spec fn lecture_stem_text(number: nat, title: Seq<char>) -> Seq<char> {
    decimal2(number) + " - "@ + title
}

/// The name, before sanitizing, of the video of the lecture at (zero-based)
/// course-wide position `index`.
pub fn lecture_file_stem(index: u32, title: &str) -> (res: String)
    ensures
        res@ == lecture_stem_text((index + 1) as nat, title@),
{
    let n: u64 = index as u64 + 1;
    let mut out: Vec<char> = Vec::new();
    if n < 10 {
        out.push('0');
    }
    push_decimal(&mut out, n);
    push_str(&mut out, " - ");
    push_str(&mut out, title);
    proof {
        assert(out@ =~= lecture_stem_text((index + 1) as nat, title@));
    }
    string_of(&out)
}

/// The file name of a video: the name sanitized, with `.mp4`.
pub fn video_file_name(name: &str) -> (res: String)
    ensures
        exists|safe: Seq<char>| is_sanitized_name(safe) && res@ == safe + ".mp4"@,
        is_clean_file_name(kept_file_chars(name@)) ==> res@ == kept_file_chars(name@) + ".mp4"@,
        only_dots(kept_file_chars(name@)) ==> res@ == ".mp4"@,
        is_target_neutral(kept_file_chars(name@)) ==> res@ == truncated_255(kept_file_chars(name@)) + ".mp4"@,
{
    let safe = sanitize(name);
    let mut out = chars_of(safe.as_str());
    push_str(&mut out, ".mp4");
    string_of(&out)
}

/// The file name of the video of the lecture at (zero-based) course-wide
/// position `index`: `{index + 1:02} - {title}.mp4`, sanitized.
pub fn lecture_file_name(index: u32, title: &str) -> (res: String)
    ensures
        exists|safe: Seq<char>| is_sanitized_name(safe) && res@ == safe + ".mp4"@,
        ({
            let stem = lecture_stem_text((index + 1) as nat, kept_file_chars(title@));
            &&& is_clean_file_name(stem) ==> res@ == stem + ".mp4"@
            &&& is_target_neutral(stem) ==> res@ == truncated_255(stem) + ".mp4"@
        }),
{
    let stem = lecture_file_stem(index, title);
    proof {
        let n = (index + 1) as nat;
        let prefix = decimal2(n) + " - "@;
        reveal_strlit(" - ");
        lemma_decimal_kept(n);
        assert forall|i: int| 0 <= i < prefix.len() implies keeps_file_char(#[trigger] prefix[i]) by {
            if n < 10 {
                if i >= 1 && i < 1 + decimal(n).len() {
                    assert(prefix[i] == decimal(n)[i - 1]);
                }
            } else if i < decimal(n).len() {
                assert(prefix[i] == decimal(n)[i]);
            }
            if i >= decimal2(n).len() {
                assert(prefix[i] == " - "@[i - decimal2(n).len()]);
            }
        }
        lemma_kept_all(prefix);
        lemma_kept_concat(prefix, title@);
        assert(stem@ =~= prefix + title@);
    }
    video_file_name(stem.as_str())
}

/// The lecture is chosen for download: a video whose id is among the wanted
/// ones, every video when none is named.
pub open spec fn is_selected(l: CourseLecture, wanted: Seq<Seq<char>>) -> bool {
    l.lecture_type == LectureType::Video && (wanted.len() == 0 || wanted.contains(l.id@))
}

/// The positions (lecture index within the section) of the chosen lectures
/// of section number `i`, in order, paired with `i`.
pub open spec fn section_selection(lectures: Seq<CourseLecture>, i: int, wanted: Seq<Seq<char>>) -> Seq<(int, int)>
    decreases lectures.len(),
{
    if lectures.len() == 0 {
        Seq::<(int, int)>::empty()
    } else {
        section_selection(lectures.drop_last(), i, wanted) + if is_selected(lectures.last(), wanted) {
            seq![(i, lectures.len() - 1)]
        } else {
            Seq::<(int, int)>::empty()
        }
    }
}

/// The (section, lecture) positions of the chosen lectures of the course,
/// in course order.
pub open spec fn course_selection(sections: Seq<CourseSection>, wanted: Seq<Seq<char>>) -> Seq<(int, int)>
    decreases sections.len(),
{
    if sections.len() == 0 {
        Seq::<(int, int)>::empty()
    } else {
        course_selection(sections.drop_last(), wanted)
            + section_selection(sections.last().lectures@, sections.len() - 1, wanted)
    }
}

/// A lecture chosen for download, with where it sits in the course.
pub struct PlannedLecture {
    pub section_index: usize,
    pub section_title: String,
    pub lecture_index: usize,
    pub lecture: CourseLecture,
}

/// Why a course download cannot start.
#[derive(Debug, PartialEq, Eq, Structural)]
pub enum PlanError {
    /// No video lecture is among the chosen ones.
    NoVideoLecturesSelected,
}

impl PlanError {
    /// The message shown for the error.
    pub fn message(&self) -> (res: String)
        ensures
            res@ == "No video lectures selected"@,
    {
        String::from_str("No video lectures selected")
    }
}

/// A copy of a course lecture.
pub fn copy_lecture(l: &CourseLecture) -> (res: CourseLecture)
    ensures
        res == *l,
{
    CourseLecture {
        id: l.id.clone(),
        title: l.title.clone(),
        url: l.url.clone(),
        index: l.index,
        duration: copy_opt(&l.duration),
        lecture_type: l.lecture_type,
        is_free_preview: l.is_free_preview,
    }
}

fn id_wanted(id: &String, wanted: &Vec<String>) -> (res: bool)
    ensures
        res == wanted@.map_values(|w: String| w@).contains(id@),
{
    let ghost ws = wanted@.map_values(|w: String| w@);
    let mut k: usize = 0;
    while k < wanted.len()
        invariant
            k <= wanted@.len(),
            ws == wanted@.map_values(|w: String| w@),
            forall|m: int| 0 <= m < k ==> ws[m] != id@,
        decreases wanted@.len() - k,
    {
        if *id == wanted[k] {
            assert(ws[k as int] == id@);
            return true;
        }
        k = k + 1;
    }
    false
}

/// The lectures of the course to download, in course order: the videos
/// whose ids are wanted (every video when no id is given), with their
/// section and position; an error when there is none.
pub fn plan_course_download(course: &CourseInfo, lecture_ids: &Vec<String>) -> (res: Result<Vec<PlannedLecture>, PlanError>)
    ensures
        ({
            let sel = course_selection(course.sections@, lecture_ids@.map_values(|w: String| w@));
            match res {
                Err(e) => sel.len() == 0 && e == PlanError::NoVideoLecturesSelected,
                Ok(plan) => {
                    &&& sel.len() > 0
                    &&& plan@.len() == sel.len()
                    &&& forall|k: int| 0 <= k < plan@.len() ==> {
                        let p = #[trigger] plan@[k];
                        &&& p.section_index == sel[k].0
                        &&& p.lecture_index == sel[k].1
                        &&& p.section_title@ == course.sections@[sel[k].0].title@
                        &&& p.lecture == course.sections@[sel[k].0].lectures@[sel[k].1]
                    }
                },
            }
        }),
{
    let ghost wanted = lecture_ids@.map_values(|w: String| w@);
    let ghost secs = course.sections@;
    let mut plan: Vec<PlannedLecture> = Vec::new();
    let mut i: usize = 0;
    while i < course.sections.len()
        invariant
            i <= secs.len(),
            secs == course.sections@,
            wanted == lecture_ids@.map_values(|w: String| w@),
            plan@.len() == course_selection(secs.take(i as int), wanted).len(),
            forall|k: int| 0 <= k < plan@.len() ==> {
                let p = #[trigger] plan@[k];
                let s = course_selection(secs.take(i as int), wanted)[k];
                &&& p.section_index == s.0
                &&& p.lecture_index == s.1
                &&& p.section_title@ == secs[s.0].title@
                &&& p.lecture == secs[s.0].lectures@[s.1]
            },
        decreases secs.len() - i,
    {
        let sec = &course.sections[i];
        let ghost base = course_selection(secs.take(i as int), wanted);
        assert(secs.take(i + 1).drop_last() =~= secs.take(i as int));
        assert(secs.take(i + 1).last() == *sec);
        let mut j: usize = 0;
        assert(sec.lectures@.take(0) =~= Seq::<CourseLecture>::empty());
        while j < sec.lectures.len()
            invariant
                i < secs.len(),
                secs == course.sections@,
                *sec == secs[i as int],
                j <= sec.lectures@.len(),
                wanted == lecture_ids@.map_values(|w: String| w@),
                base == course_selection(secs.take(i as int), wanted),
                plan@.len() == base.len() + section_selection(sec.lectures@.take(j as int), i as int, wanted).len(),
                forall|k: int| 0 <= k < plan@.len() ==> {
                    let p = #[trigger] plan@[k];
                    let s = (base + section_selection(sec.lectures@.take(j as int), i as int, wanted))[k];
                    &&& p.section_index == s.0
                    &&& p.lecture_index == s.1
                    &&& p.section_title@ == secs[s.0].title@
                    &&& p.lecture == secs[s.0].lectures@[s.1]
                },
            decreases sec.lectures@.len() - j,
        {
            let lec = &sec.lectures[j];
            let ghost prev = section_selection(sec.lectures@.take(j as int), i as int, wanted);
            assert(sec.lectures@.take(j + 1).drop_last() =~= sec.lectures@.take(j as int));
            assert(sec.lectures@.take(j + 1).last() == *lec);
            let chosen = lec.lecture_type == LectureType::Video
                && (lecture_ids.len() == 0 || id_wanted(&lec.id, lecture_ids));
            assert(chosen == is_selected(*lec, wanted));
            if chosen {
                let ghost plan0 = plan@;
                plan.push(PlannedLecture {
                    section_index: i,
                    section_title: sec.title.clone(),
                    lecture_index: j,
                    lecture: copy_lecture(lec),
                });
                assert(base + section_selection(sec.lectures@.take(j + 1), i as int, wanted)
                    =~= (base + prev).push((i as int, j as int)));
            } else {
                assert(base + section_selection(sec.lectures@.take(j + 1), i as int, wanted)
                    =~= base + prev);
            }
            j = j + 1;
        }
        assert(sec.lectures@.take(j as int) =~= sec.lectures@);
        i = i + 1;
    }
    assert(secs.take(i as int) =~= secs);
    if plan.len() == 0 {
        Err(PlanError::NoVideoLecturesSelected)
    } else {
        Ok(plan)
    }
}

/// What was found out about a planned lecture before queueing it.
#[derive(Debug, PartialEq, Eq, Structural)]
pub enum LectureStatus {
    /// Its video is already completely downloaded.
    Complete,
    /// Its stream could not be resolved in the browser.
    Unresolved,
    /// Its stream was resolved.
    Resolved,
}

/// What the queueing of a course reports for a lecture.
#[derive(Debug, PartialEq, Eq, Structural)]
pub enum QueueEvent {
    /// The lecture is skipped as complete; `current` is its position in the report.
    Skipped { current: usize },
    /// The lecture is skipped, with a warning, because it could not be resolved.
    NotResolved,
    /// The lecture is handed to the download; `current` counts the lectures handed so far.
    Queued { current: usize },
}

/// The step of queueing a course for one lecture, with `queued` lectures
/// handed to the download before it: a complete lecture is reported as
/// skipped at position `queued + 1`, an unresolved one only warned of, and a
/// resolved one handed to the download, which makes `queued + 1`.  Returns
/// the new count and the report.
pub fn queue_step(queued: usize, status: LectureStatus) -> (res: (usize, QueueEvent))
    requires
        queued < usize::MAX,
    ensures
        match status {
            LectureStatus::Complete => res == (queued, QueueEvent::Skipped { current: (queued + 1) as usize }),
            LectureStatus::Unresolved => res == (queued, QueueEvent::NotResolved),
            LectureStatus::Resolved => res == ((queued + 1) as usize, QueueEvent::Queued { current: (queued + 1) as usize }),
        },
{
    match status {
        LectureStatus::Complete => (queued, QueueEvent::Skipped { current: queued + 1 }),
        LectureStatus::Unresolved => (queued, QueueEvent::NotResolved),
        LectureStatus::Resolved => (queued + 1, QueueEvent::Queued { current: queued + 1 }),
    }
}

} // verus!
