//! Properties of the library that span its functions, proved over the
//! specifications their contracts use.
use vstd::prelude::*;
use crate::catalog::{
    detected_platform, first_platform_for, known_platforms, looks_like_course_path,
    matches_any_domain, unknown_platform_view, PlatformView, StatusView,
};
use crate::download::{course_selection, is_selected, section_selection};
use crate::duration::{all_digits, is_duration_text, is_float_literal, is_mantissa, is_unsigned_number, first_exp_from};
use crate::media::heights_decrease;
use crate::models::{CourseLecture, CourseSection, LectureType, VideoQuality};
use crate::text::{find_from, find_seq, lemma_find_from, lowercase, occurs_at, split_seq};
use crate::url_parts::{url_host, url_parses, url_path};
use crate::ztm::{cleaned_title, lecture_built_from, video_count, BrowserLecture};
use crate::browser::stream_from_output;
use crate::media::{format_has_video, format_height, kept_formats, offers_exactly, FormatEntry};
use crate::text::{contains_seq, decimal, has_prefix, is_white_space, replace_seq, trim_seq, trim_end_seq, trim_start_seq};
use crate::catalog::{UNKNOWN_COURSE_ID, UNKNOWN_COURSE_NOTES};

verus! {

/// Of the catalogue, only Zero To Mastery Academy is supported, since
/// version 0.5.0; every other platform is unsupported.
pub proof fn law_only_academy_is_supported(i: int)
    requires
        0 <= i < known_platforms().len(),
    ensures
        known_platforms()[i].support_status is Supported <==> i == 0,
        i == 0 ==> known_platforms()[i].support_status == (StatusView::Supported { since_version: "0.5.0"@ }),
        i != 0 ==> known_platforms()[i].support_status is Unsupported,
{
}

/// The first catalogue entry matching a host is one of the entries, and the
/// host matches one of its domains.
proof fn lemma_first_platform_sound(platforms: Seq<PlatformView>, host: Seq<char>)
    ensures
        first_platform_for(platforms, host) matches Some(p) ==> platforms.contains(p)
            && matches_any_domain(host, p.domains),
    decreases platforms.len(),
{
    if platforms.len() > 0 && !matches_any_domain(host, platforms[0].domains) {
        lemma_first_platform_sound(platforms.drop_first(), host);
        if let Some(p) = first_platform_for(platforms.drop_first(), host) {
            let k = choose|k: int| 0 <= k < platforms.drop_first().len() && platforms.drop_first()[k] == p;
            assert(platforms[k + 1] == p);
        }
    } else if platforms.len() > 0 {
        assert(platforms[0] == platforms[0]);
    }
}

/// A URL is mapped to a catalogue entry one of whose domains its
/// lower-cased host is (or is a subdomain of); otherwise, when its
/// lower-cased path looks like a course page, to an unsupported entry named
/// after its host; otherwise to nothing.
pub proof fn law_detected_platform_matches_host(url: Seq<char>)
    ensures
        detected_platform(url) matches Some(p) ==> url_parses(url) && url_host(url) is Some && {
            let host = lowercase(url_host(url)->0);
            ||| (known_platforms().contains(p) && matches_any_domain(host, p.domains))
            ||| (p == unknown_platform_view(host) && looks_like_course_path(lowercase(url_path(url))))
        },
{
    if url_parses(url) && url_host(url) is Some {
        lemma_first_platform_sound(known_platforms(), lowercase(url_host(url)->0));
    }
}

/// With no lecture named, every video lecture of the course is chosen, and
/// only those: the chosen lectures are the videos.
pub proof fn law_no_ids_selects_every_video(sections: Seq<CourseSection>, i: int, j: int)
    requires
        0 <= i < sections.len(),
        0 <= j < sections[i].lectures@.len(),
    ensures
        course_selection(sections, Seq::<Seq<char>>::empty()).contains((i, j))
            <==> sections[i].lectures@[j].lecture_type == LectureType::Video,
{
    law_selection_is_exact(sections, Seq::<Seq<char>>::empty(), i, j);
}

proof fn lemma_section_selection(lectures: Seq<CourseLecture>, i: int, wanted: Seq<Seq<char>>, a: int, j: int)
    ensures
        section_selection(lectures, i, wanted).contains((a, j))
            <==> (a == i && 0 <= j < lectures.len() && is_selected(lectures[j], wanted)),
    decreases lectures.len(),
{
    if lectures.len() > 0 {
        let prev = section_selection(lectures.drop_last(), i, wanted);
        lemma_section_selection(lectures.drop_last(), i, wanted, a, j);
        if is_selected(lectures.last(), wanted) {
            let s = prev + seq![(i, lectures.len() - 1)];
            if s.contains((a, j)) && !prev.contains((a, j)) {
                let k = choose|k: int| 0 <= k < s.len() && s[k] == (a, j);
                assert(k == prev.len());
            }
            if a == i && j == lectures.len() - 1 {
                assert(s[prev.len() as int] == (a, j));
            }
            if prev.contains((a, j)) {
                let k = choose|k: int| 0 <= k < prev.len() && prev[k] == (a, j);
                assert(s[k] == (a, j));
            }
        } else {
            assert(prev + Seq::<(int, int)>::empty() =~= prev);
        }
        if 0 <= j < lectures.len() - 1 {
            assert(lectures.drop_last()[j] == lectures[j]);
        }
    } else {
    }
}

/// A lecture is chosen for download exactly when it is a video whose id is
/// wanted (any video when no id is given); the choice keeps course order.
pub proof fn law_selection_is_exact(sections: Seq<CourseSection>, wanted: Seq<Seq<char>>, i: int, j: int)
    requires
        0 <= i < sections.len(),
    ensures
        course_selection(sections, wanted).contains((i, j))
            <==> (0 <= j < sections[i].lectures@.len() && is_selected(sections[i].lectures@[j], wanted)),
    decreases sections.len(),
{
    let n = sections.len() as int;
    let prev = course_selection(sections.drop_last(), wanted);
    let last = section_selection(sections.last().lectures@, n - 1, wanted);
    lemma_section_selection(sections.last().lectures@, n - 1, wanted, i, j);
    let s = prev + last;
    if i < n - 1 {
        law_selection_is_exact(sections.drop_last(), wanted, i, j);
        assert(sections.drop_last()[i] == sections[i]);
        if s.contains((i, j)) {
            let k = choose|k: int| 0 <= k < s.len() && s[k] == (i, j);
            if k >= prev.len() {
                assert(last[k - prev.len()] == (i, j));
                assert(last.contains((i, j)));
            }
        }
        if prev.contains((i, j)) {
            let k = choose|k: int| 0 <= k < prev.len() && prev[k] == (i, j);
            assert(s[k] == (i, j));
        }
    } else {
        if s.contains((i, j)) {
            let k = choose|k: int| 0 <= k < s.len() && s[k] == (i, j);
            if k < prev.len() {
                lemma_selection_sections(sections.drop_last(), wanted, k);
            } else {
                assert(last[k - prev.len()] == (i, j));
            }
        }
        if last.contains((i, j)) {
            let k = choose|k: int| 0 <= k < last.len() && last[k] == (i, j);
            assert(s[prev.len() + k] == (i, j));
        }
    }
}

/// Every chosen position names a section of the course.
proof fn lemma_selection_sections(sections: Seq<CourseSection>, wanted: Seq<Seq<char>>, k: int)
    requires
        0 <= k < course_selection(sections, wanted).len(),
    ensures
        0 <= course_selection(sections, wanted)[k].0 < sections.len(),
    decreases sections.len(),
{
    let n = sections.len() as int;
    let prev = course_selection(sections.drop_last(), wanted);
    if k < prev.len() {
        lemma_selection_sections(sections.drop_last(), wanted, k);
    } else {
        let last = section_selection(sections.last().lectures@, n - 1, wanted);
        let pair = last[k - prev.len()];
        assert(last.contains(pair));
        lemma_section_selection(sections.last().lectures@, n - 1, wanted, pair.0, pair.1);
    }
}

/// A text of digits.
proof fn lemma_digits_are_a_number(d: Seq<char>)
    requires
        d.len() > 0,
        all_digits(d),
    ensures
        is_float_literal(d),
{
    assert(first_exp_from(d, 0) is None) by {
        lemma_no_exponent(d, 0);
    };
    assert(is_mantissa(d));
    assert(!(d[0] == '+' || d[0] == '-')) by {
        assert(crate::duration::is_digit(d[0]));
    };
}

proof fn lemma_no_exponent(d: Seq<char>, i: int)
    requires
        all_digits(d),
        0 <= i,
    ensures
        first_exp_from(d, i) is None,
    decreases d.len() - i,
{
    if i < d.len() {
        assert(crate::duration::is_digit(d[i]));
        lemma_no_exponent(d, i + 1);
    }
}

proof fn lemma_split_no_sep(s: Seq<char>)
    requires
        all_digits(s),
    ensures
        split_seq(s, seq![':']) == seq![s],
{
    lemma_find_from(s, seq![':'], 0);
    if let Some(i) = find_seq(s, seq![':']) {
        assert(s.subrange(i, i + 1)[0] == s[i]);
        assert(crate::duration::is_digit(s[i]));
    }
}

proof fn lemma_split_at_colon(a: Seq<char>, rest: Seq<char>)
    requires
        all_digits(a),
    ensures
        split_seq(a + seq![':'] + rest, seq![':']) == seq![a] + split_seq(rest, seq![':']),
{
    let s = a + seq![':'] + rest;
    assert(occurs_at(s, seq![':'], a.len() as int)) by {
        assert(s.subrange(a.len() as int, a.len() as int + 1) =~= seq![':']);
    };
    assert forall|k: int| 0 <= k < a.len() implies !occurs_at(s, seq![':'], k) by {
        assert(s.subrange(k, k + 1)[0] == a[k]);
        assert(crate::duration::is_digit(a[k]));
    }
    lemma_find_first_at(s, seq![':'], 0, a.len() as int);
    assert(s.subrange(0, a.len() as int) =~= a);
    assert(s.subrange(a.len() as int + 1, s.len() as int) =~= rest);
}

proof fn lemma_find_first_at(s: Seq<char>, p: Seq<char>, i: int, j: int)
    requires
        0 <= i <= j,
        occurs_at(s, p, j),
        forall|k: int| i <= k < j ==> !occurs_at(s, p, k),
    ensures
        find_from(s, p, i) == Some(j),
    decreases j - i,
{
    if i < j {
        lemma_find_first_at(s, p, i + 1, j);
    }
}

/// A length written as minutes and seconds in digits (`5:43`), or as hours,
/// minutes and seconds (`1:05:12`), reads as a duration, so the lecture it
/// belongs to is a video.
pub proof fn law_clock_texts_are_durations(h: Seq<char>, m: Seq<char>, s: Seq<char>)
    requires
        h.len() > 0 && all_digits(h),
        m.len() > 0 && all_digits(m),
        s.len() > 0 && all_digits(s),
    ensures
        is_duration_text(m + seq![':'] + s),
        is_duration_text(h + seq![':'] + m + seq![':'] + s),
{
    lemma_digits_are_a_number(h);
    lemma_digits_are_a_number(m);
    lemma_digits_are_a_number(s);
    lemma_split_no_sep(s);
    lemma_split_at_colon(m, s);
    let two = split_seq(m + seq![':'] + s, seq![':']);
    assert(two =~= seq![m, s]);
    lemma_split_at_colon(h, m + seq![':'] + s);
    assert(h + seq![':'] + m + seq![':'] + s =~= h + seq![':'] + (m + seq![':'] + s));
    let three = split_seq(h + seq![':'] + m + seq![':'] + s, seq![':']);
    assert(three =~= seq![h, m, s]);
}

/// The qualities offered never repeat a height.
pub proof fn law_offered_heights_distinct(qs: Seq<VideoQuality>, a: int, b: int)
    requires
        heights_decrease(qs),
        0 <= a < qs.len(),
        0 <= b < qs.len(),
        a != b,
    ensures
        qs[a].height != qs[b].height,
{
}

/// The first entry of `platforms` that `host` matches is entry `i` when no
/// earlier entry matches it.
proof fn lemma_first_platform_at(platforms: Seq<PlatformView>, host: Seq<char>, i: int)
    requires
        0 <= i < platforms.len(),
        matches_any_domain(host, platforms[i].domains),
        forall|k: int| 0 <= k < i ==> !matches_any_domain(host, #[trigger] platforms[k].domains),
    ensures
        first_platform_for(platforms, host) == Some(platforms[i]),
    decreases i,
{
    if i > 0 {
        assert(!matches_any_domain(host, platforms[0].domains));
        assert forall|k: int| 0 <= k < i - 1 implies !matches_any_domain(host, #[trigger] platforms.drop_first()[k].domains) by {
            assert(platforms.drop_first()[k] == platforms[k + 1]);
        }
        lemma_first_platform_at(platforms.drop_first(), host, i - 1);
    }
}

/// Each catalogue entry is the one found for a host that is exactly one of
/// its domains: no earlier entry claims that host.
pub proof fn law_catalogue_domains_are_detected(i: int, j: int)
    requires
        0 <= i < known_platforms().len(),
        0 <= j < known_platforms()[i].domains.len(),
    ensures
        first_platform_for(known_platforms(), known_platforms()[i].domains[j]) == Some(known_platforms()[i]),
{
    let ks = known_platforms();
    reveal_strlit("academy.zerotomastery.io");
    reveal_strlit("app.pluralsight.com");
    reveal_strlit("app.rocketseat.com.br");
    reveal_strlit("coursera.org");
    reveal_strlit("kajabi.com");
    reveal_strlit("linkedin.com");
    reveal_strlit("mykajabi.com");
    reveal_strlit("pluralsight.com");
    reveal_strlit("rocketseat.com.br");
    reveal_strlit("skillshare.com");
    reveal_strlit("teachable.com");
    reveal_strlit("thinkific.com");
    reveal_strlit("udemy.com");
    reveal_strlit("www.coursera.org");
    reveal_strlit("www.linkedin.com");
    reveal_strlit("www.pluralsight.com");
    reveal_strlit("www.skillshare.com");
    reveal_strlit("www.udemy.com");
    let host = ks[i].domains[j];
    assert(matches_any_domain(host, ks[i].domains));
    if i == 0 && j == 0 {
        assert(host == "academy.zerotomastery.io"@);
        assert forall|k: int| 0 <= k < i implies !matches_any_domain(host, #[trigger] ks[k].domains) by {}
    } else if i == 1 && j == 0 {
        assert(host == "udemy.com"@);
        assert("udemy.com"@.len() != "academy.zerotomastery.io"@.len());
        assert("udemy.com"@.len() < "academy.zerotomastery.io"@.len() + 1);
        assert(!crate::catalog::domain_matches("udemy.com"@, "academy.zerotomastery.io"@));
        assert(!matches_any_domain(host, ks[0].domains));
        assert forall|k: int| 0 <= k < i implies !matches_any_domain(host, #[trigger] ks[k].domains) by {}
    } else if i == 1 && j == 1 {
        assert(host == "www.udemy.com"@);
        assert("www.udemy.com"@.len() != "academy.zerotomastery.io"@.len());
        assert("www.udemy.com"@.len() < "academy.zerotomastery.io"@.len() + 1);
        assert(!crate::catalog::domain_matches("www.udemy.com"@, "academy.zerotomastery.io"@));
        assert(!matches_any_domain(host, ks[0].domains));
        assert forall|k: int| 0 <= k < i implies !matches_any_domain(host, #[trigger] ks[k].domains) by {}
    } else if i == 2 && j == 0 {
        assert(host == "coursera.org"@);
        assert("coursera.org"@.len() != "academy.zerotomastery.io"@.len());
        assert("coursera.org"@.len() < "academy.zerotomastery.io"@.len() + 1);
        assert(!crate::catalog::domain_matches("coursera.org"@, "academy.zerotomastery.io"@));
        assert(!matches_any_domain(host, ks[0].domains));
        assert("coursera.org"@.len() != "udemy.com"@.len());
        assert(!crate::text::has_suffix("coursera.org"@, seq!['.'] + "udemy.com"@)) by { assert("coursera.org"@.subrange(2, 12)[0] == "coursera.org"@[2]); assert((seq!['.'] + "udemy.com"@)[0] == '.'); assert("coursera.org"@[2] != '.'); }
        assert(!crate::catalog::domain_matches("coursera.org"@, "udemy.com"@));
        assert("coursera.org"@.len() != "www.udemy.com"@.len());
        assert("coursera.org"@.len() < "www.udemy.com"@.len() + 1);
        assert(!crate::catalog::domain_matches("coursera.org"@, "www.udemy.com"@));
        assert(!matches_any_domain(host, ks[1].domains));
        assert forall|k: int| 0 <= k < i implies !matches_any_domain(host, #[trigger] ks[k].domains) by {}
    } else if i == 2 && j == 1 {
        assert(host == "www.coursera.org"@);
        assert("www.coursera.org"@.len() != "academy.zerotomastery.io"@.len());
        assert("www.coursera.org"@.len() < "academy.zerotomastery.io"@.len() + 1);
        assert(!crate::catalog::domain_matches("www.coursera.org"@, "academy.zerotomastery.io"@));
        assert(!matches_any_domain(host, ks[0].domains));
        assert("www.coursera.org"@.len() != "udemy.com"@.len());
        assert(!crate::text::has_suffix("www.coursera.org"@, seq!['.'] + "udemy.com"@)) by { assert("www.coursera.org"@.subrange(6, 16)[0] == "www.coursera.org"@[6]); assert((seq!['.'] + "udemy.com"@)[0] == '.'); assert("www.coursera.org"@[6] != '.'); }
        assert(!crate::catalog::domain_matches("www.coursera.org"@, "udemy.com"@));
        assert("www.coursera.org"@.len() != "www.udemy.com"@.len());
        assert(!crate::text::has_suffix("www.coursera.org"@, seq!['.'] + "www.udemy.com"@)) by { assert("www.coursera.org"@.subrange(2, 16)[0] == "www.coursera.org"@[2]); assert((seq!['.'] + "www.udemy.com"@)[0] == '.'); assert("www.coursera.org"@[2] != '.'); }
        assert(!crate::catalog::domain_matches("www.coursera.org"@, "www.udemy.com"@));
        assert(!matches_any_domain(host, ks[1].domains));
        assert forall|k: int| 0 <= k < i implies !matches_any_domain(host, #[trigger] ks[k].domains) by {}
    } else if i == 3 && j == 0 {
        assert(host == "skillshare.com"@);
        assert("skillshare.com"@.len() != "academy.zerotomastery.io"@.len());
        assert("skillshare.com"@.len() < "academy.zerotomastery.io"@.len() + 1);
        assert(!crate::catalog::domain_matches("skillshare.com"@, "academy.zerotomastery.io"@));
        assert(!matches_any_domain(host, ks[0].domains));
        assert("skillshare.com"@.len() != "udemy.com"@.len());
        assert(!crate::text::has_suffix("skillshare.com"@, seq!['.'] + "udemy.com"@)) by { assert("skillshare.com"@.subrange(4, 14)[0] == "skillshare.com"@[4]); assert((seq!['.'] + "udemy.com"@)[0] == '.'); assert("skillshare.com"@[4] != '.'); }
        assert(!crate::catalog::domain_matches("skillshare.com"@, "udemy.com"@));
        assert("skillshare.com"@.len() != "www.udemy.com"@.len());
        assert(!crate::text::has_suffix("skillshare.com"@, seq!['.'] + "www.udemy.com"@)) by { assert("skillshare.com"@.subrange(0, 14)[0] == "skillshare.com"@[0]); assert((seq!['.'] + "www.udemy.com"@)[0] == '.'); assert("skillshare.com"@[0] != '.'); }
        assert(!crate::catalog::domain_matches("skillshare.com"@, "www.udemy.com"@));
        assert(!matches_any_domain(host, ks[1].domains));
        assert("skillshare.com"@.len() != "coursera.org"@.len());
        assert(!crate::text::has_suffix("skillshare.com"@, seq!['.'] + "coursera.org"@)) by { assert("skillshare.com"@.subrange(1, 14)[0] == "skillshare.com"@[1]); assert((seq!['.'] + "coursera.org"@)[0] == '.'); assert("skillshare.com"@[1] != '.'); }
        assert(!crate::catalog::domain_matches("skillshare.com"@, "coursera.org"@));
        assert("skillshare.com"@.len() != "www.coursera.org"@.len());
        assert("skillshare.com"@.len() < "www.coursera.org"@.len() + 1);
        assert(!crate::catalog::domain_matches("skillshare.com"@, "www.coursera.org"@));
        assert(!matches_any_domain(host, ks[2].domains));
        assert forall|k: int| 0 <= k < i implies !matches_any_domain(host, #[trigger] ks[k].domains) by {}
    } else if i == 3 && j == 1 {
        assert(host == "www.skillshare.com"@);
        assert("www.skillshare.com"@.len() != "academy.zerotomastery.io"@.len());
        assert("www.skillshare.com"@.len() < "academy.zerotomastery.io"@.len() + 1);
        assert(!crate::catalog::domain_matches("www.skillshare.com"@, "academy.zerotomastery.io"@));
        assert(!matches_any_domain(host, ks[0].domains));
        assert("www.skillshare.com"@.len() != "udemy.com"@.len());
        assert(!crate::text::has_suffix("www.skillshare.com"@, seq!['.'] + "udemy.com"@)) by { assert("www.skillshare.com"@.subrange(8, 18)[0] == "www.skillshare.com"@[8]); assert((seq!['.'] + "udemy.com"@)[0] == '.'); assert("www.skillshare.com"@[8] != '.'); }
        assert(!crate::catalog::domain_matches("www.skillshare.com"@, "udemy.com"@));
        assert("www.skillshare.com"@.len() != "www.udemy.com"@.len());
        assert(!crate::text::has_suffix("www.skillshare.com"@, seq!['.'] + "www.udemy.com"@)) by { assert("www.skillshare.com"@.subrange(4, 18)[0] == "www.skillshare.com"@[4]); assert((seq!['.'] + "www.udemy.com"@)[0] == '.'); assert("www.skillshare.com"@[4] != '.'); }
        assert(!crate::catalog::domain_matches("www.skillshare.com"@, "www.udemy.com"@));
        assert(!matches_any_domain(host, ks[1].domains));
        assert("www.skillshare.com"@.len() != "coursera.org"@.len());
        assert(!crate::text::has_suffix("www.skillshare.com"@, seq!['.'] + "coursera.org"@)) by { assert("www.skillshare.com"@.subrange(5, 18)[0] == "www.skillshare.com"@[5]); assert((seq!['.'] + "coursera.org"@)[0] == '.'); assert("www.skillshare.com"@[5] != '.'); }
        assert(!crate::catalog::domain_matches("www.skillshare.com"@, "coursera.org"@));
        assert("www.skillshare.com"@.len() != "www.coursera.org"@.len());
        assert(!crate::text::has_suffix("www.skillshare.com"@, seq!['.'] + "www.coursera.org"@)) by { assert("www.skillshare.com"@.subrange(1, 18)[0] == "www.skillshare.com"@[1]); assert((seq!['.'] + "www.coursera.org"@)[0] == '.'); assert("www.skillshare.com"@[1] != '.'); }
        assert(!crate::catalog::domain_matches("www.skillshare.com"@, "www.coursera.org"@));
        assert(!matches_any_domain(host, ks[2].domains));
        assert forall|k: int| 0 <= k < i implies !matches_any_domain(host, #[trigger] ks[k].domains) by {}
    } else if i == 4 && j == 0 {
        assert(host == "linkedin.com"@);
        assert("linkedin.com"@.len() != "academy.zerotomastery.io"@.len());
        assert("linkedin.com"@.len() < "academy.zerotomastery.io"@.len() + 1);
        assert(!crate::catalog::domain_matches("linkedin.com"@, "academy.zerotomastery.io"@));
        assert(!matches_any_domain(host, ks[0].domains));
        assert("linkedin.com"@.len() != "udemy.com"@.len());
        assert(!crate::text::has_suffix("linkedin.com"@, seq!['.'] + "udemy.com"@)) by { assert("linkedin.com"@.subrange(2, 12)[0] == "linkedin.com"@[2]); assert((seq!['.'] + "udemy.com"@)[0] == '.'); assert("linkedin.com"@[2] != '.'); }
        assert(!crate::catalog::domain_matches("linkedin.com"@, "udemy.com"@));
        assert("linkedin.com"@.len() != "www.udemy.com"@.len());
        assert("linkedin.com"@.len() < "www.udemy.com"@.len() + 1);
        assert(!crate::catalog::domain_matches("linkedin.com"@, "www.udemy.com"@));
        assert(!matches_any_domain(host, ks[1].domains));
        assert("linkedin.com"@[0] != "coursera.org"@[0]);
        assert("linkedin.com"@.len() < "coursera.org"@.len() + 1);
        assert(!crate::catalog::domain_matches("linkedin.com"@, "coursera.org"@));
        assert("linkedin.com"@.len() != "www.coursera.org"@.len());
        assert("linkedin.com"@.len() < "www.coursera.org"@.len() + 1);
        assert(!crate::catalog::domain_matches("linkedin.com"@, "www.coursera.org"@));
        assert(!matches_any_domain(host, ks[2].domains));
        assert("linkedin.com"@.len() != "skillshare.com"@.len());
        assert("linkedin.com"@.len() < "skillshare.com"@.len() + 1);
        assert(!crate::catalog::domain_matches("linkedin.com"@, "skillshare.com"@));
        assert("linkedin.com"@.len() != "www.skillshare.com"@.len());
        assert("linkedin.com"@.len() < "www.skillshare.com"@.len() + 1);
        assert(!crate::catalog::domain_matches("linkedin.com"@, "www.skillshare.com"@));
        assert(!matches_any_domain(host, ks[3].domains));
        assert forall|k: int| 0 <= k < i implies !matches_any_domain(host, #[trigger] ks[k].domains) by {}
    } else if i == 4 && j == 1 {
        assert(host == "www.linkedin.com"@);
        assert("www.linkedin.com"@.len() != "academy.zerotomastery.io"@.len());
        assert("www.linkedin.com"@.len() < "academy.zerotomastery.io"@.len() + 1);
        assert(!crate::catalog::domain_matches("www.linkedin.com"@, "academy.zerotomastery.io"@));
        assert(!matches_any_domain(host, ks[0].domains));
        assert("www.linkedin.com"@.len() != "udemy.com"@.len());
        assert(!crate::text::has_suffix("www.linkedin.com"@, seq!['.'] + "udemy.com"@)) by { assert("www.linkedin.com"@.subrange(6, 16)[0] == "www.linkedin.com"@[6]); assert((seq!['.'] + "udemy.com"@)[0] == '.'); assert("www.linkedin.com"@[6] != '.'); }
        assert(!crate::catalog::domain_matches("www.linkedin.com"@, "udemy.com"@));
        assert("www.linkedin.com"@.len() != "www.udemy.com"@.len());
        assert(!crate::text::has_suffix("www.linkedin.com"@, seq!['.'] + "www.udemy.com"@)) by { assert("www.linkedin.com"@.subrange(2, 16)[0] == "www.linkedin.com"@[2]); assert((seq!['.'] + "www.udemy.com"@)[0] == '.'); assert("www.linkedin.com"@[2] != '.'); }
        assert(!crate::catalog::domain_matches("www.linkedin.com"@, "www.udemy.com"@));
        assert(!matches_any_domain(host, ks[1].domains));
        assert("www.linkedin.com"@.len() != "coursera.org"@.len());
        assert(!crate::text::has_suffix("www.linkedin.com"@, seq!['.'] + "coursera.org"@)) by { assert("www.linkedin.com"@.subrange(3, 16)[1] == "www.linkedin.com"@[4]); assert((seq!['.'] + "coursera.org"@)[1] == "coursera.org"@[0]); assert("www.linkedin.com"@[4] != 'c'); }
        assert(!crate::catalog::domain_matches("www.linkedin.com"@, "coursera.org"@));
        assert("www.linkedin.com"@[4] != "www.coursera.org"@[4]);
        assert("www.linkedin.com"@.len() < "www.coursera.org"@.len() + 1);
        assert(!crate::catalog::domain_matches("www.linkedin.com"@, "www.coursera.org"@));
        assert(!matches_any_domain(host, ks[2].domains));
        assert("www.linkedin.com"@.len() != "skillshare.com"@.len());
        assert(!crate::text::has_suffix("www.linkedin.com"@, seq!['.'] + "skillshare.com"@)) by { assert("www.linkedin.com"@.subrange(1, 16)[0] == "www.linkedin.com"@[1]); assert((seq!['.'] + "skillshare.com"@)[0] == '.'); assert("www.linkedin.com"@[1] != '.'); }
        assert(!crate::catalog::domain_matches("www.linkedin.com"@, "skillshare.com"@));
        assert("www.linkedin.com"@.len() != "www.skillshare.com"@.len());
        assert("www.linkedin.com"@.len() < "www.skillshare.com"@.len() + 1);
        assert(!crate::catalog::domain_matches("www.linkedin.com"@, "www.skillshare.com"@));
        assert(!matches_any_domain(host, ks[3].domains));
        assert forall|k: int| 0 <= k < i implies !matches_any_domain(host, #[trigger] ks[k].domains) by {}
    } else if i == 5 && j == 0 {
        assert(host == "pluralsight.com"@);
        assert("pluralsight.com"@.len() != "academy.zerotomastery.io"@.len());
        assert("pluralsight.com"@.len() < "academy.zerotomastery.io"@.len() + 1);
        assert(!crate::catalog::domain_matches("pluralsight.com"@, "academy.zerotomastery.io"@));
        assert(!matches_any_domain(host, ks[0].domains));
        assert("pluralsight.com"@.len() != "udemy.com"@.len());
        assert(!crate::text::has_suffix("pluralsight.com"@, seq!['.'] + "udemy.com"@)) by { assert("pluralsight.com"@.subrange(5, 15)[0] == "pluralsight.com"@[5]); assert((seq!['.'] + "udemy.com"@)[0] == '.'); assert("pluralsight.com"@[5] != '.'); }
        assert(!crate::catalog::domain_matches("pluralsight.com"@, "udemy.com"@));
        assert("pluralsight.com"@.len() != "www.udemy.com"@.len());
        assert(!crate::text::has_suffix("pluralsight.com"@, seq!['.'] + "www.udemy.com"@)) by { assert("pluralsight.com"@.subrange(1, 15)[0] == "pluralsight.com"@[1]); assert((seq!['.'] + "www.udemy.com"@)[0] == '.'); assert("pluralsight.com"@[1] != '.'); }
        assert(!crate::catalog::domain_matches("pluralsight.com"@, "www.udemy.com"@));
        assert(!matches_any_domain(host, ks[1].domains));
        assert("pluralsight.com"@.len() != "coursera.org"@.len());
        assert(!crate::text::has_suffix("pluralsight.com"@, seq!['.'] + "coursera.org"@)) by { assert("pluralsight.com"@.subrange(2, 15)[0] == "pluralsight.com"@[2]); assert((seq!['.'] + "coursera.org"@)[0] == '.'); assert("pluralsight.com"@[2] != '.'); }
        assert(!crate::catalog::domain_matches("pluralsight.com"@, "coursera.org"@));
        assert("pluralsight.com"@.len() != "www.coursera.org"@.len());
        assert("pluralsight.com"@.len() < "www.coursera.org"@.len() + 1);
        assert(!crate::catalog::domain_matches("pluralsight.com"@, "www.coursera.org"@));
        assert(!matches_any_domain(host, ks[2].domains));
        assert("pluralsight.com"@.len() != "skillshare.com"@.len());
        assert(!crate::text::has_suffix("pluralsight.com"@, seq!['.'] + "skillshare.com"@)) by { assert("pluralsight.com"@.subrange(0, 15)[0] == "pluralsight.com"@[0]); assert((seq!['.'] + "skillshare.com"@)[0] == '.'); assert("pluralsight.com"@[0] != '.'); }
        assert(!crate::catalog::domain_matches("pluralsight.com"@, "skillshare.com"@));
        assert("pluralsight.com"@.len() != "www.skillshare.com"@.len());
        assert("pluralsight.com"@.len() < "www.skillshare.com"@.len() + 1);
        assert(!crate::catalog::domain_matches("pluralsight.com"@, "www.skillshare.com"@));
        assert(!matches_any_domain(host, ks[3].domains));
        assert("pluralsight.com"@.len() != "linkedin.com"@.len());
        assert(!crate::text::has_suffix("pluralsight.com"@, seq!['.'] + "linkedin.com"@)) by { assert("pluralsight.com"@.subrange(2, 15)[0] == "pluralsight.com"@[2]); assert((seq!['.'] + "linkedin.com"@)[0] == '.'); assert("pluralsight.com"@[2] != '.'); }
        assert(!crate::catalog::domain_matches("pluralsight.com"@, "linkedin.com"@));
        assert("pluralsight.com"@.len() != "www.linkedin.com"@.len());
        assert("pluralsight.com"@.len() < "www.linkedin.com"@.len() + 1);
        assert(!crate::catalog::domain_matches("pluralsight.com"@, "www.linkedin.com"@));
        assert(!matches_any_domain(host, ks[4].domains));
        assert forall|k: int| 0 <= k < i implies !matches_any_domain(host, #[trigger] ks[k].domains) by {}
    } else if i == 5 && j == 1 {
        assert(host == "www.pluralsight.com"@);
        assert("www.pluralsight.com"@.len() != "academy.zerotomastery.io"@.len());
        assert("www.pluralsight.com"@.len() < "academy.zerotomastery.io"@.len() + 1);
        assert(!crate::catalog::domain_matches("www.pluralsight.com"@, "academy.zerotomastery.io"@));
        assert(!matches_any_domain(host, ks[0].domains));
        assert("www.pluralsight.com"@.len() != "udemy.com"@.len());
        assert(!crate::text::has_suffix("www.pluralsight.com"@, seq!['.'] + "udemy.com"@)) by { assert("www.pluralsight.com"@.subrange(9, 19)[0] == "www.pluralsight.com"@[9]); assert((seq!['.'] + "udemy.com"@)[0] == '.'); assert("www.pluralsight.com"@[9] != '.'); }
        assert(!crate::catalog::domain_matches("www.pluralsight.com"@, "udemy.com"@));
        assert("www.pluralsight.com"@.len() != "www.udemy.com"@.len());
        assert(!crate::text::has_suffix("www.pluralsight.com"@, seq!['.'] + "www.udemy.com"@)) by { assert("www.pluralsight.com"@.subrange(5, 19)[0] == "www.pluralsight.com"@[5]); assert((seq!['.'] + "www.udemy.com"@)[0] == '.'); assert("www.pluralsight.com"@[5] != '.'); }
        assert(!crate::catalog::domain_matches("www.pluralsight.com"@, "www.udemy.com"@));
        assert(!matches_any_domain(host, ks[1].domains));
        assert("www.pluralsight.com"@.len() != "coursera.org"@.len());
        assert(!crate::text::has_suffix("www.pluralsight.com"@, seq!['.'] + "coursera.org"@)) by { assert("www.pluralsight.com"@.subrange(6, 19)[0] == "www.pluralsight.com"@[6]); assert((seq!['.'] + "coursera.org"@)[0] == '.'); assert("www.pluralsight.com"@[6] != '.'); }
        assert(!crate::catalog::domain_matches("www.pluralsight.com"@, "coursera.org"@));
        assert("www.pluralsight.com"@.len() != "www.coursera.org"@.len());
        assert(!crate::text::has_suffix("www.pluralsight.com"@, seq!['.'] + "www.coursera.org"@)) by { assert("www.pluralsight.com"@.subrange(2, 19)[0] == "www.pluralsight.com"@[2]); assert((seq!['.'] + "www.coursera.org"@)[0] == '.'); assert("www.pluralsight.com"@[2] != '.'); }
        assert(!crate::catalog::domain_matches("www.pluralsight.com"@, "www.coursera.org"@));
        assert(!matches_any_domain(host, ks[2].domains));
        assert("www.pluralsight.com"@.len() != "skillshare.com"@.len());
        assert(!crate::text::has_suffix("www.pluralsight.com"@, seq!['.'] + "skillshare.com"@)) by { assert("www.pluralsight.com"@.subrange(4, 19)[0] == "www.pluralsight.com"@[4]); assert((seq!['.'] + "skillshare.com"@)[0] == '.'); assert("www.pluralsight.com"@[4] != '.'); }
        assert(!crate::catalog::domain_matches("www.pluralsight.com"@, "skillshare.com"@));
        assert("www.pluralsight.com"@.len() != "www.skillshare.com"@.len());
        assert(!crate::text::has_suffix("www.pluralsight.com"@, seq!['.'] + "www.skillshare.com"@)) by { assert("www.pluralsight.com"@.subrange(0, 19)[0] == "www.pluralsight.com"@[0]); assert((seq!['.'] + "www.skillshare.com"@)[0] == '.'); assert("www.pluralsight.com"@[0] != '.'); }
        assert(!crate::catalog::domain_matches("www.pluralsight.com"@, "www.skillshare.com"@));
        assert(!matches_any_domain(host, ks[3].domains));
        assert("www.pluralsight.com"@.len() != "linkedin.com"@.len());
        assert(!crate::text::has_suffix("www.pluralsight.com"@, seq!['.'] + "linkedin.com"@)) by { assert("www.pluralsight.com"@.subrange(6, 19)[0] == "www.pluralsight.com"@[6]); assert((seq!['.'] + "linkedin.com"@)[0] == '.'); assert("www.pluralsight.com"@[6] != '.'); }
        assert(!crate::catalog::domain_matches("www.pluralsight.com"@, "linkedin.com"@));
        assert("www.pluralsight.com"@.len() != "www.linkedin.com"@.len());
        assert(!crate::text::has_suffix("www.pluralsight.com"@, seq!['.'] + "www.linkedin.com"@)) by { assert("www.pluralsight.com"@.subrange(2, 19)[0] == "www.pluralsight.com"@[2]); assert((seq!['.'] + "www.linkedin.com"@)[0] == '.'); assert("www.pluralsight.com"@[2] != '.'); }
        assert(!crate::catalog::domain_matches("www.pluralsight.com"@, "www.linkedin.com"@));
        assert(!matches_any_domain(host, ks[4].domains));
        assert forall|k: int| 0 <= k < i implies !matches_any_domain(host, #[trigger] ks[k].domains) by {}
    } else if i == 5 && j == 2 {
        assert(host == "app.pluralsight.com"@);
        assert("app.pluralsight.com"@.len() != "academy.zerotomastery.io"@.len());
        assert("app.pluralsight.com"@.len() < "academy.zerotomastery.io"@.len() + 1);
        assert(!crate::catalog::domain_matches("app.pluralsight.com"@, "academy.zerotomastery.io"@));
        assert(!matches_any_domain(host, ks[0].domains));
        assert("app.pluralsight.com"@.len() != "udemy.com"@.len());
        assert(!crate::text::has_suffix("app.pluralsight.com"@, seq!['.'] + "udemy.com"@)) by { assert("app.pluralsight.com"@.subrange(9, 19)[0] == "app.pluralsight.com"@[9]); assert((seq!['.'] + "udemy.com"@)[0] == '.'); assert("app.pluralsight.com"@[9] != '.'); }
        assert(!crate::catalog::domain_matches("app.pluralsight.com"@, "udemy.com"@));
        assert("app.pluralsight.com"@.len() != "www.udemy.com"@.len());
        assert(!crate::text::has_suffix("app.pluralsight.com"@, seq!['.'] + "www.udemy.com"@)) by { assert("app.pluralsight.com"@.subrange(5, 19)[0] == "app.pluralsight.com"@[5]); assert((seq!['.'] + "www.udemy.com"@)[0] == '.'); assert("app.pluralsight.com"@[5] != '.'); }
        assert(!crate::catalog::domain_matches("app.pluralsight.com"@, "www.udemy.com"@));
        assert(!matches_any_domain(host, ks[1].domains));
        assert("app.pluralsight.com"@.len() != "coursera.org"@.len());
        assert(!crate::text::has_suffix("app.pluralsight.com"@, seq!['.'] + "coursera.org"@)) by { assert("app.pluralsight.com"@.subrange(6, 19)[0] == "app.pluralsight.com"@[6]); assert((seq!['.'] + "coursera.org"@)[0] == '.'); assert("app.pluralsight.com"@[6] != '.'); }
        assert(!crate::catalog::domain_matches("app.pluralsight.com"@, "coursera.org"@));
        assert("app.pluralsight.com"@.len() != "www.coursera.org"@.len());
        assert(!crate::text::has_suffix("app.pluralsight.com"@, seq!['.'] + "www.coursera.org"@)) by { assert("app.pluralsight.com"@.subrange(2, 19)[0] == "app.pluralsight.com"@[2]); assert((seq!['.'] + "www.coursera.org"@)[0] == '.'); assert("app.pluralsight.com"@[2] != '.'); }
        assert(!crate::catalog::domain_matches("app.pluralsight.com"@, "www.coursera.org"@));
        assert(!matches_any_domain(host, ks[2].domains));
        assert("app.pluralsight.com"@.len() != "skillshare.com"@.len());
        assert(!crate::text::has_suffix("app.pluralsight.com"@, seq!['.'] + "skillshare.com"@)) by { assert("app.pluralsight.com"@.subrange(4, 19)[0] == "app.pluralsight.com"@[4]); assert((seq!['.'] + "skillshare.com"@)[0] == '.'); assert("app.pluralsight.com"@[4] != '.'); }
        assert(!crate::catalog::domain_matches("app.pluralsight.com"@, "skillshare.com"@));
        assert("app.pluralsight.com"@.len() != "www.skillshare.com"@.len());
        assert(!crate::text::has_suffix("app.pluralsight.com"@, seq!['.'] + "www.skillshare.com"@)) by { assert("app.pluralsight.com"@.subrange(0, 19)[0] == "app.pluralsight.com"@[0]); assert((seq!['.'] + "www.skillshare.com"@)[0] == '.'); assert("app.pluralsight.com"@[0] != '.'); }
        assert(!crate::catalog::domain_matches("app.pluralsight.com"@, "www.skillshare.com"@));
        assert(!matches_any_domain(host, ks[3].domains));
        assert("app.pluralsight.com"@.len() != "linkedin.com"@.len());
        assert(!crate::text::has_suffix("app.pluralsight.com"@, seq!['.'] + "linkedin.com"@)) by { assert("app.pluralsight.com"@.subrange(6, 19)[0] == "app.pluralsight.com"@[6]); assert((seq!['.'] + "linkedin.com"@)[0] == '.'); assert("app.pluralsight.com"@[6] != '.'); }
        assert(!crate::catalog::domain_matches("app.pluralsight.com"@, "linkedin.com"@));
        assert("app.pluralsight.com"@.len() != "www.linkedin.com"@.len());
        assert(!crate::text::has_suffix("app.pluralsight.com"@, seq!['.'] + "www.linkedin.com"@)) by { assert("app.pluralsight.com"@.subrange(2, 19)[0] == "app.pluralsight.com"@[2]); assert((seq!['.'] + "www.linkedin.com"@)[0] == '.'); assert("app.pluralsight.com"@[2] != '.'); }
        assert(!crate::catalog::domain_matches("app.pluralsight.com"@, "www.linkedin.com"@));
        assert(!matches_any_domain(host, ks[4].domains));
        assert forall|k: int| 0 <= k < i implies !matches_any_domain(host, #[trigger] ks[k].domains) by {}
    } else if i == 6 && j == 0 {
        assert(host == "teachable.com"@);
        assert("teachable.com"@.len() != "academy.zerotomastery.io"@.len());
        assert("teachable.com"@.len() < "academy.zerotomastery.io"@.len() + 1);
        assert(!crate::catalog::domain_matches("teachable.com"@, "academy.zerotomastery.io"@));
        assert(!matches_any_domain(host, ks[0].domains));
        assert("teachable.com"@.len() != "udemy.com"@.len());
        assert(!crate::text::has_suffix("teachable.com"@, seq!['.'] + "udemy.com"@)) by { assert("teachable.com"@.subrange(3, 13)[0] == "teachable.com"@[3]); assert((seq!['.'] + "udemy.com"@)[0] == '.'); assert("teachable.com"@[3] != '.'); }
        assert(!crate::catalog::domain_matches("teachable.com"@, "udemy.com"@));
        assert("teachable.com"@[0] != "www.udemy.com"@[0]);
        assert("teachable.com"@.len() < "www.udemy.com"@.len() + 1);
        assert(!crate::catalog::domain_matches("teachable.com"@, "www.udemy.com"@));
        assert(!matches_any_domain(host, ks[1].domains));
        assert("teachable.com"@.len() != "coursera.org"@.len());
        assert(!crate::text::has_suffix("teachable.com"@, seq!['.'] + "coursera.org"@)) by { assert("teachable.com"@.subrange(0, 13)[0] == "teachable.com"@[0]); assert((seq!['.'] + "coursera.org"@)[0] == '.'); assert("teachable.com"@[0] != '.'); }
        assert(!crate::catalog::domain_matches("teachable.com"@, "coursera.org"@));
        assert("teachable.com"@.len() != "www.coursera.org"@.len());
        assert("teachable.com"@.len() < "www.coursera.org"@.len() + 1);
        assert(!crate::catalog::domain_matches("teachable.com"@, "www.coursera.org"@));
        assert(!matches_any_domain(host, ks[2].domains));
        assert("teachable.com"@.len() != "skillshare.com"@.len());
        assert("teachable.com"@.len() < "skillshare.com"@.len() + 1);
        assert(!crate::catalog::domain_matches("teachable.com"@, "skillshare.com"@));
        assert("teachable.com"@.len() != "www.skillshare.com"@.len());
        assert("teachable.com"@.len() < "www.skillshare.com"@.len() + 1);
        assert(!crate::catalog::domain_matches("teachable.com"@, "www.skillshare.com"@));
        assert(!matches_any_domain(host, ks[3].domains));
        assert("teachable.com"@.len() != "linkedin.com"@.len());
        assert(!crate::text::has_suffix("teachable.com"@, seq!['.'] + "linkedin.com"@)) by { assert("teachable.com"@.subrange(0, 13)[0] == "teachable.com"@[0]); assert((seq!['.'] + "linkedin.com"@)[0] == '.'); assert("teachable.com"@[0] != '.'); }
        assert(!crate::catalog::domain_matches("teachable.com"@, "linkedin.com"@));
        assert("teachable.com"@.len() != "www.linkedin.com"@.len());
        assert("teachable.com"@.len() < "www.linkedin.com"@.len() + 1);
        assert(!crate::catalog::domain_matches("teachable.com"@, "www.linkedin.com"@));
        assert(!matches_any_domain(host, ks[4].domains));
        assert("teachable.com"@.len() != "pluralsight.com"@.len());
        assert("teachable.com"@.len() < "pluralsight.com"@.len() + 1);
        assert(!crate::catalog::domain_matches("teachable.com"@, "pluralsight.com"@));
        assert("teachable.com"@.len() != "www.pluralsight.com"@.len());
        assert("teachable.com"@.len() < "www.pluralsight.com"@.len() + 1);
        assert(!crate::catalog::domain_matches("teachable.com"@, "www.pluralsight.com"@));
        assert("teachable.com"@.len() != "app.pluralsight.com"@.len());
        assert("teachable.com"@.len() < "app.pluralsight.com"@.len() + 1);
        assert(!crate::catalog::domain_matches("teachable.com"@, "app.pluralsight.com"@));
        assert(!matches_any_domain(host, ks[5].domains));
        assert forall|k: int| 0 <= k < i implies !matches_any_domain(host, #[trigger] ks[k].domains) by {}
    } else if i == 7 && j == 0 {
        assert(host == "thinkific.com"@);
        assert("thinkific.com"@.len() != "academy.zerotomastery.io"@.len());
        assert("thinkific.com"@.len() < "academy.zerotomastery.io"@.len() + 1);
        assert(!crate::catalog::domain_matches("thinkific.com"@, "academy.zerotomastery.io"@));
        assert(!matches_any_domain(host, ks[0].domains));
        assert("thinkific.com"@.len() != "udemy.com"@.len());
        assert(!crate::text::has_suffix("thinkific.com"@, seq!['.'] + "udemy.com"@)) by { assert("thinkific.com"@.subrange(3, 13)[0] == "thinkific.com"@[3]); assert((seq!['.'] + "udemy.com"@)[0] == '.'); assert("thinkific.com"@[3] != '.'); }
        assert(!crate::catalog::domain_matches("thinkific.com"@, "udemy.com"@));
        assert("thinkific.com"@[0] != "www.udemy.com"@[0]);
        assert("thinkific.com"@.len() < "www.udemy.com"@.len() + 1);
        assert(!crate::catalog::domain_matches("thinkific.com"@, "www.udemy.com"@));
        assert(!matches_any_domain(host, ks[1].domains));
        assert("thinkific.com"@.len() != "coursera.org"@.len());
        assert(!crate::text::has_suffix("thinkific.com"@, seq!['.'] + "coursera.org"@)) by { assert("thinkific.com"@.subrange(0, 13)[0] == "thinkific.com"@[0]); assert((seq!['.'] + "coursera.org"@)[0] == '.'); assert("thinkific.com"@[0] != '.'); }
        assert(!crate::catalog::domain_matches("thinkific.com"@, "coursera.org"@));
        assert("thinkific.com"@.len() != "www.coursera.org"@.len());
        assert("thinkific.com"@.len() < "www.coursera.org"@.len() + 1);
        assert(!crate::catalog::domain_matches("thinkific.com"@, "www.coursera.org"@));
        assert(!matches_any_domain(host, ks[2].domains));
        assert("thinkific.com"@.len() != "skillshare.com"@.len());
        assert("thinkific.com"@.len() < "skillshare.com"@.len() + 1);
        assert(!crate::catalog::domain_matches("thinkific.com"@, "skillshare.com"@));
        assert("thinkific.com"@.len() != "www.skillshare.com"@.len());
        assert("thinkific.com"@.len() < "www.skillshare.com"@.len() + 1);
        assert(!crate::catalog::domain_matches("thinkific.com"@, "www.skillshare.com"@));
        assert(!matches_any_domain(host, ks[3].domains));
        assert("thinkific.com"@.len() != "linkedin.com"@.len());
        assert(!crate::text::has_suffix("thinkific.com"@, seq!['.'] + "linkedin.com"@)) by { assert("thinkific.com"@.subrange(0, 13)[0] == "thinkific.com"@[0]); assert((seq!['.'] + "linkedin.com"@)[0] == '.'); assert("thinkific.com"@[0] != '.'); }
        assert(!crate::catalog::domain_matches("thinkific.com"@, "linkedin.com"@));
        assert("thinkific.com"@.len() != "www.linkedin.com"@.len());
        assert("thinkific.com"@.len() < "www.linkedin.com"@.len() + 1);
        assert(!crate::catalog::domain_matches("thinkific.com"@, "www.linkedin.com"@));
        assert(!matches_any_domain(host, ks[4].domains));
        assert("thinkific.com"@.len() != "pluralsight.com"@.len());
        assert("thinkific.com"@.len() < "pluralsight.com"@.len() + 1);
        assert(!crate::catalog::domain_matches("thinkific.com"@, "pluralsight.com"@));
        assert("thinkific.com"@.len() != "www.pluralsight.com"@.len());
        assert("thinkific.com"@.len() < "www.pluralsight.com"@.len() + 1);
        assert(!crate::catalog::domain_matches("thinkific.com"@, "www.pluralsight.com"@));
        assert("thinkific.com"@.len() != "app.pluralsight.com"@.len());
        assert("thinkific.com"@.len() < "app.pluralsight.com"@.len() + 1);
        assert(!crate::catalog::domain_matches("thinkific.com"@, "app.pluralsight.com"@));
        assert(!matches_any_domain(host, ks[5].domains));
        assert("thinkific.com"@[1] != "teachable.com"@[1]);
        assert("thinkific.com"@.len() < "teachable.com"@.len() + 1);
        assert(!crate::catalog::domain_matches("thinkific.com"@, "teachable.com"@));
        assert(!matches_any_domain(host, ks[6].domains));
        assert forall|k: int| 0 <= k < i implies !matches_any_domain(host, #[trigger] ks[k].domains) by {}
    } else if i == 8 && j == 0 {
        assert(host == "kajabi.com"@);
        assert("kajabi.com"@.len() != "academy.zerotomastery.io"@.len());
        assert("kajabi.com"@.len() < "academy.zerotomastery.io"@.len() + 1);
        assert(!crate::catalog::domain_matches("kajabi.com"@, "academy.zerotomastery.io"@));
        assert(!matches_any_domain(host, ks[0].domains));
        assert("kajabi.com"@.len() != "udemy.com"@.len());
        assert(!crate::text::has_suffix("kajabi.com"@, seq!['.'] + "udemy.com"@)) by { assert("kajabi.com"@.subrange(0, 10)[0] == "kajabi.com"@[0]); assert((seq!['.'] + "udemy.com"@)[0] == '.'); assert("kajabi.com"@[0] != '.'); }
        assert(!crate::catalog::domain_matches("kajabi.com"@, "udemy.com"@));
        assert("kajabi.com"@.len() != "www.udemy.com"@.len());
        assert("kajabi.com"@.len() < "www.udemy.com"@.len() + 1);
        assert(!crate::catalog::domain_matches("kajabi.com"@, "www.udemy.com"@));
        assert(!matches_any_domain(host, ks[1].domains));
        assert("kajabi.com"@.len() != "coursera.org"@.len());
        assert("kajabi.com"@.len() < "coursera.org"@.len() + 1);
        assert(!crate::catalog::domain_matches("kajabi.com"@, "coursera.org"@));
        assert("kajabi.com"@.len() != "www.coursera.org"@.len());
        assert("kajabi.com"@.len() < "www.coursera.org"@.len() + 1);
        assert(!crate::catalog::domain_matches("kajabi.com"@, "www.coursera.org"@));
        assert(!matches_any_domain(host, ks[2].domains));
        assert("kajabi.com"@.len() != "skillshare.com"@.len());
        assert("kajabi.com"@.len() < "skillshare.com"@.len() + 1);
        assert(!crate::catalog::domain_matches("kajabi.com"@, "skillshare.com"@));
        assert("kajabi.com"@.len() != "www.skillshare.com"@.len());
        assert("kajabi.com"@.len() < "www.skillshare.com"@.len() + 1);
        assert(!crate::catalog::domain_matches("kajabi.com"@, "www.skillshare.com"@));
        assert(!matches_any_domain(host, ks[3].domains));
        assert("kajabi.com"@.len() != "linkedin.com"@.len());
        assert("kajabi.com"@.len() < "linkedin.com"@.len() + 1);
        assert(!crate::catalog::domain_matches("kajabi.com"@, "linkedin.com"@));
        assert("kajabi.com"@.len() != "www.linkedin.com"@.len());
        assert("kajabi.com"@.len() < "www.linkedin.com"@.len() + 1);
        assert(!crate::catalog::domain_matches("kajabi.com"@, "www.linkedin.com"@));
        assert(!matches_any_domain(host, ks[4].domains));
        assert("kajabi.com"@.len() != "pluralsight.com"@.len());
        assert("kajabi.com"@.len() < "pluralsight.com"@.len() + 1);
        assert(!crate::catalog::domain_matches("kajabi.com"@, "pluralsight.com"@));
        assert("kajabi.com"@.len() != "www.pluralsight.com"@.len());
        assert("kajabi.com"@.len() < "www.pluralsight.com"@.len() + 1);
        assert(!crate::catalog::domain_matches("kajabi.com"@, "www.pluralsight.com"@));
        assert("kajabi.com"@.len() != "app.pluralsight.com"@.len());
        assert("kajabi.com"@.len() < "app.pluralsight.com"@.len() + 1);
        assert(!crate::catalog::domain_matches("kajabi.com"@, "app.pluralsight.com"@));
        assert(!matches_any_domain(host, ks[5].domains));
        assert("kajabi.com"@.len() != "teachable.com"@.len());
        assert("kajabi.com"@.len() < "teachable.com"@.len() + 1);
        assert(!crate::catalog::domain_matches("kajabi.com"@, "teachable.com"@));
        assert(!matches_any_domain(host, ks[6].domains));
        assert("kajabi.com"@.len() != "thinkific.com"@.len());
        assert("kajabi.com"@.len() < "thinkific.com"@.len() + 1);
        assert(!crate::catalog::domain_matches("kajabi.com"@, "thinkific.com"@));
        assert(!matches_any_domain(host, ks[7].domains));
        assert forall|k: int| 0 <= k < i implies !matches_any_domain(host, #[trigger] ks[k].domains) by {}
    } else if i == 8 && j == 1 {
        assert(host == "mykajabi.com"@);
        assert("mykajabi.com"@.len() != "academy.zerotomastery.io"@.len());
        assert("mykajabi.com"@.len() < "academy.zerotomastery.io"@.len() + 1);
        assert(!crate::catalog::domain_matches("mykajabi.com"@, "academy.zerotomastery.io"@));
        assert(!matches_any_domain(host, ks[0].domains));
        assert("mykajabi.com"@.len() != "udemy.com"@.len());
        assert(!crate::text::has_suffix("mykajabi.com"@, seq!['.'] + "udemy.com"@)) by { assert("mykajabi.com"@.subrange(2, 12)[0] == "mykajabi.com"@[2]); assert((seq!['.'] + "udemy.com"@)[0] == '.'); assert("mykajabi.com"@[2] != '.'); }
        assert(!crate::catalog::domain_matches("mykajabi.com"@, "udemy.com"@));
        assert("mykajabi.com"@.len() != "www.udemy.com"@.len());
        assert("mykajabi.com"@.len() < "www.udemy.com"@.len() + 1);
        assert(!crate::catalog::domain_matches("mykajabi.com"@, "www.udemy.com"@));
        assert(!matches_any_domain(host, ks[1].domains));
        assert("mykajabi.com"@[0] != "coursera.org"@[0]);
        assert("mykajabi.com"@.len() < "coursera.org"@.len() + 1);
        assert(!crate::catalog::domain_matches("mykajabi.com"@, "coursera.org"@));
        assert("mykajabi.com"@.len() != "www.coursera.org"@.len());
        assert("mykajabi.com"@.len() < "www.coursera.org"@.len() + 1);
        assert(!crate::catalog::domain_matches("mykajabi.com"@, "www.coursera.org"@));
        assert(!matches_any_domain(host, ks[2].domains));
        assert("mykajabi.com"@.len() != "skillshare.com"@.len());
        assert("mykajabi.com"@.len() < "skillshare.com"@.len() + 1);
        assert(!crate::catalog::domain_matches("mykajabi.com"@, "skillshare.com"@));
        assert("mykajabi.com"@.len() != "www.skillshare.com"@.len());
        assert("mykajabi.com"@.len() < "www.skillshare.com"@.len() + 1);
        assert(!crate::catalog::domain_matches("mykajabi.com"@, "www.skillshare.com"@));
        assert(!matches_any_domain(host, ks[3].domains));
        assert("mykajabi.com"@[0] != "linkedin.com"@[0]);
        assert("mykajabi.com"@.len() < "linkedin.com"@.len() + 1);
        assert(!crate::catalog::domain_matches("mykajabi.com"@, "linkedin.com"@));
        assert("mykajabi.com"@.len() != "www.linkedin.com"@.len());
        assert("mykajabi.com"@.len() < "www.linkedin.com"@.len() + 1);
        assert(!crate::catalog::domain_matches("mykajabi.com"@, "www.linkedin.com"@));
        assert(!matches_any_domain(host, ks[4].domains));
        assert("mykajabi.com"@.len() != "pluralsight.com"@.len());
        assert("mykajabi.com"@.len() < "pluralsight.com"@.len() + 1);
        assert(!crate::catalog::domain_matches("mykajabi.com"@, "pluralsight.com"@));
        assert("mykajabi.com"@.len() != "www.pluralsight.com"@.len());
        assert("mykajabi.com"@.len() < "www.pluralsight.com"@.len() + 1);
        assert(!crate::catalog::domain_matches("mykajabi.com"@, "www.pluralsight.com"@));
        assert("mykajabi.com"@.len() != "app.pluralsight.com"@.len());
        assert("mykajabi.com"@.len() < "app.pluralsight.com"@.len() + 1);
        assert(!crate::catalog::domain_matches("mykajabi.com"@, "app.pluralsight.com"@));
        assert(!matches_any_domain(host, ks[5].domains));
        assert("mykajabi.com"@.len() != "teachable.com"@.len());
        assert("mykajabi.com"@.len() < "teachable.com"@.len() + 1);
        assert(!crate::catalog::domain_matches("mykajabi.com"@, "teachable.com"@));
        assert(!matches_any_domain(host, ks[6].domains));
        assert("mykajabi.com"@.len() != "thinkific.com"@.len());
        assert("mykajabi.com"@.len() < "thinkific.com"@.len() + 1);
        assert(!crate::catalog::domain_matches("mykajabi.com"@, "thinkific.com"@));
        assert(!matches_any_domain(host, ks[7].domains));
        assert forall|k: int| 0 <= k < i implies !matches_any_domain(host, #[trigger] ks[k].domains) by {}
    } else if i == 9 && j == 0 {
        assert(host == "rocketseat.com.br"@);
        assert("rocketseat.com.br"@.len() != "academy.zerotomastery.io"@.len());
        assert("rocketseat.com.br"@.len() < "academy.zerotomastery.io"@.len() + 1);
        assert(!crate::catalog::domain_matches("rocketseat.com.br"@, "academy.zerotomastery.io"@));
        assert(!matches_any_domain(host, ks[0].domains));
        assert("rocketseat.com.br"@.len() != "udemy.com"@.len());
        assert(!crate::text::has_suffix("rocketseat.com.br"@, seq!['.'] + "udemy.com"@)) by { assert("rocketseat.com.br"@.subrange(7, 17)[0] == "rocketseat.com.br"@[7]); assert((seq!['.'] + "udemy.com"@)[0] == '.'); assert("rocketseat.com.br"@[7] != '.'); }
        assert(!crate::catalog::domain_matches("rocketseat.com.br"@, "udemy.com"@));
        assert("rocketseat.com.br"@.len() != "www.udemy.com"@.len());
        assert(!crate::text::has_suffix("rocketseat.com.br"@, seq!['.'] + "www.udemy.com"@)) by { assert("rocketseat.com.br"@.subrange(3, 17)[0] == "rocketseat.com.br"@[3]); assert((seq!['.'] + "www.udemy.com"@)[0] == '.'); assert("rocketseat.com.br"@[3] != '.'); }
        assert(!crate::catalog::domain_matches("rocketseat.com.br"@, "www.udemy.com"@));
        assert(!matches_any_domain(host, ks[1].domains));
        assert("rocketseat.com.br"@.len() != "coursera.org"@.len());
        assert(!crate::text::has_suffix("rocketseat.com.br"@, seq!['.'] + "coursera.org"@)) by { assert("rocketseat.com.br"@.subrange(4, 17)[0] == "rocketseat.com.br"@[4]); assert((seq!['.'] + "coursera.org"@)[0] == '.'); assert("rocketseat.com.br"@[4] != '.'); }
        assert(!crate::catalog::domain_matches("rocketseat.com.br"@, "coursera.org"@));
        assert("rocketseat.com.br"@.len() != "www.coursera.org"@.len());
        assert(!crate::text::has_suffix("rocketseat.com.br"@, seq!['.'] + "www.coursera.org"@)) by { assert("rocketseat.com.br"@.subrange(0, 17)[0] == "rocketseat.com.br"@[0]); assert((seq!['.'] + "www.coursera.org"@)[0] == '.'); assert("rocketseat.com.br"@[0] != '.'); }
        assert(!crate::catalog::domain_matches("rocketseat.com.br"@, "www.coursera.org"@));
        assert(!matches_any_domain(host, ks[2].domains));
        assert("rocketseat.com.br"@.len() != "skillshare.com"@.len());
        assert(!crate::text::has_suffix("rocketseat.com.br"@, seq!['.'] + "skillshare.com"@)) by { assert("rocketseat.com.br"@.subrange(2, 17)[0] == "rocketseat.com.br"@[2]); assert((seq!['.'] + "skillshare.com"@)[0] == '.'); assert("rocketseat.com.br"@[2] != '.'); }
        assert(!crate::catalog::domain_matches("rocketseat.com.br"@, "skillshare.com"@));
        assert("rocketseat.com.br"@.len() != "www.skillshare.com"@.len());
        assert("rocketseat.com.br"@.len() < "www.skillshare.com"@.len() + 1);
        assert(!crate::catalog::domain_matches("rocketseat.com.br"@, "www.skillshare.com"@));
        assert(!matches_any_domain(host, ks[3].domains));
        assert("rocketseat.com.br"@.len() != "linkedin.com"@.len());
        assert(!crate::text::has_suffix("rocketseat.com.br"@, seq!['.'] + "linkedin.com"@)) by { assert("rocketseat.com.br"@.subrange(4, 17)[0] == "rocketseat.com.br"@[4]); assert((seq!['.'] + "linkedin.com"@)[0] == '.'); assert("rocketseat.com.br"@[4] != '.'); }
        assert(!crate::catalog::domain_matches("rocketseat.com.br"@, "linkedin.com"@));
        assert("rocketseat.com.br"@.len() != "www.linkedin.com"@.len());
        assert(!crate::text::has_suffix("rocketseat.com.br"@, seq!['.'] + "www.linkedin.com"@)) by { assert("rocketseat.com.br"@.subrange(0, 17)[0] == "rocketseat.com.br"@[0]); assert((seq!['.'] + "www.linkedin.com"@)[0] == '.'); assert("rocketseat.com.br"@[0] != '.'); }
        assert(!crate::catalog::domain_matches("rocketseat.com.br"@, "www.linkedin.com"@));
        assert(!matches_any_domain(host, ks[4].domains));
        assert("rocketseat.com.br"@.len() != "pluralsight.com"@.len());
        assert(!crate::text::has_suffix("rocketseat.com.br"@, seq!['.'] + "pluralsight.com"@)) by { assert("rocketseat.com.br"@.subrange(1, 17)[0] == "rocketseat.com.br"@[1]); assert((seq!['.'] + "pluralsight.com"@)[0] == '.'); assert("rocketseat.com.br"@[1] != '.'); }
        assert(!crate::catalog::domain_matches("rocketseat.com.br"@, "pluralsight.com"@));
        assert("rocketseat.com.br"@.len() != "www.pluralsight.com"@.len());
        assert("rocketseat.com.br"@.len() < "www.pluralsight.com"@.len() + 1);
        assert(!crate::catalog::domain_matches("rocketseat.com.br"@, "www.pluralsight.com"@));
        assert("rocketseat.com.br"@.len() != "app.pluralsight.com"@.len());
        assert("rocketseat.com.br"@.len() < "app.pluralsight.com"@.len() + 1);
        assert(!crate::catalog::domain_matches("rocketseat.com.br"@, "app.pluralsight.com"@));
        assert(!matches_any_domain(host, ks[5].domains));
        assert("rocketseat.com.br"@.len() != "teachable.com"@.len());
        assert(!crate::text::has_suffix("rocketseat.com.br"@, seq!['.'] + "teachable.com"@)) by { assert("rocketseat.com.br"@.subrange(3, 17)[0] == "rocketseat.com.br"@[3]); assert((seq!['.'] + "teachable.com"@)[0] == '.'); assert("rocketseat.com.br"@[3] != '.'); }
        assert(!crate::catalog::domain_matches("rocketseat.com.br"@, "teachable.com"@));
        assert(!matches_any_domain(host, ks[6].domains));
        assert("rocketseat.com.br"@.len() != "thinkific.com"@.len());
        assert(!crate::text::has_suffix("rocketseat.com.br"@, seq!['.'] + "thinkific.com"@)) by { assert("rocketseat.com.br"@.subrange(3, 17)[0] == "rocketseat.com.br"@[3]); assert((seq!['.'] + "thinkific.com"@)[0] == '.'); assert("rocketseat.com.br"@[3] != '.'); }
        assert(!crate::catalog::domain_matches("rocketseat.com.br"@, "thinkific.com"@));
        assert(!matches_any_domain(host, ks[7].domains));
        assert("rocketseat.com.br"@.len() != "kajabi.com"@.len());
        assert(!crate::text::has_suffix("rocketseat.com.br"@, seq!['.'] + "kajabi.com"@)) by { assert("rocketseat.com.br"@.subrange(6, 17)[0] == "rocketseat.com.br"@[6]); assert((seq!['.'] + "kajabi.com"@)[0] == '.'); assert("rocketseat.com.br"@[6] != '.'); }
        assert(!crate::catalog::domain_matches("rocketseat.com.br"@, "kajabi.com"@));
        assert("rocketseat.com.br"@.len() != "mykajabi.com"@.len());
        assert(!crate::text::has_suffix("rocketseat.com.br"@, seq!['.'] + "mykajabi.com"@)) by { assert("rocketseat.com.br"@.subrange(4, 17)[0] == "rocketseat.com.br"@[4]); assert((seq!['.'] + "mykajabi.com"@)[0] == '.'); assert("rocketseat.com.br"@[4] != '.'); }
        assert(!crate::catalog::domain_matches("rocketseat.com.br"@, "mykajabi.com"@));
        assert(!matches_any_domain(host, ks[8].domains));
        assert forall|k: int| 0 <= k < i implies !matches_any_domain(host, #[trigger] ks[k].domains) by {}
    } else if i == 9 && j == 1 {
        assert(host == "app.rocketseat.com.br"@);
        assert("app.rocketseat.com.br"@.len() != "academy.zerotomastery.io"@.len());
        assert("app.rocketseat.com.br"@.len() < "academy.zerotomastery.io"@.len() + 1);
        assert(!crate::catalog::domain_matches("app.rocketseat.com.br"@, "academy.zerotomastery.io"@));
        assert(!matches_any_domain(host, ks[0].domains));
        assert("app.rocketseat.com.br"@.len() != "udemy.com"@.len());
        assert(!crate::text::has_suffix("app.rocketseat.com.br"@, seq!['.'] + "udemy.com"@)) by { assert("app.rocketseat.com.br"@.subrange(11, 21)[0] == "app.rocketseat.com.br"@[11]); assert((seq!['.'] + "udemy.com"@)[0] == '.'); assert("app.rocketseat.com.br"@[11] != '.'); }
        assert(!crate::catalog::domain_matches("app.rocketseat.com.br"@, "udemy.com"@));
        assert("app.rocketseat.com.br"@.len() != "www.udemy.com"@.len());
        assert(!crate::text::has_suffix("app.rocketseat.com.br"@, seq!['.'] + "www.udemy.com"@)) by { assert("app.rocketseat.com.br"@.subrange(7, 21)[0] == "app.rocketseat.com.br"@[7]); assert((seq!['.'] + "www.udemy.com"@)[0] == '.'); assert("app.rocketseat.com.br"@[7] != '.'); }
        assert(!crate::catalog::domain_matches("app.rocketseat.com.br"@, "www.udemy.com"@));
        assert(!matches_any_domain(host, ks[1].domains));
        assert("app.rocketseat.com.br"@.len() != "coursera.org"@.len());
        assert(!crate::text::has_suffix("app.rocketseat.com.br"@, seq!['.'] + "coursera.org"@)) by { assert("app.rocketseat.com.br"@.subrange(8, 21)[0] == "app.rocketseat.com.br"@[8]); assert((seq!['.'] + "coursera.org"@)[0] == '.'); assert("app.rocketseat.com.br"@[8] != '.'); }
        assert(!crate::catalog::domain_matches("app.rocketseat.com.br"@, "coursera.org"@));
        assert("app.rocketseat.com.br"@.len() != "www.coursera.org"@.len());
        assert(!crate::text::has_suffix("app.rocketseat.com.br"@, seq!['.'] + "www.coursera.org"@)) by { assert("app.rocketseat.com.br"@.subrange(4, 21)[0] == "app.rocketseat.com.br"@[4]); assert((seq!['.'] + "www.coursera.org"@)[0] == '.'); assert("app.rocketseat.com.br"@[4] != '.'); }
        assert(!crate::catalog::domain_matches("app.rocketseat.com.br"@, "www.coursera.org"@));
        assert(!matches_any_domain(host, ks[2].domains));
        assert("app.rocketseat.com.br"@.len() != "skillshare.com"@.len());
        assert(!crate::text::has_suffix("app.rocketseat.com.br"@, seq!['.'] + "skillshare.com"@)) by { assert("app.rocketseat.com.br"@.subrange(6, 21)[0] == "app.rocketseat.com.br"@[6]); assert((seq!['.'] + "skillshare.com"@)[0] == '.'); assert("app.rocketseat.com.br"@[6] != '.'); }
        assert(!crate::catalog::domain_matches("app.rocketseat.com.br"@, "skillshare.com"@));
        assert("app.rocketseat.com.br"@.len() != "www.skillshare.com"@.len());
        assert(!crate::text::has_suffix("app.rocketseat.com.br"@, seq!['.'] + "www.skillshare.com"@)) by { assert("app.rocketseat.com.br"@.subrange(2, 21)[0] == "app.rocketseat.com.br"@[2]); assert((seq!['.'] + "www.skillshare.com"@)[0] == '.'); assert("app.rocketseat.com.br"@[2] != '.'); }
        assert(!crate::catalog::domain_matches("app.rocketseat.com.br"@, "www.skillshare.com"@));
        assert(!matches_any_domain(host, ks[3].domains));
        assert("app.rocketseat.com.br"@.len() != "linkedin.com"@.len());
        assert(!crate::text::has_suffix("app.rocketseat.com.br"@, seq!['.'] + "linkedin.com"@)) by { assert("app.rocketseat.com.br"@.subrange(8, 21)[0] == "app.rocketseat.com.br"@[8]); assert((seq!['.'] + "linkedin.com"@)[0] == '.'); assert("app.rocketseat.com.br"@[8] != '.'); }
        assert(!crate::catalog::domain_matches("app.rocketseat.com.br"@, "linkedin.com"@));
        assert("app.rocketseat.com.br"@.len() != "www.linkedin.com"@.len());
        assert(!crate::text::has_suffix("app.rocketseat.com.br"@, seq!['.'] + "www.linkedin.com"@)) by { assert("app.rocketseat.com.br"@.subrange(4, 21)[0] == "app.rocketseat.com.br"@[4]); assert((seq!['.'] + "www.linkedin.com"@)[0] == '.'); assert("app.rocketseat.com.br"@[4] != '.'); }
        assert(!crate::catalog::domain_matches("app.rocketseat.com.br"@, "www.linkedin.com"@));
        assert(!matches_any_domain(host, ks[4].domains));
        assert("app.rocketseat.com.br"@.len() != "pluralsight.com"@.len());
        assert(!crate::text::has_suffix("app.rocketseat.com.br"@, seq!['.'] + "pluralsight.com"@)) by { assert("app.rocketseat.com.br"@.subrange(5, 21)[0] == "app.rocketseat.com.br"@[5]); assert((seq!['.'] + "pluralsight.com"@)[0] == '.'); assert("app.rocketseat.com.br"@[5] != '.'); }
        assert(!crate::catalog::domain_matches("app.rocketseat.com.br"@, "pluralsight.com"@));
        assert("app.rocketseat.com.br"@.len() != "www.pluralsight.com"@.len());
        assert(!crate::text::has_suffix("app.rocketseat.com.br"@, seq!['.'] + "www.pluralsight.com"@)) by { assert("app.rocketseat.com.br"@.subrange(1, 21)[0] == "app.rocketseat.com.br"@[1]); assert((seq!['.'] + "www.pluralsight.com"@)[0] == '.'); assert("app.rocketseat.com.br"@[1] != '.'); }
        assert(!crate::catalog::domain_matches("app.rocketseat.com.br"@, "www.pluralsight.com"@));
        assert("app.rocketseat.com.br"@.len() != "app.pluralsight.com"@.len());
        assert(!crate::text::has_suffix("app.rocketseat.com.br"@, seq!['.'] + "app.pluralsight.com"@)) by { assert("app.rocketseat.com.br"@.subrange(1, 21)[0] == "app.rocketseat.com.br"@[1]); assert((seq!['.'] + "app.pluralsight.com"@)[0] == '.'); assert("app.rocketseat.com.br"@[1] != '.'); }
        assert(!crate::catalog::domain_matches("app.rocketseat.com.br"@, "app.pluralsight.com"@));
        assert(!matches_any_domain(host, ks[5].domains));
        assert("app.rocketseat.com.br"@.len() != "teachable.com"@.len());
        assert(!crate::text::has_suffix("app.rocketseat.com.br"@, seq!['.'] + "teachable.com"@)) by { assert("app.rocketseat.com.br"@.subrange(7, 21)[0] == "app.rocketseat.com.br"@[7]); assert((seq!['.'] + "teachable.com"@)[0] == '.'); assert("app.rocketseat.com.br"@[7] != '.'); }
        assert(!crate::catalog::domain_matches("app.rocketseat.com.br"@, "teachable.com"@));
        assert(!matches_any_domain(host, ks[6].domains));
        assert("app.rocketseat.com.br"@.len() != "thinkific.com"@.len());
        assert(!crate::text::has_suffix("app.rocketseat.com.br"@, seq!['.'] + "thinkific.com"@)) by { assert("app.rocketseat.com.br"@.subrange(7, 21)[0] == "app.rocketseat.com.br"@[7]); assert((seq!['.'] + "thinkific.com"@)[0] == '.'); assert("app.rocketseat.com.br"@[7] != '.'); }
        assert(!crate::catalog::domain_matches("app.rocketseat.com.br"@, "thinkific.com"@));
        assert(!matches_any_domain(host, ks[7].domains));
        assert("app.rocketseat.com.br"@.len() != "kajabi.com"@.len());
        assert(!crate::text::has_suffix("app.rocketseat.com.br"@, seq!['.'] + "kajabi.com"@)) by { assert("app.rocketseat.com.br"@.subrange(10, 21)[0] == "app.rocketseat.com.br"@[10]); assert((seq!['.'] + "kajabi.com"@)[0] == '.'); assert("app.rocketseat.com.br"@[10] != '.'); }
        assert(!crate::catalog::domain_matches("app.rocketseat.com.br"@, "kajabi.com"@));
        assert("app.rocketseat.com.br"@.len() != "mykajabi.com"@.len());
        assert(!crate::text::has_suffix("app.rocketseat.com.br"@, seq!['.'] + "mykajabi.com"@)) by { assert("app.rocketseat.com.br"@.subrange(8, 21)[0] == "app.rocketseat.com.br"@[8]); assert((seq!['.'] + "mykajabi.com"@)[0] == '.'); assert("app.rocketseat.com.br"@[8] != '.'); }
        assert(!crate::catalog::domain_matches("app.rocketseat.com.br"@, "mykajabi.com"@));
        assert(!matches_any_domain(host, ks[8].domains));
        assert forall|k: int| 0 <= k < i implies !matches_any_domain(host, #[trigger] ks[k].domains) by {}
    }
    lemma_first_platform_at(ks, host, i);
}

/// A URL whose lower-cased host is one of a catalogue entry's domains is
/// mapped to that entry.
pub proof fn law_url_on_catalogue_domain_is_detected(url: Seq<char>, i: int, j: int)
    requires
        0 <= i < known_platforms().len(),
        0 <= j < known_platforms()[i].domains.len(),
        url_parses(url),
        url_host(url) matches Some(h) && lowercase(h) == known_platforms()[i].domains[j],
    ensures
        detected_platform(url) == Some(known_platforms()[i]),
{
    law_catalogue_domains_are_detected(i, j);
}

/// A lecture read from the course page is a video exactly when it carries a
/// duration.
pub proof fn law_video_iff_duration(out: CourseLecture, inp: BrowserLecture, index: int)
    requires
        lecture_built_from(out, inp, index),
    ensures
        (out.lecture_type == LectureType::Video) <==> out.duration is Some,
{
}

/// A course never counts more video lectures than lectures.
pub proof fn law_videos_within_lectures(ls: Seq<BrowserLecture>)
    ensures
        video_count(ls) <= ls.len(),
    decreases ls.len(),
{
    if ls.len() > 0 {
        law_videos_within_lectures(ls.drop_last());
    }
}

/// A lecture title in which its duration text does not occur comes back
/// merely trimmed: nothing else of the title (such as a parenthesised part)
/// is removed.
pub proof fn law_title_without_its_duration_is_only_trimmed(raw: Seq<char>, d: Seq<char>)
    requires
        !contains_seq(raw, d),
    ensures
        cleaned_title(raw, Some(d)) == trim_seq(raw),
{
    reveal_strlit("(");
    reveal_strlit(")");
    let pd = "("@ + d + ")"@;
    lemma_find_from(raw, d, 0);
    lemma_find_from(raw, pd, 0);
    if d.len() == 0 {
        assert(raw.subrange(0, 0) =~= d);
        assert(occurs_at(raw, d, 0));
    }
    if find_seq(raw, pd) is Some {
        let i = find_seq(raw, pd)->0;
        assert forall|j: int| 0 <= j < d.len() implies #[trigger] raw.subrange(i + 1, i + 1 + d.len())[j] == d[j] by {
            assert(raw.subrange(i, i + pd.len())[j + 1] == pd[j + 1]);
        }
        assert(raw.subrange(i + 1, i + 1 + d.len()) =~= d);
        assert(occurs_at(raw, d, i + 1));
    }
    assert(replace_seq(raw, pd, Seq::<char>::empty()) == raw);
    assert(replace_seq(raw, d, Seq::<char>::empty()) == raw);
}

/// A video lecture whose id is anywhere in the list of wanted ids is chosen.
pub proof fn law_any_wanted_id_is_honoured(sections: Seq<CourseSection>, wanted: Seq<Seq<char>>, i: int, j: int, k: int)
    requires
        0 <= i < sections.len(),
        0 <= j < sections[i].lectures@.len(),
        sections[i].lectures@[j].lecture_type == LectureType::Video,
        0 <= k < wanted.len(),
        wanted[k] == sections[i].lectures@[j].id@,
    ensures
        course_selection(sections, wanted).contains((i, j)),
{
    assert(wanted.contains(sections[i].lectures@[j].id@));
    law_selection_is_exact(sections, wanted, i, j);
}

/// Only video lectures are chosen, and, when ids are given, only those whose
/// id is one of them.
pub proof fn law_only_wanted_videos_are_chosen(sections: Seq<CourseSection>, wanted: Seq<Seq<char>>, i: int, j: int)
    requires
        0 <= i < sections.len(),
        course_selection(sections, wanted).contains((i, j)),
    ensures
        0 <= j < sections[i].lectures@.len(),
        sections[i].lectures@[j].lecture_type == LectureType::Video,
        wanted.len() == 0 || exists|k: int| 0 <= k < wanted.len() && wanted[k] == sections[i].lectures@[j].id@,
{
    law_selection_is_exact(sections, wanted, i, j);
}

/// A URL on a host outside the catalogue whose lower-cased path holds
/// `/courses/`, `/course/`, `/learn/` or `/curriculum/` anywhere is an
/// unsupported course platform named after its lower-cased host.
pub proof fn law_course_path_anywhere_names_the_host(url: Seq<char>, before: Seq<char>, marker: Seq<char>, after: Seq<char>)
    requires
        url_parses(url),
        url_host(url) is Some,
        first_platform_for(known_platforms(), lowercase(url_host(url)->0)) is None,
        marker == "/courses/"@ || marker == "/course/"@ || marker == "/learn/"@ || marker == "/curriculum/"@,
        lowercase(url_path(url)) == before + marker + after,
    ensures
        ({
            let host = lowercase(url_host(url)->0);
            detected_platform(url) == Some((PlatformView {
                name: host,
                platform_id: UNKNOWN_COURSE_ID@,
                domains: seq![host],
                support_status: StatusView::Unsupported { yt_dlp_extractor: None },
                notes: UNKNOWN_COURSE_NOTES@,
                login_url: None,
            }))
        }),
{
    let p = lowercase(url_path(url));
    assert(p.subrange(before.len() as int, (before.len() + marker.len()) as int) =~= marker);
    assert(occurs_at(p, marker, before.len() as int));
    lemma_find_from(p, marker, 0);
    assert(contains_seq(p, marker));
    assert(looks_like_course_path(p));
}

/// Replacing in a text whose first part holds no start of the pattern
/// leaves that part as it is.
proof fn lemma_replace_skips_clear_prefix(a: Seq<char>, b: Seq<char>, p: Seq<char>, r: Seq<char>)
    requires
        p.len() > 0,
        forall|k: int| 0 <= k < a.len() ==> !occurs_at(a + b, p, k),
    ensures
        replace_seq(a + b, p, r) == a + replace_seq(b, p, r),
{
    let s = a + b;
    lemma_find_from(s, p, 0);
    lemma_find_from(b, p, 0);
    assert forall|m: int| 0 <= m && occurs_at(b, p, m) implies occurs_at(s, p, a.len() + m) by {
        assert(s.subrange(a.len() + m, a.len() + m + p.len()) =~= b.subrange(m, m + p.len()));
    }
    match find_seq(s, p) {
        None => {
            if find_seq(b, p) is Some {
                let j = find_seq(b, p)->0;
                assert(occurs_at(s, p, a.len() + j));
            }
            assert(replace_seq(s, p, r) == s);
            assert(replace_seq(b, p, r) == b);
        },
        Some(i) => {
            assert(i >= a.len());
            let j = i - a.len();
            assert(b.subrange(j, j + p.len()) =~= s.subrange(i, i + p.len()));
            assert(occurs_at(b, p, j));
            assert forall|m: int| 0 <= m < j implies !occurs_at(b, p, m) by {
                if occurs_at(b, p, m) {
                    assert(occurs_at(s, p, a.len() + m));
                }
            }
            assert(find_seq(b, p) == Some(j));
            let x = replace_seq(s.subrange(i + p.len(), s.len() as int), p, r);
            assert(s.subrange(i + p.len(), s.len() as int) =~= b.subrange(j + p.len(), b.len() as int));
            assert(replace_seq(s, p, r) == s.subrange(0, i) + r + x);
            assert(replace_seq(b, p, r) == b.subrange(0, j) + r + x);
            assert(s.subrange(0, i) + r + x =~= a + (b.subrange(0, j) + r + x));
        },
    }
}

/// Every `&amp;` the bridge prints is read as `&`, not only the first: an
/// output read with one `&amp;` written out as `&` gives the same stream.
pub proof fn law_every_escaped_ampersand_is_decoded(x: Seq<char>, y: Seq<char>)
    requires
        x.len() > 0,
        !is_white_space(x[0]),
        forall|k: int| 0 <= k < x.len() ==> x[k] != '&',
        y.len() > 0,
        !is_white_space(y.last()),
        !has_prefix(y, "amp;"@),
    ensures
        stream_from_output(x + "&amp;"@ + y) == stream_from_output(x + "&"@ + y),
{
    reveal_strlit("&amp;");
    reveal_strlit("&");
    reveal_strlit("amp;");
    let e = "&amp;"@;
    let amp = "&"@;
    let s1 = x + e + y;
    let s2 = x + amp + y;
    assert(s1[0] == x[0]);
    assert(s2[0] == x[0]);
    assert(s1.last() == y.last());
    assert(s2.last() == y.last());
    assert(trim_start_seq(s1) == s1);
    assert(trim_end_seq(s1) == s1);
    assert(trim_start_seq(s2) == s2);
    assert(trim_end_seq(s2) == s2);
    assert(trim_seq(s1) == s1);
    assert(trim_seq(s2) == s2);

    // the first text
    assert(s1 =~= x + (e + y));
    assert forall|k: int| 0 <= k < x.len() implies !occurs_at(x + (e + y), e, k) by {
        if occurs_at(x + (e + y), e, k) {
            assert((x + (e + y)).subrange(k, k + e.len())[0] == e[0]);
        }
    }
    lemma_replace_skips_clear_prefix(x, e + y, e, amp);
    let ey = e + y;
    assert(occurs_at(ey, e, 0)) by {
        assert(ey.subrange(0, e.len() as int) =~= e);
    }
    lemma_find_from(ey, e, 0);
    assert(find_seq(ey, e) == Some(0int));
    assert(ey.subrange(0, 0) =~= Seq::<char>::empty());
    assert(ey.subrange(e.len() as int, ey.len() as int) =~= y);
    assert(replace_seq(ey, e, amp) =~= amp + replace_seq(y, e, amp));

    // the second text
    let xa = x + amp;
    assert(s2 =~= xa + y);
    assert forall|k: int| 0 <= k < xa.len() implies !occurs_at(xa + y, e, k) by {
        if occurs_at(xa + y, e, k) {
            let t = (xa + y).subrange(k, k + e.len());
            assert(t[0] == e[0]);
            if k == x.len() {
                assert(y.subrange(0, 4) =~= "amp;"@) by {
                    assert forall|q: int| 0 <= q < 4 implies y.subrange(0, 4)[q] == "amp;"@[q] by {
                        assert(t[q + 1] == e[q + 1]);
                    }
                }
            }
        }
    }
    lemma_replace_skips_clear_prefix(xa, y, e, amp);
    assert(x + (amp + replace_seq(y, e, amp)) =~= xa + replace_seq(y, e, amp));
}

/// Every height among the formats carrying video (codec present and not
/// `none`, height not zero) is kept by some format.
proof fn lemma_kept_has_height(fs: Seq<FormatEntry>, k: int)
    requires
        0 <= k < fs.len(),
        format_has_video(fs[k]),
    ensures
        exists|m: int| 0 <= m < kept_formats(fs).len() && format_height(#[trigger] kept_formats(fs)[m]) == format_height(fs[k]),
    decreases fs.len(),
{
    let prev = kept_formats(fs.drop_last());
    let all = kept_formats(fs);
    assert(all.len() >= prev.len());
    assert(forall|m: int| 0 <= m < prev.len() ==> all[m] == prev[m]);
    if k < fs.len() - 1 {
        assert(fs.drop_last()[k] == fs[k]);
        lemma_kept_has_height(fs.drop_last(), k);
        let m = choose|m: int| 0 <= m < prev.len() && format_height(#[trigger] prev[m]) == format_height(fs[k]);
        assert(all[m] == prev[m]);
    } else {
        if exists|m: int| 0 <= m < prev.len() && format_height(#[trigger] prev[m]) == format_height(fs[k]) {
            let m = choose|m: int| 0 <= m < prev.len() && format_height(#[trigger] prev[m]) == format_height(fs[k]);
            assert(all[m] == prev[m]);
        } else {
            assert(all[prev.len() as int] == fs.last());
        }
    }
}

/// Every format carrying video (codec present and not `none`, height not
/// zero) has its height offered, labelled `{height}p`, whatever the height.
pub proof fn law_every_video_height_is_offered(fs: Seq<FormatEntry>, k: int, qs: Seq<VideoQuality>, url: Seq<char>)
    requires
        0 <= k < fs.len(),
        fs[k].vcodec is Some,
        fs[k].vcodec->0@ != "none"@,
        fs[k].height is Some,
        fs[k].height->0 as u32 != 0,
        offers_exactly(qs, kept_formats(fs), url),
    ensures
        exists|m: int| 0 <= m < qs.len() && qs[m].height == fs[k].height->0 as u32
            && qs[m].label@ == decimal((fs[k].height->0 as u32) as nat) + "p"@,
{
    assert(format_has_video(fs[k]));
    lemma_kept_has_height(fs, k);
    let kept = kept_formats(fs);
    let m = choose|m: int| 0 <= m < kept.len() && format_height(#[trigger] kept[m]) == format_height(fs[k]);
    let q = choose|q: int| 0 <= q < qs.len() && crate::media::quality_for(qs[q], #[trigger] kept[m], url);
    assert(qs[q].height == fs[k].height->0 as u32);
}

} // verus!
