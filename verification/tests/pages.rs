use omniget::hotmart::{check_status, credentials_api_url, hotmart_embed_url, session_cookie_pair, url_origin, StatusCheck};
use omniget::html::{
    find_attachment_id, find_vimeo_url, lecture_title_from_html, parse_course_from_html, strip_html_tags,
    CoursePageError, PageError,
};
use omniget::models::{HotmartCredentials, LectureType};

#[test]
fn attachment_ids_are_found_by_the_first_matching_pattern() {
    assert_eq!(find_attachment_id("var x = {\"attachment_id\": \"12345\"}", "L").ok().unwrap(), "12345");
    assert_eq!(find_attachment_id("fetch('/api/v2/hotmart/private_video?attachment_id=987')", "L").ok().unwrap(), "987");
    assert_eq!(find_attachment_id("metadata stuff attachment_id ... 1234567", "L").ok().unwrap(), "1234567");
    let e = find_attachment_id("<html></html>", "https://l").err().unwrap();
    assert_eq!(e, PageError::NoAttachmentId { lecture_url: "https://l".to_string() });
    assert_eq!(e.message(), "Could not find attachment_id on lecture page: https://l");
}

#[test]
fn player_urls_are_found_on_embed_pages() {
    assert_eq!(
        find_vimeo_url("<iframe src=\"https://player.vimeo.com/video/123?h=abc\"></iframe>").ok().unwrap(),
        "https://player.vimeo.com/video/123?h=abc"
    );
    assert_eq!(
        find_vimeo_url("{\"url\": \"https://player.vimeo.com/video/9\"}").ok().unwrap(),
        "https://player.vimeo.com/video/9"
    );
    assert_eq!(find_vimeo_url("nothing").err().unwrap(), PageError::NoVimeoUrl);
}

#[test]
fn lecture_titles_come_from_the_title_tag() {
    assert_eq!(lecture_title_from_html("<title> Ownership | ZTM Academy </title>").ok().unwrap(), "Ownership");
    assert_eq!(lecture_title_from_html("<p>none</p>").ok().unwrap(), "Lecture");
}

#[test]
fn tags_are_stripped() {
    assert_eq!(strip_html_tags("<b>Bold</b> and <i>it</i>").ok().unwrap(), "Bold and it");
}

#[test]
fn course_pages_need_a_valid_url_and_patterns() {
    assert_eq!(parse_course_from_html("<title>X</title>", "not a url").err().unwrap(), CoursePageError::BadCourseUrl);
    let empty = parse_course_from_html("<title>X | Zero To</title>", "https://academy.zerotomastery.io/courses/c").ok().unwrap();
    assert_eq!(empty.title, "X");
    assert_eq!(empty.sections.len(), 0);
    assert_eq!(empty.total_lectures, 0);
}

#[test]
fn course_pages_are_read_section_by_section() {
    let html = r#"<div class="course-section"><span class="section-title">A</span><a href="/courses/c/lectures/1"><span class="lecture-name">W (1:30)</span><div class="course-section"><span class="section-title">B</span><a href="/courses/c/lectures/2"><span class="lecture-name">X (2:00)</span>"#;
    let ci = parse_course_from_html(html, "https://z.io/courses/c").ok().unwrap();
    assert_eq!(ci.id, "c");
    assert_eq!(ci.title, "Course");
    assert_eq!(ci.author, "Zero To Mastery");
    assert_eq!(ci.platform, "zerotomastery");
    assert_eq!(ci.course_url, "https://z.io/courses/c");
    assert_eq!(ci.total_lectures, 2);
    assert_eq!(ci.total_video_lectures, 2);
    assert_eq!(ci.sections.len(), 2);
    let a = &ci.sections[0];
    assert_eq!((a.id.as_str(), a.title.as_str(), a.index), ("section_0", "A", 0));
    assert_eq!(a.lectures.len(), 1);
    let w = &a.lectures[0];
    assert_eq!((w.id.as_str(), w.title.as_str(), w.url.as_str(), w.index), ("1", "W", "https://z.io/courses/c/lectures/1", 0));
    assert_eq!(w.duration.as_deref(), Some("1:30"));
    assert_eq!(w.lecture_type, LectureType::Video);
    let b = &ci.sections[1];
    assert_eq!((b.id.as_str(), b.title.as_str(), b.index), ("section_1", "B", 1));
    assert_eq!(b.lectures.len(), 1);
    let x = &b.lectures[0];
    assert_eq!((x.id.as_str(), x.title.as_str(), x.url.as_str(), x.index), ("2", "X", "https://z.io/courses/c/lectures/2", 1));
    assert_eq!(x.duration.as_deref(), Some("2:00"));
    assert_eq!(x.lecture_type, LectureType::Video);
}

#[test]
fn api_and_player_addresses() {
    assert_eq!(
        credentials_api_url("https://academy.zerotomastery.io", "42"),
        "https://academy.zerotomastery.io/api/v2/hotmart/private_video?attachment_id=42"
    );
    let c = HotmartCredentials {
        video_id: "V".to_string(),
        signature: "S".to_string(),
        teachable_application_key: "T".to_string(),
        user_email: None,
    };
    assert_eq!(hotmart_embed_url(&c), "https://player.hotmart.com/embed/V?signature=S&token=T&user=");
    assert_eq!(url_origin("https://academy.zerotomastery.io/courses/x?y=1").as_deref(), Some("https://academy.zerotomastery.io"));
    assert_eq!(url_origin("bad"), None);
    assert_eq!(session_cookie_pair("abc"), "_teachable_session=abc");
}

#[test]
fn statuses_are_judged() {
    assert_eq!(check_status(401), StatusCheck::NotAuthenticated);
    assert_eq!(check_status(403), StatusCheck::NotAuthenticated);
    assert_eq!(check_status(200), StatusCheck::Success);
    assert_eq!(check_status(299), StatusCheck::Success);
    assert_eq!(check_status(404), StatusCheck::Failed);
    assert_eq!(check_status(500), StatusCheck::Failed);
}
