use omniget::models::{HotmartStream, LectureType};
use omniget::ztm::{
    clean_lecture_title, course_id_from_url, course_info_from_browser_data, lecture_id_from_url,
    lecture_media_from_stream, normalize_to_course_url, title_from_slug, BrowserCourseData,
    BrowserLecture, BrowserSection, ZtmDownloader,
};

#[test]
fn downloader_handles_only_the_academy_host() {
    let d = ZtmDownloader::new();
    assert!(d.can_handle("https://academy.zerotomastery.io/courses/x"));
    assert!(!d.can_handle("https://zerotomastery.io/courses/x"));
    assert!(!d.can_handle("garbage"));
    assert_eq!(d.name(), "zerotomastery");
    assert_eq!(d.course_platform_name(), "Zero To Mastery Academy");
    assert_eq!(d.login_url(), Some("https://academy.zerotomastery.io/sign_in"));
    assert!(d.requires_browser_auth());
    assert!(d.is_course_url("https://academy.zerotomastery.io/courses/x"));
    assert!(!d.is_course_url("https://academy.zerotomastery.io/courses/x/lectures/9"));
    let _ = ZtmDownloader::default();
}

#[test]
fn lecture_urls_normalize_to_their_course() {
    assert_eq!(
        normalize_to_course_url("https://academy.zerotomastery.io/courses/rust-basics/lectures/123456"),
        "https://academy.zerotomastery.io/courses/rust-basics"
    );
    assert_eq!(
        normalize_to_course_url("https://academy.zerotomastery.io/courses/rust-basics"),
        "https://academy.zerotomastery.io/courses/rust-basics"
    );
    assert_eq!(normalize_to_course_url("not a url /lectures/1"), "not a url /lectures/1");
}

#[test]
fn lecture_ids_come_after_lectures() {
    assert_eq!(lecture_id_from_url("https://a.io/courses/c/lectures/555"), "555");
    assert_eq!(lecture_id_from_url("https://a.io/courses/c"), "unknown");
    assert_eq!(lecture_id_from_url("https://a.io/lectures/1/lectures/2"), "1");
}

#[test]
fn lecture_media_uses_stream_and_player_referer() {
    let m = lecture_media_from_stream(
        "https://academy.zerotomastery.io/courses/c/lectures/77",
        HotmartStream { hls_url: "https://vod/master.m3u8".to_string(), cookie_header: Some("a=b".to_string()) },
    );
    assert_eq!(m.lecture_id, "77");
    assert_eq!(m.title, "Lecture");
    assert_eq!(m.video_url, "https://vod/master.m3u8");
    assert_eq!(m.referer.as_deref(), Some("https://player.hotmart.com/"));
    assert_eq!(m.cookie_header.as_deref(), Some("a=b"));
}

#[test]
fn lecture_titles_lose_their_duration() {
    assert_eq!(clean_lecture_title("  Welcome (5:43) ", Some("5:43")), "Welcome");
    assert_eq!(clean_lecture_title("Welcome 5:43", Some("5:43")), "Welcome");
    assert_eq!(clean_lecture_title("  Reading  ", None), "Reading");
    assert_eq!(clean_lecture_title("Intro", Some("")), "Intro");
}

#[test]
fn slugs_become_titles() {
    assert_eq!(title_from_slug("machine-learning-with-hugging-face"), "Machine Learning With Hugging Face");
    assert_eq!(title_from_slug("--a--b-"), "A B");
    assert_eq!(title_from_slug(""), "");
}

#[test]
fn course_ids_are_the_second_path_segment() {
    assert_eq!(course_id_from_url("https://academy.zerotomastery.io/courses/rust-basics"), "rust-basics");
    assert_eq!(course_id_from_url("https://academy.zerotomastery.io/courses"), "unknown");
    assert_eq!(course_id_from_url("nope"), "unknown");
}

fn lecture(id: &str, title: &str, duration: Option<&str>) -> BrowserLecture {
    BrowserLecture {
        id: id.to_string(),
        lec_title: title.to_string(),
        url: format!("https://academy.zerotomastery.io/courses/c/lectures/{}", id),
        duration: duration.map(|d| d.to_string()),
    }
}

#[test]
fn browser_data_becomes_course_info() {
    let data = BrowserCourseData {
        course_title: String::new(),
        sections: vec![
            BrowserSection {
                sec_title: "Introduction".to_string(),
                lectures: vec![lecture("1", "Welcome (5:43)", Some("5:43")), lecture("2", "Notes", None)],
            },
            BrowserSection { sec_title: "Empty".to_string(), lectures: vec![] },
            BrowserSection {
                sec_title: "Setup".to_string(),
                lectures: vec![lecture("3", "Install 1:05:12", Some("1:05:12")), lecture("4", "Quiz", Some("oops"))],
            },
        ],
    };
    let info = course_info_from_browser_data(&data, "https://academy.zerotomastery.io/courses/rust-for-all");
    assert_eq!(info.id, "rust-for-all");
    assert_eq!(info.title, "Rust For All");
    assert_eq!(info.author, "Zero To Mastery");
    assert_eq!(info.platform, "zerotomastery");
    assert_eq!(info.total_lectures, 4);
    assert_eq!(info.total_video_lectures, 2);
    assert_eq!(info.sections.len(), 3);
    assert_eq!(info.sections[1].id, "section_1");
    assert_eq!(info.sections[1].lectures.len(), 0);
    let s2 = &info.sections[2];
    assert_eq!(s2.id, "section_2");
    assert_eq!(s2.index, 2);
    assert_eq!(s2.lectures[0].index, 2);
    assert_eq!(s2.lectures[0].title, "Install");
    assert_eq!(s2.lectures[0].lecture_type, LectureType::Video);
    assert_eq!(s2.lectures[0].duration.as_deref(), Some("1:05:12"));
    assert_eq!(s2.lectures[1].lecture_type, LectureType::Text);
    assert_eq!(s2.lectures[1].duration, None);
    let s0 = &info.sections[0];
    assert_eq!(s0.lectures[0].title, "Welcome");
    assert_eq!(s0.lectures[1].lecture_type, LectureType::Text);
    assert!(!s0.lectures[0].is_free_preview);

    let titled = BrowserCourseData { course_title: "Shown Title".to_string(), sections: vec![] };
    assert_eq!(course_info_from_browser_data(&titled, "x").title, "Shown Title");
}
