use omniget::download::{
    course_dir_name, lecture_file_name, lecture_file_stem, plan_course_download, queue_step, section_dir_name, video_file_name,
    LectureStatus, PlanError, QueueEvent,
};
use omniget::media::{
    classify_ffmpeg_line, effective_output_name, ffmpeg_headers, qualities_from_formats, select_quality,
    should_reresolve_stream, FfmpegLine, FormatEntry,
};
use omniget::models::{CourseInfo, CourseLecture, CourseSection, LectureType, VideoQuality};

fn lec(id: &str, t: LectureType) -> CourseLecture {
    CourseLecture {
        id: id.to_string(),
        title: format!("Lecture {}", id),
        url: format!("https://a/lectures/{}", id),
        index: 0,
        duration: None,
        lecture_type: t,
        is_free_preview: false,
    }
}

fn course() -> CourseInfo {
    CourseInfo {
        id: "c".to_string(),
        title: "C".to_string(),
        author: "A".to_string(),
        platform: "zerotomastery".to_string(),
        course_url: "https://academy.zerotomastery.io/courses/c".to_string(),
        thumbnail_url: None,
        total_lectures: 4,
        total_video_lectures: 3,
        sections: vec![
            CourseSection {
                id: "section_0".to_string(),
                title: "Intro".to_string(),
                index: 0,
                lectures: vec![lec("1", LectureType::Video), lec("2", LectureType::Text)],
            },
            CourseSection {
                id: "section_1".to_string(),
                title: "More".to_string(),
                index: 1,
                lectures: vec![lec("3", LectureType::Video), lec("4", LectureType::Video)],
            },
        ],
    }
}

#[test]
fn no_ids_plans_every_video_in_order() {
    let plan = plan_course_download(&course(), &vec![]).ok().unwrap();
    let got: Vec<(usize, usize, String)> =
        plan.iter().map(|p| (p.section_index, p.lecture_index, p.lecture.id.clone())).collect();
    assert_eq!(
        got,
        vec![(0, 0, "1".to_string()), (1, 0, "3".to_string()), (1, 1, "4".to_string())]
    );
    assert_eq!(plan[1].section_title, "More");
}

#[test]
fn named_ids_plan_only_those_videos() {
    let plan = plan_course_download(&course(), &vec!["4".to_string(), "2".to_string()]).ok().unwrap();
    assert_eq!(plan.len(), 1);
    assert_eq!(plan[0].lecture.id, "4");
    match plan_course_download(&course(), &vec!["2".to_string()]) {
        Err(e) => {
            assert_eq!(e, PlanError::NoVideoLecturesSelected);
            assert_eq!(e.message(), "No video lectures selected");
        }
        Ok(_) => panic!("expected an error"),
    }
}

#[test]
fn folder_and_file_names_are_sanitized() {
    assert_eq!(section_dir_name(0, "Getting Started"), "S01 - Getting Started");
    assert_eq!(section_dir_name(11, "A/B: C?"), "S12 - AB C");
    assert_eq!(lecture_file_name(0, "Welcome"), "01 - Welcome.mp4");
    assert_eq!(lecture_file_name(2, "What is Rust?"), "03 - What is Rust.mp4");
    assert_eq!(lecture_file_name(99, "Wrap-up"), "100 - Wrap-up.mp4");
    assert_eq!(lecture_file_stem(8, "A/B"), "09 - A/B");
    assert_eq!(video_file_name("What is Rust?"), "What is Rust.mp4");
    assert_eq!(course_dir_name("Rust <2024>"), "Rust 2024");
}

fn fmt(h: Option<u64>, w: Option<u64>, v: Option<&str>) -> FormatEntry {
    FormatEntry { height: h, width: w, vcodec: v.map(|s| s.to_string()) }
}

#[test]
fn qualities_are_distinct_heights_highest_first() {
    let formats = vec![
        fmt(Some(360), Some(640), Some("avc1")),
        fmt(Some(1080), Some(1920), Some("avc1")),
        fmt(Some(720), Some(1280), Some("none")),
        fmt(Some(360), Some(480), Some("vp9")),
        fmt(None, Some(10), Some("avc1")),
        fmt(Some(720), Some(1281), Some("avc1")),
        fmt(Some(480), None, None),
    ];
    let q = qualities_from_formats(&formats, "https://v");
    let got: Vec<(String, u32, u32)> = q.iter().map(|q| (q.label.clone(), q.width, q.height)).collect();
    assert_eq!(
        got,
        vec![
            ("1080p".to_string(), 1920, 1080),
            ("720p".to_string(), 1281, 720),
            ("360p".to_string(), 640, 360)
        ]
    );
    assert!(q.iter().all(|x| x.url == "https://v" && x.format == "ytdlp"));
    let best = qualities_from_formats(&vec![fmt(Some(720), None, Some("none"))], "u");
    assert_eq!(best, vec![VideoQuality { label: "best".to_string(), width: 0, height: 0, url: "u".to_string(), format: "ytdlp".to_string() }]);
}

#[test]
fn quality_selection_prefers_the_wanted_label() {
    let q = qualities_from_formats(&vec![fmt(Some(720), Some(1), Some("a")), fmt(Some(1080), Some(1), Some("a"))], "u");
    assert_eq!(select_quality(&q, Some("720p")), Some(1));
    assert_eq!(select_quality(&q, Some("4k")), Some(0));
    assert_eq!(select_quality(&q, None), Some(0));
    assert_eq!(select_quality(&vec![], Some("720p")), None);
}

#[test]
fn expired_tokens_are_retried_with_a_page_url() {
    assert!(should_reresolve_stream("HTTP 403 Forbidden", true));
    assert!(should_reresolve_stream("FFmpeg Failed (exit 1): x", true));
    assert!(!should_reresolve_stream("ffmpeg failed", false));
    assert!(!should_reresolve_stream("timeout", true));
}

#[test]
fn output_names_ignore_ytdlp_templates() {
    assert_eq!(effective_output_name(Some("%(title)s"), "Lecture 1"), "Lecture 1");
    assert_eq!(effective_output_name(Some("custom"), "Lecture 1"), "custom");
    assert_eq!(effective_output_name(None, "Lecture 1"), "Lecture 1");
}

#[test]
fn ffmpeg_headers_carry_referer_and_cookies() {
    let base = "Referer: R\r\nOrigin: https://player.hotmart.com\r\nUser-Agent: Mozilla/5.0 (Macintosh; Intel Mac OS X 10_15_7) AppleWebKit/537.36 (KHTML, like Gecko) Chrome/131.0.0.0 Safari/537.36\r\nAccept: */*\r\nAccept-Language: en-US,en;q=0.9\r\n";
    assert_eq!(ffmpeg_headers("R", None), base);
    assert_eq!(ffmpeg_headers("R", Some("a=b")), format!("{}Cookie: a=b\r\n", base));
}

#[test]
fn ffmpeg_lines_are_classified() {
    assert_eq!(classify_ffmpeg_line("out_time_us=1500000"), FfmpegLine::OutTime { micros: "1500000".to_string() });
    assert_eq!(
        classify_ffmpeg_line("  Duration: 00:05:43.20, start: 0.000000, bitrate: 5 kb/s"),
        FfmpegLine::Duration { clock: "00:05:43.20".to_string() }
    );
    assert_eq!(classify_ffmpeg_line("progress=end"), FfmpegLine::End);
    assert_eq!(classify_ffmpeg_line("Server returned 403 Forbidden"), FfmpegLine::Error);
    assert_eq!(classify_ffmpeg_line("frame=1"), FfmpegLine::Other);
}

#[test]
fn dot_only_and_long_names() {
    assert_eq!(course_dir_name("..."), "");
    assert_eq!(course_dir_name("./.."), "");
    assert_eq!(section_dir_name(1, ".."), "S02 - ");
    assert_eq!(video_file_name("::.."), ".mp4");
    let long = "é".repeat(200);
    let cut = course_dir_name(&long);
    assert_eq!(cut, "é".repeat(127));
    assert_eq!(cut.len(), 254);
    assert_eq!(video_file_name(&"a".repeat(300)), format!("{}.mp4", "a".repeat(255)));
    assert_eq!(lecture_file_name(0, &"b".repeat(300)), format!("01 - {}.mp4", "b".repeat(250)));
}

#[test]
fn queueing_reports_each_lecture() {
    assert_eq!(queue_step(0, LectureStatus::Complete), (0, QueueEvent::Skipped { current: 1 }));
    assert_eq!(queue_step(2, LectureStatus::Unresolved), (2, QueueEvent::NotResolved));
    assert_eq!(queue_step(2, LectureStatus::Resolved), (3, QueueEvent::Queued { current: 3 }));
}
