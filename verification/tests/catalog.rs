use omniget::catalog::{
    all_known_platforms, build_course_platform_detection, detect_course_platform, detection_for_registry,
    get_supported_course_platforms, is_course_index_url,
};
use omniget::models::CoursePlatformStatus;

#[test]
fn catalogue_lists_ten_platforms_with_academy_first() {
    let all = all_known_platforms();
    assert_eq!(all.len(), 10);
    assert_eq!(all[0].name, "Zero To Mastery Academy");
    assert_eq!(all[0].platform_id, "zerotomastery");
    assert_eq!(all[0].domains, vec!["academy.zerotomastery.io".to_string()]);
    assert_eq!(
        all[0].support_status,
        CoursePlatformStatus::Supported { since_version: "0.5.0".to_string() }
    );
    assert_eq!(all[0].login_url.as_deref(), Some("https://academy.zerotomastery.io/sign_in"));
    let ids: Vec<&str> = all.iter().map(|p| p.platform_id.as_str()).collect();
    assert_eq!(
        ids,
        vec![
            "zerotomastery", "udemy", "coursera", "skillshare", "linkedin_learning", "pluralsight",
            "teachable", "thinkific", "kajabi", "rocketseat"
        ]
    );
    assert_eq!(
        all[1].support_status,
        CoursePlatformStatus::Unsupported { yt_dlp_extractor: Some("Udemy (CURRENTLY BROKEN)".to_string()) }
    );
    assert_eq!(all[3].support_status, CoursePlatformStatus::Unsupported { yt_dlp_extractor: None });
    assert_eq!(all[5].domains.len(), 3);
    assert_eq!(all[6].login_url, None);
}

#[test]
fn only_the_academy_is_supported() {
    let all = get_supported_course_platforms();
    for (i, p) in all.iter().enumerate() {
        let supported = matches!(p.support_status, CoursePlatformStatus::Supported { .. });
        assert_eq!(supported, i == 0, "{}", p.name);
    }
}

#[test]
fn every_catalogue_domain_is_detected_as_its_platform() {
    for p in all_known_platforms() {
        for d in &p.domains {
            let url = format!("https://{}/some/page", d);
            let found = detect_course_platform(&url).expect("detected");
            assert_eq!(found.platform_id, p.platform_id, "{}", url);
        }
    }
}

#[test]
fn subdomains_and_case_are_detected() {
    let p = detect_course_platform("https://myschool.teachable.com/p/course").unwrap();
    assert_eq!(p.platform_id, "teachable");
    let p = detect_course_platform("HTTPS://WWW.UDEMY.COM/course/rust").unwrap();
    assert_eq!(p.platform_id, "udemy");
    let p = detect_course_platform("https://academy.zerotomastery.io/courses/x/lectures/1").unwrap();
    assert_eq!(p.platform_id, "zerotomastery");
}

#[test]
fn unknown_host_with_course_path_is_an_unsupported_platform() {
    let p = detect_course_platform("https://learn.example.org/Courses/intro-to-rust").unwrap();
    assert_eq!(p.name, "learn.example.org");
    assert_eq!(p.platform_id, "unknown_course");
    assert_eq!(p.domains, vec!["learn.example.org".to_string()]);
    assert_eq!(p.support_status, CoursePlatformStatus::Unsupported { yt_dlp_extractor: None });
    assert_eq!(p.notes, "Detected as course URL by path pattern. Platform not in known database.");
    assert_eq!(p.login_url, None);
    for path in ["/course/a", "/learn/b", "/curriculum/c"] {
        let url = format!("https://x.example{}", path);
        assert_eq!(detect_course_platform(&url).unwrap().platform_id, "unknown_course");
    }
}

#[test]
fn unrelated_and_malformed_urls_are_not_detected() {
    assert!(detect_course_platform("https://www.youtube.com/watch?v=abc").is_none());
    assert!(detect_course_platform("not a url").is_none());
    assert!(detect_course_platform("mailto:someone@example.com").is_none());
    assert!(detect_course_platform("https://notudemy.com/x").is_none());
}

#[test]
fn course_index_urls_have_courses_but_no_lectures() {
    assert!(is_course_index_url("https://academy.zerotomastery.io/courses/rust"));
    assert!(!is_course_index_url("https://academy.zerotomastery.io/courses/rust/lectures/42"));
    assert!(!is_course_index_url("https://academy.zerotomastery.io/"));
    assert!(!is_course_index_url("nonsense"));
}

#[test]
fn detection_reports_support_and_task_generation() {
    let d = build_course_platform_detection("https://www.udemy.com/course/rust", false);
    assert!(d.is_course_url);
    assert!(!d.is_supported);
    assert!(d.can_generate_task);
    assert_eq!(d.platform.unwrap().platform_id, "udemy");

    let d = build_course_platform_detection("https://academy.zerotomastery.io/courses/rust", true);
    assert!(d.is_course_url && d.is_supported);
    assert!(!d.can_generate_task);

    let d = build_course_platform_detection("https://example.com/video", false);
    assert!(!d.is_course_url);
    assert!(!d.can_generate_task);
    assert!(d.platform.is_none());

    let d = build_course_platform_detection("https://example.com/video", true);
    assert!(d.is_course_url);
}

#[test]
fn detection_follows_the_registered_downloaders() {
    let d = detection_for_registry("https://www.udemy.com/course/rust", &[false, true]);
    assert!(d.is_supported);
    assert!(d.is_course_url);
    assert_eq!(d.platform.as_ref().unwrap().name, "Udemy");
    assert!(d.can_generate_task);
    let d = detection_for_registry("https://www.udemy.com/course/rust", &[false, false]);
    assert!(!d.is_supported);
    assert!(d.is_course_url);
    let d = detection_for_registry("https://example.com/video", &[]);
    assert!(!d.is_supported);
    assert!(!d.is_course_url);
    assert!(d.platform.is_none());
    assert!(!d.can_generate_task);
}
