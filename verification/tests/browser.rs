use omniget::browser::{
    course_output, embed_url_from_output, find_session_cookie, navigation_step, parse_stream_output,
    BridgeRun, NavigationError, NavigationStep,
};

#[test]
fn session_cookie_is_read_from_netscape_files() {
    let file = "# Netscape HTTP Cookie File\n\n.other.io\tTRUE\t/\tTRUE\t0\t_teachable_session\tnope\n.academy.zerotomastery.io\tTRUE\t/\tTRUE\t0\tother\tx\r\n.academy.zerotomastery.io\tTRUE\t/\tTRUE\t0\t_teachable_session\tsecret123\r\n";
    assert_eq!(find_session_cookie(file).as_deref(), Some("secret123"));
    assert_eq!(find_session_cookie("#only comments\n"), None);
    assert_eq!(find_session_cookie("a\tb\tc"), None);
}

#[test]
fn embed_urls_are_trimmed_output() {
    assert_eq!(embed_url_from_output("  https://player.vimeo.com/video/1?h=2\n").as_deref(), Some("https://player.vimeo.com/video/1?h=2"));
    assert_eq!(embed_url_from_output(" \n"), None);
}

#[test]
fn stream_output_is_read_as_json() {
    let s = parse_stream_output("{\"url\": \"https://vod/master.m3u8?a=1&amp;b=2\", \"cookies\": \"k=v\"}\n", "L").ok().unwrap();
    assert_eq!(s.hls_url, "https://vod/master.m3u8?a=1&b=2");
    assert_eq!(s.cookie_header.as_deref(), Some("k=v"));
    let s = parse_stream_output("{\"url\": \"u\", \"cookies\": \"\"}", "L").ok().unwrap();
    assert_eq!(s.cookie_header, None);
    let e = parse_stream_output("", "https://x/lectures/1").err().unwrap();
    assert_eq!(e, NavigationError::NoStream { lecture_url: "https://x/lectures/1".to_string() });
    assert_eq!(
        e.message(),
        "No HLS stream found for lecture https://x/lectures/1. Make sure Chrome is open and you are logged into academy.zerotomastery.io."
    );
    assert!(parse_stream_output("not json", "L").is_err());
    assert!(parse_stream_output("{\"url\": \"\"}", "L").is_err());
}

#[test]
fn navigation_retries_time_outs_twice() {
    match navigation_step(0, "L", BridgeRun::Failed { stderr: "TimeoutError: ipc".to_string() }) {
        NavigationStep::Retry { attempt, wait_secs } => assert_eq!((attempt, wait_secs), (1, 8)),
        _ => panic!("expected retry"),
    }
    match navigation_step(1, "L", BridgeRun::Failed { stderr: "TimeoutError".to_string() }) {
        NavigationStep::Retry { attempt, wait_secs } => assert_eq!((attempt, wait_secs), (2, 15)),
        _ => panic!("expected retry"),
    }
    match navigation_step(2, "L", BridgeRun::Failed { stderr: " TimeoutError \n".to_string() }) {
        NavigationStep::Finish { outcome: Err(e) } => {
            assert_eq!(e.message(), "browser-harness timed out for L: TimeoutError");
        }
        _ => panic!("expected give up"),
    }
    match navigation_step(0, "L", BridgeRun::Failed { stderr: "boom\n".to_string() }) {
        NavigationStep::Finish { outcome: Err(e) } => assert_eq!(e.message(), "browser-harness failed for L: boom"),
        _ => panic!("expected failure"),
    }
    match navigation_step(0, "L", BridgeRun::Succeeded { stdout: "{\"url\":\"u\"}".to_string() }) {
        NavigationStep::Finish { outcome: Ok(s) } => assert_eq!(s.hls_url, "u"),
        _ => panic!("expected stream"),
    }
}

#[test]
fn empty_course_output_is_reported() {
    for raw in ["", " null ", "[]", "{}\n"] {
        assert_eq!(
            course_output(raw, "https://c").err().unwrap(),
            "No course sections found on https://c. Make sure Chrome is open and you are logged into academy.zerotomastery.io."
        );
    }
    assert_eq!(course_output(" {\"sections\":[]} ", "c").ok().unwrap(), "{\"sections\":[]}");
}
