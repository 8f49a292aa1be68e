use omniget::cli::{check_course_command, cli_task_for, CourseCommandCheck};
use omniget::tasks::{build_task_content, cli_task_path_id, generate_task_content, task_file_name};

#[test]
fn course_command_requires_a_supported_academy_url() {
    assert_eq!(check_course_command("https://academy.zerotomastery.io/courses/rust"), CourseCommandCheck::Ready);
    assert_eq!(
        check_course_command("https://www.udemy.com/course/x"),
        CourseCommandCheck::Unsupported { platform_name: "Udemy".to_string() }
    );
    assert_eq!(
        check_course_command("https://example.com/video"),
        CourseCommandCheck::Unsupported { platform_name: "this platform".to_string() }
    );
}

#[test]
fn task_files_are_named_after_the_platform() {
    assert_eq!(task_file_name("Skill Share"), "omniget-task-skill_share.md");
    assert_eq!(task_file_name("udemy"), "omniget-task-udemy.md");
    assert_eq!(cli_task_path_id("My Platform"), "my_platform");
}

#[test]
fn cli_task_uses_the_detected_platform() {
    let t = cli_task_for("https://www.skillshare.com/en/classes/x").ok().unwrap();
    assert_eq!(t.platform_name, "Skillshare");
    assert_eq!(t.file_name, "omniget-task-skillshare.md");
    assert_eq!(t.platform_id, "skillshare");
    assert_eq!(t.domain, "skillshare.com");
    assert_eq!(
        cli_task_for("https://example.com/video").err().unwrap(),
        "Could not detect course platform for URL: https://example.com/video"
    );
}

#[test]
fn task_documents_fill_in_the_platform() {
    let doc = generate_task_content("Skillshare", "skillshare", "https://s/x", "skillshare.com", "2026-01-02");
    assert!(doc.starts_with("# OmniGet: Add Skillshare Course Download Support\n\n**Generated by OmniGet** on 2026-01-02\n**Sample URL**: https://s/x\n**Detected Domain**: skillshare.com\n"));
    assert!(doc.contains("new_tab(\"https://s/x\")"));
    assert!(doc.contains("fn name(&self) -> &str { \"skillshare\" }"));
    assert!(doc.contains("src-tauri/src/platforms/{id}/mod.rs"));
    assert!(doc.contains("/* match skillshare.com */"));
    assert!(doc.ends_with("8. Add platform doc section to `docs/COURSE_PLATFORMS.md`\n"));
}

#[test]
fn command_line_task_document_is_filled_in() {
    let doc = build_task_content("Skill Share", "Skill Share", "https://s/x", "skillshare.com", "2026-01-02");
    let expected = format!(
        r#"# OmniGet: Add {name} Course Download Support

Generated: {date}
Sample URL: {url}
Domain: {domain}

## Quick Start for AI Agent

```bash
cd /Users/Shared/ALL_WORKSPACE/ai_tools/omniget
```

## Investigation Steps

Use browser-harness to map the video tech stack while logged into {name}:

```bash
browser-harness -c '
new_tab("{url}")
wait_for_load()
import time; time.sleep(3)
iframes = js("return Array.from(document.querySelectorAll(\"iframe\")).map(f => ({{src: f.src}}))")
print("Iframes:", iframes)
targets = cdp("Target.getTargets", {{}})
print("Targets:", [t for t in targets.get("targetInfos",[]) if "player" in t.get("url","")])
'
```

## Implementation

Follow the ZTM reference implementation at `src-tauri/src/platforms/ztm/`.

Files to create:
- `src-tauri/src/platforms/{id}/mod.rs`
- `src-tauri/src/platforms/{id}/auth.rs`
- `src-tauri/src/platforms/{id}/api.rs`

Files to modify:
- `src-tauri/src/platforms/mod.rs` — add module
- `src-tauri/src/lib.rs` — register in registry + course_registry
- `src-tauri/omniget-core/src/platforms/mod.rs` — add Platform variant
- `src-tauri/omniget-core/src/core/known_course_platforms.rs` — update to Supported
- `docs/COURSE_PLATFORMS.md` — add platform section

## Acceptance Criteria

- [ ] `cargo check` passes
- [ ] Course structure returns correct section/lecture count for sample URL
- [ ] All video lectures download correctly with proper filenames
- [ ] Update known_course_platforms.rs to Supported status
"#,
        name = "Skill Share",
        id = "skill_share",
        url = "https://s/x",
        domain = "skillshare.com",
        date = "2026-01-02",
    );
    assert_eq!(doc, expected);
}
