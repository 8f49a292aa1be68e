//! The task files generated for adding support for a course platform.
use vstd::prelude::*;
use crate::text::{chars_of, lowercase, push_str, replace_all, replace_seq, string_of, to_lowercase};

verus! {
pub const TASK_DOC_0: &'static str = r##"# OmniGet: Add "##;
pub const TASK_DOC_1: &'static str = r##" Course Download Support

**Generated by OmniGet** on "##;
pub const TASK_DOC_2: &'static str = r##"
**Sample URL**: "##;
pub const TASK_DOC_3: &'static str = r##"
**Detected Domain**: "##;
pub const TASK_DOC_4: &'static str = r##"

---

## Context for the AI Agent

OmniGet is a Tauri 2.0 desktop app (Rust backend + SvelteKit frontend) at:
`/Users/Shared/ALL_WORKSPACE/ai_tools/omniget`

The course platform architecture is already in place. You only need to add the platform plugin.

### Existing reference implementation
The ZTM/Teachable+Hotmart plugin is the canonical example to follow:
- `src-tauri/src/platforms/ztm/mod.rs` — main platform (implements `PlatformDownloader` + `CourseDownloader`)
- `src-tauri/src/platforms/ztm/auth.rs` — browser cookie extraction via browser-harness CDP
- `src-tauri/src/platforms/ztm/api.rs` — platform API + HTML parsing

### Traits to implement
- `omniget_core::platforms::traits::PlatformDownloader` (single lecture download)
- `omniget_core::platforms::course_traits::CourseDownloader` (full course download)
- Both in `src-tauri/src/platforms/{id}/mod.rs`

---

## Step 1: Investigation (REQUIRED BEFORE CODING)

Run browser-harness while logged into "##;
pub const TASK_DOC_5: &'static str = r##" to map the video tech stack:

```bash
browser-harness -c '
new_tab(""##;
pub const TASK_DOC_6: &'static str = r##"")
wait_for_load()
import time; time.sleep(3)

# Find video player iframes
iframes = js("""
  return Array.from(document.querySelectorAll("iframe")).map(f => ({
    src: f.src, id: f.id
  }));
""")
print("Iframes:", iframes)

# Check CDP targets for embedded players
from pprint import pprint
targets = cdp("Target.getTargets", {})
video_targets = [t for t in targets.get("targetInfos", [])
                 if any(x in t.get("url","") for x in ["vimeo","player","video"])]
pprint(video_targets)

# Check for API calls to get video credentials
perf = js("return performance.getEntriesByType(\"resource\").map(e => e.name).filter(n => n.includes(\"video\") || n.includes(\"stream\") || n.includes(\"media\"));")
print("Video API calls:", perf)
'
```

Document what you find:
- [ ] Video player type (Vimeo / JW Player / Kaltura / Wistia / custom HLS)
- [ ] API endpoint that returns video credentials or stream URL
- [ ] Auth mechanism (session cookie name, JWT header, etc.)
- [ ] Course structure API (or HTML scraping needed)
- [ ] Whether yt-dlp can handle the final video URL directly

---

## Step 2: Implementation Checklist

### Files to create
- [ ] `src-tauri/src/platforms/{id}/mod.rs` — main platform struct + both trait impls
- [ ] `src-tauri/src/platforms/{id}/auth.rs` — cookie/token extraction
- [ ] `src-tauri/src/platforms/{id}/api.rs` — platform-specific API calls

### Files to modify
- [ ] `src-tauri/src/platforms/mod.rs` — add `#[cfg(not(target_os = "android"))] pub mod {id};`
- [ ] `src-tauri/src/lib.rs` — register in both `registry` and `course_registry`
- [ ] `src-tauri/omniget-core/src/platforms/mod.rs` — add `Platform::{Name}` enum variant + URL detection
- [ ] `src-tauri/omniget-core/src/core/known_course_platforms.rs` — update support status to `Supported`
- [ ] `src-tauri/omniget-cli/src/main.rs` — add platform display name if needed

### Pattern to follow in mod.rs
```rust
pub struct {Name}Downloader;

#[async_trait]
impl PlatformDownloader for {Name}Downloader {
    fn name(&self) -> &str { ""##;
pub const TASK_DOC_7: &'static str = r##"" }
    fn can_handle(&self, url: &str) -> bool { /* match "##;
pub const TASK_DOC_8: &'static str = r##" */ }
    async fn get_media_info(&self, url: &str) -> anyhow::Result<MediaInfo> { /* single lecture */ }
    async fn download(&self, info: &MediaInfo, opts: &DownloadOptions, progress: mpsc::Sender<f64>) -> anyhow::Result<DownloadResult> { /* yt-dlp */ }
}

#[async_trait]
impl CourseDownloader for {Name}Downloader {
    fn is_course_url(&self, url: &str) -> bool { /* path pattern for course vs lecture */ }
    async fn get_course_structure(&self, course_url: &str) -> anyhow::Result<CourseInfo> { /* scrape/API */ }
    async fn resolve_lecture_media(&self, lecture_url: &str) -> anyhow::Result<LectureMedia> { /* resolve to stream URL */ }
}
```

---

## Step 3: Acceptance Criteria

1. `cargo check` passes with no errors
2. Given a course URL, `get_course_structure()` returns correct section/lecture count
3. `resolve_lecture_media()` returns a downloadable URL for a test lecture
4. `omniget course {url}` (CLI) lists sections and downloads all lectures
5. Each lecture saved as `S{n:02} - {section}/{title}.mp4`
6. Re-running skips already-downloaded files
7. Update `known_course_platforms.rs` status to `Supported { since_version: "0.5.x" }`
8. Add platform doc section to `docs/COURSE_PLATFORMS.md`
"##;

/// The task file asking for support of a course platform, for the desktop app.
pub open spec fn task_document(name: Seq<char>, id: Seq<char>, url: Seq<char>, domain: Seq<char>, date: Seq<char>) -> Seq<char> {
    TASK_DOC_0@
        + name
        + TASK_DOC_1@
        + date
        + TASK_DOC_2@
        + url
        + TASK_DOC_3@
        + domain
        + TASK_DOC_4@
        + name
        + TASK_DOC_5@
        + url
        + TASK_DOC_6@
        + id
        + TASK_DOC_7@
        + domain
        + TASK_DOC_8@
}


/// The task file for adding support for a platform, dated `date`.
pub fn generate_task_content(
    platform_name: &str,
    platform_id: &str,
    sample_url: &str,
    detected_domain: &str,
    date: &str,
) -> (res: String)
    ensures
        res@ == task_document(platform_name@, platform_id@, sample_url@, detected_domain@, date@),
{
    let mut out: Vec<char> = Vec::new();
    push_str(&mut out, TASK_DOC_0);
    push_str(&mut out, platform_name);
    push_str(&mut out, TASK_DOC_1);
    push_str(&mut out, date);
    push_str(&mut out, TASK_DOC_2);
    push_str(&mut out, sample_url);
    push_str(&mut out, TASK_DOC_3);
    push_str(&mut out, detected_domain);
    push_str(&mut out, TASK_DOC_4);
    push_str(&mut out, platform_name);
    push_str(&mut out, TASK_DOC_5);
    push_str(&mut out, sample_url);
    push_str(&mut out, TASK_DOC_6);
    push_str(&mut out, platform_id);
    push_str(&mut out, TASK_DOC_7);
    push_str(&mut out, detected_domain);
    push_str(&mut out, TASK_DOC_8);
    assert(out@ =~= task_document(platform_name@, platform_id@, sample_url@, detected_domain@, date@));
    string_of(&out)
}

/// A platform id as it appears in paths of the command-line task file:
/// lower-cased, spaces as underscores.
pub open spec fn cli_path_id(id: Seq<char>) -> Seq<char> {
    replace_seq(lowercase(id), " "@, "_"@)
}

/// A platform id as it appears in paths of the command-line task file.
pub fn cli_task_path_id(id: &str) -> (res: String)
    ensures
        res@ == cli_path_id(id@),
{
    let lower = to_lowercase(id);
    string_of(&replace_all(&chars_of(lower.as_str()), &chars_of(" "), &chars_of("_")))
}

/// The file name of the task file for a platform:
/// `omniget-task-{id}.md`, the id with spaces as underscores, lower-cased.
pub open spec fn task_file_name_text(platform_id: Seq<char>) -> Seq<char> {
    "omniget-task-"@ + lowercase(replace_seq(platform_id, " "@, "_"@)) + ".md"@
}

/// The file name of the task file for a platform.
pub fn task_file_name(platform_id: &str) -> (res: String)
    ensures
        res@ == task_file_name_text(platform_id@),
{
    let underscored = string_of(&replace_all(&chars_of(platform_id), &chars_of(" "), &chars_of("_")));
    let lower = to_lowercase(underscored.as_str());
    let mut out = chars_of("omniget-task-");
    push_str(&mut out, lower.as_str());
    push_str(&mut out, ".md");
    string_of(&out)
}

pub const CLI_TASK_0: &'static str = r##"# OmniGet: Add "##;
pub const CLI_TASK_1: &'static str = r##" Course Download Support

Generated: "##;
pub const CLI_TASK_2: &'static str = r##"
Sample URL: "##;
pub const CLI_TASK_3: &'static str = r##"
Domain: "##;
pub const CLI_TASK_4: &'static str = r##"

## Quick Start for AI Agent

```bash
cd /Users/Shared/ALL_WORKSPACE/ai_tools/omniget
```

## Investigation Steps

Use browser-harness to map the video tech stack while logged into "##;
pub const CLI_TASK_5: &'static str = r##":

```bash
browser-harness -c '
new_tab(""##;
pub const CLI_TASK_6: &'static str = r##"")
wait_for_load()
import time; time.sleep(3)
iframes = js("return Array.from(document.querySelectorAll(\"iframe\")).map(f => ({src: f.src}))")
print("Iframes:", iframes)
targets = cdp("Target.getTargets", {})
print("Targets:", [t for t in targets.get("targetInfos",[]) if "player" in t.get("url","")])
'
```

## Implementation

Follow the ZTM reference implementation at `src-tauri/src/platforms/ztm/`.

Files to create:
- `src-tauri/src/platforms/"##;
pub const CLI_TASK_7: &'static str = r##"/mod.rs`
- `src-tauri/src/platforms/"##;
pub const CLI_TASK_8: &'static str = r##"/auth.rs`
- `src-tauri/src/platforms/"##;
pub const CLI_TASK_9: &'static str = r##"/api.rs`

Files to modify:
- `src-tauri/src/platforms/mod.rs` — add module
- `src-tauri/src/lib.rs` — register in registry + course_registry
- `src-tauri/omniget-core/src/platforms/mod.rs` — add Platform variant
- `src-tauri/omniget-core/src/core/known_course_platforms.rs` — update to Supported
- `docs/COURSE_PLATFORMS.md` — add platform section

## Acceptance Criteria

- [ ] `cargo check` passes
- [ ] Course structure returns correct section/lecture count for sample URL
- [ ] All video lectures download correctly with proper filenames
- [ ] Update known_course_platforms.rs to Supported status
"##;

/// The shorter task file written by the command-line tool; the id in its paths
/// is lower-cased with spaces as underscores.
pub open spec fn cli_task_document(name: Seq<char>, id: Seq<char>, url: Seq<char>, domain: Seq<char>, date: Seq<char>) -> Seq<char> {
    let pid = cli_path_id(id);
    CLI_TASK_0@
        + name
        + CLI_TASK_1@
        + date
        + CLI_TASK_2@
        + url
        + CLI_TASK_3@
        + domain
        + CLI_TASK_4@
        + name
        + CLI_TASK_5@
        + url
        + CLI_TASK_6@
        + pid
        + CLI_TASK_7@
        + pid
        + CLI_TASK_8@
        + pid
        + CLI_TASK_9@
}

/// The command-line tool's task file for a platform, dated `date`.
pub fn build_task_content(name: &str, id: &str, url: &str, domain: &str, date: &str) -> (res: String)
    ensures
        res@ == cli_task_document(name@, id@, url@, domain@, date@),
{
    let pid = cli_task_path_id(id);
    let mut out: Vec<char> = Vec::new();
    push_str(&mut out, CLI_TASK_0);
    push_str(&mut out, name);
    push_str(&mut out, CLI_TASK_1);
    push_str(&mut out, date);
    push_str(&mut out, CLI_TASK_2);
    push_str(&mut out, url);
    push_str(&mut out, CLI_TASK_3);
    push_str(&mut out, domain);
    push_str(&mut out, CLI_TASK_4);
    push_str(&mut out, name);
    push_str(&mut out, CLI_TASK_5);
    push_str(&mut out, url);
    push_str(&mut out, CLI_TASK_6);
    push_str(&mut out, pid.as_str());
    push_str(&mut out, CLI_TASK_7);
    push_str(&mut out, pid.as_str());
    push_str(&mut out, CLI_TASK_8);
    push_str(&mut out, pid.as_str());
    push_str(&mut out, CLI_TASK_9);
    assert(out@ =~= cli_task_document(name@, id@, url@, domain@, date@));
    string_of(&out)
}

} // verus!
