//! The data the library works on: course structure, lecture media and the
//! catalogue entries of known course platforms.
use vstd::prelude::*;

verus! {

/// The value of an optional string.
pub open spec fn opt_view(o: Option<String>) -> Option<Seq<char>> {
    match o {
        Some(s) => Some(s@),
        None => None,
    }
}

/// A copy of an optional string.
pub fn copy_opt(o: &Option<String>) -> (res: Option<String>)
    ensures
        res == *o,
{
    match o {
        Some(s) => Some(s.clone()),
        None => None,
    }
}

/// Kind of content a course lecture holds.
#[derive(Clone, Copy, Debug, PartialEq, Eq, Structural)]
pub enum LectureType {
    Video,
    Text,
    Quiz,
    Assignment,
    Pdf,
    ExternalLink,
    Unknown,
}

/// How far a course platform is supported.
#[derive(Clone, Debug, PartialEq)]
pub enum CoursePlatformStatus {
    Supported { since_version: String },
    Unsupported { yt_dlp_extractor: Option<String> },
    PartiallySupported { limitations: String },
}

/// A course platform the library knows of, supported or not.
#[derive(Clone, Debug, PartialEq)]
pub struct KnownCoursePlatform {
    pub name: String,
    pub platform_id: String,
    pub domains: Vec<String>,
    pub support_status: CoursePlatformStatus,
    pub notes: String,
    pub login_url: Option<String>,
}

/// One lecture of a course.  `duration` is the lecture's length as the
/// platform wrote it (such as `5:43`), present exactly when it reads as a
/// duration; the number of seconds it stands for is computed from it.
#[derive(Clone, Debug, PartialEq)]
pub struct CourseLecture {
    pub id: String,
    pub title: String,
    pub url: String,
    pub index: u32,
    pub duration: Option<String>,
    pub lecture_type: LectureType,
    pub is_free_preview: bool,
}

/// One section of a course, with its lectures in order.
#[derive(Clone, Debug, PartialEq)]
pub struct CourseSection {
    pub id: String,
    pub title: String,
    pub index: u32,
    pub lectures: Vec<CourseLecture>,
}

/// The structure of a whole course.
#[derive(Clone, Debug, PartialEq)]
pub struct CourseInfo {
    pub id: String,
    pub title: String,
    pub author: String,
    pub platform: String,
    pub course_url: String,
    pub thumbnail_url: Option<String>,
    pub total_lectures: u32,
    pub total_video_lectures: u32,
    pub sections: Vec<CourseSection>,
}

/// The downloadable media resolved for one lecture.
#[derive(Clone, Debug, PartialEq)]
pub struct LectureMedia {
    pub lecture_id: String,
    pub title: String,
    pub video_url: String,
    pub referer: Option<String>,
    /// Raw `Cookie: ...` header value taken from the browser session.
    pub cookie_header: Option<String>,
}

/// An HLS stream found in the browser for a lecture.
#[derive(Clone, Debug, PartialEq)]
pub struct HotmartStream {
    pub hls_url: String,
    /// Raw Cookie header value extracted from the browser (e.g. "k1=v1; k2=v2").
    pub cookie_header: Option<String>,
}

/// The credentials the video player needs for one lecture.
#[derive(Clone, Debug, PartialEq)]
pub struct HotmartCredentials {
    pub video_id: String,
    pub signature: String,
    pub teachable_application_key: String,
    pub user_email: Option<String>,
}

/// What is known of a URL with respect to course platforms.
#[derive(Clone, Debug, PartialEq)]
pub struct CoursePlatformDetection {
    pub is_course_url: bool,
    pub is_supported: bool,
    pub platform: Option<KnownCoursePlatform>,
    pub can_generate_task: bool,
}

/// One video quality offered for a lecture.
#[derive(Clone, Debug, PartialEq)]
pub struct VideoQuality {
    pub label: String,
    pub width: u32,
    pub height: u32,
    pub url: String,
    pub format: String,
}

} // verus!
