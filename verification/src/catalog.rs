//! The catalogue of known course platforms and the classification of URLs
//! against it.
use vstd::prelude::*;
use crate::models::{opt_view, CoursePlatformDetection, CoursePlatformStatus, KnownCoursePlatform};
use crate::text::{
    chars_of, contains, contains_seq, ends_with, has_suffix, lowercase, push_str, string_of,
    to_lowercase,
};
use crate::url_parts::{parse_url, url_host, url_parses, url_path};

verus! {

/// The support status of a platform as values.
pub enum StatusView {
    Supported { since_version: Seq<char> },
    Unsupported { yt_dlp_extractor: Option<Seq<char>> },
    PartiallySupported { limitations: Seq<char> },
}

/// A catalogue entry as values.
pub struct PlatformView {
    pub name: Seq<char>,
    pub platform_id: Seq<char>,
    pub domains: Seq<Seq<char>>,
    pub support_status: StatusView,
    pub notes: Seq<char>,
    pub login_url: Option<Seq<char>>,
}

impl View for CoursePlatformStatus {
    type V = StatusView;

    open spec fn view(&self) -> StatusView {
        match self {
            CoursePlatformStatus::Supported { since_version } => StatusView::Supported {
                since_version: since_version@,
            },
            CoursePlatformStatus::Unsupported { yt_dlp_extractor } => StatusView::Unsupported {
                yt_dlp_extractor: opt_view(*yt_dlp_extractor),
            },
            CoursePlatformStatus::PartiallySupported { limitations } => StatusView::PartiallySupported {
                limitations: limitations@,
            },
        }
    }
}

impl View for KnownCoursePlatform {
    type V = PlatformView;

    open spec fn view(&self) -> PlatformView {
        PlatformView {
            name: self.name@,
            platform_id: self.platform_id@,
            domains: self.domains@.map_values(|d: String| d@),
            support_status: self.support_status@,
            notes: self.notes@,
            login_url: opt_view(self.login_url),
        }
    }
}

/// The optional platform as values.
pub open spec fn opt_platform_view(o: Option<KnownCoursePlatform>) -> Option<PlatformView> {
    match o {
        Some(p) => Some(p@),
        None => None,
    }
}

pub const ZTM_NAME: &'static str = "Zero To Mastery Academy";
pub const ZTM_ID: &'static str = "zerotomastery";
pub const ZTM_DOMAIN: &'static str = "academy.zerotomastery.io";
pub const ZTM_SINCE: &'static str = "0.5.0";
pub const ZTM_NOTES: &'static str = "Teachable-based LMS. Videos served via Hotmart player embedding private Vimeo. Auth via browser cookies. No DRM.";
pub const ZTM_LOGIN: &'static str = "https://academy.zerotomastery.io/sign_in";

pub const UDEMY_NAME: &'static str = "Udemy";
pub const UDEMY_ID: &'static str = "udemy";
pub const UDEMY_D1: &'static str = "udemy.com";
pub const UDEMY_D2: &'static str = "www.udemy.com";
pub const UDEMY_EXTRACTOR: &'static str = "Udemy (CURRENTLY BROKEN)";
pub const UDEMY_NOTES: &'static str = "Uses Widevine DRM on some content. Requires account auth. yt-dlp extractor is broken as of 2026.";
pub const UDEMY_LOGIN: &'static str = "https://www.udemy.com/join/login-popup/";

pub const COURSERA_NAME: &'static str = "Coursera";
pub const COURSERA_ID: &'static str = "coursera";
pub const COURSERA_D1: &'static str = "coursera.org";
pub const COURSERA_D2: &'static str = "www.coursera.org";
pub const COURSERA_EXTRACTOR: &'static str = "Coursera";
pub const COURSERA_NOTES: &'static str = "Video hosted on Coursera CDN. Requires enrollment. Auth via browser cookies.";
pub const COURSERA_LOGIN: &'static str = "https://www.coursera.org/login";

pub const SKILLSHARE_NAME: &'static str = "Skillshare";
pub const SKILLSHARE_ID: &'static str = "skillshare";
pub const SKILLSHARE_D1: &'static str = "skillshare.com";
pub const SKILLSHARE_D2: &'static str = "www.skillshare.com";
pub const SKILLSHARE_NOTES: &'static str = "HLS streams, no DRM. Requires active subscription. Auth via browser cookies.";
pub const SKILLSHARE_LOGIN: &'static str = "https://www.skillshare.com/login";

pub const LINKEDIN_NAME: &'static str = "LinkedIn Learning";
pub const LINKEDIN_ID: &'static str = "linkedin_learning";
pub const LINKEDIN_D1: &'static str = "linkedin.com";
pub const LINKEDIN_D2: &'static str = "www.linkedin.com";
pub const LINKEDIN_EXTRACTOR: &'static str = "LinkedInLearning";
pub const LINKEDIN_NOTES: &'static str = "Videos via Kaltura CDN. Requires LinkedIn Premium or Learning license.";
pub const LINKEDIN_LOGIN: &'static str = "https://www.linkedin.com/learning/";

pub const PLURALSIGHT_NAME: &'static str = "Pluralsight";
pub const PLURALSIGHT_ID: &'static str = "pluralsight";
pub const PLURALSIGHT_D1: &'static str = "pluralsight.com";
pub const PLURALSIGHT_D2: &'static str = "www.pluralsight.com";
pub const PLURALSIGHT_D3: &'static str = "app.pluralsight.com";
pub const PLURALSIGHT_EXTRACTOR: &'static str = "Pluralsight";
pub const PLURALSIGHT_NOTES: &'static str = "Requires active subscription. Videos via HLS.";
pub const PLURALSIGHT_LOGIN: &'static str = "https://app.pluralsight.com/id/signin/";

pub const TEACHABLE_NAME: &'static str = "Teachable (Generic)";
pub const TEACHABLE_ID: &'static str = "teachable";
pub const TEACHABLE_D1: &'static str = "teachable.com";
pub const TEACHABLE_EXTRACTOR: &'static str = "Teachable (CURRENTLY BROKEN)";
pub const TEACHABLE_NOTES: &'static str = "Generic Teachable schools. Video embedding varies (Vimeo, Hotmart, Wistia, direct). Auth via browser cookies. The zerotomastery implementation is a reference for adding other Teachable schools.";

pub const THINKIFIC_NAME: &'static str = "Thinkific";
pub const THINKIFIC_ID: &'static str = "thinkific";
pub const THINKIFIC_D1: &'static str = "thinkific.com";
pub const THINKIFIC_NOTES: &'static str = "Videos via Vimeo or Wistia. Auth via browser cookies.";

pub const KAJABI_NAME: &'static str = "Kajabi";
pub const KAJABI_ID: &'static str = "kajabi";
pub const KAJABI_D1: &'static str = "kajabi.com";
pub const KAJABI_D2: &'static str = "mykajabi.com";
pub const KAJABI_NOTES: &'static str = "Videos via Wistia or Vimeo. Auth via browser cookies.";

pub const ROCKETSEAT_NAME: &'static str = "Rocketseat";
pub const ROCKETSEAT_ID: &'static str = "rocketseat";
pub const ROCKETSEAT_D1: &'static str = "rocketseat.com.br";
pub const ROCKETSEAT_D2: &'static str = "app.rocketseat.com.br";
pub const ROCKETSEAT_NOTES: &'static str = "Brazilian dev education platform. Videos via Panda Video CDN.";
pub const ROCKETSEAT_LOGIN: &'static str = "https://app.rocketseat.com.br/login";

pub const UNKNOWN_COURSE_ID: &'static str = "unknown_course";
pub const UNKNOWN_COURSE_NOTES: &'static str = "Detected as course URL by path pattern. Platform not in known database.";

/// An unsupported platform entry as values.
pub open spec fn unsupported_view(
    name: &str,
    id: &str,
    domains: Seq<Seq<char>>,
    extractor: Option<Seq<char>>,
    notes: &str,
    login: Option<Seq<char>>,
) -> PlatformView {
    PlatformView {
        name: name@,
        platform_id: id@,
        domains,
        support_status: StatusView::Unsupported { yt_dlp_extractor: extractor },
        notes: notes@,
        login_url: login,
    }
}

/// The catalogue of known course platforms, in order.
pub open spec fn known_platforms() -> Seq<PlatformView> {
    seq![
        PlatformView {
            name: ZTM_NAME@,
            platform_id: ZTM_ID@,
            domains: seq![ZTM_DOMAIN@],
            support_status: StatusView::Supported { since_version: ZTM_SINCE@ },
            notes: ZTM_NOTES@,
            login_url: Some(ZTM_LOGIN@),
        },
        unsupported_view(UDEMY_NAME, UDEMY_ID, seq![UDEMY_D1@, UDEMY_D2@], Some(UDEMY_EXTRACTOR@), UDEMY_NOTES, Some(UDEMY_LOGIN@)),
        unsupported_view(COURSERA_NAME, COURSERA_ID, seq![COURSERA_D1@, COURSERA_D2@], Some(COURSERA_EXTRACTOR@), COURSERA_NOTES, Some(COURSERA_LOGIN@)),
        unsupported_view(SKILLSHARE_NAME, SKILLSHARE_ID, seq![SKILLSHARE_D1@, SKILLSHARE_D2@], None, SKILLSHARE_NOTES, Some(SKILLSHARE_LOGIN@)),
        unsupported_view(LINKEDIN_NAME, LINKEDIN_ID, seq![LINKEDIN_D1@, LINKEDIN_D2@], Some(LINKEDIN_EXTRACTOR@), LINKEDIN_NOTES, Some(LINKEDIN_LOGIN@)),
        unsupported_view(PLURALSIGHT_NAME, PLURALSIGHT_ID, seq![PLURALSIGHT_D1@, PLURALSIGHT_D2@, PLURALSIGHT_D3@], Some(PLURALSIGHT_EXTRACTOR@), PLURALSIGHT_NOTES, Some(PLURALSIGHT_LOGIN@)),
        unsupported_view(TEACHABLE_NAME, TEACHABLE_ID, seq![TEACHABLE_D1@], Some(TEACHABLE_EXTRACTOR@), TEACHABLE_NOTES, None),
        unsupported_view(THINKIFIC_NAME, THINKIFIC_ID, seq![THINKIFIC_D1@], None, THINKIFIC_NOTES, None),
        unsupported_view(KAJABI_NAME, KAJABI_ID, seq![KAJABI_D1@, KAJABI_D2@], None, KAJABI_NOTES, None),
        unsupported_view(ROCKETSEAT_NAME, ROCKETSEAT_ID, seq![ROCKETSEAT_D1@, ROCKETSEAT_D2@], None, ROCKETSEAT_NOTES, Some(ROCKETSEAT_LOGIN@)),
    ]
}

fn owned(s: &str) -> (res: String)
    ensures
        res@ == s@,
{
    String::from_str(s)
}

fn owned_list2(a: &str, b: &str) -> (res: Vec<String>)
    ensures
        res@.map_values(|d: String| d@) == seq![a@, b@],
{
    let res = vec![owned(a), owned(b)];
    assert(res@.map_values(|d: String| d@) =~= seq![a@, b@]);
    res
}

fn owned_list1(a: &str) -> (res: Vec<String>)
    ensures
        res@.map_values(|d: String| d@) == seq![a@],
{
    let res = vec![owned(a)];
    assert(res@.map_values(|d: String| d@) =~= seq![a@]);
    res
}

fn unsupported(
    name: &str,
    id: &str,
    domains: Vec<String>,
    extractor: Option<&str>,
    notes: &str,
    login: Option<&str>,
) -> (res: KnownCoursePlatform)
    ensures
        res@ == unsupported_view(
            name,
            id,
            domains@.map_values(|d: String| d@),
            match extractor { Some(e) => Some(e@), None => None },
            notes,
            match login { Some(l) => Some(l@), None => None },
        ),
{
    KnownCoursePlatform {
        name: owned(name),
        platform_id: owned(id),
        domains,
        support_status: CoursePlatformStatus::Unsupported {
            yt_dlp_extractor: match extractor { Some(e) => Some(owned(e)), None => None },
        },
        notes: owned(notes),
        login_url: match login { Some(l) => Some(owned(l)), None => None },
    }
}

/// The catalogue of known course platforms and their support status.
pub fn all_known_platforms() -> (res: Vec<KnownCoursePlatform>)
    ensures
        res@.map_values(|p: KnownCoursePlatform| p@) == known_platforms(),
{
    let ztm = KnownCoursePlatform {
        name: owned(ZTM_NAME),
        platform_id: owned(ZTM_ID),
        domains: owned_list1(ZTM_DOMAIN),
        support_status: CoursePlatformStatus::Supported { since_version: owned(ZTM_SINCE) },
        notes: owned(ZTM_NOTES),
        login_url: Some(owned(ZTM_LOGIN)),
    };
    let pluralsight_domains = vec![owned(PLURALSIGHT_D1), owned(PLURALSIGHT_D2), owned(PLURALSIGHT_D3)];
    assert(pluralsight_domains@.map_values(|d: String| d@) =~= seq![PLURALSIGHT_D1@, PLURALSIGHT_D2@, PLURALSIGHT_D3@]);
    let res = vec![
        ztm,
        unsupported(UDEMY_NAME, UDEMY_ID, owned_list2(UDEMY_D1, UDEMY_D2), Some(UDEMY_EXTRACTOR), UDEMY_NOTES, Some(UDEMY_LOGIN)),
        unsupported(COURSERA_NAME, COURSERA_ID, owned_list2(COURSERA_D1, COURSERA_D2), Some(COURSERA_EXTRACTOR), COURSERA_NOTES, Some(COURSERA_LOGIN)),
        unsupported(SKILLSHARE_NAME, SKILLSHARE_ID, owned_list2(SKILLSHARE_D1, SKILLSHARE_D2), None, SKILLSHARE_NOTES, Some(SKILLSHARE_LOGIN)),
        unsupported(LINKEDIN_NAME, LINKEDIN_ID, owned_list2(LINKEDIN_D1, LINKEDIN_D2), Some(LINKEDIN_EXTRACTOR), LINKEDIN_NOTES, Some(LINKEDIN_LOGIN)),
        unsupported(PLURALSIGHT_NAME, PLURALSIGHT_ID, pluralsight_domains, Some(PLURALSIGHT_EXTRACTOR), PLURALSIGHT_NOTES, Some(PLURALSIGHT_LOGIN)),
        unsupported(TEACHABLE_NAME, TEACHABLE_ID, owned_list1(TEACHABLE_D1), Some(TEACHABLE_EXTRACTOR), TEACHABLE_NOTES, None),
        unsupported(THINKIFIC_NAME, THINKIFIC_ID, owned_list1(THINKIFIC_D1), None, THINKIFIC_NOTES, None),
        unsupported(KAJABI_NAME, KAJABI_ID, owned_list2(KAJABI_D1, KAJABI_D2), None, KAJABI_NOTES, None),
        unsupported(ROCKETSEAT_NAME, ROCKETSEAT_ID, owned_list2(ROCKETSEAT_D1, ROCKETSEAT_D2), None, ROCKETSEAT_NOTES, Some(ROCKETSEAT_LOGIN)),
    ];
    assert(res@.map_values(|p: KnownCoursePlatform| p@) =~= known_platforms());
    res
}

/// `host` is `domain` or one of its subdomains.
pub open spec fn domain_matches(host: Seq<char>, domain: Seq<char>) -> bool {
    host == domain || has_suffix(host, seq!['.'] + domain)
}

/// `host` matches one of `domains`.
pub open spec fn matches_any_domain(host: Seq<char>, domains: Seq<Seq<char>>) -> bool {
    exists|j: int| 0 <= j < domains.len() && domain_matches(host, #[trigger] domains[j])
}

/// The first platform of `platforms` one of whose domains `host` matches.
pub open spec fn first_platform_for(platforms: Seq<PlatformView>, host: Seq<char>) -> Option<PlatformView>
    decreases platforms.len(),
{
    if platforms.len() == 0 {
        None
    } else if matches_any_domain(host, platforms[0].domains) {
        Some(platforms[0])
    } else {
        first_platform_for(platforms.drop_first(), host)
    }
}

/// A lower-cased URL path that looks like a course page.
pub open spec fn looks_like_course_path(path: Seq<char>) -> bool {
    ||| contains_seq(path, "/courses/"@)
    ||| contains_seq(path, "/course/"@)
    ||| contains_seq(path, "/learn/"@)
    ||| contains_seq(path, "/curriculum/"@)
}

/// The entry made up for a course URL on a host outside the catalogue.
pub open spec fn unknown_platform_view(host: Seq<char>) -> PlatformView {
    PlatformView {
        name: host,
        platform_id: UNKNOWN_COURSE_ID@,
        domains: seq![host],
        support_status: StatusView::Unsupported { yt_dlp_extractor: None },
        notes: UNKNOWN_COURSE_NOTES@,
        login_url: None,
    }
}

/// The course platform a URL belongs to: the first catalogue entry whose
/// domain matches the URL's lower-cased host, or else, when the lower-cased
/// path looks like a course page, an unsupported entry for that host.
pub open spec fn detected_platform(url: Seq<char>) -> Option<PlatformView> {
    if !url_parses(url) {
        None
    } else {
        match url_host(url) {
            None => None,
            Some(h) => {
                let host = lowercase(h);
                match first_platform_for(known_platforms(), host) {
                    Some(p) => Some(p),
                    None => if looks_like_course_path(lowercase(url_path(url))) {
                        Some(unknown_platform_view(host))
                    } else {
                        None
                    },
                }
            },
        }
    }
}

/// Whether `host` is `domain` or ends with `.domain`.
fn host_matches_domain(host: &[char], domain: &String) -> (res: bool)
    ensures
        res == domain_matches(host@, domain@),
{
    let d = chars_of(domain.as_str());
    let mut dotted: Vec<char> = vec!['.'];
    push_str(&mut dotted, domain.as_str());
    assert(dotted@ =~= seq!['.'] + domain@);
    let same = d.len() == host.len() && crate::text::starts_with(host, &d);
    assert(same == (host@ == domain@)) by {
        assert(host@.subrange(0, host@.len() as int) =~= host@);
    };
    same || ends_with(host, &dotted)
}

/// Whether `host` matches one of the platform's domains.
fn platform_matches(host: &[char], platform: &KnownCoursePlatform) -> (res: bool)
    ensures
        res == matches_any_domain(host@, platform@.domains),
{
    let mut j: usize = 0;
    while j < platform.domains.len()
        invariant
            j <= platform.domains@.len(),
            forall|k: int| 0 <= k < j ==> !domain_matches(host@, #[trigger] platform@.domains[k]),
        decreases platform.domains@.len() - j,
    {
        if host_matches_domain(host, &platform.domains[j]) {
            assert(domain_matches(host@, platform@.domains[j as int]));
            return true;
        }
        j = j + 1;
    }
    false
}

/// The catalogue entry for a URL: the first known platform whose domain
/// matches the URL's host (or a subdomain of it); failing that, an
/// unsupported entry for the host when the path looks like a course page.
pub fn detect_course_platform(url: &str) -> (res: Option<KnownCoursePlatform>)
    ensures
        opt_platform_view(res) == detected_platform(url@),
{
    let parts = match parse_url(url) {
        Some(p) => p,
        None => return None,
    };
    let raw_host = match parts.host {
        Some(h) => h,
        None => return None,
    };
    assert(url_parses(url@));
    assert(url_host(url@) == Some(raw_host@));
    let host_string = to_lowercase(raw_host.as_str());
    let host = chars_of(host_string.as_str());
    let mut platforms = all_known_platforms();
    let ghost all = platforms@.map_values(|p: KnownCoursePlatform| p@);
    let mut i: usize = 0;
    assert(all.skip(0) =~= all);
    while i < platforms.len()
        invariant
            i <= platforms@.len(),
            all == platforms@.map_values(|p: KnownCoursePlatform| p@),
            all == known_platforms(),
            host@ == lowercase(raw_host@),
            url_parses(url@),
            url_host(url@) == Some(raw_host@),
            first_platform_for(all, host@) == first_platform_for(all.skip(i as int), host@),
        decreases platforms@.len() - i,
    {
        assert(all.skip(i as int)[0] == platforms@[i as int]@);
        assert(all.skip(i as int).drop_first() =~= all.skip(i + 1));
        if platform_matches(&host, &platforms[i]) {
            let found = platforms.remove(i);
            assert(found@ == all[i as int]);

            return Some(found);
        }
        i = i + 1;
    }
    assert(all.skip(i as int) =~= Seq::<PlatformView>::empty());
    assert(first_platform_for(known_platforms(), host@) is None);
    let path_string = to_lowercase(parts.path.as_str());
    let path = chars_of(path_string.as_str());
    let courses = chars_of("/courses/");
    let course = chars_of("/course/");
    let learn = chars_of("/learn/");
    let curriculum = chars_of("/curriculum/");
    if contains(&path, &courses) || contains(&path, &course) || contains(&path, &learn)
        || contains(&path, &curriculum) {
        let name = string_of(&host);
        let domain = string_of(&host);
        let domains = vec![domain];
        assert(domains@.map_values(|d: String| d@) =~= seq![host@]);
        Some(KnownCoursePlatform {
            name,
            platform_id: owned(UNKNOWN_COURSE_ID),
            domains,
            support_status: CoursePlatformStatus::Unsupported { yt_dlp_extractor: None },
            notes: owned(UNKNOWN_COURSE_NOTES),
            login_url: None,
        })
    } else {
        None
    }
}

/// Whether the URL is a course index page: its path holds `/courses/` but
/// not `/lectures/`.  A URL that does not parse is no course index.
pub open spec fn is_course_index(url: Seq<char>) -> bool {
    url_parses(url) && contains_seq(url_path(url), "/courses/"@)
        && !contains_seq(url_path(url), "/lectures/"@)
}

/// Returns true if the URL looks like a course (not just a single video lecture).
pub fn is_course_index_url(url: &str) -> (res: bool)
    ensures
        res == is_course_index(url@),
{
    match parse_url(url) {
        None => false,
        Some(parts) => {
            let path = chars_of(parts.path.as_str());
            let courses = chars_of("/courses/");
            let lectures = chars_of("/lectures/");
            contains(&path, &courses) && !contains(&path, &lectures)
        },
    }
}

/// The platform is not fully supported, so a task to add support can be
/// generated for it.
pub open spec fn can_generate_task_for(platform: Option<PlatformView>) -> bool {
    match platform {
        Some(p) => !(p.support_status is Supported),
        None => false,
    }
}

/// What is known of a URL, given whether a registered course downloader
/// handles it: it is a course URL when handled or when it maps to a
/// catalogue entry, and a task can be generated when that entry is not
/// supported.
pub fn build_course_platform_detection(url: &str, is_supported: bool) -> (res: CoursePlatformDetection)
    ensures
        res.is_supported == is_supported,
        res.is_course_url == (is_supported || detected_platform(url@) is Some),
        opt_platform_view(res.platform) == detected_platform(url@),
        res.can_generate_task == can_generate_task_for(detected_platform(url@)),
{
    let platform = detect_course_platform(url);
    let is_course_url = is_supported || platform.is_some();
    let can_generate_task = match &platform {
        Some(p) => match &p.support_status {
            CoursePlatformStatus::Supported { .. } => false,
            _ => true,
        },
        None => false,
    };
    CoursePlatformDetection { is_course_url, is_supported, platform, can_generate_task }
}

/// Some registered course downloader handles the URL.
pub open spec fn some_handles(answers: Seq<bool>) -> bool {
    exists|i: int| 0 <= i < answers.len() && answers[i]
}

/// What is known of a URL given each registered course downloader's answer
/// to whether it handles the URL: it is supported when one of them handles
/// it, a course URL when supported or mapped to a catalogue entry, and a task
/// can be generated when that entry is not supported.
pub fn detection_for_registry(url: &str, answers: &[bool]) -> (res: CoursePlatformDetection)
    ensures
        res.is_supported == some_handles(answers@),
        res.is_course_url == (some_handles(answers@) || detected_platform(url@) is Some),
        opt_platform_view(res.platform) == detected_platform(url@),
        res.can_generate_task == can_generate_task_for(detected_platform(url@)),
{
    let mut handled = false;
    let mut i: usize = 0;
    while i < answers.len()
        invariant
            i <= answers@.len(),
            handled == exists|j: int| 0 <= j < i && answers@[j],
        decreases answers@.len() - i,
    {
        if answers[i] {
            handled = true;
        }
        i = i + 1;
    }
    build_course_platform_detection(url, handled)
}

/// All known course platforms, supported or not.
pub fn get_supported_course_platforms() -> (res: Vec<KnownCoursePlatform>)
    ensures
        res@.map_values(|p: KnownCoursePlatform| p@) == known_platforms(),
{
    all_known_platforms()
}

} // verus!
