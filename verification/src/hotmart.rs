//! The addresses of the academy's video API and of the video player, and
//! how the answers of these services are judged.
use vstd::prelude::*;
use crate::models::HotmartCredentials;
use crate::text::{chars_of, push_str, string_of};
use crate::url_parts::{parse_url, url_host, url_parses, url_scheme};

verus! {

/// The address of the academy's API that hands out the player credentials
/// for an attachment.
pub open spec fn credentials_api_url_text(base_url: Seq<char>, attachment_id: Seq<char>) -> Seq<char> {
    base_url + "/api/v2/hotmart/private_video?attachment_id="@ + attachment_id
}

/// The address of the credentials API for an attachment.
pub fn credentials_api_url(base_url: &str, attachment_id: &str) -> (res: String)
    ensures
        res@ == credentials_api_url_text(base_url@, attachment_id@),
{
    let mut out = chars_of(base_url);
    push_str(&mut out, "/api/v2/hotmart/private_video?attachment_id=");
    push_str(&mut out, attachment_id);
    string_of(&out)
}

/// The address of the video player's embed page for the credentials.
pub open spec fn embed_url_text(c: HotmartCredentials) -> Seq<char> {
    "https://player.hotmart.com/embed/"@ + c.video_id@ + "?signature="@ + c.signature@ + "&token="@
        + c.teachable_application_key@ + "&user="@
}

/// The address of the video player's embed page.
pub fn hotmart_embed_url(creds: &HotmartCredentials) -> (res: String)
    ensures
        res@ == embed_url_text(*creds),
{
    let mut out = chars_of("https://player.hotmart.com/embed/");
    push_str(&mut out, creds.video_id.as_str());
    push_str(&mut out, "?signature=");
    push_str(&mut out, creds.signature.as_str());
    push_str(&mut out, "&token=");
    push_str(&mut out, creds.teachable_application_key.as_str());
    push_str(&mut out, "&user=");
    string_of(&out)
}

/// How an HTTP status is judged.
#[derive(Debug, PartialEq, Eq, Structural)]
pub enum StatusCheck {
    /// 401 or 403: the session is missing or expired.
    NotAuthenticated,
    /// Any other status outside 200 to 299.
    Failed,
    /// A status from 200 to 299.
    Success,
}

/// How an HTTP status is judged: 401 and 403 mean no session, 200 to 299
/// success, anything else failure.
pub fn check_status(status: u16) -> (res: StatusCheck)
    ensures
        res == (if status == 401 || status == 403 {
            StatusCheck::NotAuthenticated
        } else if 200 <= status <= 299 {
            StatusCheck::Success
        } else {
            StatusCheck::Failed
        }),
{
    if status == 401 || status == 403 {
        StatusCheck::NotAuthenticated
    } else if 200 <= status && status <= 299 {
        StatusCheck::Success
    } else {
        StatusCheck::Failed
    }
}

/// The origin of a URL: its scheme, `://` and host (empty when it has none);
/// nothing when it does not parse.
pub open spec fn origin_text(url: Seq<char>) -> Option<Seq<char>> {
    if url_parses(url) {
        Some(url_scheme(url) + "://"@ + match url_host(url) {
            Some(h) => h,
            None => Seq::<char>::empty(),
        })
    } else {
        None
    }
}

/// The origin (`scheme://host`) of a URL.
pub fn url_origin(url: &str) -> (res: Option<String>)
    ensures
        match res {
            Some(o) => origin_text(url@) == Some(o@),
            None => origin_text(url@) is None,
        },
{
    match parse_url(url) {
        None => None,
        Some(parts) => {
            let mut out = chars_of(parts.scheme.as_str());
            push_str(&mut out, "://");
            match &parts.host {
                Some(h) => push_str(&mut out, h.as_str()),
                None => {},
            }
            proof {
                let h = match url_host(url@) { Some(h) => h, None => Seq::<char>::empty() };
                assert(out@ =~= url_scheme(url@) + "://"@ + h);
            }
            Some(string_of(&out))
        },
    }
}

/// The cookie that carries the academy session: `_teachable_session=` and
/// the session value.
pub fn session_cookie_pair(session: &str) -> (res: String)
    ensures
        res@ == crate::browser::COOKIE_NAME@ + "="@ + session@,
{
    let mut out = chars_of(crate::browser::COOKIE_NAME);
    push_str(&mut out, "=");
    push_str(&mut out, session);
    string_of(&out)
}

} // verus!
