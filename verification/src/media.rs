//! Video qualities offered for a lecture and the decisions taken while a
//! lecture stream is downloaded.
use vstd::prelude::*;
use crate::models::{opt_view, VideoQuality};
use crate::text::{
    chars_of, contains, contains_seq, decimal, find_in, find_seq, has_prefix, lowercase,
    push_decimal, push_str, split, split_seq, starts_with, string_of, to_lowercase, trim, trim_seq,
};

verus! {

/// One format yt-dlp reports for a video: its height, width and video codec
/// as given (absent when not given).
pub struct FormatEntry {
    pub height: Option<u64>,
    pub width: Option<u64>,
    pub vcodec: Option<String>,
}

/// The height of a format, zero when absent, as a `u32` (truncating).
pub open spec fn format_height(f: FormatEntry) -> u32 {
    (match f.height { Some(h) => h, None => 0u64 }) as u32
}

/// The width of a format, zero when absent, as a `u32` (truncating).
pub open spec fn format_width(f: FormatEntry) -> u32 {
    (match f.width { Some(w) => w, None => 0u64 }) as u32
}

/// A format carries video: it has a codec other than `none` and a height.
pub open spec fn format_has_video(f: FormatEntry) -> bool {
    (match f.vcodec {
        Some(c) => c@ != "none"@,
        None => false,
    }) && format_height(f) != 0
}

/// The video formats kept, the first of each height, in the order given.
pub open spec fn kept_formats(fs: Seq<FormatEntry>) -> Seq<FormatEntry>
    decreases fs.len(),
{
    if fs.len() == 0 {
        Seq::<FormatEntry>::empty()
    } else {
        let prev = kept_formats(fs.drop_last());
        if format_has_video(fs.last()) && !prev.map_values(|f: FormatEntry| format_height(f)).contains(format_height(fs.last())) {
            prev.push(fs.last())
        } else {
            prev
        }
    }
}

/// The quality label of a height: the height followed by `p`.
pub open spec fn height_label(h: u32) -> Seq<char> {
    decimal(h as nat) + "p"@
}

/// `q` is the quality offered for the kept format `f`.
pub open spec fn quality_for(q: VideoQuality, f: FormatEntry, url: Seq<char>) -> bool {
    &&& q.height == format_height(f)
    &&& q.width == format_width(f)
    &&& q.label@ == height_label(q.height)
    &&& q.url@ == url
    &&& q.format@ == "ytdlp"@
}

/// The fallback quality offered when no format carries video.
pub open spec fn is_best_quality(q: VideoQuality, url: Seq<char>) -> bool {
    &&& q.label@ == "best"@
    &&& q.width == 0
    &&& q.height == 0
    &&& q.url@ == url
    &&& q.format@ == "ytdlp"@
}

fn vcodec_is_video(f: &FormatEntry) -> (res: bool)
    ensures
        res == match f.vcodec { Some(c) => c@ != "none"@, None => false },
{
    match &f.vcodec {
        Some(c) => !(*c == String::from_str("none")),
        None => false,
    }
}

fn quality_of(f: &FormatEntry, url: &str) -> (res: VideoQuality)
    ensures
        quality_for(res, *f, url@),
{
    let h: u64 = match f.height { Some(h) => h, None => 0 };
    let w: u64 = match f.width { Some(w) => w, None => 0 };
    let height = h as u32;
    let mut label: Vec<char> = Vec::new();
    push_decimal(&mut label, height as u64);
    push_str(&mut label, "p");
    VideoQuality {
        label: string_of(&label),
        width: w as u32,
        height,
        url: String::from_str(url),
        format: String::from_str("ytdlp"),
    }
}

/// The heights of `qs` strictly decrease.
pub open spec fn heights_decrease(qs: Seq<VideoQuality>) -> bool {
    forall|a: int, b: int| 0 <= a < b < qs.len() ==> qs[a].height > qs[b].height
}

/// Every quality of `qs` is offered for one of `kept`, and every format of
/// `kept` has its quality in `qs`.
pub open spec fn offers_exactly(qs: Seq<VideoQuality>, kept: Seq<FormatEntry>, url: Seq<char>) -> bool {
    &&& forall|k: int| 0 <= k < qs.len() ==> exists|m: int| 0 <= m < kept.len()
        && quality_for(#[trigger] qs[k], kept[m], url)
    &&& forall|m: int| 0 <= m < kept.len() ==> exists|k: int| 0 <= k < qs.len()
        && quality_for(qs[k], #[trigger] kept[m], url)
}

fn height_offered(qs: &Vec<VideoQuality>, h: u32) -> (res: bool)
    ensures
        res == exists|k: int| 0 <= k < qs@.len() && (#[trigger] qs@[k]).height == h,
{
    let mut k: usize = 0;
    while k < qs.len()
        invariant
            k <= qs@.len(),
            forall|m: int| 0 <= m < k ==> (#[trigger] qs@[m]).height != h,
        decreases qs@.len() - k,
    {
        if qs[k].height == h {
            return true;
        }
        k = k + 1;
    }
    false
}

/// Inserts `q` where the heights keep decreasing.
fn insert_by_height(qs: &mut Vec<VideoQuality>, q: VideoQuality)
    requires
        heights_decrease(old(qs)@),
        forall|k: int| 0 <= k < old(qs)@.len() ==> (#[trigger] old(qs)@[k]).height != q.height,
    ensures
        heights_decrease(final(qs)@),
        exists|pos: int| 0 <= pos <= old(qs)@.len()
            && final(qs)@ == old(qs)@.subrange(0, pos).push(q) + old(qs)@.subrange(pos, old(qs)@.len() as int),
{
    let mut pos: usize = 0;
    while pos < qs.len() && qs[pos].height > q.height
        invariant
            pos <= qs@.len(),
            forall|m: int| 0 <= m < pos ==> (#[trigger] qs@[m]).height > q.height,
        decreases qs@.len() - pos,
    {
        pos = pos + 1;
    }
    let ghost old_qs = qs@;
    let ghost qq = q;
    qs.insert(pos, q);
    assert(qs@ =~= old_qs.subrange(0, pos as int).push(qq) + old_qs.subrange(pos as int, old_qs.len() as int));
    assert forall|a: int, b: int| 0 <= a < b < qs@.len() implies qs@[a].height > qs@[b].height by {
        if b < pos {
        } else if a < pos && b == pos {
        } else if a < pos {
            assert(qs@[b] == old_qs[b - 1]);
        } else if a == pos {
            assert(qs@[b] == old_qs[b - 1]);
            assert(old_qs[pos as int].height < qq.height);
            if b - 1 > pos {
                assert(old_qs[pos as int].height > old_qs[b - 1].height);
            }
        } else {
            assert(qs@[a] == old_qs[a - 1]);
            assert(qs@[b] == old_qs[b - 1]);
        }
    }
}

proof fn lemma_offers_after_insert(
    old_qs: Seq<VideoQuality>,
    new_qs: Seq<VideoQuality>,
    pos: int,
    q: VideoQuality,
    kept: Seq<FormatEntry>,
    f: FormatEntry,
    url: Seq<char>,
)
    requires
        0 <= pos <= old_qs.len(),
        new_qs == old_qs.subrange(0, pos).push(q) + old_qs.subrange(pos, old_qs.len() as int),
        offers_exactly(old_qs, kept, url),
        quality_for(q, f, url),
    ensures
        offers_exactly(new_qs, kept.push(f), url),
{
    let kept1 = kept.push(f);
    assert forall|kk: int| 0 <= kk < new_qs.len() implies exists|m: int| 0 <= m < kept1.len()
        && quality_for(#[trigger] new_qs[kk], kept1[m], url) by {
        if kk == pos {
            assert(quality_for(new_qs[kk], kept1[kept.len() as int], url));
        } else {
            let src = if kk < pos { kk } else { kk - 1 };
            assert(new_qs[kk] == old_qs[src]);
            let m = choose|m: int| 0 <= m < kept.len() && quality_for(old_qs[src], kept[m], url);
            assert(kept1[m] == kept[m]);
        }
    }
    assert forall|m: int| 0 <= m < kept1.len() implies exists|kk: int| 0 <= kk < new_qs.len()
        && quality_for(new_qs[kk], #[trigger] kept1[m], url) by {
        if m == kept.len() {
            assert(quality_for(new_qs[pos], kept1[m], url));
        } else {
            assert(kept1[m] == kept[m]);
            let kk = choose|kk: int| 0 <= kk < old_qs.len() && quality_for(old_qs[kk], kept[m], url);
            if kk < pos {
                assert(new_qs[kk] == old_qs[kk]);
            } else {
                assert(new_qs[kk + 1] == old_qs[kk]);
            }
        }
    }
}

proof fn lemma_height_seen(qs: Seq<VideoQuality>, kept: Seq<FormatEntry>, url: Seq<char>, h: u32)
    requires
        offers_exactly(qs, kept, url),
    ensures
        kept.map_values(|g: FormatEntry| format_height(g)).contains(h)
            <==> exists|k: int| 0 <= k < qs.len() && (#[trigger] qs[k]).height == h,
{
    let hs = kept.map_values(|g: FormatEntry| format_height(g));
    if exists|k: int| 0 <= k < qs.len() && (#[trigger] qs[k]).height == h {
        let k = choose|k: int| 0 <= k < qs.len() && (#[trigger] qs[k]).height == h;
        let m = choose|m: int| 0 <= m < kept.len() && quality_for(qs[k], kept[m], url);
        assert(hs[m] == h);
    }
    if hs.contains(h) {
        let m = choose|m: int| 0 <= m < hs.len() && hs[m] == h;
        let k = choose|k: int| 0 <= k < qs.len() && quality_for(qs[k], kept[m], url);
        assert(qs[k].height == h);
    }
}

/// The qualities offered for a video from the formats yt-dlp reports: one
/// per distinct height among the formats that carry video (the first format
/// of each height), from the highest height down; a single `best` quality
/// when there is none.
pub fn qualities_from_formats(formats: &Vec<FormatEntry>, video_url: &str) -> (res: Vec<VideoQuality>)
    ensures
        ({
            let kept = kept_formats(formats@);
            if kept.len() == 0 {
                res@.len() == 1 && is_best_quality(res@[0], video_url@)
            } else {
                &&& res@.len() == kept.len()
                &&& heights_decrease(res@)
                &&& offers_exactly(res@, kept, video_url@)
            }
        }),
{
    let ghost fs = formats@;
    let mut res: Vec<VideoQuality> = Vec::new();
    let mut i: usize = 0;
    assert(fs.take(0) =~= Seq::<FormatEntry>::empty());
    while i < formats.len()
        invariant
            i <= fs.len(),
            fs == formats@,
            res@.len() == kept_formats(fs.take(i as int)).len(),
            heights_decrease(res@),
            offers_exactly(res@, kept_formats(fs.take(i as int)), video_url@),
        decreases fs.len() - i,
    {
        let f = &formats[i];
        let ghost kept0 = kept_formats(fs.take(i as int));
        assert(fs.take(i + 1).drop_last() =~= fs.take(i as int));
        assert(fs.take(i + 1).last() == *f);
        let q = quality_of(f, video_url);
        let usable = vcodec_is_video(f) && q.height != 0;
        let seen = height_offered(&res, q.height);
        proof {
            lemma_height_seen(res@, kept0, video_url@, q.height);
        }
        if usable && !seen {
            let ghost old_res = res@;
            let ghost qq = q;
            insert_by_height(&mut res, q);
            proof {
                let pos = choose|pos: int| 0 <= pos <= old_res.len()
                    && res@ == old_res.subrange(0, pos).push(qq) + old_res.subrange(pos, old_res.len() as int);
                lemma_offers_after_insert(old_res, res@, pos, qq, kept0, *f, video_url@);
                assert(kept_formats(fs.take(i + 1)) == kept0.push(*f));
            }
        } else {
            assert(kept_formats(fs.take(i + 1)) == kept0);
        }
        i = i + 1;
    }
    assert(fs.take(i as int) =~= fs);
    if res.len() == 0 {
        res.push(VideoQuality {
            label: String::from_str("best"),
            width: 0,
            height: 0,
            url: String::from_str(video_url),
            format: String::from_str("ytdlp"),
        });
    }
    res
}

/// The position of the first quality labelled `wanted`.
pub open spec fn first_label_index(qs: Seq<VideoQuality>, wanted: Seq<char>) -> Option<int>
    decreases qs.len(),
{
    if qs.len() == 0 {
        None
    } else {
        match first_label_index(qs.drop_last(), wanted) {
            Some(k) => Some(k),
            None => if qs.last().label@ == wanted { Some(qs.len() - 1) } else { None },
        }
    }
}

/// The quality chosen for a download: none when nothing is offered;
/// otherwise the first one with the wanted label, falling back to the first
/// offered.
pub open spec fn chosen_quality(qs: Seq<VideoQuality>, wanted: Option<Seq<char>>) -> Option<int> {
    if qs.len() == 0 {
        None
    } else {
        match wanted {
            Some(w) => match first_label_index(qs, w) {
                Some(k) => Some(k),
                None => Some(0),
            },
            None => Some(0),
        }
    }
}

/// The position of the quality to download.
pub fn select_quality(qualities: &Vec<VideoQuality>, wanted: Option<&str>) -> (res: Option<usize>)
    ensures
        match res {
            Some(k) => chosen_quality(qualities@, match wanted { Some(w) => Some(w@), None => None }) == Some(k as int),
            None => chosen_quality(qualities@, match wanted { Some(w) => Some(w@), None => None }) is None,
        },
{
    if qualities.len() == 0 {
        return None;
    }
    match wanted {
        None => Some(0),
        Some(w) => {
            let target = String::from_str(w);
            let mut k: usize = 0;
            while k < qualities.len()
                invariant
                    k <= qualities@.len(),
                    target@ == w@,
                    wanted == Some(w),
                    qualities@.len() > 0,
                    first_label_index(qualities@.take(k as int), w@) is None,
                decreases qualities@.len() - k,
            {
                assert(qualities@.take(k + 1).drop_last() =~= qualities@.take(k as int));
                if qualities[k].label == target {
                    assert(qualities@.take(k + 1).last() == qualities@[k as int]);
                    assert(first_label_index(qualities@.take(k + 1), w@) == Some(k as int));
                    proof {
                        lemma_first_label_prefix(qualities@, w@, k + 1);
                    }
                    return Some(k);
                }
                k = k + 1;
            }
            assert(qualities@.take(k as int) =~= qualities@);
            Some(0)
        },
    }
}

proof fn lemma_first_label_prefix(qs: Seq<VideoQuality>, w: Seq<char>, n: int)
    requires
        0 < n <= qs.len(),
        first_label_index(qs.take(n), w) is Some,
    ensures
        first_label_index(qs, w) == first_label_index(qs.take(n), w),
    decreases qs.len() - n,
{
    if n < qs.len() {
        assert(qs.take(n + 1).drop_last() =~= qs.take(n));
        lemma_first_label_prefix(qs, w, n + 1);
    } else {
        assert(qs.take(n) =~= qs);
    }
}

/// A failed download is retried with a freshly resolved stream when its
/// message, lower-cased, mentions `403` or `ffmpeg failed` and the lecture
/// page is known.
pub open spec fn should_reresolve(error_message: Seq<char>, has_page_url: bool) -> bool {
    let msg = lowercase(error_message);
    has_page_url && (contains_seq(msg, "403"@) || contains_seq(msg, "ffmpeg failed"@))
}

/// Whether a failed download is retried with a freshly resolved stream.
pub fn should_reresolve_stream(error_message: &str, has_page_url: bool) -> (res: bool)
    ensures
        res == should_reresolve(error_message@, has_page_url),
{
    let lower = to_lowercase(error_message);
    let msg = chars_of(lower.as_str());
    let forbidden = chars_of("403");
    let ffmpeg_failed = chars_of("ffmpeg failed");
    (contains(&msg, &forbidden) || contains(&msg, &ffmpeg_failed)) && has_page_url
}

/// The name the downloaded file is given: the file-name template unless it
/// is a yt-dlp template (holding `%(`), else the lecture title.
pub open spec fn effective_name(template: Option<Seq<char>>, title: Seq<char>) -> Seq<char> {
    match template {
        Some(t) => if contains_seq(t, "%("@) { title } else { t },
        None => title,
    }
}

/// The name the downloaded file is given, before sanitizing.
pub fn effective_output_name(template: Option<&str>, title: &str) -> (res: String)
    ensures
        res@ == effective_name(match template { Some(t) => Some(t@), None => None }, title@),
{
    match template {
        Some(t) => {
            let tc = chars_of(t);
            let marker = chars_of("%(");
            if contains(&tc, &marker) {
                String::from_str(title)
            } else {
                String::from_str(t)
            }
        },
        None => String::from_str(title),
    }
}

pub const FFMPEG_USER_AGENT: &'static str = "Mozilla/5.0 (Macintosh; Intel Mac OS X 10_15_7) AppleWebKit/537.36 (KHTML, like Gecko) Chrome/131.0.0.0 Safari/537.36";

/// The HTTP headers handed to ffmpeg for the stream: referer, the player's
/// origin, a browser user agent, accept headers, and the browser cookies
/// when there are any, each line ended by CR LF.
pub open spec fn ffmpeg_headers_text(referer: Seq<char>, cookie: Option<Seq<char>>) -> Seq<char> {
    "Referer: "@ + referer + "\r\nOrigin: https://player.hotmart.com\r\nUser-Agent: "@ + FFMPEG_USER_AGENT@
        + "\r\nAccept: */*\r\nAccept-Language: en-US,en;q=0.9\r\n"@ + match cookie {
        Some(c) => "Cookie: "@ + c + "\r\n"@,
        None => Seq::<char>::empty(),
    }
}

/// The HTTP headers handed to ffmpeg for the stream.
pub fn ffmpeg_headers(referer: &str, cookie: Option<&str>) -> (res: String)
    ensures
        res@ == ffmpeg_headers_text(referer@, match cookie { Some(c) => Some(c@), None => None }),
{
    let mut out = chars_of("Referer: ");
    push_str(&mut out, referer);
    push_str(&mut out, "\r\nOrigin: https://player.hotmart.com\r\nUser-Agent: ");
    push_str(&mut out, FFMPEG_USER_AGENT);
    push_str(&mut out, "\r\nAccept: */*\r\nAccept-Language: en-US,en;q=0.9\r\n");
    match cookie {
        Some(c) => {
            push_str(&mut out, "Cookie: ");
            push_str(&mut out, c);
            push_str(&mut out, "\r\n");
        },
        None => {},
    }
    proof {
        let ck = match cookie { Some(c) => Some(c@), None => None };
        assert(out@ =~= ffmpeg_headers_text(referer@, ck));
    }
    string_of(&out)
}

/// `s` with every leading repetition of `p` removed (`str::trim_start_matches`).
pub open spec fn strip_prefixes(s: Seq<char>, p: Seq<char>) -> Seq<char>
    decreases s.len(),
{
    if p.len() > 0 && has_prefix(s, p) {
        strip_prefixes(s.subrange(p.len() as int, s.len() as int), p)
    } else {
        s
    }
}

/// What a line of ffmpeg's progress output says.
#[derive(Debug, PartialEq)]
pub enum FfmpegLine {
    /// `out_time_us=...`: the microseconds written so far, as text.
    OutTime { micros: String },
    /// A `Duration:` line: the `h:m:s` text of the input's length.
    Duration { clock: String },
    /// `progress=end`.
    End,
    /// A line reporting an HTTP, input or file error.
    Error,
    /// Anything else.
    Other,
}

/// The line reports an error ffmpeg met.
pub open spec fn is_ffmpeg_error_line(l: Seq<char>) -> bool {
    ||| contains_seq(l, "HTTP error"@)
    ||| contains_seq(l, "Error opening"@)
    ||| contains_seq(l, "403"@)
    ||| contains_seq(l, "No such file"@)
    ||| contains_seq(l, "Invalid data"@)
}

/// The `h:m:s` text of a `Duration:` line: after the first `Duration:`,
/// trimmed, up to the first comma, trimmed.
pub open spec fn duration_clock_text(l: Seq<char>) -> Seq<char> {
    let after = split_seq(l, "Duration:"@)[1];
    trim_seq(split_seq(trim_seq(after), ","@)[0])
}

fn strip_prefixes_exec(s: &[char], p: &[char]) -> (res: Vec<char>)
    ensures
        res@ == strip_prefixes(s@, p@),
{
    if p.len() == 0 {
        return crate::text::slice_chars(s, 0, s.len());
    }
    let mut start: usize = 0;
    assert(s@.subrange(0, s@.len() as int) =~= s@);
    while start <= s.len() && p.len() <= s.len() - start && crate::text::matches_at(s, p, start)
        invariant
            p@.len() > 0,
            start <= s@.len(),
            strip_prefixes(s@, p@) == strip_prefixes(s@.subrange(start as int, s@.len() as int), p@),
        decreases s@.len() - start,
    {
        let ghost rest = s@.subrange(start as int, s@.len() as int);
        assert(rest.subrange(0, p@.len() as int) =~= s@.subrange(start as int, start + p@.len()));
        assert(rest.subrange(p@.len() as int, rest.len() as int) =~= s@.subrange(start + p@.len(), s@.len() as int));
        start = start + p.len();
    }
    let ghost rest = s@.subrange(start as int, s@.len() as int);
    proof {
        if p@.len() <= rest.len() {
            assert(rest.subrange(0, p@.len() as int) =~= s@.subrange(start as int, start + p@.len()));
        }
    }
    crate::text::slice_chars(s, start, s.len())
}

/// How a line of ffmpeg output reads, checked in this order: progress time
/// (`out_time_us=` prefix), duration (`Duration:` anywhere), end of progress
/// (`progress=end` prefix), error, anything else.
pub fn classify_ffmpeg_line(line: &str) -> (res: FfmpegLine)
    ensures
        ({
            let l = line@;
            if has_prefix(l, "out_time_us="@) {
                res matches FfmpegLine::OutTime { micros } && micros@ == strip_prefixes(l, "out_time_us="@)
            } else if contains_seq(l, "Duration:"@) {
                res matches FfmpegLine::Duration { clock } && clock@ == duration_clock_text(l)
            } else if has_prefix(l, "progress=end"@) {
                res is End
            } else if is_ffmpeg_error_line(l) {
                res is Error
            } else {
                res is Other
            }
        }),
{
    let l = chars_of(line);
    let out_time = chars_of("out_time_us=");
    let duration = chars_of("Duration:");
    proof {
        reveal_strlit("Duration:");
        reveal_strlit(",");
    }
    if starts_with(&l, &out_time) {
        let micros = strip_prefixes_exec(&l, &out_time);
        return FfmpegLine::OutTime { micros: string_of(&micros) };
    }
    if contains(&l, &duration) {
        let pieces = split(&l, &duration);
        proof {
            crate::text::lemma_find_from(l@, duration@, 0);
            assert(split_seq(l@, duration@).len() >= 2) by {
                let i = find_seq(l@, duration@)->0;
                assert(split_seq(l@, duration@) == seq![l@.subrange(0, i)]
                    + split_seq(l@.subrange(i + duration@.len(), l@.len() as int), duration@));
                crate::text::lemma_split_nonempty(l@.subrange(i + duration@.len(), l@.len() as int), duration@);
            };
        }
        let after = trim(&pieces[1]);
        let comma = chars_of(",");
        let parts = split(&after, &comma);
        proof {
            crate::text::lemma_split_nonempty(after@, comma@);
        }
        let clock = trim(&parts[0]);
        return FfmpegLine::Duration { clock: string_of(&clock) };
    }
    let end = chars_of("progress=end");
    if starts_with(&l, &end) {
        return FfmpegLine::End;
    }
    let m1 = chars_of("HTTP error");
    let m2 = chars_of("Error opening");
    let m3 = chars_of("403");
    let m4 = chars_of("No such file");
    let m5 = chars_of("Invalid data");
    if contains(&l, &m1) || contains(&l, &m2) || contains(&l, &m3) || contains(&l, &m4) || contains(&l, &m5) {
        FfmpegLine::Error
    } else {
        FfmpegLine::Other
    }
}

} // verus!
