//! Decisions and text of the command-line tool: byte sizes and durations
//! for display, the wanted video height, and whether a course command can
//! go ahead.
use vstd::prelude::*;
use crate::catalog::{detected_platform, detect_course_platform, opt_platform_view, PlatformView, StatusView};
use crate::models::{CoursePlatformStatus, KnownCoursePlatform};
use crate::text::{
    chars_of, contains, contains_seq, decimal, decimal2, push_decimal, push_str, string_of,
    trim_end_char, trim_end_char_seq,
};

verus! {

/// `2` to the power `k`.
pub open spec fn pow2(k: nat) -> nat
    decreases k,
{
    if k == 0 { 1 } else { 2 * pow2((k - 1) as nat) }
}

/// The number of binary digits of `n`.
pub open spec fn bit_len(n: nat) -> nat
    decreases n,
{
    if n == 0 { 0 } else { 1 + bit_len(n / 2) }
}

/// `num / den` rounded to the nearest integer, ties to the even one.
pub open spec fn round_half_even(num: nat, den: nat) -> nat
    recommends
        den > 0,
{
    let q = num / den;
    let r = num % den;
    if 2 * r > den || (2 * r == den && q % 2 == 1) { q + 1 } else { q }
}

/// `n` as an `f64` holds it: rounded to 53 significant bits, ties to even.
pub open spec fn as_f64_value(n: nat) -> nat {
    if n < pow2(53) {
        n
    } else {
        let shift = (bit_len(n) - 53) as nat;
        round_half_even(n, pow2(shift)) * pow2(shift)
    }
}

/// `units / 10^digits` written with `digits` decimals.
pub open spec fn fixed_point(units: nat, scale: nat, digits: nat) -> Seq<char>
    recommends
        scale > 0,
{
    let whole = units / scale;
    let frac = units % scale;
    decimal(whole) + "."@ + if digits == 2 { decimal2(frac) } else { decimal(frac) }
}

/// A byte count for display: whole bytes below 1 KiB, else KiB or MiB with
/// one decimal, else GiB with two, rounding as `f64` formatting does (the
/// exact value of the `f64`, ties to even).
pub open spec fn byte_size_text(bytes: nat) -> Seq<char> {
    if bytes < 1024 {
        decimal(bytes) + " B"@
    } else if bytes < 1024 * 1024 {
        fixed_point(round_half_even(bytes * 10, 1024), 10, 1) + " KB"@
    } else if bytes < 1024 * 1024 * 1024 {
        fixed_point(round_half_even(bytes * 10, 1024 * 1024), 10, 1) + " MB"@
    } else {
        fixed_point(round_half_even(as_f64_value(bytes) * 100, 1024 * 1024 * 1024), 100, 2) + " GB"@
    }
}

fn round_half_even_exec(num: u128, den: u128) -> (res: u128)
    requires
        den > 0,
        num / den < u128::MAX,
    ensures
        res == round_half_even(num as nat, den as nat),
{
    let q = num / den;
    let r = num % den;
    if r > den - r || (r == den - r && q % 2 == 1) { q + 1 } else { q }
}

fn push_fixed(out: &mut Vec<char>, units: u128, scale: u128, digits: u8)
    requires
        scale == 10 || scale == 100,
        digits == 1 || digits == 2,
        (digits == 2) == (scale == 100),
        units / scale <= u64::MAX,
    ensures
        final(out)@ == old(out)@ + fixed_point(units as nat, scale as nat, digits as nat),
{
    let ghost o = out@;
    let whole = (units / scale) as u64;
    let frac = (units % scale) as u64;
    assert(whole as nat == units as nat / scale as nat);
    assert(frac as nat == units as nat % scale as nat);
    push_decimal(out, whole);
    out.push('.');
    let ghost mid = out@;
    assert(mid == o + decimal(whole as nat) + "."@) by {
        reveal_strlit(".");
        assert(mid =~= o + decimal(whole as nat) + "."@);
    };
    if digits == 2 && frac < 10 {
        out.push('0');
    }
    push_decimal(out, frac);
    assert(out@ =~= o + fixed_point(units as nat, scale as nat, digits as nat));
}

proof fn lemma_pow2_positive(k: nat)
    ensures
        pow2(k) >= 1,
    decreases k,
{
    if k > 0 {
        lemma_pow2_positive((k - 1) as nat);
    }
}

proof fn lemma_pow2_bound(n: nat)
    ensures
        n < pow2(bit_len(n)),
        n > 0 ==> pow2((bit_len(n) - 1) as nat) <= n,
    decreases n,
{
    if n > 0 {
        lemma_pow2_bound(n / 2);
        lemma_pow2_positive(bit_len(n / 2));
    }
}

proof fn lemma_pow2_mono(a: nat, b: nat)
    requires
        a <= b,
    ensures
        pow2(a) <= pow2(b),
    decreases b,
{
    if a < b {
        lemma_pow2_mono(a, (b - 1) as nat);
    }
}

proof fn lemma_pow2_add(a: nat, b: nat)
    ensures
        pow2(a + b) == pow2(a) * pow2(b),
    decreases a,
{
    if a > 0 {
        lemma_pow2_add((a - 1) as nat, b);
        assert(pow2(a) == 2 * pow2((a - 1) as nat));
        assert(((a - 1) as nat + b) == (a + b - 1) as nat);
        assert(pow2(a + b) == 2 * pow2((a + b - 1) as nat));
        assert(2 * (pow2((a - 1) as nat) * pow2(b)) == (2 * pow2((a - 1) as nat)) * pow2(b)) by (nonlinear_arith);
    } else {
        assert(pow2(0) == 1);
        assert(a + b == b);
    }
}

proof fn lemma_pow2_values()
    ensures
        pow2(10) == 1024,
        pow2(11) == 2048,
        pow2(53) == 0x20_0000_0000_0000,
        pow2(64) == 0x1_0000_0000_0000_0000,
{
    reveal_with_fuel(pow2, 12);
    assert(pow2(10) == 1024);
    assert(pow2(11) == 2048);
    lemma_pow2_add(10, 10);
    lemma_pow2_add(20, 10);
    lemma_pow2_add(30, 10);
    lemma_pow2_add(40, 10);
    lemma_pow2_add(50, 3);
    assert(pow2(3) == 8);
    lemma_pow2_add(53, 11);
}

/// The value an `f64` made from `n` holds.
fn as_f64_value_exec(n: u64) -> (res: u128)
    ensures
        res == as_f64_value(n as nat),
        res <= pow2(64),
{
    proof {
        lemma_pow2_values();
    }
    if n < 0x20_0000_0000_0000 {
        proof {
            assert(pow2(53) <= pow2(64)) by {
                lemma_pow2_mono(53, 64);
            };
        }
        return n as u128;
    }
    proof {
        lemma_pow2_bound(n as nat);
        assert(bit_len(n as nat) >= 54) by {
            if bit_len(n as nat) < 54 {
                lemma_pow2_mono(bit_len(n as nat), 53);
            }
        };
        assert(bit_len(n as nat) <= 64) by {
            if bit_len(n as nat) > 64 {
                lemma_pow2_mono(64, (bit_len(n as nat) - 1) as nat);
            }
        };
    }
    // the number of binary digits
    let mut len: u32 = 0;
    let mut x: u64 = n;
    while x > 0
        invariant
            bit_len(n as nat) <= 64,
            bit_len(n as nat) == len + bit_len(x as nat),
        decreases x,
    {
        x = x / 2;
        len = len + 1;
    }
    let shift = len - 53;
    let mut d: u128 = 1;
    let mut k: u32 = 0;
    while k < shift
        invariant
            k <= shift <= 11,
            d == pow2(k as nat),
            pow2(11) == 2048,
        decreases shift - k,
    {
        proof {
            lemma_pow2_mono((k + 1) as nat, 11);
            assert(pow2((k + 1) as nat) == 2 * pow2(k as nat));
        }
        d = d * 2;
        k = k + 1;
    }
    proof {
        lemma_pow2_positive(shift as nat);
        lemma_pow2_add(53, shift as nat);
        lemma_pow2_bound(n as nat);
        assert((n as nat) / (d as nat) < pow2(53)) by {
            assert((n as nat) < pow2(53) * d) by {
                assert(pow2(bit_len(n as nat)) == pow2(53) * pow2(shift as nat));
            };
            assert((n as nat) / (d as nat) < pow2(53)) by (nonlinear_arith)
                requires (n as nat) < pow2(53) * (d as nat), d > 0;
        };
    }
    let m = round_half_even_exec(n as u128, d);
    proof {
        assert(m <= pow2(53));
        assert(m * d <= pow2(53) * pow2(shift as nat)) by (nonlinear_arith)
            requires m <= pow2(53), d == pow2(shift as nat);
        lemma_pow2_mono((53 + shift) as nat, 64);
    }
    m * d
}

/// Formats a byte count for display (`512 B`, `1.5 KB`, `2.0 MB`, `1.25 GB`).
pub fn format_bytes(bytes: u64) -> (res: String)
    ensures
        res@ == byte_size_text(bytes as nat),
{
    let mut out: Vec<char> = Vec::new();
    if bytes < 1024 {
        push_decimal(&mut out, bytes);
        push_str(&mut out, " B");
    } else if bytes < 1024 * 1024 {
        let units = round_half_even_exec((bytes as u128) * 10, 1024);
        push_fixed(&mut out, units, 10, 1);
        push_str(&mut out, " KB");
    } else if bytes < 1024 * 1024 * 1024 {
        let units = round_half_even_exec((bytes as u128) * 10, 1024 * 1024);
        push_fixed(&mut out, units, 10, 1);
        push_str(&mut out, " MB");
    } else {
        let v = as_f64_value_exec(bytes);
        proof {
            lemma_pow2_values();
        }
        let units = round_half_even_exec(v * 100, 1024 * 1024 * 1024);
        push_fixed(&mut out, units, 100, 2);
        push_str(&mut out, " GB");
    }
    string_of(&out)
}

/// A whole number of seconds as a clock: `h:mm:ss` from one hour on, else
/// `m:ss`.
pub open spec fn clock_text(secs: nat) -> Seq<char> {
    let h = secs / 3600;
    let m = (secs % 3600) / 60;
    let s = secs % 60;
    if h > 0 {
        decimal(h) + ":"@ + decimal2(m) + ":"@ + decimal2(s)
    } else {
        decimal(m) + ":"@ + decimal2(s)
    }
}

fn push_two_digits(out: &mut Vec<char>, n: u64)
    ensures
        final(out)@ == old(out)@ + decimal2(n as nat),
{
    if n < 10 {
        out.push('0');
    }
    push_decimal(out, n);
    proof {
        let ghost o = old(out)@;
        assert(out@ =~= o + decimal2(n as nat));
    }
}

/// Formats a whole number of seconds as a clock (`1:05:12`, `5:43`).
pub fn format_clock(secs: u64) -> (res: String)
    ensures
        res@ == clock_text(secs as nat),
{
    let h = secs / 3600;
    let m = (secs % 3600) / 60;
    let s = secs % 60;
    let mut out: Vec<char> = Vec::new();
    proof {
        reveal_strlit(":");
    }
    if h > 0 {
        push_decimal(&mut out, h);
        out.push(':');
        let ghost a = out@;
        assert(a =~= decimal(h as nat) + ":"@);
        push_two_digits(&mut out, m);
        out.push(':');
        let ghost b = out@;
        assert(b =~= decimal(h as nat) + ":"@ + decimal2(m as nat) + ":"@);
        push_two_digits(&mut out, s);
    } else {
        push_decimal(&mut out, m);
        out.push(':');
        let ghost a = out@;
        assert(a =~= decimal(m as nat) + ":"@);
        push_two_digits(&mut out, s);
    }
    assert(out@ =~= clock_text(secs as nat));
    string_of(&out)
}

/// The numeric value of a run of decimal digits.
pub open spec fn digits_value(d: Seq<char>) -> nat
    decreases d.len(),
{
    if d.len() == 0 {
        0
    } else {
        digits_value(d.drop_last()) * 10 + ((d.last() as u32) - ('0' as u32)) as nat
    }
}

/// What `u32`'s `FromStr` accepts: an optional `+`, then at least one
/// decimal digit, the value fitting in 32 bits.
pub open spec fn parsed_u32(s: Seq<char>) -> Option<u32> {
    let d = if s.len() > 0 && s[0] == '+' { s.drop_first() } else { s };
    if d.len() > 0 && crate::duration::all_digits(d) && digits_value(d) <= u32::MAX {
        Some(digits_value(d) as u32)
    } else {
        None
    }
}

proof fn lemma_digits_value_grows(d: Seq<char>, k: int)
    requires
        0 <= k <= d.len(),
        crate::duration::all_digits(d),
    ensures
        digits_value(d.take(k)) <= digits_value(d),
    decreases d.len() - k,
{
    if k < d.len() {
        lemma_digits_value_grows(d, k + 1);
        assert(d.take(k + 1).drop_last() =~= d.take(k));
    } else {
        assert(d.take(k) =~= d);
    }
}

/// Parses a `u32` as `str::parse::<u32>` does.
pub fn parse_u32(s: &[char]) -> (res: Option<u32>)
    ensures
        res == parsed_u32(s@),
{
    let start: usize = if s.len() > 0 && s[0] == '+' { 1 } else { 0 };
    let ghost d = if s@.len() > 0 && s@[0] == '+' { s@.drop_first() } else { s@ };
    assert(d =~= s@.subrange(start as int, s@.len() as int));
    if start == s.len() {
        return None;
    }
    let mut value: u64 = 0;
    let mut k: usize = start;
    while k < s.len()
        invariant
            start <= k <= s@.len(),
            d == s@.subrange(start as int, s@.len() as int),
            d == (if s@.len() > 0 && s@[0] == '+' { s@.drop_first() } else { s@ }),
            d.len() > 0,
            crate::duration::all_digits(d.take(k - start)),
            value == digits_value(d.take(k - start)),
            value <= u32::MAX,
        decreases s@.len() - k,
    {
        let c = s[k];
        assert(d[k - start] == c);
        if !('0' <= c && c <= '9') {
            assert(!crate::duration::is_digit(d[k - start]));
            assert(!crate::duration::all_digits(d));
            return None;
        }
        let digit = (c as u32) - ('0' as u32);
        assert(d.take(k - start + 1).drop_last() =~= d.take(k - start));
        assert(d.take(k - start + 1).last() == c);
        let next = value * 10 + digit as u64;
        assert(next == digits_value(d.take(k - start + 1)));
        if next > 0xffff_ffff {
            proof {
                if crate::duration::all_digits(d) {
                    lemma_digits_value_grows(d, k - start + 1);
                }
            }
            return None;
        }
        value = next;
        k = k + 1;
    }
    assert(d.take(k - start) =~= d);
    Some(value as u32)
}

/// The video height asked for: the quality text without trailing `p`s,
/// read as a number (`1080p` asks for 1080).
pub open spec fn wanted_height(quality: Option<Seq<char>>) -> Option<u32> {
    match quality {
        Some(q) => parsed_u32(trim_end_char_seq(q, 'p')),
        None => None,
    }
}

/// The video height asked for by a quality such as `1080p`.
pub fn quality_height(quality: Option<&str>) -> (res: Option<u32>)
    ensures
        res == wanted_height(match quality { Some(q) => Some(q@), None => None }),
{
    match quality {
        Some(q) => parse_u32(&trim_end_char(&chars_of(q), 'p')),
        None => None,
    }
}

/// Whether a course command can go ahead.
#[derive(Debug, PartialEq)]
pub enum CourseCommandCheck {
    /// The platform is not supported; its name, or `this platform`.
    Unsupported { platform_name: String },
    /// The platform is supported but the URL is not on the academy.
    OtherPlatform,
    /// The course can be fetched.
    Ready,
}

/// The URL maps to a supported catalogue entry.
pub open spec fn is_supported_platform(p: Option<PlatformView>) -> bool {
    match p {
        Some(v) => v.support_status is Supported,
        None => false,
    }
}

/// Whether a course command can go ahead: the URL must map to a supported
/// platform, and be on the academy.
pub fn check_course_command(url: &str) -> (res: CourseCommandCheck)
    ensures
        ({
            let p = detected_platform(url@);
            if !is_supported_platform(p) {
                res matches CourseCommandCheck::Unsupported { platform_name } && platform_name@ == match p {
                    Some(v) => v.name,
                    None => "this platform"@,
                }
            } else if !contains_seq(url@, crate::ztm::ZTM_HOST@) {
                res is OtherPlatform
            } else {
                res is Ready
            }
        }),
{
    let known = detect_course_platform(url);
    let supported = match &known {
        Some(p) => match &p.support_status {
            CoursePlatformStatus::Supported { .. } => true,
            _ => false,
        },
        None => false,
    };
    if !supported {
        let platform_name = match known {
            Some(p) => p.name,
            None => String::from_str("this platform"),
        };
        return CourseCommandCheck::Unsupported { platform_name };
    }
    if !contains(&chars_of(url), &chars_of(crate::ztm::ZTM_HOST)) {
        return CourseCommandCheck::OtherPlatform;
    }
    CourseCommandCheck::Ready
}

/// What the command line needs to write the task file for a URL.
pub struct CliTask {
    pub platform_name: String,
    pub platform_id: String,
    pub file_name: String,
    /// The domain named in the task file.
    pub domain: String,
}

/// The domain named in the task file: the platform's first domain, or empty.
pub open spec fn first_domain(p: PlatformView) -> Seq<char> {
    if p.domains.len() > 0 { p.domains[0] } else { Seq::<char>::empty() }
}

/// What the task file for the platform of a URL is made from; the message
/// when the URL maps to no platform.
pub fn cli_task_for(url: &str) -> (res: Result<CliTask, String>)
    ensures
        match res {
            Ok(t) => detected_platform(url@) matches Some(p) && {
                &&& t.platform_name@ == p.name
                &&& t.platform_id@ == p.platform_id
                &&& t.file_name@ == crate::tasks::task_file_name_text(p.platform_id)
                &&& t.domain@ == first_domain(p)
            },
            Err(msg) => detected_platform(url@) is None && msg@ == "Could not detect course platform for URL: "@ + url@,
        },
{
    match detect_course_platform(url) {
        None => {
            let mut out = chars_of("Could not detect course platform for URL: ");
            push_str(&mut out, url);
            Err(string_of(&out))
        },
        Some(p) => {
            let domain = if p.domains.len() > 0 { p.domains[0].clone() } else { String::new() };
            let file_name = crate::tasks::task_file_name(p.platform_id.as_str());
            Ok(CliTask { platform_name: p.name, platform_id: p.platform_id, file_name, domain })
        },
    }
}

} // verus!
