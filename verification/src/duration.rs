//! Which lecture-length texts such as `5:43` or `1:05:12` read as a
//! duration: two or three colon-separated parts, each a number as `f64`
//! parsing accepts it.
use vstd::prelude::*;
use crate::text::{chars_of, split, split_seq};

verus! {

/// `c` is an ASCII decimal digit.
pub open spec fn is_digit(c: char) -> bool {
    '0' <= c && c <= '9'
}

/// Every character of `s` is a decimal digit.
pub open spec fn all_digits(s: Seq<char>) -> bool {
    forall|i: int| 0 <= i < s.len() ==> is_digit(#[trigger] s[i])
}

/// `c` is the lower-case ASCII letter `w` or its upper-case form.
pub open spec fn same_letter(c: char, w: char) -> bool {
    c == w || ('a' <= w && w <= 'z' && (w as u32) >= 32 && (c as u32) == (w as u32) - 32)
}

/// `s` equals the lower-case ASCII word `w` ignoring ASCII case.
pub open spec fn equals_ignoring_case(s: Seq<char>, w: Seq<char>) -> bool {
    s.len() == w.len() && forall|i: int| 0 <= i < s.len() ==> same_letter(#[trigger] s[i], w[i])
}

/// The digits of a number, with at most one decimal point and at least one
/// digit: `Digit+ | Digit+ '.' Digit* | Digit* '.' Digit+`.
pub open spec fn is_mantissa(m: Seq<char>) -> bool {
    ||| (m.len() > 0 && all_digits(m))
    ||| exists|k: int| 0 <= k < m.len() && m[k] == '.' && all_digits(m.subrange(0, k))
            && all_digits(m.subrange(k + 1, m.len() as int)) && m.len() > 1
}

/// An exponent after the `e`: `Sign? Digit+`.
pub open spec fn is_exponent_digits(x: Seq<char>) -> bool {
    let d = if x.len() > 0 && (x[0] == '+' || x[0] == '-') { x.drop_first() } else { x };
    d.len() > 0 && all_digits(d)
}

/// The first position of an `e` or `E` at or after `i`.
pub open spec fn first_exp_from(s: Seq<char>, i: int) -> Option<int>
    decreases s.len() - i,
{
    if i < 0 || i >= s.len() {
        None
    } else if s[i] == 'e' || s[i] == 'E' {
        Some(i)
    } else {
        first_exp_from(s, i + 1)
    }
}

/// A number without its sign: `Mantissa Exp?`.
pub open spec fn is_unsigned_number(b: Seq<char>) -> bool {
    match first_exp_from(b, 0) {
        None => is_mantissa(b),
        Some(k) => is_mantissa(b.subrange(0, k)) && is_exponent_digits(b.subrange(k + 1, b.len() as int)),
    }
}

/// The text is one that `f64`'s `FromStr` accepts, by the grammar its
/// documentation gives (read with ASCII letters in either case):
/// `Sign? ('inf' | 'infinity' | 'nan' | Number)`.
pub open spec fn is_float_literal(s: Seq<char>) -> bool {
    let b = if s.len() > 0 && (s[0] == '+' || s[0] == '-') { s.drop_first() } else { s };
    ||| equals_ignoring_case(b, "inf"@)
    ||| equals_ignoring_case(b, "infinity"@)
    ||| equals_ignoring_case(b, "nan"@)
    ||| is_unsigned_number(b)
}

/// The text reads as a lecture length: two (`m:s`) or three (`h:m:s`)
/// colon-separated parts, each a number.
pub open spec fn is_duration_text(s: Seq<char>) -> bool {
    let parts = split_seq(s, seq![':']);
    (parts.len() == 2 || parts.len() == 3)
        && forall|i: int| 0 <= i < parts.len() ==> is_float_literal(#[trigger] parts[i])
}

/// An optional lecture length that reads as one.
pub open spec fn is_some_duration(d: Option<Seq<char>>) -> bool {
    match d {
        Some(s) => is_duration_text(s),
        None => false,
    }
}

fn is_ascii_digit(c: char) -> (res: bool)
    ensures
        res == is_digit(c),
{
    '0' <= c && c <= '9'
}

fn digits_between(s: &[char], from: usize, to: usize) -> (res: bool)
    requires
        from <= to <= s@.len(),
    ensures
        res == all_digits(s@.subrange(from as int, to as int)),
{
    let mut k = from;
    while k < to
        invariant
            from <= k <= to <= s@.len(),
            forall|i: int| from <= i < k ==> is_digit(#[trigger] s@[i]),
        decreases to - k,
    {
        if !is_ascii_digit(s[k]) {
            assert(s@.subrange(from as int, to as int)[k - from] == s@[k as int]);
            return false;
        }
        k = k + 1;
    }
    assert forall|i: int| 0 <= i < to - from implies is_digit(#[trigger] s@.subrange(from as int, to as int)[i]) by {
        assert(s@.subrange(from as int, to as int)[i] == s@[from + i]);
    }
    true
}

fn same_letter_exec(c: char, w: char) -> (res: bool)
    ensures
        res == same_letter(c, w),
{
    c == w || ('a' <= w && w <= 'z' && (w as u32) >= 32 && (c as u32) == (w as u32) - 32)
}

fn word_ignoring_case(s: &[char], from: usize, w: &str) -> (res: bool)
    requires
        from <= s@.len(),
    ensures
        res == equals_ignoring_case(s@.subrange(from as int, s@.len() as int), w@),
{
    let wc = chars_of(w);
    if s.len() - from != wc.len() {
        return false;
    }
    let mut k: usize = 0;
    while k < wc.len()
        invariant
            from + wc@.len() == s@.len(),
            wc@ == w@,
            k <= wc@.len(),
            forall|i: int| 0 <= i < k ==> same_letter(#[trigger] s@[from + i], wc@[i]),
        decreases wc@.len() - k,
    {
        assert(from + k < s.len());
        if !same_letter_exec(s[from + k], wc[k]) {
            assert(s@.subrange(from as int, s@.len() as int)[k as int] == s@[from + k]);
            return false;
        }
        k = k + 1;
    }
    assert forall|i: int| 0 <= i < wc@.len() implies same_letter(#[trigger] s@.subrange(from as int, s@.len() as int)[i], w@[i]) by {
        assert(s@.subrange(from as int, s@.len() as int)[i] == s@[from + i]);
    }
    true
}

fn mantissa_ok(s: &[char], from: usize, to: usize) -> (res: bool)
    requires
        from <= to <= s@.len(),
    ensures
        res == is_mantissa(s@.subrange(from as int, to as int)),
{
    let ghost m = s@.subrange(from as int, to as int);
    if from == to {
        return false;
    }
    let mut dot: usize = from;
    while dot < to && s[dot] != '.'
        invariant
            from <= dot <= to <= s@.len(),
            forall|i: int| from <= i < dot ==> s@[i] != '.',
        decreases to - dot,
    {
        dot = dot + 1;
    }
    if dot == to {
        let r = digits_between(s, from, to);
        proof {
            if !r {
                assert forall|k: int| 0 <= k < m.len() && m[k] == '.' implies false by {
                    assert(m[k] == s@[from + k]);
                }
            }
        }
        return r;
    }
    let k = dot - from;
    assert(m[k as int] == '.');
    assert(m.subrange(0, k as int) =~= s@.subrange(from as int, dot as int));
    assert(m.subrange(k + 1, m.len() as int) =~= s@.subrange(dot + 1, to as int));
    let r = digits_between(s, from, dot) && digits_between(s, dot + 1, to) && to - from > 1;
    proof {
        if r {
            assert(is_mantissa(m));
        } else {
            // The text holds a '.', so it is no run of digits; any other dot
            // position would leave this dot among the digits.
            assert(!all_digits(m)) by {
                assert(m[k as int] == '.');
            };
            assert forall|j: int| 0 <= j < m.len() && m[j] == '.' && all_digits(m.subrange(0, j))
                && all_digits(m.subrange(j + 1, m.len() as int)) && m.len() > 1 implies false by {
                if j < k {
                    assert(m.subrange(j + 1, m.len() as int)[k - j - 1] == '.');
                } else if j > k {
                    assert(m.subrange(0, j)[k as int] == '.');
                } else {
                }
            }
        }
    }
    r
}

fn exponent_ok(s: &[char], from: usize) -> (res: bool)
    requires
        from <= s@.len(),
    ensures
        res == is_exponent_digits(s@.subrange(from as int, s@.len() as int)),
{
    let ghost x = s@.subrange(from as int, s@.len() as int);
    let start = if from < s.len() && (s[from] == '+' || s[from] == '-') { from + 1 } else { from };
    proof {
        if from < s@.len() && (s@[from as int] == '+' || s@[from as int] == '-') {
            assert(x.drop_first() =~= s@.subrange(start as int, s@.len() as int));
        } else {
            assert(x =~= s@.subrange(start as int, s@.len() as int));
        }
    }
    start < s.len() && digits_between(s, start, s.len())
}

/// Whether `s` (from position `from` on) is a text `f64` parsing accepts.
fn float_literal_from(s: &[char], from: usize) -> (res: bool)
    requires
        from <= s@.len(),
    ensures
        res == is_float_literal(s@.subrange(from as int, s@.len() as int)),
{
    let ghost t = s@.subrange(from as int, s@.len() as int);
    let start = if from < s.len() && (s[from] == '+' || s[from] == '-') { from + 1 } else { from };
    let ghost b = s@.subrange(start as int, s@.len() as int);
    proof {
        if from < s@.len() && (s@[from as int] == '+' || s@[from as int] == '-') {
            assert(t.drop_first() =~= b);
        } else {
            assert(t =~= b);
        }
    }
    if word_ignoring_case(s, start, "inf") || word_ignoring_case(s, start, "infinity")
        || word_ignoring_case(s, start, "nan") {
        return true;
    }
    // locate the first exponent marker
    let mut e: usize = start;
    while e < s.len() && s[e] != 'e' && s[e] != 'E'
        invariant
            start <= e <= s@.len(),
            b == s@.subrange(start as int, s@.len() as int),
            first_exp_from(b, 0) == first_exp_from(b, e - start),
        decreases s@.len() - e,
    {
        e = e + 1;
    }
    if e == s.len() {
        assert(first_exp_from(b, e - start) is None);
        let r = mantissa_ok(s, start, s.len());
        r
    } else {
        assert(first_exp_from(b, e - start) == Some((e - start) as int));
        assert(b.subrange(0, (e - start) as int) =~= s@.subrange(start as int, e as int));
        assert(b.subrange(e - start + 1, b.len() as int) =~= s@.subrange(e + 1, s@.len() as int));
        mantissa_ok(s, start, e) && exponent_ok(s, e + 1)
    }
}

/// Whether the text is one that `f64` parsing accepts.
pub fn float_literal(s: &[char]) -> (res: bool)
    ensures
        res == is_float_literal(s@),
{
    assert(s@.subrange(0, s@.len() as int) =~= s@);
    float_literal_from(s, 0)
}

/// Whether a lecture-length text reads as a duration (`m:s` or `h:m:s`,
/// each part a number).
pub fn duration_text_is_valid(s: &str) -> (res: bool)
    ensures
        res == is_duration_text(s@),
{
    let c = chars_of(s);
    let colon = vec![':'];
    assert(colon@ =~= seq![':']);
    let parts = split(&c, &colon);
    if parts.len() != 2 && parts.len() != 3 {
        return false;
    }
    let mut k: usize = 0;
    while k < parts.len()
        invariant
            k <= parts@.len(),
            parts@.len() == split_seq(s@, seq![':']).len(),
            forall|j: int| 0 <= j < parts@.len() ==> #[trigger] parts@[j]@ == split_seq(s@, seq![':'])[j],
            forall|j: int| 0 <= j < k ==> is_float_literal(#[trigger] split_seq(s@, seq![':'])[j]),
        decreases parts@.len() - k,
    {
        if !float_literal(&parts[k]) {
            return false;
        }
        k = k + 1;
    }
    true
}

} // verus!
