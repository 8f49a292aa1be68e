//! Character-sequence operations used throughout the library, each proved
//! against a short mathematical statement over `Seq<char>`.
use vstd::prelude::*;

verus! {

// ---------------------------------------------------------------------------
// Specifications
// ---------------------------------------------------------------------------

/// `p` occurs in `s` starting at position `i`.
pub open spec fn occurs_at(s: Seq<char>, p: Seq<char>, i: int) -> bool {
    0 <= i && i + p.len() <= s.len() && s.subrange(i, i + p.len()) == p
}

/// The first position at or after `i` where `p` occurs in `s`.
pub open spec fn find_from(s: Seq<char>, p: Seq<char>, i: int) -> Option<int>
    decreases s.len() + 1 - i,
{
    if i < 0 || i + p.len() > s.len() {
        None
    } else if occurs_at(s, p, i) {
        Some(i)
    } else {
        find_from(s, p, i + 1)
    }
}

/// What `find_from` returns is the first occurrence at or after `i`.
pub proof fn lemma_find_from(s: Seq<char>, p: Seq<char>, i: int)
    ensures
        find_from(s, p, i) matches Some(j) ==> {
            &&& i <= j
            &&& occurs_at(s, p, j)
            &&& forall|k: int| i <= k < j ==> !occurs_at(s, p, k)
        },
        find_from(s, p, i) is None && 0 <= i ==> forall|k: int| i <= k ==> !occurs_at(s, p, k),
    decreases s.len() + 1 - i,
{
    if i < 0 || i + p.len() > s.len() {
    } else if occurs_at(s, p, i) {
    } else {
        lemma_find_from(s, p, i + 1);
    }
}

/// The first position where `p` occurs in `s` (`str::find`).
pub open spec fn find_seq(s: Seq<char>, p: Seq<char>) -> Option<int> {
    find_from(s, p, 0)
}

/// `p` occurs somewhere in `s` (`str::contains`).
pub open spec fn contains_seq(s: Seq<char>, p: Seq<char>) -> bool {
    find_seq(s, p) is Some
}

/// `p` is a prefix of `s` (`str::starts_with`).
pub open spec fn has_prefix(s: Seq<char>, p: Seq<char>) -> bool {
    p.len() <= s.len() && s.subrange(0, p.len() as int) == p
}

/// `p` is a suffix of `s` (`str::ends_with`).
pub open spec fn has_suffix(s: Seq<char>, p: Seq<char>) -> bool {
    p.len() <= s.len() && s.subrange(s.len() - p.len(), s.len() as int) == p
}

/// The pieces of `s` between the non-overlapping occurrences of `sep`,
/// scanned from the left (`str::split` with a non-empty pattern).
pub open spec fn split_seq(s: Seq<char>, sep: Seq<char>) -> Seq<Seq<char>>
    decreases s.len(),
{
    if sep.len() == 0 {
        seq![s]
    } else {
        proof {
            lemma_find_from(s, sep, 0);
        }
        match find_seq(s, sep) {
            None => seq![s],
            Some(i) => seq![s.subrange(0, i)] + split_seq(s.subrange(i + sep.len(), s.len() as int), sep),
        }
    }
}

/// Splitting gives at least one piece.
pub proof fn lemma_split_nonempty(s: Seq<char>, sep: Seq<char>)
    ensures
        split_seq(s, sep).len() >= 1,
    decreases s.len(),
{
    if sep.len() > 0 {
        lemma_find_from(s, sep, 0);
        match find_seq(s, sep) {
            None => {},
            Some(i) => {
                lemma_split_nonempty(s.subrange(i + sep.len(), s.len() as int), sep);
            },
        }
    }
}

/// Every non-overlapping occurrence of `pat`, scanned from the left, replaced
/// by `rep` (`str::replace`).  An empty pattern matches at every character
/// boundary.
pub open spec fn replace_seq(s: Seq<char>, pat: Seq<char>, rep: Seq<char>) -> Seq<char>
    decreases s.len(),
{
    if pat.len() == 0 {
        if s.len() == 0 {
            rep
        } else {
            rep + seq![s[0]] + replace_seq(s.drop_first(), pat, rep)
        }
    } else {
        proof {
            lemma_find_from(s, pat, 0);
        }
        match find_seq(s, pat) {
            None => s,
            Some(i) => s.subrange(0, i) + rep + replace_seq(s.subrange(i + pat.len(), s.len() as int), pat, rep),
        }
    }
}

/// The Unicode `White_Space` property (`char::is_whitespace`).
pub open spec fn is_white_space(c: char) -> bool {
    ||| ('\u{9}' <= c && c <= '\u{d}')
    ||| c == ' '
    ||| c == '\u{85}'
    ||| c == '\u{a0}'
    ||| c == '\u{1680}'
    ||| ('\u{2000}' <= c && c <= '\u{200a}')
    ||| c == '\u{2028}'
    ||| c == '\u{2029}'
    ||| c == '\u{202f}'
    ||| c == '\u{205f}'
    ||| c == '\u{3000}'
}

/// `s` without its leading white space (`str::trim_start`).
pub open spec fn trim_start_seq(s: Seq<char>) -> Seq<char>
    decreases s.len(),
{
    if s.len() > 0 && is_white_space(s[0]) {
        trim_start_seq(s.drop_first())
    } else {
        s
    }
}

/// `s` without its trailing white space (`str::trim_end`).
pub open spec fn trim_end_seq(s: Seq<char>) -> Seq<char>
    decreases s.len(),
{
    if s.len() > 0 && is_white_space(s.last()) {
        trim_end_seq(s.drop_last())
    } else {
        s
    }
}

/// `s` without leading and trailing white space (`str::trim`).
pub open spec fn trim_seq(s: Seq<char>) -> Seq<char> {
    trim_end_seq(trim_start_seq(s))
}

/// `s` without any trailing copies of `c` (`str::trim_end_matches` with a char).
pub open spec fn trim_end_char_seq(s: Seq<char>, c: char) -> Seq<char>
    decreases s.len(),
{
    if s.len() > 0 && s.last() == c {
        trim_end_char_seq(s.drop_last(), c)
    } else {
        s
    }
}

/// `s` without any leading copies of `c` (`str::trim_start_matches` with a char).
pub open spec fn trim_start_char_seq(s: Seq<char>, c: char) -> Seq<char>
    decreases s.len(),
{
    if s.len() > 0 && s[0] == c {
        trim_start_char_seq(s.drop_first(), c)
    } else {
        s
    }
}

/// The length of the longest prefix of `s` free of white space.
pub open spec fn word_len(s: Seq<char>) -> nat
    decreases s.len(),
{
    if s.len() == 0 || is_white_space(s[0]) {
        0
    } else {
        1 + word_len(s.drop_first())
    }
}

/// The length of the longest prefix of `s` free of white space is at most
/// the length of `s`, and positive when `s` starts with such a character.
pub proof fn lemma_word_len_bounds(s: Seq<char>)
    ensures
        word_len(s) <= s.len(),
        s.len() > 0 && !is_white_space(s[0]) ==> word_len(s) >= 1,
    decreases s.len(),
{
    if s.len() > 0 && !is_white_space(s[0]) {
        lemma_word_len_bounds(s.drop_first());
    }
}

/// The maximal runs of non-white-space characters of `s`
/// (`str::split_whitespace`).
pub open spec fn words_seq(s: Seq<char>) -> Seq<Seq<char>>
    decreases s.len(),
{
    if s.len() == 0 {
        seq![]
    } else if is_white_space(s[0]) {
        words_seq(s.drop_first())
    } else {
        proof {
            lemma_word_len_bounds(s);
        }
        let n = word_len(s);
        seq![s.subrange(0, n as int)] + words_seq(s.subrange(n as int, s.len() as int))
    }
}

/// The pieces of `parts` joined by `sep` (`slice::join`).
pub open spec fn join_seq(parts: Seq<Seq<char>>, sep: Seq<char>) -> Seq<char>
    decreases parts.len(),
{
    if parts.len() == 0 {
        seq![]
    } else if parts.len() == 1 {
        parts[0]
    } else {
        join_seq(parts.drop_last(), sep) + sep + parts.last()
    }
}

/// The decimal digit for `d < 10`.
pub open spec fn digit_char(d: nat) -> char {
    if d == 0 { '0' }
    else if d == 1 { '1' }
    else if d == 2 { '2' }
    else if d == 3 { '3' }
    else if d == 4 { '4' }
    else if d == 5 { '5' }
    else if d == 6 { '6' }
    else if d == 7 { '7' }
    else if d == 8 { '8' }
    else { '9' }
}

/// The decimal representation of `n` without leading zeros (`{}` on an
/// unsigned integer).
pub open spec fn decimal(n: nat) -> Seq<char>
    decreases n,
{
    if n < 10 {
        seq![digit_char(n)]
    } else {
        decimal(n / 10) + seq![digit_char(n % 10)]
    }
}

/// The decimal representation of `n` padded with zeros to at least two
/// digits (`{:02}`).
pub open spec fn decimal2(n: nat) -> Seq<char> {
    if n < 10 { seq!['0'] + decimal(n) } else { decimal(n) }
}


// ---------------------------------------------------------------------------
// Executable operations
// ---------------------------------------------------------------------------

/// Whether `p` occurs in `s` at position `i`.
pub fn matches_at(s: &[char], p: &[char], i: usize) -> (res: bool)
    ensures
        res == occurs_at(s@, p@, i as int),
{
    if i > s.len() || p.len() > s.len() - i {
        return false;
    }
    let mut k: usize = 0;
    while k < p.len()
        invariant
            i + p@.len() <= s@.len(),
            k <= p@.len(),
            forall|j: int| 0 <= j < k ==> s@[i + j] == p@[j],
        decreases p@.len() - k,
    {
        assert(i + k < s.len());
        if s[i + k] != p[k] {
            assert(s@.subrange(i as int, i + p@.len())[k as int] != p@[k as int]);
            return false;
        }
        k = k + 1;
    }
    assert(s@.subrange(i as int, i + p@.len()) =~= p@);
    true
}

/// The first position where `p` occurs in `s` (`str::find`).
pub fn find_in(s: &[char], p: &[char]) -> (res: Option<usize>)
    ensures
        res matches Some(i) ==> find_seq(s@, p@) == Some(i as int),
        res is None ==> find_seq(s@, p@) is None,
{
    if p.len() > s.len() {
        return None;
    }
    let last = s.len() - p.len();
    let mut i: usize = 0;
    loop
        invariant
            last == s@.len() - p@.len(),
            i <= last,
            find_from(s@, p@, 0) == find_from(s@, p@, i as int),
        decreases last - i,
    {
        if matches_at(s, p, i) {
            return Some(i);
        }
        if i == last {
            assert(find_from(s@, p@, i + 1) is None);
            return None;
        }
        i = i + 1;
    }
}

/// Whether `p` occurs anywhere in `s` (`str::contains`).
pub fn contains(s: &[char], p: &[char]) -> (res: bool)
    ensures
        res == contains_seq(s@, p@),
{
    find_in(s, p).is_some()
}

/// Whether `s` starts with `p` (`str::starts_with`).
pub fn starts_with(s: &[char], p: &[char]) -> (res: bool)
    ensures
        res == has_prefix(s@, p@),
{
    let r = matches_at(s, p, 0);
    assert(r == has_prefix(s@, p@));
    r
}

/// Whether `s` ends with `p` (`str::ends_with`).
pub fn ends_with(s: &[char], p: &[char]) -> (res: bool)
    ensures
        res == has_suffix(s@, p@),
{
    if p.len() > s.len() {
        return false;
    }
    matches_at(s, p, s.len() - p.len())
}

/// The characters of `s` from `start` (inclusive) to `end` (exclusive).
pub fn slice_chars(s: &[char], start: usize, end: usize) -> (res: Vec<char>)
    requires
        start <= end <= s@.len(),
    ensures
        res@ == s@.subrange(start as int, end as int),
{
    let mut res: Vec<char> = Vec::new();
    let mut k = start;
    while k < end
        invariant
            start <= k <= end <= s@.len(),
            res@ == s@.subrange(start as int, k as int),
        decreases end - k,
    {
        res.push(s[k]);
        k = k + 1;
        assert(res@ =~= s@.subrange(start as int, k as int));
    }
    res
}

/// Appends the characters of `t` to `v`.
pub fn push_all(v: &mut Vec<char>, t: &[char])
    ensures
        final(v)@ == old(v)@ + t@,
{
    let mut k: usize = 0;
    let ghost v0 = v@;
    while k < t.len()
        invariant
            k <= t@.len(),
            v@ == v0 + t@.subrange(0, k as int),
        decreases t@.len() - k,
    {
        v.push(t[k]);
        k = k + 1;
        assert(v@ =~= v0 + t@.subrange(0, k as int));
    }
    assert(t@.subrange(0, t@.len() as int) =~= t@);
}

/// Appends the characters of a string slice to `v`.
pub fn push_str(v: &mut Vec<char>, t: &str)
    ensures
        final(v)@ == old(v)@ + t@,
{
    let c = chars_of(t);
    push_all(v, &c);
}

/// The pieces of `s` between the occurrences of `sep` (`str::split`).
pub fn split(s: &[char], sep: &[char]) -> (res: Vec<Vec<char>>)
    requires
        sep@.len() > 0,
    ensures
        res@.len() == split_seq(s@, sep@).len(),
        forall|k: int| 0 <= k < res@.len() ==> #[trigger] res@[k]@ == split_seq(s@, sep@)[k],
{
    let mut res: Vec<Vec<char>> = Vec::new();
    let mut rest: Vec<char> = slice_chars(s, 0, s.len());
    assert(s@.subrange(0, s@.len() as int) =~= s@);
    let mut done = false;
    while !done
        invariant
            sep@.len() > 0,
            !done ==> res@.map_values(|v: Vec<char>| v@) + split_seq(rest@, sep@) == split_seq(s@, sep@),
            done ==> res@.map_values(|v: Vec<char>| v@) == split_seq(s@, sep@),
        decreases rest@.len() + (if done { 0int } else { 1int }),
    {
        let ghost done0 = res@.map_values(|v: Vec<char>| v@);
        proof {
            lemma_find_from(rest@, sep@, 0);
        }
        match find_in(&rest, sep) {
            None => {
                let ghost tail = split_seq(rest@, sep@);
                assert(tail == seq![rest@]);
                let last_piece = slice_chars(&rest, 0, rest.len());
                assert(rest@.subrange(0, rest@.len() as int) =~= rest@);
                res.push(last_piece);
                assert(res@.map_values(|v: Vec<char>| v@) =~= done0 + tail);
                done = true;
            },
            Some(i) => {
                assert(occurs_at(rest@, sep@, i as int));
                assert(i + sep.len() <= rest.len());
                let head = slice_chars(&rest, 0, i);
                let tail = slice_chars(&rest, i + sep.len(), rest.len());
                let ghost t = split_seq(rest@, sep@);
                assert(t == seq![head@] + split_seq(tail@, sep@));
                res.push(head);
                assert(res@.map_values(|v: Vec<char>| v@) =~= done0 + seq![head@]);
                assert(done0 + t =~= (done0 + seq![head@]) + split_seq(tail@, sep@));
                rest = tail;
            },
        }
    }
    let ghost pieces = res@.map_values(|v: Vec<char>| v@);
    assert forall|k: int| 0 <= k < res@.len() implies #[trigger] res@[k]@ == split_seq(s@, sep@)[k] by {
        assert(pieces[k] == res@[k]@);
    }
    res
}

/// Every occurrence of `pat` in `s` replaced by `rep` (`str::replace`).
pub fn replace_all(s: &[char], pat: &[char], rep: &[char]) -> (res: Vec<char>)
    ensures
        res@ == replace_seq(s@, pat@, rep@),
{
    let mut acc: Vec<char> = Vec::new();
    if pat.len() == 0 {
        let mut k: usize = 0;
        assert(s@.subrange(0, s@.len() as int) =~= s@);
        while k < s.len()
            invariant
                pat@.len() == 0,
                k <= s@.len(),
                acc@ + replace_seq(s@.subrange(k as int, s@.len() as int), pat@, rep@) == replace_seq(s@, pat@, rep@),
            decreases s@.len() - k,
        {
            let ghost rest = s@.subrange(k as int, s@.len() as int);
            assert(rest.drop_first() =~= s@.subrange(k + 1, s@.len() as int));
            assert(replace_seq(rest, pat@, rep@) == rep@ + seq![rest[0]] + replace_seq(rest.drop_first(), pat@, rep@));
            let ghost acc0 = acc@;
            push_all(&mut acc, rep);
            acc.push(s[k]);
            assert(acc@ =~= acc0 + rep@ + seq![rest[0]]);
            k = k + 1;
        }
        assert(s@.subrange(k as int, s@.len() as int) =~= Seq::<char>::empty());
        push_all(&mut acc, rep);
        return acc;
    }
    let mut rest: Vec<char> = slice_chars(s, 0, s.len());
    assert(s@.subrange(0, s@.len() as int) =~= s@);
    let mut done = false;
    while !done
        invariant
            pat@.len() > 0,
            !done ==> acc@ + replace_seq(rest@, pat@, rep@) == replace_seq(s@, pat@, rep@),
            done ==> acc@ == replace_seq(s@, pat@, rep@),
        decreases rest@.len() + (if done { 0int } else { 1int }),
    {
        proof {
            lemma_find_from(rest@, pat@, 0);
        }
        let ghost acc0 = acc@;
        match find_in(&rest, pat) {
            None => {
                push_all(&mut acc, &rest);
                done = true;
            },
            Some(i) => {
                assert(occurs_at(rest@, pat@, i as int));
                assert(i + pat.len() <= rest.len());
                let head = slice_chars(&rest, 0, i);
                let tail = slice_chars(&rest, i + pat.len(), rest.len());
                push_all(&mut acc, &head);
                push_all(&mut acc, rep);
                assert(acc@ + replace_seq(tail@, pat@, rep@) =~= acc0 + replace_seq(rest@, pat@, rep@));
                rest = tail;
            },
        }
    }
    acc
}

/// `s` without leading and trailing white space (`str::trim`).
pub fn trim(s: &[char]) -> (res: Vec<char>)
    ensures
        res@ == trim_seq(s@),
{
    let mut start: usize = 0;
    assert(s@.subrange(0, s@.len() as int) =~= s@);
    while start < s.len() && is_whitespace(s[start])
        invariant
            start <= s@.len(),
            trim_start_seq(s@) == trim_start_seq(s@.subrange(start as int, s@.len() as int)),
        decreases s@.len() - start,
    {
        assert(s@.subrange(start as int, s@.len() as int).drop_first() =~= s@.subrange(start + 1, s@.len() as int));
        start = start + 1;
    }
    let ghost front = s@.subrange(start as int, s@.len() as int);
    assert(trim_start_seq(front) == front);
    let mut end: usize = s.len();
    while end > start && is_whitespace(s[end - 1])
        invariant
            start <= end <= s@.len(),
            front == s@.subrange(start as int, s@.len() as int),
            trim_end_seq(front) == trim_end_seq(s@.subrange(start as int, end as int)),
        decreases end,
    {
        assert(s@.subrange(start as int, end as int).drop_last() =~= s@.subrange(start as int, end - 1));
        end = end - 1;
    }
    slice_chars(s, start, end)
}

/// Whether `c` is white space (`char::is_whitespace`).
pub fn is_whitespace(c: char) -> (res: bool)
    ensures
        res == is_white_space(c),
{
    ('\u{9}' <= c && c <= '\u{d}') || c == ' ' || c == '\u{85}' || c == '\u{a0}' || c == '\u{1680}'
        || ('\u{2000}' <= c && c <= '\u{200a}') || c == '\u{2028}' || c == '\u{2029}'
        || c == '\u{202f}' || c == '\u{205f}' || c == '\u{3000}'
}

/// `s` without trailing copies of `c` (`str::trim_end_matches`).
pub fn trim_end_char(s: &[char], c: char) -> (res: Vec<char>)
    ensures
        res@ == trim_end_char_seq(s@, c),
{
    let mut end: usize = s.len();
    assert(s@.subrange(0, s@.len() as int) =~= s@);
    while end > 0 && s[end - 1] == c
        invariant
            end <= s@.len(),
            trim_end_char_seq(s@, c) == trim_end_char_seq(s@.subrange(0, end as int), c),
        decreases end,
    {
        assert(s@.subrange(0, end as int).drop_last() =~= s@.subrange(0, end - 1));
        end = end - 1;
    }
    slice_chars(s, 0, end)
}

/// `s` without leading copies of `c` (`str::trim_start_matches`).
pub fn trim_start_char(s: &[char], c: char) -> (res: Vec<char>)
    ensures
        res@ == trim_start_char_seq(s@, c),
{
    let mut start: usize = 0;
    assert(s@.subrange(0, s@.len() as int) =~= s@);
    while start < s.len() && s[start] == c
        invariant
            start <= s@.len(),
            trim_start_char_seq(s@, c) == trim_start_char_seq(s@.subrange(start as int, s@.len() as int), c),
        decreases s@.len() - start,
    {
        assert(s@.subrange(start as int, s@.len() as int).drop_first() =~= s@.subrange(start + 1, s@.len() as int));
        start = start + 1;
    }
    slice_chars(s, start, s.len())
}

/// Appends the decimal representation of `n` to `v`.
pub fn push_decimal(v: &mut Vec<char>, n: u64)
    ensures
        final(v)@ == old(v)@ + decimal(n as nat),
    decreases n,
{
    if n >= 10 {
        push_decimal(v, n / 10);
    }
    let d = n % 10;
    let c = if d == 0 { '0' } else if d == 1 { '1' } else if d == 2 { '2' } else if d == 3 { '3' }
        else if d == 4 { '4' } else if d == 5 { '5' } else if d == 6 { '6' } else if d == 7 { '7' }
        else if d == 8 { '8' } else { '9' };
    v.push(c);
    proof {
        if n < 10 {
            assert(decimal(n as nat) == seq![digit_char(n as nat)]);
        }
    }
    assert(v@ =~= old(v)@ + decimal(n as nat)) by {
        if n >= 10 {
            assert(decimal(n as nat) == decimal((n / 10) as nat) + seq![digit_char((n % 10) as nat)]);
        }
    };
}

/// A run of `n` non-white-space characters followed by white space or the
/// end of `t` is the first word of `t`.
pub proof fn lemma_word_len_run(t: Seq<char>, n: nat)
    requires
        n <= t.len(),
        forall|i: int| 0 <= i < n ==> !is_white_space(#[trigger] t[i]),
        n == t.len() || is_white_space(t[n as int]),
    ensures
        word_len(t) == n,
    decreases n,
{
    if n > 0 {
        assert forall|i: int| 0 <= i < n - 1 implies !is_white_space(#[trigger] t.drop_first()[i]) by {
            assert(t.drop_first()[i] == t[i + 1]);
        }
        if n - 1 < t.drop_first().len() {
            assert(t.drop_first()[n - 1] == t[n as int]);
        }
        lemma_word_len_run(t.drop_first(), (n - 1) as nat);
    }
}

/// The maximal runs of non-white-space characters of `s`
/// (`str::split_whitespace`).
pub fn words(s: &[char]) -> (res: Vec<Vec<char>>)
    ensures
        res@.map_values(|v: Vec<char>| v@) == words_seq(s@),
{
    let mut res: Vec<Vec<char>> = Vec::new();
    let mut k: usize = 0;
    assert(s@.subrange(0, s@.len() as int) =~= s@);
    while k < s.len()
        invariant
            k <= s@.len(),
            res@.map_values(|v: Vec<char>| v@) + words_seq(s@.subrange(k as int, s@.len() as int)) == words_seq(s@),
        decreases s@.len() - k,
    {
        let ghost rest = s@.subrange(k as int, s@.len() as int);
        if is_whitespace(s[k]) {
            assert(rest.drop_first() =~= s@.subrange(k + 1, s@.len() as int));
            k = k + 1;
        } else {
            let mut j: usize = k + 1;
            while j < s.len() && !is_whitespace(s[j])
                invariant
                    k < j <= s@.len(),
                    forall|i: int| k <= i < j ==> !is_white_space(#[trigger] s@[i]),
                decreases s@.len() - j,
            {
                j = j + 1;
            }
            proof {
                assert forall|i: int| 0 <= i < j - k implies !is_white_space(#[trigger] rest[i]) by {
                    assert(rest[i] == s@[k + i]);
                }
                if j < s.len() {
                    assert(rest[j - k] == s@[j as int]);
                }
                lemma_word_len_run(rest, (j - k) as nat);
            }
            let word = slice_chars(s, k, j);
            let ghost done0 = res@.map_values(|v: Vec<char>| v@);
            assert(rest.subrange(0, (j - k) as int) =~= word@);
            assert(rest.subrange((j - k) as int, rest.len() as int) =~= s@.subrange(j as int, s@.len() as int));
            res.push(word);
            assert(res@.map_values(|v: Vec<char>| v@) =~= done0 + seq![word@]);
            k = j;
        }
    }
    assert(s@.subrange(k as int, s@.len() as int) =~= Seq::<char>::empty());
    assert(res@.map_values(|v: Vec<char>| v@) + Seq::<Seq<char>>::empty() =~= res@.map_values(|v: Vec<char>| v@));
    res
}

/// The pieces joined by `sep` (`slice::join`).
pub fn join(parts: &Vec<Vec<char>>, sep: &[char]) -> (res: Vec<char>)
    ensures
        res@ == join_seq(parts@.map_values(|v: Vec<char>| v@), sep@),
{
    let ghost all = parts@.map_values(|v: Vec<char>| v@);
    let mut acc: Vec<char> = Vec::new();
    let mut k: usize = 0;
    while k < parts.len()
        invariant
            k <= parts@.len(),
            all == parts@.map_values(|v: Vec<char>| v@),
            acc@ == join_seq(all.take(k as int), sep@),
        decreases parts@.len() - k,
    {
        let ghost acc0 = acc@;
        assert(all.take(k + 1).drop_last() =~= all.take(k as int));
        assert(all.take(k + 1).last() == parts@[k as int]@);
        if k > 0 {
            push_all(&mut acc, sep);
        } else {
            assert(all.take(1) =~= seq![all[0]]);
        }
        push_all(&mut acc, &parts[k]);
        k = k + 1;
    }
    assert(all.take(k as int) =~= all);
    acc
}

/// A line without the carriage return that ended it.
pub open spec fn strip_cr(l: Seq<char>) -> Seq<char> {
    if l.len() > 0 && l.last() == '\r' { l.drop_last() } else { l }
}

/// The lines of `s` (`str::lines`): split at `\n`, the `\r` of a `\r\n`
/// ending removed, no empty line after a final line ending.
pub open spec fn lines_seq(s: Seq<char>) -> Seq<Seq<char>> {
    let parts = split_seq(s, seq!['\n']);
    let ended = parts.drop_last().map_values(|l: Seq<char>| strip_cr(l));
    if parts.last().len() == 0 { ended } else { ended.push(parts.last()) }
}

/// The lines of `s` (`str::lines`).
pub fn lines(s: &[char]) -> (res: Vec<Vec<char>>)
    ensures
        res@.map_values(|v: Vec<char>| v@) == lines_seq(s@),
{
    let nl = vec!['\n'];
    assert(nl@ =~= seq!['\n']);
    let parts = split(s, &nl);
    proof {
        lemma_split_nonempty(s@, nl@);
    }
    let ghost ps = split_seq(s@, seq!['\n']);
    let n = parts.len();
    let mut res: Vec<Vec<char>> = Vec::new();
    let mut k: usize = 0;
    while k + 1 < n
        invariant
            n == parts@.len(),
            n == ps.len(),
            n >= 1,
            ps == split_seq(s@, seq!['\n']),
            forall|j: int| 0 <= j < parts@.len() ==> #[trigger] parts@[j]@ == ps[j],
            k + 1 <= n,
            res@.map_values(|v: Vec<char>| v@) == ps.take(k as int).map_values(|l: Seq<char>| strip_cr(l)),
        decreases n - k,
    {
        let p = &parts[k];
        let line = if p.len() > 0 && p[p.len() - 1] == '\r' {
            slice_chars(p, 0, p.len() - 1)
        } else {
            slice_chars(p, 0, p.len())
        };
        assert(line@ =~= strip_cr(ps[k as int]));
        let ghost before = res@.map_values(|v: Vec<char>| v@);
        res.push(line);
        assert(res@.map_values(|v: Vec<char>| v@) =~= before.push(strip_cr(ps[k as int])));
        assert(ps.take(k + 1).map_values(|l: Seq<char>| strip_cr(l)) =~= ps.take(k as int).map_values(|l: Seq<char>| strip_cr(l)).push(strip_cr(ps[k as int])));
        k = k + 1;
    }
    assert(ps.take(k as int) =~= ps.drop_last());
    let last = &parts[n - 1];
    if last.len() > 0 {
        let ghost before = res@.map_values(|v: Vec<char>| v@);
        res.push(slice_chars(last, 0, last.len()));
        assert(last@.subrange(0, last@.len() as int) =~= last@);
        assert(res@.map_values(|v: Vec<char>| v@) =~= before.push(ps.last()));
    }
    res
}

// ---------------------------------------------------------------------------
// Names for what std's Unicode case mappings return
// ---------------------------------------------------------------------------

/// What `str::to_lowercase` returns for a string.
pub uninterp spec fn lowercase(s: Seq<char>) -> Seq<char>;

/// What `char::to_uppercase` yields for a character.
pub uninterp spec fn char_uppercase(c: char) -> Seq<char>;

/// Calls `str::to_lowercase`; the result is named by `lowercase`.
#[verifier::external_body]
pub(crate) fn to_lowercase(s: &str) -> (res: String)
    ensures
        res@ == lowercase(s@),
{
    s.to_lowercase()
}

/// Calls `char::to_uppercase`; the result is named by `char_uppercase`.
#[verifier::external_body]
pub(crate) fn uppercase_char(c: char) -> (res: String)
    ensures
        res@ == char_uppercase(c),
{
    c.to_uppercase().collect()
}

// ---------------------------------------------------------------------------
// Conversions between `str`/`String` and `Vec<char>`
// ---------------------------------------------------------------------------

/// The characters of a string slice.
pub fn chars_of(s: &str) -> (res: Vec<char>)
    ensures
        res@ == s@,
{
    let mut res: Vec<char> = Vec::new();
    for c in it: s.chars()
        invariant
            res@ == it.seq().take(it.index() as int),
            it.seq() == s@,
    {
        res.push(c);
    }
    assert(res@ =~= s@);
    res
}

/// Builds a `String` from characters, through `FromIterator<&char>`.
#[verifier::external_body]
pub(crate) fn string_of(v: &[char]) -> (res: String)
    ensures
        res@ == v@,
{
    String::from_iter(v.iter())
}

} // verus!
