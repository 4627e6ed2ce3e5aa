//! Character-level helpers shared by the parser and the formatter.
//!
//! Every scanning helper is specified by an index-based spec function over a
//! `Seq<char>`, so that loops can keep "the answer from here equals the answer
//! from the start" as their invariant.
use vstd::prelude::*;
use vstd::std_specs::iter::IteratorSpec;

verus! {

broadcast use vstd::string::group_string_axioms;

/// Unicode `White_Space`, as used by `str::trim` and `str::split_whitespace`.
pub open spec fn is_ws(c: char) -> bool {
    let u = c as u32;
    u == 0x20 || (0x09 <= u && u <= 0x0D) || u == 0x85 || u == 0xA0 || u == 0x1680 || (0x2000
        <= u && u <= 0x200A) || u == 0x2028 || u == 0x2029 || u == 0x202F || u == 0x205F || u
        == 0x3000
}

pub fn char_is_ws(c: char) -> (r: bool)
    ensures
        r == is_ws(c),
{
    let u = c as u32;
    u == 0x20 || (0x09 <= u && u <= 0x0D) || u == 0x85 || u == 0xA0 || u == 0x1680 || (0x2000
        <= u && u <= 0x200A) || u == 0x2028 || u == 0x2029 || u == 0x202F || u == 0x205F || u
        == 0x3000
}

/// First index in `[i, hi)` holding `c`, or `hi`.
pub open spec fn find_char(s: Seq<char>, c: char, i: int, hi: int) -> int
    decreases hi - i,
{
    if i >= hi {
        hi
    } else if s[i] == c {
        i
    } else {
        find_char(s, c, i + 1, hi)
    }
}

/// First index in `[i, hi)` that is not whitespace, or `hi`.
pub open spec fn skip_ws(s: Seq<char>, i: int, hi: int) -> int
    decreases hi - i,
{
    if i >= hi {
        hi
    } else if is_ws(s[i]) {
        skip_ws(s, i + 1, hi)
    } else {
        i
    }
}

/// First index in `[i, hi)` that is whitespace, or `hi`.
pub open spec fn skip_non_ws(s: Seq<char>, i: int, hi: int) -> int
    decreases hi - i,
{
    if i >= hi {
        hi
    } else if is_ws(s[i]) {
        i
    } else {
        skip_non_ws(s, i + 1, hi)
    }
}

/// First index in `[i, hi)` that is not a space `' '`, or `hi`.
pub open spec fn skip_spaces(s: Seq<char>, i: int, hi: int) -> int
    decreases hi - i,
{
    if i >= hi {
        hi
    } else if s[i] == ' ' {
        skip_spaces(s, i + 1, hi)
    } else {
        i
    }
}

/// End of `[lo, hi)` once trailing whitespace is removed.
pub open spec fn trim_back(s: Seq<char>, lo: int, hi: int) -> int
    decreases hi - lo,
{
    if hi <= lo {
        lo
    } else if is_ws(s[hi - 1]) {
        trim_back(s, lo, hi - 1)
    } else {
        hi
    }
}

/// `[lo, hi)` with leading and trailing whitespace removed.
pub open spec fn trimmed(s: Seq<char>, lo: int, hi: int) -> Seq<char> {
    let a = skip_ws(s, lo, hi);
    s.subrange(a, trim_back(s, a, hi))
}

pub open spec fn trim(s: Seq<char>) -> Seq<char> {
    trimmed(s, 0, s.len() as int)
}

pub open spec fn starts_with(s: Seq<char>, p: Seq<char>) -> bool {
    p.len() <= s.len() && s.subrange(0, p.len() as int) == p
}

/// `p` occurs in `s` at index `i`.
pub open spec fn matches_at(s: Seq<char>, p: Seq<char>, i: int) -> bool {
    0 <= i && i + p.len() <= s.len() && s.subrange(i, i + p.len()) == p
}

/// First index `k >= i` at which `p` occurs in `s`, if any.
pub open spec fn find_sub(s: Seq<char>, p: Seq<char>, i: int) -> Option<int>
    decreases s.len() as int + 1 - i,
{
    if 0 <= i && i + p.len() <= s.len() {
        if matches_at(s, p, i) {
            Some(i)
        } else {
            find_sub(s, p, i + 1)
        }
    } else {
        None
    }
}

pub proof fn lemma_find_char_bounds(s: Seq<char>, c: char, i: int, hi: int)
    requires
        i <= hi,
    ensures
        i <= find_char(s, c, i, hi) <= hi,
    decreases hi - i,
{
    if i < hi && s[i] != c {
        lemma_find_char_bounds(s, c, i + 1, hi);
    }
}

pub proof fn lemma_skip_ws_bounds(s: Seq<char>, i: int, hi: int)
    requires
        i <= hi,
    ensures
        i <= skip_ws(s, i, hi) <= hi,
        skip_ws(s, i, hi) < hi ==> !is_ws(s[skip_ws(s, i, hi)]),
    decreases hi - i,
{
    if i < hi && is_ws(s[i]) {
        lemma_skip_ws_bounds(s, i + 1, hi);
    }
}

pub proof fn lemma_skip_non_ws_bounds(s: Seq<char>, i: int, hi: int)
    requires
        i <= hi,
    ensures
        i <= skip_non_ws(s, i, hi) <= hi,
        skip_non_ws(s, i, hi) < hi ==> is_ws(s[skip_non_ws(s, i, hi)]),
    decreases hi - i,
{
    if i < hi && !is_ws(s[i]) {
        lemma_skip_non_ws_bounds(s, i + 1, hi);
    }
}

pub proof fn lemma_skip_spaces_bounds(s: Seq<char>, i: int, hi: int)
    requires
        i <= hi,
    ensures
        i <= skip_spaces(s, i, hi) <= hi,
    decreases hi - i,
{
    if i < hi && s[i] == ' ' {
        lemma_skip_spaces_bounds(s, i + 1, hi);
    }
}

pub proof fn lemma_trim_back_bounds(s: Seq<char>, lo: int, hi: int)
    requires
        lo <= hi,
    ensures
        lo <= trim_back(s, lo, hi) <= hi,
    decreases hi - lo,
{
    if hi > lo && is_ws(s[hi - 1]) {
        lemma_trim_back_bounds(s, lo, hi - 1);
    }
}

pub proof fn lemma_find_sub_bounds(s: Seq<char>, p: Seq<char>, i: int)
    ensures
        find_sub(s, p, i) matches Some(k) ==> i <= k && matches_at(s, p, k),
    decreases s.len() as int + 1 - i,
{
    if 0 <= i && i + p.len() <= s.len() && !matches_at(s, p, i) {
        lemma_find_sub_bounds(s, p, i + 1);
    }
}

/// The characters of `s`, in order.
pub fn chars_of(s: &str) -> (r: Vec<char>)
    ensures
        r@ == s@,
{
    let mut it = s.chars();
    let mut out: Vec<char> = Vec::new();
    loop
        invariant
            out@ + it.remaining() == s@,
            it.decrease() is Some,
        decreases it.decrease()->0,
    {
        match it.next() {
            Some(c) => {
                out.push(c);
            },
            None => {
                assert(out@ + it.remaining() == out@);
                return out;
            },
        }
    }
}

pub fn find_char_exec(s: &Vec<char>, c: char, i: usize, hi: usize) -> (r: usize)
    requires
        i <= hi <= s@.len(),
    ensures
        r == find_char(s@, c, i as int, hi as int),
        i <= r <= hi,
{
    let mut k = i;
    while k < hi && s[k] != c
        invariant
            i <= k <= hi <= s@.len(),
            find_char(s@, c, i as int, hi as int) == find_char(s@, c, k as int, hi as int),
        decreases hi - k,
    {
        k = k + 1;
    }
    k
}

pub fn skip_ws_exec(s: &Vec<char>, i: usize, hi: usize) -> (r: usize)
    requires
        i <= hi <= s@.len(),
    ensures
        r == skip_ws(s@, i as int, hi as int),
        i <= r <= hi,
{
    let mut k = i;
    while k < hi && char_is_ws(s[k])
        invariant
            i <= k <= hi <= s@.len(),
            skip_ws(s@, i as int, hi as int) == skip_ws(s@, k as int, hi as int),
        decreases hi - k,
    {
        k = k + 1;
    }
    k
}

pub fn skip_non_ws_exec(s: &Vec<char>, i: usize, hi: usize) -> (r: usize)
    requires
        i <= hi <= s@.len(),
    ensures
        r == skip_non_ws(s@, i as int, hi as int),
        i <= r <= hi,
{
    let mut k = i;
    while k < hi && !char_is_ws(s[k])
        invariant
            i <= k <= hi <= s@.len(),
            skip_non_ws(s@, i as int, hi as int) == skip_non_ws(s@, k as int, hi as int),
        decreases hi - k,
    {
        k = k + 1;
    }
    k
}

pub fn skip_spaces_exec(s: &Vec<char>, i: usize, hi: usize) -> (r: usize)
    requires
        i <= hi <= s@.len(),
    ensures
        r == skip_spaces(s@, i as int, hi as int),
        i <= r <= hi,
{
    let mut k = i;
    while k < hi && s[k] == ' '
        invariant
            i <= k <= hi <= s@.len(),
            skip_spaces(s@, i as int, hi as int) == skip_spaces(s@, k as int, hi as int),
        decreases hi - k,
    {
        k = k + 1;
    }
    k
}

pub fn trim_back_exec(s: &Vec<char>, lo: usize, hi: usize) -> (r: usize)
    requires
        lo <= hi <= s@.len(),
    ensures
        r == trim_back(s@, lo as int, hi as int),
        lo <= r <= hi,
{
    let mut k = hi;
    while k > lo && char_is_ws(s[k - 1])
        invariant
            lo <= k <= hi <= s@.len(),
            trim_back(s@, lo as int, hi as int) == trim_back(s@, lo as int, k as int),
        decreases k - lo,
    {
        k = k - 1;
    }
    k
}

/// Bounds of `[lo, hi)` once trimmed.
pub fn trim_exec(s: &Vec<char>, lo: usize, hi: usize) -> (r: (usize, usize))
    requires
        lo <= hi <= s@.len(),
    ensures
        lo <= r.0 <= r.1 <= hi,
        r.0 == skip_ws(s@, lo as int, hi as int),
        r.1 == trim_back(s@, r.0 as int, hi as int),
        s@.subrange(r.0 as int, r.1 as int) == trimmed(s@, lo as int, hi as int),
{
    let a = skip_ws_exec(s, lo, hi);
    let b = trim_back_exec(s, a, hi);
    (a, b)
}

/// Whether `p` occurs in `s` at index `i` (within `[0, hi)`).
pub fn matches_at_exec(s: &Vec<char>, i: usize, hi: usize, p: &Vec<char>) -> (r: bool)
    requires
        i <= hi <= s@.len(),
    ensures
        r == matches_at(s@.subrange(0, hi as int), p@, i as int),
{
    let n = p.len();
    if n > hi - i {
        return false;
    }
    let mut k: usize = 0;
    while k < n
        invariant
            k <= n == p@.len(),
            i + n <= hi <= s@.len(),
            forall|j: int| 0 <= j < k ==> s@[i + j] == p@[j],
        decreases n - k,
    {
        if s[i + k] != p[k] {
            assert(s@.subrange(0, hi as int).subrange(i as int, i + n)[k as int] != p@[k as int]);
            return false;
        }
        k = k + 1;
    }
    assert(s@.subrange(0, hi as int).subrange(i as int, i + n) =~= p@);
    true
}

/// Whether the characters `[lo, hi)` of `s` begin with `p`.
pub fn starts_with_exec(s: &Vec<char>, lo: usize, hi: usize, p: &Vec<char>) -> (r: bool)
    requires
        lo <= hi <= s@.len(),
    ensures
        r == starts_with(s@.subrange(lo as int, hi as int), p@),
{
    let ok = matches_at_exec(s, lo, hi, p);
    proof {
        let t = s@.subrange(lo as int, hi as int);
        if p@.len() <= t.len() {
            assert(t.subrange(0, p@.len() as int) =~= s@.subrange(0, hi as int).subrange(
                lo as int,
                lo + p@.len(),
            ));
        }
    }
    ok
}

/// First occurrence of `p` in the characters `[0, hi)` of `s`, from index 0.
pub fn find_sub_exec(s: &Vec<char>, hi: usize, p: &Vec<char>) -> (r: Option<usize>)
    requires
        hi <= s@.len(),
    ensures
        r matches Some(k) ==> Some(k as int) == find_sub(s@.subrange(0, hi as int), p@, 0),
        r is None ==> find_sub(s@.subrange(0, hi as int), p@, 0) is None,
{
    let ghost t = s@.subrange(0, hi as int);
    let n = p.len();
    if n > hi {
        return None;
    }
    if n == 0 {
        assert(t.subrange(0, 0) =~= p@);
        assert(matches_at(t, p@, 0));
        return Some(0);
    }
    let mut i: usize = 0;
    while i <= hi - n
        invariant
            n == p@.len(),
            n <= hi <= s@.len(),
            i <= hi - n + 1,
            n > 0,
            t == s@.subrange(0, hi as int),
            find_sub(t, p@, 0) == find_sub(t, p@, i as int),
        decreases hi - n + 1 - i,
    {
        if matches_at_exec(s, i, hi, p) {
            return Some(i);
        }
        i = i + 1;
    }
    None
}

/// End of the line that starts at `i`: the next `'\n'`, or the end of `s`.
pub open spec fn line_end(s: Seq<char>, i: int) -> int {
    find_char(s, '\n', i, s.len() as int)
}

/// The line that starts at `i`, without its line ending (`"\n"` or `"\r\n"`).
pub open spec fn line_at(s: Seq<char>, i: int) -> Seq<char> {
    let e = line_end(s, i);
    if e < s.len() && e > i && s[e - 1] == '\r' {
        s.subrange(i, e - 1)
    } else {
        s.subrange(i, e)
    }
}

/// The lines of `s` from index `i` on, as `str::lines` splits them.
pub open spec fn lines_from(s: Seq<char>, i: int) -> Seq<Seq<char>>
    decreases s.len() + 1 - i,
    via lines_from_decreases
{
    if 0 <= i < s.len() {
        seq![line_at(s, i)] + lines_from(s, line_end(s, i) + 1)
    } else {
        seq![]
    }
}

#[via_fn]
proof fn lines_from_decreases(s: Seq<char>, i: int) {
    if 0 <= i < s.len() {
        lemma_find_char_bounds(s, '\n', i, s.len() as int);
    }
}

pub open spec fn lines_of(s: Seq<char>) -> Seq<Seq<char>> {
    lines_from(s, 0)
}

pub open spec fn lines_view(v: Seq<Vec<char>>) -> Seq<Seq<char>> {
    v.map_values(|l: Vec<char>| l@)
}

/// A copy of the characters `[lo, hi)` of `v`.
pub fn copy_range(v: &Vec<char>, lo: usize, hi: usize) -> (r: Vec<char>)
    requires
        lo <= hi <= v@.len(),
    ensures
        r@ == v@.subrange(lo as int, hi as int),
{
    let mut out: Vec<char> = Vec::new();
    let mut k = lo;
    while k < hi
        invariant
            lo <= k <= hi <= v@.len(),
            out@ == v@.subrange(lo as int, k as int),
        decreases hi - k,
    {
        out.push(v[k]);
        k = k + 1;
    }
    out
}

/// The lines of `s`, as `str::lines` splits them.
pub fn split_lines(s: &Vec<char>) -> (r: Vec<Vec<char>>)
    ensures
        lines_view(r@) == lines_of(s@),
{
    let mut out: Vec<Vec<char>> = Vec::new();
    let mut pos: usize = 0;
    while pos < s.len()
        invariant
            pos <= s@.len(),
            lines_view(out@) + lines_from(s@, pos as int) == lines_of(s@),
        decreases s@.len() - pos,
    {
        let e = find_char_exec(s, '\n', pos, s.len());
        let end = if e < s.len() && e > pos && s[e - 1] == '\r' {
            e - 1
        } else {
            e
        };
        let line = copy_range(s, pos, end);
        proof {
            assert(lines_view(out@.push(line)) =~= lines_view(out@).push(line@));
            assert(lines_view(out@).push(line@) + lines_from(s@, e + 1) =~= lines_view(out@) + (
            seq![line@] + lines_from(s@, e + 1)));
        }
        out.push(line);
        if e == s.len() {
            pos = e;
        } else {
            pos = e + 1;
        }
    }
    proof {
        assert(lines_view(out@) + lines_from(s@, pos as int) =~= lines_view(out@));
    }
    out
}

pub open spec fn digit(d: nat) -> char {
    (48 + d) as char
}

/// Decimal digits of `n`, without leading zeros.
pub open spec fn dec(n: nat) -> Seq<char>
    decreases n,
{
    if n < 10 {
        seq![digit(n)]
    } else {
        dec(n / 10).push(digit(n % 10))
    }
}

/// The last `w` decimal digits of `n`, with leading zeros.
pub open spec fn dec_padded(n: nat, w: nat) -> Seq<char>
    decreases w,
{
    if w == 0 {
        seq![]
    } else {
        dec_padded(n / 10, (w - 1) as nat).push(digit(n % 10))
    }
}

fn digit_exec(d: u128) -> (c: char)
    requires
        d < 10,
    ensures
        c == digit(d as nat),
{
    let c: char = match d {
        0 => '0',
        1 => '1',
        2 => '2',
        3 => '3',
        4 => '4',
        5 => '5',
        6 => '6',
        7 => '7',
        8 => '8',
        _ => '9',
    };
    c
}

pub fn push_dec(out: &mut Vec<char>, n: u128)
    ensures
        final(out)@ == old(out)@ + dec(n as nat),
    decreases n,
{
    if n >= 10 {
        push_dec(out, n / 10);
    }
    out.push(digit_exec(n % 10));
    proof {
        if n < 10 {
            assert(dec(n as nat) == seq![digit(n as nat)]);
        }
    }
}

pub fn push_dec_padded(out: &mut Vec<char>, n: u128, w: usize)
    ensures
        final(out)@ == old(out)@ + dec_padded(n as nat, w as nat),
    decreases w,
{
    if w == 0 {
        return;
    }
    push_dec_padded(out, n / 10, w - 1);
    out.push(digit_exec(n % 10));
}

/// Appends the characters of a string.
pub fn push_str(out: &mut Vec<char>, s: &str)
    ensures
        final(out)@ == old(out)@ + s@,
{
    let cs = chars_of(s);
    push_all(out, &cs);
}

/// Appends the characters of `src`.
pub fn push_all(out: &mut Vec<char>, src: &Vec<char>)
    ensures
        final(out)@ == old(out)@ + src@,
{
    let mut k: usize = 0;
    while k < src.len()
        invariant
            k <= src@.len(),
            out@ == old(out)@ + src@.subrange(0, k as int),
        decreases src@.len() - k,
    {
        out.push(src[k]);
        k = k + 1;
    }
    assert(src@.subrange(0, k as int) =~= src@);
}

/// Relies on `FromIterator<char>` for `String` (std): collecting characters
/// gives a string that holds exactly those characters, in order.
#[verifier::external_body]
pub fn string_from_chars(v: &Vec<char>) -> (r: String)
    ensures
        r@ == v@,
{
    v.iter().collect()
}

/// The quoted and escaped form that `Debug` gives a string.
pub uninterp spec fn debug_quoted(s: Seq<char>) -> Seq<char>;

/// Relies on `<str as Debug>::fmt` (std): the quoted, escaped form of a
/// string, which depends on its characters alone.
#[verifier::external_body]
pub fn debug_quote(s: &str) -> (r: String)
    ensures
        r@ == debug_quoted(s@),
{
    format!("{:?}", s)
}

/// Two sequences that agree on `[i, hi)` have the same first `c` there.
pub proof fn lemma_find_char_agree(s1: Seq<char>, s2: Seq<char>, c: char, i: int, hi: int)
    requires
        0 <= i,
        hi <= s1.len(),
        hi <= s2.len(),
        forall|k: int| i <= k < hi ==> s1[k] == s2[k],
    ensures
        find_char(s1, c, i, hi) == find_char(s2, c, i, hi),
    decreases hi - i,
{
    if i < hi && s1[i] != c {
        lemma_find_char_agree(s1, s2, c, i + 1, hi);
    }
}

/// A `c` found before `hi1` is also the first one before any `hi2 >= hi1`.
pub proof fn lemma_find_char_extend(s: Seq<char>, c: char, i: int, hi1: int, hi2: int)
    requires
        i <= hi1 <= hi2,
        find_char(s, c, i, hi1) < hi1,
    ensures
        find_char(s, c, i, hi2) == find_char(s, c, i, hi1),
    decreases hi1 - i,
{
    if i < hi1 && s[i] != c {
        lemma_find_char_extend(s, c, i + 1, hi1, hi2);
    }
}

pub proof fn lemma_skip_ws_agree(s1: Seq<char>, s2: Seq<char>, i: int, hi: int)
    requires
        0 <= i,
        hi <= s1.len(),
        hi <= s2.len(),
        forall|k: int| i <= k < hi ==> s1[k] == s2[k],
    ensures
        skip_ws(s1, i, hi) == skip_ws(s2, i, hi),
    decreases hi - i,
{
    if i < hi && is_ws(s1[i]) {
        lemma_skip_ws_agree(s1, s2, i + 1, hi);
    }
}

pub proof fn lemma_trim_back_agree(s1: Seq<char>, s2: Seq<char>, lo: int, hi: int)
    requires
        0 <= lo,
        hi <= s1.len(),
        hi <= s2.len(),
        forall|k: int| lo <= k < hi ==> s1[k] == s2[k],
    ensures
        trim_back(s1, lo, hi) == trim_back(s2, lo, hi),
    decreases hi - lo,
{
    if hi > lo && is_ws(s1[hi - 1]) {
        lemma_trim_back_agree(s1, s2, lo, hi - 1);
    }
}

/// Trimming `[lo, hi)` reads only the characters there.
pub proof fn lemma_trimmed_agree(s1: Seq<char>, s2: Seq<char>, lo: int, hi: int)
    requires
        0 <= lo <= hi,
        hi <= s1.len(),
        hi <= s2.len(),
        forall|k: int| lo <= k < hi ==> s1[k] == s2[k],
    ensures
        trimmed(s1, lo, hi) == trimmed(s2, lo, hi),
{
    lemma_skip_ws_agree(s1, s2, lo, hi);
    let a = skip_ws(s1, lo, hi);
    lemma_skip_ws_bounds(s1, lo, hi);
    lemma_trim_back_agree(s1, s2, a, hi);
    lemma_trim_back_bounds(s1, a, hi);
    assert(trimmed(s1, lo, hi) =~= trimmed(s2, lo, hi));
}

} // verus!
