//! Character-level text utilities shared by the tools: whitespace, trimming,
//! substring search, UTF-8 widths and decimal rendering.
use vstd::prelude::*;
use vstd::string::*;

verus! {

// ---------------------------------------------------------------------------
// Specifications
// ---------------------------------------------------------------------------

/// The Unicode `White_Space` property, as `char::is_whitespace` documents it.
pub open spec fn is_ws(c: char) -> bool {
    ||| ('\u{9}' <= c && c <= '\u{D}')
    ||| c == ' '
    ||| c == '\u{85}'
    ||| c == '\u{A0}'
    ||| c == '\u{1680}'
    ||| ('\u{2000}' <= c && c <= '\u{200A}')
    ||| c == '\u{2028}'
    ||| c == '\u{2029}'
    ||| c == '\u{202F}'
    ||| c == '\u{205F}'
    ||| c == '\u{3000}'
}

/// An ASCII decimal digit.
pub open spec fn is_digit(c: char) -> bool {
    '0' <= c && c <= '9'
}

/// `s` with its leading whitespace removed.
pub open spec fn trim_start(s: Seq<char>) -> Seq<char>
    decreases s.len(),
{
    if s.len() > 0 && is_ws(s[0]) {
        trim_start(s.drop_first())
    } else {
        s
    }
}

/// `s` with its trailing whitespace removed.
pub open spec fn trim_end(s: Seq<char>) -> Seq<char>
    decreases s.len(),
{
    if s.len() > 0 && is_ws(s.last()) {
        trim_end(s.drop_last())
    } else {
        s
    }
}

/// `s` with leading and trailing whitespace removed.
pub open spec fn trim(s: Seq<char>) -> Seq<char> {
    trim_end(trim_start(s))
}

/// `s` with every leading occurrence of `c` removed.
pub open spec fn trim_start_char(s: Seq<char>, c: char) -> Seq<char>
    decreases s.len(),
{
    if s.len() > 0 && s[0] == c {
        trim_start_char(s.drop_first(), c)
    } else {
        s
    }
}

/// `p` occurs in `t` at position `i`.
pub open spec fn matches_at(t: Seq<char>, p: Seq<char>, i: int) -> bool {
    0 <= i && i + p.len() <= t.len() && t.subrange(i, i + p.len()) == p
}

/// `i` is the position of the first occurrence of `p` in `t`.
pub open spec fn is_first_match(t: Seq<char>, p: Seq<char>, i: int) -> bool {
    &&& matches_at(t, p, i)
    &&& forall|k: int| 0 <= k < i ==> !matches_at(t, p, k)
}

/// The position of the first occurrence of `p` in `t`, if any (`str::find`).
pub open spec fn find(t: Seq<char>, p: Seq<char>) -> Option<int> {
    if exists|i: int| matches_at(t, p, i) {
        Some(choose|i: int| is_first_match(t, p, i))
    } else {
        None
    }
}

/// `p` occurs somewhere in `t` (`str::contains`).
pub open spec fn contains(t: Seq<char>, p: Seq<char>) -> bool {
    exists|i: int| matches_at(t, p, i)
}

/// `t` begins with `p` (`str::starts_with`).
pub open spec fn starts_with(t: Seq<char>, p: Seq<char>) -> bool {
    p.len() <= t.len() && t.take(p.len() as int) == p
}

/// The number of bytes that `c` takes in UTF-8 (`char::len_utf8`).
pub open spec fn utf8_width(c: char) -> nat {
    if (c as u32) < 0x80 {
        1
    } else if (c as u32) < 0x800 {
        2
    } else if (c as u32) < 0x10000 {
        3
    } else {
        4
    }
}

/// The number of bytes of `s` in UTF-8 (`str::len`).
pub open spec fn byte_len(s: Seq<char>) -> nat
    decreases s.len(),
{
    if s.len() == 0 {
        0
    } else {
        byte_len(s.drop_last()) + utf8_width(s.last())
    }
}

/// Byte offset `n` falls between two characters of `s` (or at either end).
pub open spec fn is_byte_boundary(s: Seq<char>, n: int) -> bool {
    exists|k: int| 0 <= k <= s.len() && byte_len(s.take(k)) == n
}

/// The decimal digits of `n`, most significant first.
pub open spec fn decimal(n: nat) -> Seq<char>
    decreases n,
{
    if n < 10 {
        seq![digit_char(n)]
    } else {
        decimal(n / 10).push(digit_char(n % 10))
    }
}

/// The ASCII digit for `d`, for `d < 10`.
pub open spec fn digit_char(d: nat) -> char {
    if d == 0 { '0' }
    else if d == 1 { '1' }
    else if d == 2 { '2' }
    else if d == 3 { '3' }
    else if d == 4 { '4' }
    else if d == 5 { '5' }
    else if d == 6 { '6' }
    else if d == 7 { '7' }
    else if d == 8 { '8' }
    else { '9' }
}

/// What `str::to_lowercase` returns for a string with these characters.
pub uninterp spec fn lower(s: Seq<char>) -> Seq<char>;

/// What `char::is_alphanumeric` returns for `c`.
pub uninterp spec fn alphanumeric(c: char) -> bool;

/// The upper-case form of a text, as `str::to_uppercase` gives it (Unicode's
/// full case mapping, which may change the length).
pub uninterp spec fn upper(s: Seq<char>) -> Seq<char>;

// ---------------------------------------------------------------------------
// Lemmas
// ---------------------------------------------------------------------------

/// A first match is unique, so `find` returns it.
pub proof fn lemma_find_first(t: Seq<char>, p: Seq<char>, i: int)
    requires
        is_first_match(t, p, i),
    ensures
        find(t, p) == Some(i),
{
    let j = choose|j: int| is_first_match(t, p, j);
    assert(is_first_match(t, p, j));
    if j < i {
        assert(!matches_at(t, p, j));
    }
    if i < j {
        assert(!matches_at(t, p, i));
    }
}

/// `find` returns a first match whenever `p` occurs.
pub proof fn lemma_find_some(t: Seq<char>, p: Seq<char>)
    requires
        contains(t, p),
    ensures
        find(t, p) is Some,
        is_first_match(t, p, find(t, p)->0),
{
    let w = choose|i: int| matches_at(t, p, i);
    lemma_first_match_exists(t, p, w);
    let f = choose|i: int| is_first_match(t, p, i);
    assert(is_first_match(t, p, f));
}

/// Some position is a first match whenever `p` occurs at `w`.
proof fn lemma_first_match_exists(t: Seq<char>, p: Seq<char>, w: int)
    requires
        matches_at(t, p, w),
    ensures
        exists|i: int| is_first_match(t, p, i),
    decreases w,
{
    if forall|k: int| 0 <= k < w ==> !matches_at(t, p, k) {
        assert(is_first_match(t, p, w));
    } else {
        let k = choose|k: int| 0 <= k < w && matches_at(t, p, k);
        lemma_first_match_exists(t, p, k);
    }
}

/// A match in a suffix is a match in the whole, shifted.
pub proof fn lemma_matches_skip(t: Seq<char>, p: Seq<char>, from: int, k: int)
    requires
        0 <= from <= t.len(),
    ensures
        matches_at(t.subrange(from, t.len() as int), p, k) <==> (0 <= k && matches_at(
            t,
            p,
            from + k,
        )),
{
    let s = t.subrange(from, t.len() as int);
    if 0 <= k && k + p.len() <= s.len() {
        assert(s.subrange(k, k + p.len()) =~= t.subrange(from + k, from + k + p.len()));
    }
}

/// The byte length of a concatenation.
pub proof fn lemma_byte_len_push(s: Seq<char>, c: char)
    ensures
        byte_len(s.push(c)) == byte_len(s) + utf8_width(c),
{
    assert(s.push(c).drop_last() =~= s);
}

/// Taking one more character adds that character's width.
pub proof fn lemma_byte_len_take(s: Seq<char>, k: int)
    requires
        0 <= k < s.len(),
    ensures
        byte_len(s.take(k + 1)) == byte_len(s.take(k)) + utf8_width(s[k]),
{
    assert(s.take(k + 1) =~= s.take(k).push(s[k]));
    lemma_byte_len_push(s.take(k), s[k]);
}

/// Byte length grows with the prefix taken.
pub proof fn lemma_byte_len_mono(s: Seq<char>, j: int, k: int)
    requires
        0 <= j <= k <= s.len(),
    ensures
        byte_len(s.take(j)) <= byte_len(s.take(k)),
        j < k ==> byte_len(s.take(j)) < byte_len(s.take(k)),
    decreases k - j,
{
    if j < k {
        lemma_byte_len_mono(s, j, k - 1);
        lemma_byte_len_take(s, k - 1);
    }
}

/// The decimal rendering of a number is never empty.
pub proof fn lemma_decimal_len(n: nat)
    ensures
        decimal(n).len() >= 1,
    decreases n,
{
    if n >= 10 {
        lemma_decimal_len(n / 10);
    }
}

// ---------------------------------------------------------------------------
// Trusted items for std functions without a specification in vstd
// ---------------------------------------------------------------------------

/// Calls `String::push`. Claimed: the string afterwards is the old one with `c`
/// appended, as std documents.
#[verifier::external_body]
pub(crate) fn push_char(s: &mut String, c: char)
    ensures
        final(s)@ == old(s)@.push(c),
{
    s.push(c);
}

/// Calls `str::to_lowercase`. Claimed: the result depends on the characters
/// alone and is named `lower` of them, and it is empty exactly when the input
/// is (the documentation maps every character to one or more characters);
/// Unicode's lower-case mapping itself (which characters change, how the
/// length changes) is left unsaid.
#[verifier::external_body]
pub(crate) fn lowercase(s: &str) -> (res: String)
    ensures
        res@ == lower(s@),
        res@.len() == 0 <==> s@.len() == 0,
{
    s.to_lowercase()
}

/// Calls `str::to_uppercase`. Claimed: the result depends on the characters
/// alone and is named `upper` of them; Unicode's upper-case mapping itself is
/// left unsaid.
#[verifier::external_body]
pub(crate) fn uppercase(s: &str) -> (res: String)
    ensures
        res@ == upper(s@),
{
    s.to_uppercase()
}

/// Calls `char::is_alphanumeric`. Claimed: the answer depends on `c` alone and
/// is named `alphanumeric(c)`; the Unicode classes behind it are left unsaid.
#[verifier::external_body]
pub(crate) fn is_alphanumeric(c: char) -> (b: bool)
    ensures
        b == alphanumeric(c),
{
    c.is_alphanumeric()
}

// ---------------------------------------------------------------------------
// Executable functions
// ---------------------------------------------------------------------------

/// The characters of a string slice, in order.
pub fn to_chars(s: &str) -> (v: Vec<char>)
    ensures
        v@ == s@,
{
    let mut v: Vec<char> = Vec::new();
    for c in it: s.chars()
        invariant
            v@ == it.seq().take(it.index() as int),
            it.seq() == s@,
    {
        v.push(c);
    }
    v
}

/// A string holding the given characters.
pub fn from_chars(v: &Vec<char>) -> (s: String)
    ensures
        s@ == v@,
{
    let mut s = String::new();
    let mut i: usize = 0;
    while i < v.len()
        invariant
            i <= v.len(),
            s@ == v@.take(i as int),
        decreases v.len() - i,
    {
        push_char(&mut s, v[i]);
        assert(v@.take(i + 1) =~= v@.take(i as int).push(v@[i as int]));
        i += 1;
    }
    assert(v@.take(v.len() as int) =~= v@);
    s
}

/// Appends `src` to `dst`.
pub fn extend(dst: &mut Vec<char>, src: &Vec<char>)
    ensures
        final(dst)@ == old(dst)@ + src@,
{
    let mut i: usize = 0;
    while i < src.len()
        invariant
            i <= src.len(),
            dst@ == old(dst)@ + src@.take(i as int),
        decreases src.len() - i,
    {
        dst.push(src[i]);
        assert(src@.take(i + 1) =~= src@.take(i as int).push(src@[i as int]));
        i += 1;
    }
    assert(src@.take(src.len() as int) =~= src@);
}

/// Appends the characters of `src` to `dst`.
pub fn extend_str(dst: &mut Vec<char>, src: &str)
    ensures
        final(dst)@ == old(dst)@ + src@,
{
    let v = to_chars(src);
    extend(dst, &v);
}

/// The characters of `v` from `lo` up to (not including) `hi`.
pub fn slice(v: &Vec<char>, lo: usize, hi: usize) -> (r: Vec<char>)
    requires
        lo <= hi <= v.len(),
    ensures
        r@ == v@.subrange(lo as int, hi as int),
{
    let mut r: Vec<char> = Vec::new();
    let mut i = lo;
    while i < hi
        invariant
            lo <= i <= hi <= v.len(),
            r@ == v@.subrange(lo as int, i as int),
        decreases hi - i,
    {
        r.push(v[i]);
        assert(v@.subrange(lo as int, i + 1) =~= v@.subrange(lo as int, i as int).push(
            v@[i as int],
        ));
        i += 1;
    }
    r
}

/// `char::is_whitespace`.
pub fn char_is_ws(c: char) -> (b: bool)
    ensures
        b == is_ws(c),
{
    ('\u{9}' <= c && c <= '\u{D}') || c == ' ' || c == '\u{85}' || c == '\u{A0}' || c
        == '\u{1680}' || ('\u{2000}' <= c && c <= '\u{200A}') || c == '\u{2028}' || c
        == '\u{2029}' || c == '\u{202F}' || c == '\u{205F}' || c == '\u{3000}'
}

/// `char::is_ascii_digit`.
pub fn char_is_digit(c: char) -> (b: bool)
    ensures
        b == is_digit(c),
{
    '0' <= c && c <= '9'
}

proof fn lemma_trim_start_skip(s: Seq<char>, k: int)
    requires
        0 <= k < s.len(),
        is_ws(s[k]),
    ensures
        trim_start(s.subrange(k, s.len() as int)) == trim_start(s.subrange(k + 1, s.len() as int)),
{
    assert(s.subrange(k, s.len() as int).drop_first() =~= s.subrange(k + 1, s.len() as int));
}

proof fn lemma_trim_end_cut(s: Seq<char>, lo: int, hi: int)
    requires
        0 <= lo < hi <= s.len(),
        is_ws(s[hi - 1]),
    ensures
        trim_end(s.subrange(lo, hi)) == trim_end(s.subrange(lo, hi - 1)),
{
    assert(s.subrange(lo, hi).drop_last() =~= s.subrange(lo, hi - 1));
}

/// The bounds of `trim(v)` inside `v`.
pub fn trim_bounds(v: &Vec<char>) -> (r: (usize, usize))
    ensures
        r.0 <= r.1 <= v.len(),
        v@.subrange(r.0 as int, r.1 as int) == trim(v@),
        trim_start(v@) == v@.subrange(r.0 as int, v.len() as int),
{
    let mut lo: usize = 0;
    assert(v@.subrange(0, v.len() as int) =~= v@);
    while lo < v.len() && char_is_ws(v[lo])
        invariant
            lo <= v.len(),
            trim_start(v@) == trim_start(v@.subrange(lo as int, v.len() as int)),
        decreases v.len() - lo,
    {
        proof {
            lemma_trim_start_skip(v@, lo as int);
        }
        lo += 1;
    }
    let ghost ts = v@.subrange(lo as int, v.len() as int);
    assert(trim_start(ts) == ts);
    let mut hi: usize = v.len();
    while hi > lo && char_is_ws(v[hi - 1])
        invariant
            lo <= hi <= v.len(),
            trim_end(ts) == trim_end(v@.subrange(lo as int, hi as int)),
        decreases hi,
    {
        proof {
            lemma_trim_end_cut(v@, lo as int, hi as int);
        }
        hi -= 1;
    }
    let ghost r = v@.subrange(lo as int, hi as int);
    assert(trim_end(r) == r);
    (lo, hi)
}

/// `trim(v)`.
pub fn trim_chars(v: &Vec<char>) -> (r: Vec<char>)
    ensures
        r@ == trim(v@),
{
    let (lo, hi) = trim_bounds(v);
    slice(v, lo, hi)
}

/// `v` with all leading `c` removed (`str::trim_start_matches` with a char).
pub fn trim_start_char_chars(v: &Vec<char>, c: char) -> (r: Vec<char>)
    ensures
        r@ == trim_start_char(v@, c),
{
    let mut lo: usize = 0;
    assert(v@.subrange(0, v.len() as int) =~= v@);
    while lo < v.len() && v[lo] == c
        invariant
            lo <= v.len(),
            trim_start_char(v@, c) == trim_start_char(v@.subrange(lo as int, v.len() as int), c),
        decreases v.len() - lo,
    {
        assert(v@.subrange(lo as int, v.len() as int).drop_first() =~= v@.subrange(
            lo + 1,
            v.len() as int,
        ));
        lo += 1;
    }
    slice(v, lo, v.len())
}

/// Whether `p` occurs in `t` at position `i`.
pub fn matches_at_exec(t: &Vec<char>, p: &Vec<char>, i: usize) -> (b: bool)
    ensures
        b == matches_at(t@, p@, i as int),
{
    if i > t.len() || p.len() > t.len() - i {
        return false;
    }
    let mut k: usize = 0;
    while k < p.len()
        invariant
            i + p.len() <= t.len(),
            k <= p.len(),
            forall|j: int| 0 <= j < k ==> t@[i + j] == p@[j],
        decreases p.len() - k,
    {
        if t[i + k] != p[k] {
            assert(t@.subrange(i as int, i + p.len())[k as int] != p@[k as int]);
            return false;
        }
        k += 1;
    }
    assert(t@.subrange(i as int, i + p.len()) =~= p@);
    true
}

/// The first occurrence of `p` in `t` at or after `from`, as a position in `t`.
pub fn find_from(t: &Vec<char>, p: &Vec<char>, from: usize) -> (r: Option<usize>)
    requires
        from <= t.len(),
    ensures
        match r {
            Some(i) => from <= i && find(t@.subrange(from as int, t.len() as int), p@) == Some(
                i - from,
            ),
            None => find(t@.subrange(from as int, t.len() as int), p@) is None,
        },
{
    let ghost s = t@.subrange(from as int, t.len() as int);
    let mut i = from;
    while i < t.len()
        invariant
            from <= i <= t.len(),
            forall|k: int| 0 <= k < i - from ==> !matches_at(s, p@, k),
            s == t@.subrange(from as int, t.len() as int),
        decreases t.len() - i,
    {
        if matches_at_exec(t, p, i) {
            proof {
                lemma_matches_skip(t@, p@, from as int, i - from);
                assert(is_first_match(s, p@, i - from));
                lemma_find_first(s, p@, i - from);
            }
            return Some(i);
        }
        proof {
            lemma_matches_skip(t@, p@, from as int, i - from);
        }
        i += 1;
    }
    if matches_at_exec(t, p, i) {
        proof {
            lemma_matches_skip(t@, p@, from as int, i - from);
            assert(is_first_match(s, p@, i - from));
            lemma_find_first(s, p@, i - from);
        }
        return Some(i);
    }
    proof {
        lemma_matches_skip(t@, p@, from as int, i - from);
        assert forall|k: int| !matches_at(s, p@, k) by {
            if 0 <= k && k + p@.len() <= s.len() {
                assert(k <= i - from);
            }
        }
    }
    None
}

/// `contains(t, p)`.
pub fn contains_chars(t: &Vec<char>, p: &Vec<char>) -> (b: bool)
    ensures
        b == contains(t@, p@),
{
    assert(t@.subrange(0, t.len() as int) =~= t@);
    let r = find_from(t, p, 0);
    proof {
        if contains(t@, p@) {
            lemma_find_some(t@, p@);
        }
        if r.is_some() {
            let i = r->0 as int;
            lemma_find_some_matches(t@, p@);
        }
    }
    r.is_some()
}

/// A found position is a match.
pub proof fn lemma_find_some_matches(t: Seq<char>, p: Seq<char>)
    requires
        find(t, p) is Some,
    ensures
        contains(t, p),
        is_first_match(t, p, find(t, p)->0),
{
    lemma_find_some(t, p);
}

/// `starts_with(t, p)`.
pub fn starts_with_chars(t: &Vec<char>, p: &Vec<char>) -> (b: bool)
    ensures
        b == starts_with(t@, p@),
{
    let b = matches_at_exec(t, p, 0);
    proof {
        if p.len() <= t.len() {
            assert(t@.subrange(0, p@.len() as int) =~= t@.take(p@.len() as int));
        }
    }
    b
}

/// `starts_with(t, p)` for a string literal `p`.
pub fn starts_with_str(t: &Vec<char>, p: &str) -> (b: bool)
    ensures
        b == starts_with(t@, p@),
{
    let pv = to_chars(p);
    starts_with_chars(t, &pv)
}

/// The decimal rendering of `n` (`u64::to_string`).
pub fn decimal_chars(n: u64) -> (r: Vec<char>)
    ensures
        r@ == decimal(n as nat),
    decreases n,
{
    let d = n % 10;
    let c = if d == 0 { '0' }
        else if d == 1 { '1' }
        else if d == 2 { '2' }
        else if d == 3 { '3' }
        else if d == 4 { '4' }
        else if d == 5 { '5' }
        else if d == 6 { '6' }
        else if d == 7 { '7' }
        else if d == 8 { '8' }
        else { '9' };
    if n < 10 {
        let mut r = Vec::new();
        r.push(c);
        assert(r@ =~= seq![digit_char(n as nat)]);
        r
    } else {
        let mut r = decimal_chars(n / 10);
        r.push(c);
        r
    }
}

/// The prefix of `s` holding its first `n` bytes, when `n` is a character boundary.
pub fn take_bytes(s: &Vec<char>, n: usize) -> (r: Vec<char>)
    requires
        is_byte_boundary(s@, n as int),
    ensures
        r@.len() <= s@.len(),
        r@ == s@.take(r@.len() as int),
        byte_len(r@) == n,
{
    let ghost k0 = choose|k: int| 0 <= k <= s@.len() && byte_len(s@.take(k)) == n;
    let mut r: Vec<char> = Vec::new();
    let mut used: usize = 0;
    let mut i: usize = 0;
    while used < n
        invariant
            0 <= k0 <= s@.len(),
            byte_len(s@.take(k0)) == n,
            i <= s.len(),
            r@ == s@.take(i as int),
            used == byte_len(s@.take(i as int)),
            used <= n,
            i <= k0,
        decreases n - used,
    {
        proof {
            if i == k0 {
                assert(false);
            }
            lemma_byte_len_take(s@, i as int);
            lemma_byte_len_mono(s@, i + 1, k0);
        }
        let c = s[i];
        let w: usize = if (c as u32) < 0x80 { 1 }
            else if (c as u32) < 0x800 { 2 }
            else if (c as u32) < 0x10000 { 3 }
            else { 4 };
        r.push(c);
        assert(s@.take(i + 1) =~= s@.take(i as int).push(c));
        used = used + w;
        i += 1;
        proof {
            if i > k0 {
                lemma_byte_len_mono(s@, k0, i as int);
            }
        }
    }
    r
}

/// The number of bytes of `s` in UTF-8.
pub fn byte_len_exec(s: &Vec<char>) -> (n: usize)
    requires
        byte_len(s@) <= usize::MAX,
    ensures
        n == byte_len(s@),
{
    let mut used: usize = 0;
    let mut i: usize = 0;
    assert(s@.take(s.len() as int) =~= s@);
    while i < s.len()
        invariant
            i <= s.len(),
            used == byte_len(s@.take(i as int)),
            byte_len(s@) <= usize::MAX,
        decreases s.len() - i,
    {
        proof {
            lemma_byte_len_take(s@, i as int);
            lemma_byte_len_mono(s@, i + 1, s.len() as int);
            assert(s@.take(s.len() as int) =~= s@);
        }
        let c = s[i];
        let w: usize = if (c as u32) < 0x80 { 1 }
            else if (c as u32) < 0x800 { 2 }
            else if (c as u32) < 0x10000 { 3 }
            else { 4 };
        used = used + w;
        i += 1;
    }
    used
}


// ---------------------------------------------------------------------------
// Lines and fields
// ---------------------------------------------------------------------------

/// `l` without one trailing carriage return.
pub open spec fn strip_cr(l: Seq<char>) -> Seq<char> {
    if l.len() > 0 && l.last() == '\r' {
        l.drop_last()
    } else {
        l
    }
}

/// The lines of `s`, given that `cur` has been read of the current line:
/// lines end at `\n` (an `\r` right before it is dropped), and a last line
/// without a line ending counts only if it is not empty (`str::lines`).
pub open spec fn lines_from(s: Seq<char>, cur: Seq<char>) -> Seq<Seq<char>>
    decreases s.len(),
{
    if s.len() == 0 {
        if cur.len() == 0 {
            seq![]
        } else {
            seq![cur]
        }
    } else if s[0] == '\n' {
        seq![strip_cr(cur)] + lines_from(s.drop_first(), seq![])
    } else {
        lines_from(s.drop_first(), cur.push(s[0]))
    }
}

/// The lines of `s` (`str::lines`).
pub open spec fn lines(s: Seq<char>) -> Seq<Seq<char>> {
    lines_from(s, seq![])
}

/// The fields of `s` separated by `c`, given that `cur` has been read of the
/// current field (`str::split` with a character).
pub open spec fn split_from(s: Seq<char>, c: char, cur: Seq<char>) -> Seq<Seq<char>>
    decreases s.len(),
{
    if s.len() == 0 {
        seq![cur]
    } else if s[0] == c {
        seq![cur] + split_from(s.drop_first(), c, seq![])
    } else {
        split_from(s.drop_first(), c, cur.push(s[0]))
    }
}

/// The fields of `s` separated by `c`.
pub open spec fn split(s: Seq<char>, c: char) -> Seq<Seq<char>> {
    split_from(s, c, seq![])
}

/// `s` with every trailing occurrence of `c` removed.
pub open spec fn trim_end_char(s: Seq<char>, c: char) -> Seq<char>
    decreases s.len(),
{
    if s.len() > 0 && s.last() == c {
        trim_end_char(s.drop_last(), c)
    } else {
        s
    }
}

/// `s` with leading and trailing occurrences of `c` removed (`str::trim_matches`).
pub open spec fn trim_char(s: Seq<char>, c: char) -> Seq<char> {
    trim_end_char(trim_start_char(s, c), c)
}

/// The views of a vector of character vectors.
pub open spec fn views(v: Seq<Vec<char>>) -> Seq<Seq<char>> {
    v.map_values(|l: Vec<char>| l@)
}

pub proof fn lemma_views_push(v: Seq<Vec<char>>, x: Vec<char>)
    ensures
        views(v.push(x)) == views(v).push(x@),
{
    assert(views(v.push(x)) =~= views(v).push(x@));
}

/// Splits `s` into lines.
pub fn split_lines(s: &Vec<char>) -> (r: Vec<Vec<char>>)
    ensures
        views(r@) == lines(s@),
{
    let mut r: Vec<Vec<char>> = Vec::new();
    let mut cur: Vec<char> = Vec::new();
    let mut i: usize = 0;
    assert(s@.subrange(0, s.len() as int) =~= s@);
    while i < s.len()
        invariant
            i <= s.len(),
            views(r@) + lines_from(s@.subrange(i as int, s.len() as int), cur@) == lines(s@),
        decreases s.len() - i,
    {
        let ghost t = s@.subrange(i as int, s.len() as int);
        assert(t.drop_first() =~= s@.subrange(i + 1, s.len() as int));
        let c = s[i];
        if c == '\n' {
            let mut line = cur;
            if line.len() > 0 && line[line.len() - 1] == '\r' {
                line.pop();
            }
            proof {
                lemma_views_push(r@, line);
                assert(views(r@.push(line)) + lines_from(t.drop_first(), seq![]) =~= views(r@) + (
                seq![line@] + lines_from(t.drop_first(), seq![])));
            }
            r.push(line);
            cur = Vec::new();
        } else {
            cur.push(c);
        }
        i += 1;
    }
    proof {
        assert(s@.subrange(s.len() as int, s.len() as int) =~= Seq::<char>::empty());
    }
    if cur.len() > 0 {
        proof {
            lemma_views_push(r@, cur);
        }
        r.push(cur);
    } else {
        assert(views(r@) + Seq::<Seq<char>>::empty() =~= views(r@));
    }
    r
}

/// Splits `s` into the fields separated by `c`.
pub fn split_char(s: &Vec<char>, c: char) -> (r: Vec<Vec<char>>)
    ensures
        views(r@) == split(s@, c),
{
    let mut r: Vec<Vec<char>> = Vec::new();
    let mut cur: Vec<char> = Vec::new();
    let mut i: usize = 0;
    assert(s@.subrange(0, s.len() as int) =~= s@);
    while i < s.len()
        invariant
            i <= s.len(),
            views(r@) + split_from(s@.subrange(i as int, s.len() as int), c, cur@) == split(s@, c),
        decreases s.len() - i,
    {
        let ghost t = s@.subrange(i as int, s.len() as int);
        assert(t.drop_first() =~= s@.subrange(i + 1, s.len() as int));
        let x = s[i];
        if x == c {
            proof {
                lemma_views_push(r@, cur);
                assert(views(r@.push(cur)) + split_from(t.drop_first(), c, seq![]) =~= views(r@) + (
                seq![cur@] + split_from(t.drop_first(), c, seq![])));
            }
            r.push(cur);
            cur = Vec::new();
        } else {
            cur.push(x);
        }
        i += 1;
    }
    proof {
        assert(s@.subrange(s.len() as int, s.len() as int) =~= Seq::<char>::empty());
        lemma_views_push(r@, cur);
    }
    r.push(cur);
    r
}

/// `s` with leading and trailing `c` removed.
pub fn trim_char_chars(s: &Vec<char>, c: char) -> (r: Vec<char>)
    ensures
        r@ == trim_char(s@, c),
{
    let t = trim_start_char_chars(s, c);
    let mut hi = t.len();
    assert(t@.subrange(0, hi as int) =~= t@);
    while hi > 0 && t[hi - 1] == c
        invariant
            hi <= t.len(),
            trim_end_char(t@, c) == trim_end_char(t@.subrange(0, hi as int), c),
        decreases hi,
    {
        assert(t@.subrange(0, hi as int).drop_last() =~= t@.subrange(0, hi - 1));
        hi -= 1;
    }
    slice(&t, 0, hi)
}


/// Whether `a` and `b` hold the same characters.
pub fn eq_chars(a: &Vec<char>, b: &Vec<char>) -> (r: bool)
    ensures
        r == (a@ == b@),
{
    if a.len() != b.len() {
        return false;
    }
    let mut i: usize = 0;
    while i < a.len()
        invariant
            a.len() == b.len(),
            i <= a.len(),
            forall|j: int| 0 <= j < i ==> a@[j] == b@[j],
        decreases a.len() - i,
    {
        if a[i] != b[i] {
            return false;
        }
        i += 1;
    }
    assert(a@ =~= b@);
    true
}

/// Whether `a` holds the characters of `b`.
pub fn eq_str(a: &Vec<char>, b: &str) -> (r: bool)
    ensures
        r == (a@ == b@),
{
    eq_chars(a, &to_chars(b))
}


/// The characters of each string.
pub open spec fn string_views(v: Seq<String>) -> Seq<Seq<char>> {
    v.map_values(|s: String| s@)
}

/// The characters of an optional string.
pub open spec fn opt_view(o: Option<String>) -> Option<Seq<char>> {
    match o {
        Some(s) => Some(s@),
        None => None,
    }
}

/// A copy of an optional string.
pub fn clone_opt(o: &Option<String>) -> (r: Option<String>)
    ensures
        opt_view(r) == opt_view(*o),
{
    match o {
        Some(s) => Some(s.clone()),
        None => None,
    }
}

/// Whether two strings hold the same characters.
pub fn same_text(a: &str, b: &str) -> (r: bool)
    ensures
        r == (a@ == b@),
{
    eq_chars(&to_chars(a), &to_chars(b))
}

/// Whether `p` occurs in `t` (`str::contains`).
pub fn contains_str(t: &str, p: &str) -> (r: bool)
    ensures
        r == contains(t@, p@),
{
    contains_chars(&to_chars(t), &to_chars(p))
}

/// Whether `s` takes more than `n` bytes in UTF-8.
pub fn byte_len_exceeds(s: &Vec<char>, n: usize) -> (b: bool)
    ensures
        b == (byte_len(s@) > n),
{
    let mut used: usize = 0;
    let mut i: usize = 0;
    while i < s.len()
        invariant
            i <= s.len(),
            used == byte_len(s@.take(i as int)),
            used <= n,
        decreases s.len() - i,
    {
        proof {
            lemma_byte_len_take(s@, i as int);
        }
        let c = s[i];
        let w: usize = if (c as u32) < 0x80 { 1 }
            else if (c as u32) < 0x800 { 2 }
            else if (c as u32) < 0x10000 { 3 }
            else { 4 };
        if w > n - used {
            proof {
                lemma_byte_len_mono(s@, i + 1, s.len() as int);
                assert(s@.take(s.len() as int) =~= s@);
            }
            return true;
        }
        used = used + w;
        i += 1;
    }
    assert(s@.take(s.len() as int) =~= s@);
    false
}

/// Whether `s` holds nothing but whitespace (`s.trim().is_empty()`).
pub fn is_blank(s: &str) -> (b: bool)
    ensures
        b == (trim(s@).len() == 0),
{
    let v = to_chars(s);
    let (lo, hi) = trim_bounds(&v);
    lo == hi
}

/// The part of a path after its last `/` (all of it without one).
pub open spec fn last_segment(p: Seq<char>) -> Seq<char>
    decreases p.len(),
{
    if p.len() == 0 {
        p
    } else if p.last() == '/' {
        Seq::empty()
    } else {
        last_segment(p.drop_last()).push(p.last())
    }
}

/// The file name of a path: what `path.split('/').last()` gives.
pub fn file_name_of(path: &str) -> (r: String)
    ensures
        r@ == last_segment(path@),
{
    let v = to_chars(path);
    let mut start: usize = v.len();
    assert(v@.take(v.len() as int) =~= v@);
    assert(v@.skip(v.len() as int) =~= Seq::<char>::empty());
    assert(last_segment(v@) =~= last_segment(v@.take(start as int)) + v@.skip(start as int));
    while start > 0 && v[start - 1] != '/'
        invariant
            start <= v.len(),
            last_segment(v@) == last_segment(v@.take(start as int)) + v@.skip(start as int),
        decreases start,
    {
        proof {
            let t = v@.take(start as int);
            assert(t.drop_last() =~= v@.take(start - 1));
            assert(t.last() == v@[start - 1]);
            assert(v@.skip(start - 1) =~= seq![v@[start - 1]] + v@.skip(start as int));
            assert(last_segment(t) == last_segment(v@.take(start - 1)).push(v@[start - 1]));
            assert(last_segment(v@.take(start - 1)).push(v@[start - 1]) + v@.skip(start as int)
                =~= last_segment(v@.take(start - 1)) + v@.skip(start - 1));
        }
        start -= 1;
    }
    proof {
        if start == 0 {
            assert(v@.take(0) =~= Seq::<char>::empty());
        } else {
            assert(last_segment(v@.take(start as int)) == Seq::<char>::empty());
        }
        assert(last_segment(v@) =~= v@.skip(start as int));
    }
    let mut out: Vec<char> = Vec::new();
    let mut i: usize = start;
    while i < v.len()
        invariant
            start <= i <= v.len(),
            out@ == v@.subrange(start as int, i as int),
        decreases v.len() - i,
    {
        out.push(v[i]);
        assert(v@.subrange(start as int, i + 1) =~= v@.subrange(start as int, i as int).push(
            v@[i as int],
        ));
        i += 1;
    }
    assert(v@.skip(start as int) =~= v@.subrange(start as int, v.len() as int));
    from_chars(&out)
}

} // verus!
