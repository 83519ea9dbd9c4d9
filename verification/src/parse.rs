//! Decimal integers read from form fields, as `str::parse` reads them: an
//! optional sign, then one or more ASCII digits, and nothing else.
use vstd::prelude::*;
use crate::text::is_digit;
use crate::text::to_chars;

verus! {

/// Whether `s` is a non-empty run of ASCII digits.
pub open spec fn all_digits(s: Seq<char>) -> bool {
    s.len() > 0 && forall|i: int| 0 <= i < s.len() ==> is_digit(#[trigger] s[i])
}

/// The value of a digit character.
pub open spec fn digit_value(c: char) -> nat {
    (c as u32 - '0' as u32) as nat
}

/// The value of a run of digits, most significant first.
pub open spec fn digits_value(s: Seq<char>) -> nat
    decreases s.len(),
{
    if s.len() == 0 {
        0
    } else {
        digits_value(s.drop_last()) * 10 + digit_value(s.last())
    }
}

/// The magnitude that an unsigned integer type reads from `s`: an optional `+`
/// and then digits. `None` where the text is not of that shape.
pub open spec fn unsigned_text(s: Seq<char>) -> Option<nat> {
    let body = if s.len() > 0 && s[0] == '+' { s.drop_first() } else { s };
    if all_digits(body) {
        Some(digits_value(body))
    } else {
        None
    }
}

/// The value that a signed integer type reads from `s`: an optional `+` or `-`
/// and then digits.
pub open spec fn signed_text(s: Seq<char>) -> Option<int> {
    if s.len() > 0 && s[0] == '-' {
        let body = s.drop_first();
        if all_digits(body) {
            Some(-digits_value(body))
        } else {
            None
        }
    } else {
        match unsigned_text(s) {
            Some(n) => Some(n as int),
            None => None,
        }
    }
}

/// What an unsigned type with largest value `max` reads from `s`.
pub open spec fn unsigned_in(s: Seq<char>, max: nat) -> Option<nat> {
    match unsigned_text(s) {
        Some(n) => if n <= max { Some(n) } else { None },
        None => None,
    }
}

/// A longer run of digits is worth at least as much as its prefix.
proof fn lemma_digits_value_prefix(s: Seq<char>, k: int)
    requires
        0 <= k <= s.len(),
    ensures
        digits_value(s.take(k)) <= digits_value(s),
    decreases s.len() - k,
{
    if k < s.len() {
        lemma_digits_value_prefix(s, k + 1);
        assert(s.take(k + 1).drop_last() =~= s.take(k));
    } else {
        assert(s.take(k) =~= s);
    }
}

/// Reads the magnitude in `v[from..]`, all digits, when it is at most `max`.
fn digits_at_most(v: &Vec<char>, from: usize, max: u64) -> (r: Option<u64>)
    requires
        from <= v.len(),
    ensures
        ({
            let body = v@.skip(from as int);
            match r {
                Some(n) => all_digits(body) && digits_value(body) == n && n <= max,
                None => !all_digits(body) || digits_value(body) > max,
            }
        }),
{
    let ghost body = v@.skip(from as int);
    if from == v.len() {
        return None;
    }
    let mut acc: u64 = 0;
    let mut over = false;
    let mut i: usize = from;
    while i < v.len()
        invariant
            from <= i <= v.len(),
            from < v.len(),
            body == v@.skip(from as int),
            forall|j: int| from <= j < i ==> is_digit(#[trigger] v@[j]),
            !over ==> acc == digits_value(body.take(i - from)) && acc <= max,
            over ==> digits_value(body.take(i - from)) > max,
        decreases v.len() - i,
    {
        let c = v[i];
        if !('0' <= c && c <= '9') {
            assert(!is_digit(body[i - from]));
            return None;
        }
        let d = (c as u32 - '0' as u32) as u64;
        assert(body.take(i - from + 1).drop_last() =~= body.take(i - from));
        assert(body.take(i - from + 1).last() == c);
        if !over {
            match acc.checked_mul(10) {
                Some(t) => match t.checked_add(d) {
                    Some(next) => {
                        if next > max {
                            over = true;
                        } else {
                            acc = next;
                        }
                    },
                    None => {
                        over = true;
                    },
                },
                None => {
                    over = true;
                },
            }
        } else {
            assert(digits_value(body.take(i - from + 1)) >= digits_value(body.take(i - from)))
                by (nonlinear_arith)
                requires
                    digits_value(body.take(i - from + 1)) == digits_value(body.take(i - from)) * 10
                        + digit_value(c),
            ;
        }
        i += 1;
    }
    assert(body.take(v.len() - from) =~= body);
    assert(all_digits(body));
    if over {
        None
    } else {
        Some(acc)
    }
}

/// Reads an unsigned value no larger than `max` (the shared part of the unsigned parsers).
fn parse_unsigned_chars(v: &Vec<char>, max: u64) -> (r: Option<u64>)
    ensures
        r == (match unsigned_in(v@, max as nat) {
            Some(n) => Some(n as u64),
            None => None::<u64>,
        }),
{
    let from: usize = if v.len() > 0 && v[0] == '+' { 1 } else { 0 };
    assert(v@.skip(from as int) == (if v@.len() > 0 && v@[0] == '+' { v@.drop_first() } else { v@ }));
    digits_at_most(v, from, max)
}

/// `s.parse::<u32>()`, with `None` for each error.
pub fn parse_u32(s: &str) -> (r: Option<u32>)
    ensures
        r == (match unsigned_in(s@, u32::MAX as nat) {
            Some(n) => Some(n as u32),
            None => None::<u32>,
        }),
{
    let v = to_chars(s);
    match parse_unsigned_chars(&v, 0xFFFF_FFFF) {
        Some(n) => Some(n as u32),
        None => None,
    }
}

/// `s.parse::<u8>()`, with `None` for each error.
pub fn parse_u8(s: &str) -> (r: Option<u8>)
    ensures
        r == (match unsigned_in(s@, u8::MAX as nat) {
            Some(n) => Some(n as u8),
            None => None::<u8>,
        }),
{
    let v = to_chars(s);
    match parse_unsigned_chars(&v, 0xFF) {
        Some(n) => Some(n as u8),
        None => None,
    }
}

/// `s.parse::<usize>()`, with `None` for each error.
pub fn parse_usize(s: &str) -> (r: Option<usize>)
    ensures
        r == (match unsigned_in(s@, usize::MAX as nat) {
            Some(n) => Some(n as usize),
            None => None::<usize>,
        }),
{
    let v = to_chars(s);
    match parse_unsigned_chars(&v, usize::MAX as u64) {
        Some(n) => Some(n as usize),
        None => None,
    }
}

/// `s.parse::<i32>()`, with `None` for each error.
pub fn parse_i32(s: &str) -> (r: Option<i32>)
    ensures
        r == (match signed_text(s@) {
            Some(n) => if i32::MIN <= n <= i32::MAX { Some(n as i32) } else { None::<i32> },
            None => None::<i32>,
        }),
{
    let v = to_chars(s);
    if v.len() > 0 && v[0] == '-' {
        assert(v@.skip(1) =~= v@.drop_first());
        match digits_at_most(&v, 1, 0x8000_0000) {
            Some(n) => {
                if n == 0x8000_0000 {
                    Some(-2147483648i32)
                } else {
                    let m = n as i32;
                    Some(-m)
                }
            },
            None => None,
        }
    } else {
        match parse_unsigned_chars(&v, 0x7FFF_FFFF) {
            Some(n) => Some(n as i32),
            None => None,
        }
    }
}

} // verus!
