//! Human-readable file sizes, rounded the way `{:.N}` rounds a double:
//! the size is first taken to the nearest double (ties to even), then the
//! quotient is rounded to N decimals, a tie going to the even last digit.
use vstd::prelude::*;
use vstd::string::*;
use crate::text::{decimal, digit_char, decimal_chars, extend, from_chars, to_chars};

verus! {

/// `2` to the power `s`.
pub open spec fn two_pow(s: nat) -> nat
    decreases s,
{
    if s == 0 {
        1
    } else {
        2 * two_pow((s - 1) as nat)
    }
}

/// How many low bits of `n` do not fit in the 53 significant bits of a double.
pub open spec fn excess_bits(n: nat) -> nat
    decreases n,
{
    if n < 0x20000000000000 {
        0
    } else {
        1 + excess_bits(n / 2)
    }
}

/// The double nearest to `n`, ties to even (what `n as f64` holds).
pub open spec fn to_double(n: nat) -> nat {
    let s = excess_bits(n);
    let p = two_pow(s);
    let m = n / p;
    let r = n % p;
    if s > 0 && (r * 2 > p || (r * 2 == p && m % 2 == 1)) {
        (m + 1) * p
    } else {
        m * p
    }
}

/// `v * d / 2^k` rounded to an integer, ties to even.
pub open spec fn round_scaled(v: nat, d: nat, k: nat) -> nat {
    let x = v * d;
    let q = x / two_pow(k);
    let r = x % two_pow(k);
    if r * 2 > two_pow(k) || (r * 2 == two_pow(k) && q % 2 == 1) {
        q + 1
    } else {
        q
    }
}

/// `v / 2^k` with one decimal.
pub open spec fn fixed1(v: nat, k: nat) -> Seq<char> {
    let q = round_scaled(v, 10, k);
    decimal(q / 10) + seq!['.', digit_char(q % 10)]
}

/// `v / 2^k` with two decimals.
pub open spec fn fixed2(v: nat, k: nat) -> Seq<char> {
    let q = round_scaled(v, 100, k);
    decimal(q / 100) + seq!['.', digit_char((q % 100) / 10), digit_char(q % 10)]
}

proof fn lemma_two_pow_values()
    ensures
        two_pow(10) == 1024,
        two_pow(19) == 524288,
        two_pow(20) == 1048576,
{
    reveal_with_fuel(two_pow, 21);
}

proof fn lemma_two_pow_pos(s: nat)
    ensures
        two_pow(s) >= 1,
    decreases s,
{
    if s > 0 {
        lemma_two_pow_pos((s - 1) as nat);
    }
}

/// The nearest double to `n`, as an integer.
fn double_of(n: u64) -> (v: u128)
    ensures
        v as nat == to_double(n as nat),
        v <= 0x20000000000000 * 4096,
{
    let mut m: u128 = n as u128;
    let mut p: u128 = 1;
    let mut r: u128 = 0;
    let mut s: u32 = 0;
    while m >= 0x20000000000000
        invariant
            n as nat == m * p + r,
            r < p,
            p == two_pow(s as nat),
            excess_bits(n as nat) == s + excess_bits(m as nat),
            1 <= p <= 4096,
            s < p,
            m <= 0xFFFFFFFFFFFFFFFF,
        decreases m,
    {
        let b = m % 2;
        let m2 = m / 2;
        assert(m * p == m2 * (2 * p) + b * p) by (nonlinear_arith)
            requires
                m == 2 * m2 + b,
        ;
        assert(b * p <= p) by (nonlinear_arith)
            requires
                b <= 1,
                p >= 1,
        ;
        assert(p < 2048) by (nonlinear_arith)
            requires
                m >= 0x20000000000000,
                m * p <= 0xFFFFFFFFFFFFFFFF,
                p >= 1,
        ;
        r = r + b * p;
        p = 2 * p;
        m = m2;
        s = s + 1;
    }
    proof {
        vstd::arithmetic::div_mod::lemma_fundamental_div_mod_converse(
            n as int,
            p as int,
            m as int,
            r as int,
        );
    }
    assert((m + 1) * p <= 0x20000000000000 * 4096) by (nonlinear_arith)
        requires
            m < 0x20000000000000,
            p <= 4096,
    ;
    if s > 0 && (r * 2 > p || (r * 2 == p && m % 2 == 1)) {
        (m + 1) * p
    } else {
        assert(m * p <= (m + 1) * p) by (nonlinear_arith);
        m * p
    }
}

/// `v * d / 2^k` rounded to an integer, ties to even, for `2^k = pk`.
fn round_scaled_exec(v: u128, d: u128, pk: u128, Ghost(k): Ghost<nat>) -> (q: u128)
    requires
        v <= 0x20000000000000 * 4096,
        d <= 100,
        pk == two_pow(k),
        1024 <= pk <= 1048576,
    ensures
        q as nat == round_scaled(v as nat, d as nat, k),
        q <= 0x8000000000000000,
{
    assert(v * d <= 0x20000000000000 * 4096 * 100) by (nonlinear_arith)
        requires
            v <= 0x20000000000000 * 4096,
            d <= 100,
    ;
    let x = v * d;
    let q = x / pk;
    let r = x % pk;
    assert(q < 0x7fffffffffffffff) by (nonlinear_arith)
        requires
            x <= 0x20000000000000 * 4096 * 100,
            pk >= 1024,
            q == x / pk,
    ;
    if r * 2 > pk || (r * 2 == pk && q % 2 == 1) {
        q + 1
    } else {
        q
    }
}

/// Appends `v / 2^k` with one decimal.
fn push_fixed1(out: &mut Vec<char>, v: u128, pk: u128, Ghost(k): Ghost<nat>)
    requires
        v <= 0x20000000000000 * 4096,
        pk == two_pow(k),
        1024 <= pk <= 1048576,
    ensures
        final(out)@ == old(out)@ + fixed1(v as nat, k),
{
    let q = round_scaled_exec(v, 10, pk, Ghost(k));
    let units = decimal_chars((q / 10) as u64);
    extend(out, &units);
    out.push('.');
    let d = (q % 10) as u64;
    let dc = decimal_chars(d);
    assert(dc@ == seq![digit_char(d as nat)]);
    extend(out, &dc);
    assert(final(out)@ =~= old(out)@ + fixed1(v as nat, k));
}

/// Appends `v / 2^k` with two decimals.
fn push_fixed2(out: &mut Vec<char>, v: u128, pk: u128, Ghost(k): Ghost<nat>)
    requires
        v <= 0x20000000000000 * 4096,
        pk == two_pow(k),
        1024 <= pk <= 1048576,
    ensures
        final(out)@ == old(out)@ + fixed2(v as nat, k),
{
    let q = round_scaled_exec(v, 100, pk, Ghost(k));
    let units = decimal_chars((q / 100) as u64);
    extend(out, &units);
    out.push('.');
    let d1 = ((q % 100) / 10) as u64;
    let d2 = (q % 10) as u64;
    let c1 = decimal_chars(d1);
    let c2 = decimal_chars(d2);
    assert(c1@ == seq![digit_char(d1 as nat)]);
    assert(c2@ == seq![digit_char(d2 as nat)]);
    extend(out, &c1);
    extend(out, &c2);
    assert(final(out)@ =~= old(out)@ + fixed2(v as nat, k));
}

/// The size as the Base64 encoder shows it: bytes below 1 KiB, KiB with one
/// decimal below 1 MiB, MiB with two decimals above.
pub open spec fn size_text_b_kb_mb2(bytes: nat) -> Seq<char> {
    if bytes < 1024 {
        decimal(bytes) + " B"@
    } else if bytes < 1048576 {
        fixed1(to_double(bytes), 10) + " KB"@
    } else {
        fixed2(to_double(bytes), 20) + " MB"@
    }
}

/// The size as the image and PDF tools show it: MiB with one decimal from
/// 1 MiB up, whole KiB (rounded down) below.
pub open spec fn size_text_kb_mb(bytes: nat) -> Seq<char> {
    if bytes >= 1048576 {
        fixed1(to_double(bytes), 20) + " MB"@
    } else {
        decimal(bytes / 1024) + " KB"@
    }
}

/// The size as the Markdown-to-PDF tool shows it: MiB or KiB with one
/// decimal, bytes below 1 KiB.
pub open spec fn size_text_b_kb_mb(bytes: nat) -> Seq<char> {
    if bytes >= 1048576 {
        fixed1(to_double(bytes), 20) + " MB"@
    } else if bytes >= 1024 {
        fixed1(to_double(bytes), 10) + " KB"@
    } else {
        decimal(bytes) + " B"@
    }
}

/// Formats a size in bytes for the Base64 encoder (see `size_text_b_kb_mb2`).
pub fn format_file_size(bytes: usize) -> (s: String)
    ensures
        s@ == size_text_b_kb_mb2(bytes as nat),
{
    proof {
        lemma_two_pow_values();
    }
    let mut out: Vec<char> = Vec::new();
    if bytes < 1024 {
        let d = decimal_chars(bytes as u64);
        extend(&mut out, &d);
        extend(&mut out, &to_chars(" B"));
    } else if bytes < 1048576 {
        let v = double_of(bytes as u64);
        push_fixed1(&mut out, v, 1024, Ghost(10));
        extend(&mut out, &to_chars(" KB"));
    } else {
        let v = double_of(bytes as u64);
        push_fixed2(&mut out, v, 1048576, Ghost(20));
        extend(&mut out, &to_chars(" MB"));
    }
    from_chars(&out)
}

/// Formats a size in bytes for the image and PDF tools (see `size_text_kb_mb`).
pub fn format_size(bytes: u64) -> (s: String)
    ensures
        s@ == size_text_kb_mb(bytes as nat),
{
    proof {
        lemma_two_pow_values();
    }
    let mut out: Vec<char> = Vec::new();
    if bytes >= 1048576 {
        let v = double_of(bytes);
        push_fixed1(&mut out, v, 1048576, Ghost(20));
        extend(&mut out, &to_chars(" MB"));
    } else {
        let d = decimal_chars(bytes / 1024);
        extend(&mut out, &d);
        extend(&mut out, &to_chars(" KB"));
    }
    from_chars(&out)
}

/// Formats a size in bytes for the Markdown-to-PDF tool (see `size_text_b_kb_mb`).
pub fn format_size_with_bytes(bytes: u64) -> (s: String)
    ensures
        s@ == size_text_b_kb_mb(bytes as nat),
{
    proof {
        lemma_two_pow_values();
    }
    let mut out: Vec<char> = Vec::new();
    if bytes >= 1048576 {
        let v = double_of(bytes);
        push_fixed1(&mut out, v, 1048576, Ghost(20));
        extend(&mut out, &to_chars(" MB"));
    } else if bytes >= 1024 {
        let v = double_of(bytes);
        push_fixed1(&mut out, v, 1024, Ghost(10));
        extend(&mut out, &to_chars(" KB"));
    } else {
        let d = decimal_chars(bytes);
        extend(&mut out, &d);
        extend(&mut out, &to_chars(" B"));
    }
    from_chars(&out)
}

} // verus!
