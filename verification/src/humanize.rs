//! Human-readable byte sizes. Sizes are scaled by 1024 and rendered with a
//! fixed number of decimals exactly as `f64` formatting would render them:
//! the size is first rounded to a double (53-bit significand, ties to even),
//! scaled by powers of 1024 (exact for doubles), and the decimal digits are
//! rounded half to even.
use vstd::prelude::*;
use crate::text::{append_chars, chars_of, decimal, digit_char, push_decimal};

verus! {

// ---------------------------------------------------------------------
// Specification
// ---------------------------------------------------------------------

pub open spec fn pow2(n: nat) -> nat
    decreases n,
{
    if n == 0 {
        1
    } else {
        2 * pow2((n - 1) as nat)
    }
}

pub open spec fn pow1024(k: nat) -> nat
    decreases k,
{
    if k == 0 {
        1
    } else {
        1024 * pow1024((k - 1) as nat)
    }
}

pub open spec fn pow10(k: nat) -> nat
    decreases k,
{
    if k == 0 {
        1
    } else {
        10 * pow10((k - 1) as nat)
    }
}

/// 2^53: integers below it are exactly representable as doubles.
pub open spec fn exact_limit() -> nat {
    0x20_0000_0000_0000
}

/// How many low bits of `n` do not fit in a double's 53-bit significand.
pub open spec fn excess_bits(n: nat) -> nat
    decreases n,
{
    if n < exact_limit() {
        0
    } else {
        1 + excess_bits(n / 2)
    }
}

/// The value of `n as f64`: `n` rounded to 53 significant bits, ties to even.
pub open spec fn f64_round(n: nat) -> nat {
    let s = excess_bits(n);
    let p = pow2(s);
    let m = n / p;
    let rem = n % p;
    if s == 0 {
        n
    } else if rem > p / 2 || (rem == p / 2 && m % 2 == 1) {
        (m + 1) * p
    } else {
        m * p
    }
}

/// How many times a value `f` is divided by 1024 while it is at least 1024,
/// stopping at `max` divisions.
pub open spec fn unit_steps(f: nat, k: nat, max: nat) -> nat
    decreases max - k,
{
    if k < max && f >= pow1024(k + 1) {
        unit_steps(f, k + 1, max)
    } else {
        k
    }
}

/// `f / d` rounded to `p` decimals, ties to even, as an integer count of
/// 10^-p units.
pub open spec fn rounded_scaled(f: nat, d: nat, p: nat) -> nat {
    let x = f * pow10(p);
    let q = x / d;
    let r = x % d;
    if 2 * r > d || (2 * r == d && q % 2 == 1) {
        q + 1
    } else {
        q
    }
}

/// The last `p` decimal digits of `r`, zero-padded.
pub open spec fn frac_digits(r: nat, p: nat) -> Seq<char>
    decreases p,
{
    if p == 0 {
        Seq::empty()
    } else {
        frac_digits(r / 10, (p - 1) as nat).push(digit_char(r % 10))
    }
}

/// `q` units of 10^-p rendered with `p` decimals (`p > 0`).
pub open spec fn fixed_text(q: nat, p: nat) -> Seq<char> {
    decimal(q / pow10(p)) + seq!['.'] + frac_digits(q % pow10(p), p)
}

/// `v as f64 / 1024^k` rendered with `p` decimals, where `k` is how often the
/// value can be divided by 1024 (at most `max` times).
pub open spec fn scaled_text(v: nat, max: nat, p: nat) -> Seq<char> {
    let f = f64_round(v);
    let k = unit_steps(f, 0, max);
    fixed_text(rounded_scaled(f, pow1024(k), p), p)
}

pub open spec fn human_unit(k: nat) -> Seq<char> {
    if k == 0 {
        "B"@
    } else if k == 1 {
        "KB"@
    } else if k == 2 {
        "MB"@
    } else if k == 3 {
        "GB"@
    } else if k == 4 {
        "TB"@
    } else if k == 5 {
        "PB"@
    } else {
        "EB"@
    }
}

/// `human_readable_size`: whole bytes below 1 KiB, otherwise one decimal of
/// the largest unit (up to EB) that keeps the value at least 1.
pub open spec fn human_size_text(size: nat) -> Seq<char> {
    let f = f64_round(size);
    let k = unit_steps(f, 0, 6);
    if k == 0 {
        decimal(size) + " B"@
    } else {
        scaled_text(size, 6, 1) + seq![' '] + human_unit(k)
    }
}

// ---------------------------------------------------------------------
// Implementation
// ---------------------------------------------------------------------

proof fn lemma_pow1024_pos(k: nat)
    ensures
        pow1024(k) >= 1,
    decreases k,
{
    if k > 0 {
        lemma_pow1024_pos((k - 1) as nat);
    }
}

proof fn lemma_pow2_grows(s: nat)
    ensures
        pow2(s) > s,
    decreases s,
{
    if s > 0 {
        lemma_pow2_grows((s - 1) as nat);
    }
}

/// `n as f64`, as an exact integer.
pub fn f64_value(n: u64) -> (r: u128)
    ensures
        r as nat == f64_round(n as nat),
        r <= 0x2_0000_0000_0000_0000u128,
{
    let mut cur: u128 = n as u128;
    let mut p: u128 = 1;
    let mut s: u64 = 0;
    while cur >= 0x20_0000_0000_0000u128
        invariant
            cur as nat == n as nat / p as nat,
            p as nat == pow2(s as nat),
            excess_bits(n as nat) == s + excess_bits(cur as nat),
            1 <= p <= n as nat + 1,
            s < p,
        decreases cur,
    {
        proof {
            vstd::arithmetic::div_mod::lemma_div_denominator(n as int, p as int, 2);
            vstd::arithmetic::div_mod::lemma_fundamental_div_mod(n as int, p as int);
            assert(p * cur <= n) by (nonlinear_arith)
                requires
                    cur == n as nat / p as nat,
                    p >= 1,
            {
                vstd::arithmetic::div_mod::lemma_fundamental_div_mod(n as int, p as int);
            }
            assert(p * 2 <= n as nat + 1) by (nonlinear_arith)
                requires
                    p * cur <= n,
                    cur >= 0x20_0000_0000_0000,
            ;
            assert(p * 2 == p * 2);
        }
        cur = cur / 2;
        p = p * 2;
        s = s + 1;
    }
    if s == 0 {
        return n as u128;
    }
    let m = (n as u128) / p;
    let rem = (n as u128) % p;
    let half = p / 2;
    proof {
        vstd::arithmetic::div_mod::lemma_fundamental_div_mod(n as int, p as int);
        assert(m * p + rem == n);
        assert((m + 1) * p == m * p + p) by (nonlinear_arith);
    }
    let r = if rem > half || (rem == half && m % 2 == 1) {
        (m + 1) * p
    } else {
        m * p
    };
    r
}


proof fn lemma_pow1024_small(k: nat)
    requires
        k <= 6,
    ensures
        1 <= pow1024(k) <= 0x1000_0000_0000_0000,
        k >= 1 ==> pow1024(k) >= 1024,
    decreases k,
{
    reveal_with_fuel(pow1024, 7);
    if k > 0 {
        lemma_pow1024_small((k - 1) as nat);
    }
}

/// How often `f` is divided by 1024 (at most `max` times) and the divisor.
pub fn unit_scale(f: u128, max: u64) -> (res: (u64, u128))
    requires
        max <= 6,
    ensures
        res.0 as nat == unit_steps(f as nat, 0, max as nat),
        res.1 as nat == pow1024(res.0 as nat),
        res.0 <= max,
{
    let mut k: u64 = 0;
    let mut d: u128 = 1;
    while k < max && f >= d * 1024
        invariant
            k <= max <= 6,
            d as nat == pow1024(k as nat),
            d <= 0x1000_0000_0000_0000u128,
            unit_steps(f as nat, 0, max as nat) == unit_steps(f as nat, k as nat, max as nat),
        decreases max - k,
    {
        d = d * 1024;
        k = k + 1;
        proof {
            lemma_pow1024_small(k as nat);
        }
    }
    proof {
        lemma_pow1024_small(k as nat);
    }
    (k, d)
}

/// `f / d` rounded half to even to `p` decimals (`p` of 1 or 2).
pub fn round_scaled(f: u128, d: u128, p: u32) -> (q: u128)
    requires
        1 <= p <= 2,
        1 <= d <= 0x1_0000_0000_0000_0000u128,
        f <= 0x2_0000_0000_0000_0000u128,
    ensures
        q as nat == rounded_scaled(f as nat, d as nat, p as nat),
        q as nat <= f as nat * pow10(p as nat) / d as nat + 1,
{
    let scale: u128 = if p == 1 {
        10
    } else {
        100
    };
    assert(scale as nat == pow10(p as nat)) by {
        reveal_with_fuel(pow10, 3);
    }
    let x = f * scale;
    let q = x / d;
    let r = x % d;
    if 2 * r > d || (2 * r == d && q % 2 == 1) {
        q + 1
    } else {
        q
    }
}

/// Appends `q` units of 10^-p with `p` decimals (`p` of 1 or 2).
pub fn push_fixed(dst: &mut Vec<char>, q: u128, p: u32)
    requires
        1 <= p <= 2,
        q as nat / pow10(p as nat) <= u64::MAX,
    ensures
        final(dst)@ == old(dst)@ + fixed_text(q as nat, p as nat),
{
    reveal_with_fuel(pow10, 3);
    reveal_with_fuel(frac_digits, 3);
    let scale: u128 = if p == 1 {
        10
    } else {
        100
    };
    let whole = (q / scale) as u64;
    push_decimal(dst, whole);
    dst.push('.');
    let r = q % scale;
    if p == 2 {
        let t = ((r / 10) as u8 + 48) as char;
        assert(t == digit_char((r / 10) as nat));
        assert((r / 10) as nat == ((r as nat) / 10) % 10);
        dst.push(t);
    }
    let u = ((r % 10) as u8 + 48) as char;
    assert(u == digit_char((r % 10) as nat));
    dst.push(u);
    assert(final(dst)@ =~= old(dst)@ + fixed_text(q as nat, p as nat));
}

fn human_unit_text(k: u64) -> (r: Vec<char>)
    ensures
        r@ == human_unit(k as nat),
{
    if k == 0 {
        chars_of("B")
    } else if k == 1 {
        chars_of("KB")
    } else if k == 2 {
        chars_of("MB")
    } else if k == 3 {
        chars_of("GB")
    } else if k == 4 {
        chars_of("TB")
    } else if k == 5 {
        chars_of("PB")
    } else {
        chars_of("EB")
    }
}

/// Renders a byte count as, e.g., `"512 B"`, `"1.5 KB"` or `"3.2 GB"`.
pub fn human_readable_size(size: u64) -> (r: String)
    ensures
        r@ == human_size_text(size as nat),
{
    let f = f64_value(size);
    let (k, d) = unit_scale(f, 6);
    let mut out: Vec<char> = Vec::new();
    if k == 0 {
        push_decimal(&mut out, size);
        append_chars(&mut out, chars_of(" B").as_slice());
    } else {
        proof {
            lemma_pow1024_small(k as nat);
        }
        let q = round_scaled(f, d, 1);
        proof {
            reveal_with_fuel(pow10, 2);
            vstd::arithmetic::div_mod::lemma_div_is_ordered_by_denominator(
                f as int * 10,
                1024,
                d as int,
            );
            assert(q as nat / pow10(1) <= u64::MAX) by {
                assert(q as nat <= (f as nat * 10) / 1024 + 1);
            }
        }
        push_fixed(&mut out, q, 1);
        out.push(' ');
        append_chars(&mut out, human_unit_text(k).as_slice());
    }
    crate::text::string_of(out.as_slice())
}

/// A transfer rate: `Calculating...` while unknown, else the rate with one
/// decimal in the largest unit up to TB that keeps it at least 1, per second.
pub open spec fn throughput_spec(bps: Option<u64>) -> Seq<char> {
    match bps {
        None => "Calculating..."@,
        Some(b) => scaled_text(b as nat, 4, 1) + human_unit(unit_steps(f64_round(b as nat), 0, 4))
            + "/s"@,
    }
}

proof fn lemma_unit_steps_at_least(f: nat, k: nat, max: nat)
    requires
        k <= max,
    ensures
        k <= unit_steps(f, k, max) <= max,
    decreases max - k,
{
    if k < max && f >= pow1024(k + 1) {
        lemma_unit_steps_at_least(f, k + 1, max);
    }
}

/// Renders a transfer rate such as `"1.5MB/s"`.
pub fn throughput_text(bps: Option<u64>) -> (r: String)
    ensures
        r@ == throughput_spec(bps),
{
    match bps {
        None => {
            let v = chars_of("Calculating...");
            crate::text::string_of(v.as_slice())
        },
        Some(b) => {
            let f = f64_value(b);
            let (k, d) = unit_scale(f, 4);
            proof {
                lemma_pow1024_small(k as nat);
                reveal_with_fuel(pow10, 2);
                if k == 0 {
                    reveal_with_fuel(pow1024, 2);
                    if f >= 1024 {
                        lemma_unit_steps_at_least(f as nat, 1, 4);
                    }
                    assert(f < 1024);
                }
            }
            let q = round_scaled(f, d, 1);
            proof {
                if k == 0 {
                    assert(q as nat <= f as nat * 10 + 1);
                } else {
                    vstd::arithmetic::div_mod::lemma_div_is_ordered_by_denominator(
                        f as int * 10,
                        1024,
                        d as int,
                    );
                    assert(q as nat <= (f as nat * 10) / 1024 + 1);
                }
                assert(q as nat / pow10(1) <= u64::MAX);
            }
            let mut out: Vec<char> = Vec::new();
            push_fixed(&mut out, q, 1);
            append_chars(&mut out, human_unit_text(k).as_slice());
            append_chars(&mut out, chars_of("/s").as_slice());
            crate::text::string_of(out.as_slice())
        },
    }
}

/// Appends `size`, scaled by 1024 for each of its `k >= 1` units (at most
/// `max`), with `p` decimals; returns `k`, or 0 (appending nothing) when the
/// size is below 1024.
fn push_scaled(dst: &mut Vec<char>, size: u64, max: u64, p: u32) -> (k: u64)
    requires
        1 <= max <= 6,
        1 <= p <= 2,
    ensures
        k as nat == unit_steps(f64_round(size as nat), 0, max as nat),
        k == 0 ==> final(dst)@ == old(dst)@,
        k > 0 ==> final(dst)@ == old(dst)@ + scaled_text(size as nat, max as nat, p as nat),
        k <= max,
{
    let f = f64_value(size);
    let (k, d) = unit_scale(f, max);
    if k == 0 {
        return 0;
    }
    proof {
        lemma_pow1024_small(k as nat);
        reveal_with_fuel(pow10, 3);
    }
    let q = round_scaled(f, d, p);
    proof {
        vstd::arithmetic::div_mod::lemma_div_is_ordered_by_denominator(
            f as int * pow10(p as nat),
            1024,
            d as int,
        );
        assert(q as nat <= (f as nat * pow10(p as nat)) / 1024 + 1);
        assert(q as nat / pow10(p as nat) <= u64::MAX) by (nonlinear_arith)
            requires
                q as nat <= (f as nat * pow10(p as nat)) / 1024 + 1,
                f <= 0x2_0000_0000_0000_0000u128,
                1 <= pow10(p as nat) <= 100,
        ;
    }
    push_fixed(dst, q, p);
    k
}

/// The single-letter units of the compact size.
pub open spec fn letter_unit(k: nat) -> Seq<char> {
    if k == 1 {
        "K"@
    } else if k == 2 {
        "M"@
    } else if k == 3 {
        "G"@
    } else {
        "T"@
    }
}

/// A size as `0B`, `512B` or `1.5K` (one decimal, units up to T).
pub open spec fn compact_size_spec(size: nat) -> Seq<char> {
    let k = unit_steps(f64_round(size), 0, 4);
    if size == 0 {
        "0B"@
    } else if k == 0 {
        decimal(size) + "B"@
    } else {
        scaled_text(size, 4, 1) + letter_unit(k)
    }
}

/// A size as `0 bytes`, `512 bytes` or `1.50 KB` (two decimals, up to TB).
pub open spec fn spelled_size_spec(size: nat) -> Seq<char> {
    let k = unit_steps(f64_round(size), 0, 4);
    if size == 0 {
        "0 bytes"@
    } else if k == 0 {
        decimal(size) + " bytes"@
    } else {
        scaled_text(size, 4, 2) + " "@ + human_unit(k)
    }
}

/// Renders a size compactly, such as `1.5K`.
pub fn compact_size(size: u64) -> (r: String)
    ensures
        r@ == compact_size_spec(size as nat),
{
    if size == 0 {
        return crate::text::string_of(chars_of("0B").as_slice());
    }
    let mut out: Vec<char> = Vec::new();
    let k = push_scaled(&mut out, size, 4, 1);
    if k == 0 {
        push_decimal(&mut out, size);
        append_chars(&mut out, chars_of("B").as_slice());
    } else {
        let u: &str = if k == 1 {
            "K"
        } else if k == 2 {
            "M"
        } else if k == 3 {
            "G"
        } else {
            "T"
        };
        append_chars(&mut out, chars_of(u).as_slice());
    }
    crate::text::string_of(out.as_slice())
}

/// Renders a size with two decimals and a spelled unit, such as `1.50 KB`.
pub fn spelled_size(size: u64) -> (r: String)
    ensures
        r@ == spelled_size_spec(size as nat),
{
    if size == 0 {
        return crate::text::string_of(chars_of("0 bytes").as_slice());
    }
    let mut out: Vec<char> = Vec::new();
    let k = push_scaled(&mut out, size, 4, 2);
    if k == 0 {
        push_decimal(&mut out, size);
        append_chars(&mut out, chars_of(" bytes").as_slice());
    } else {
        append_chars(&mut out, chars_of(" ").as_slice());
        append_chars(&mut out, human_unit_text(k).as_slice());
    }
    crate::text::string_of(out.as_slice())
}

} // verus!
