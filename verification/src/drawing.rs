//! Text shown in the viewer's header: file sizes and shortened names.
use vstd::prelude::*;
use vstd::string::*;

use crate::std_api::push_char;
use crate::text::{decimal, digit_char, push_decimal, push_digit};

verus! {

/// `2^k`.
pub open spec fn pow2(k: nat) -> nat
    decreases k,
{
    if k == 0 {
        1
    } else {
        2 * pow2((k - 1) as nat)
    }
}

/// Integers below this bound are exactly representable as `f64`.
pub open spec fn f64_exact_bound() -> nat {
    9007199254740992
}

/// How many low bits an `f64` drops when it holds the integer `b`
/// (searched from `k` upwards; exact for every `b` below `2^64`).
pub open spec fn f64_dropped_bits(b: nat, k: nat) -> nat
    decreases 11 - k,
{
    if k >= 11 || b < f64_exact_bound() * pow2(k) {
        k
    } else {
        f64_dropped_bits(b, k + 1)
    }
}

/// `n / d` rounded to the nearest integer, ties to even.
pub open spec fn div_round_half_even(n: nat, d: nat) -> nat
    recommends
        d > 0,
{
    let q = n / d;
    let r = n % d;
    if 2 * r > d || (2 * r == d && q % 2 == 1) {
        q + 1
    } else {
        q
    }
}

/// The value `b as f64` takes: `b` rounded to 53 significant bits, ties to
/// even.
pub open spec fn f64_of(b: nat) -> nat {
    let d = pow2(f64_dropped_bits(b, 0));
    div_round_half_even(b, d) * d
}

/// Index into `["B", "KB", "MB", "GB"]` for a byte count of value `v`: the
/// largest unit that `v` reaches, at most gigabytes.
pub open spec fn size_unit(v: nat) -> nat {
    if v < 1024 {
        0
    } else if v < 1024 * 1024 {
        1
    } else if v < 1024 * 1024 * 1024 {
        2
    } else {
        3
    }
}

/// `1024^unit` for the units in use.
pub open spec fn unit_divisor(unit: nat) -> nat {
    if unit == 0 {
        1
    } else if unit == 1 {
        1024
    } else if unit == 2 {
        1024 * 1024
    } else {
        1024 * 1024 * 1024
    }
}

/// Name of a unit index.
pub open spec fn unit_name(unit: nat) -> Seq<char> {
    if unit == 0 {
        seq!['B']
    } else if unit == 1 {
        seq!['K', 'B']
    } else if unit == 2 {
        seq!['M', 'B']
    } else {
        seq!['G', 'B']
    }
}

/// Human-readable byte count: below 1 KB the exact count and "B"; above it
/// the size in the largest unit up to GB, rounded to one decimal place
/// (ties to even) as `{:.1}` prints the `f64` value.
pub open spec fn spec_format_file_size(bytes: nat) -> Seq<char> {
    let v = f64_of(bytes);
    let unit = size_unit(v);
    if unit == 0 {
        decimal(bytes) + seq![' '] + unit_name(0)
    } else {
        let tenths = div_round_half_even(10 * v, unit_divisor(unit));
        decimal(tenths / 10) + seq!['.', digit_char(tenths % 10), ' '] + unit_name(unit)
    }
}

proof fn lemma_round_bounds(n: nat, d: nat)
    requires
        d > 0,
    ensures
        div_round_half_even(n, d) * d <= n + d,
        n / d * d <= n,
{
    assert(n / d * d + n % d == n) by (nonlinear_arith)
        requires
            d > 0,
    ;
    assert((n / d + 1) * d == n / d * d + d) by (nonlinear_arith);
}

/// Format a byte count into a human-readable string (e.g. "1.2 MB").
pub fn format_file_size(bytes: usize) -> (s: String)
    ensures
        s@ == spec_format_file_size(bytes as nat),
{
    let b = bytes as u128;
    // How `bytes as f64` rounds: count the low bits it cannot hold.
    let mut k: u128 = 0;
    let mut d: u128 = 1;
    let mut limit: u128 = 9007199254740992;
    while k < 11 && b >= limit
        invariant
            k <= 11,
            d == pow2(k as nat),
            limit == f64_exact_bound() * pow2(k as nat),
            1 <= d <= 4096,
            b < 18446744073709551616,
            limit == f64_exact_bound() * d,
            f64_dropped_bits(b as nat, 0) == f64_dropped_bits(b as nat, k as nat),
        decreases 11 - k,
    {
        k = k + 1;
        d = d * 2;
        limit = limit * 2;
    }
    assert(f64_dropped_bits(b as nat, k as nat) == k);
    let q = b / d;
    let r = b % d;
    let rq = if 2 * r > d || (2 * r == d && q % 2 == 1) { q + 1 } else { q };
    proof {
        lemma_round_bounds(b as nat, d as nat);
    }
    let v = rq * d;
    assert(v == f64_of(bytes as nat));

    let mut s = String::new();
    if v < 1024 {
        push_decimal(&mut s, b);
        push_char(&mut s, ' ');
        push_char(&mut s, 'B');
        assert(s@ =~= spec_format_file_size(bytes as nat));
        return s;
    }
    let unit: u128 = if v < 1024 * 1024 {
        1
    } else if v < 1024 * 1024 * 1024 {
        2
    } else {
        3
    };
    let div: u128 = if unit == 1 {
        1024
    } else if unit == 2 {
        1024 * 1024
    } else {
        1024 * 1024 * 1024
    };
    let n = 10 * v;
    let tq = n / div;
    let tr = n % div;
    let tenths = if 2 * tr > div || (2 * tr == div && tq % 2 == 1) { tq + 1 } else { tq };
    push_decimal(&mut s, tenths / 10);
    push_char(&mut s, '.');
    push_digit(&mut s, tenths % 10);
    push_char(&mut s, ' ');
    if unit == 1 {
        push_char(&mut s, 'K');
    } else if unit == 2 {
        push_char(&mut s, 'M');
    } else {
        push_char(&mut s, 'G');
    }
    push_char(&mut s, 'B');
    assert(s@ =~= spec_format_file_size(bytes as nat));
    s
}

/// `name` itself when it has at most `max` characters; otherwise its first
/// `max - 1` characters followed by an ellipsis, or nothing at all when
/// `max` is 0.
pub open spec fn spec_truncate_name(name: Seq<char>, max: nat) -> Seq<char> {
    if name.len() <= max {
        name
    } else if max == 0 {
        Seq::empty()
    } else {
        name.take(max - 1).push('\u{2026}')
    }
}

/// Truncate a file name to at most `max` characters, appending an ellipsis
/// when it was shortened.
pub fn truncate_name(name: &str, max: usize) -> (s: String)
    ensures
        s@ == spec_truncate_name(name@, max as nat),
{
    let n = name.unicode_len();
    if n <= max {
        name.to_owned()
    } else if max == 0 {
        String::new()
    } else {
        let keep = max - 1;
        let mut s = name.substring_char(0, keep).to_owned();
        push_char(&mut s, '\u{2026}');
        s
    }
}

/// A truncated name never has more than `max` characters, and a name that
/// already fits is kept as it is.
pub proof fn law_truncate_name_fits(name: Seq<char>, max: nat)
    ensures
        spec_truncate_name(name, max).len() <= max,
        name.len() <= max ==> spec_truncate_name(name, max) == name,
        name.len() > max ==> spec_truncate_name(name, max).len() == max,
{
}

/// Byte counts below 1024 are shown exactly, as "{n} B".
pub proof fn law_small_sizes_exact(bytes: nat)
    requires
        bytes < 1024,
    ensures
        spec_format_file_size(bytes) == decimal(bytes) + seq![' ', 'B'],
{
    assert(f64_dropped_bits(bytes, 0) == 0);
    assert(pow2(0) == 1);
    assert(bytes / 1 == bytes && bytes % 1 == 0) by (nonlinear_arith);
    assert(decimal(bytes) + seq![' '] + unit_name(0) =~= decimal(bytes) + seq![' ', 'B']);
}

/// Rounding to the nearest multiple is off by at most half a step.
proof fn lemma_round_half_even_close(n: nat, d: nat)
    requires
        d > 0,
    ensures
        2 * n <= 2 * (div_round_half_even(n, d) * d) + d,
        2 * (div_round_half_even(n, d) * d) <= 2 * n + d,
{
    let q = n / d;
    let r = n % d;
    assert(q * d + r == n && 0 <= r < d) by (nonlinear_arith)
        requires
            d > 0,
            q == n / d,
            r == n % d,
    ;
    assert((q + 1) * d == q * d + d) by (nonlinear_arith);
}

/// Sizes that `f64` holds exactly (below 2^53 bytes) and that reach 1 KB
/// are shown in the largest unit they reach, with one decimal that is the
/// size in that unit rounded to the nearest tenth: the shown tenths differ
/// from the exact size by at most half a tenth.
pub proof fn law_large_sizes_round_to_tenth(bytes: nat)
    requires
        1024 <= bytes < f64_exact_bound(),
    ensures
        f64_of(bytes) == bytes,
        ({
            let unit = size_unit(bytes);
            let d = unit_divisor(unit);
            let tenths = div_round_half_even(10 * bytes, d);
            &&& unit >= 1
            &&& d <= bytes
            &&& (unit < 3 ==> bytes < 1024 * d)
            &&& spec_format_file_size(bytes) == decimal(tenths / 10) + seq!['.', digit_char(tenths % 10), ' '] + unit_name(unit)
            &&& 2 * (10 * bytes) <= 2 * (tenths * d) + d
            &&& 2 * (tenths * d) <= 2 * (10 * bytes) + d
        }),
{
    assert(f64_dropped_bits(bytes, 0) == 0);
    assert(pow2(0) == 1);
    assert(bytes / 1 == bytes && bytes % 1 == 0) by (nonlinear_arith);
    let unit = size_unit(bytes);
    lemma_round_half_even_close(10 * bytes, unit_divisor(unit));
}

} // verus!
