//! Character-level helpers shared by the naming and formatting code.
use vstd::prelude::*;
use vstd::string::*;

use crate::std_api::push_char;

verus! {

/// Position of the last occurrence of `c` in `s`, or -1 when there is none.
pub open spec fn rfind_char(s: Seq<char>, c: char) -> int
    decreases s.len(),
{
    if s.len() == 0 {
        -1
    } else if s.last() == c {
        s.len() - 1
    } else {
        rfind_char(s.drop_last(), c)
    }
}

/// Whether `c` separates directories in a path (`/` or `\`).
pub open spec fn is_path_sep(c: char) -> bool {
    c == '/' || c == '\\'
}

/// Position of the last path separator in `s`, or -1 when there is none.
pub open spec fn rfind_path_sep(s: Seq<char>) -> int
    decreases s.len(),
{
    if s.len() == 0 {
        -1
    } else if is_path_sep(s.last()) {
        s.len() - 1
    } else {
        rfind_path_sep(s.drop_last())
    }
}

/// Nothing after the last path separator is a path separator.
pub proof fn lemma_rfind_path_sep(s: Seq<char>)
    ensures
        -1 <= rfind_path_sep(s) < s.len(),
        rfind_path_sep(s) >= 0 ==> is_path_sep(s[rfind_path_sep(s)]),
        forall|j: int| rfind_path_sep(s) < j < s.len() ==> !is_path_sep(#[trigger] s[j]),
    decreases s.len(),
{
    if s.len() > 0 && !is_path_sep(s.last()) {
        lemma_rfind_path_sep(s.drop_last());
        assert forall|j: int| rfind_path_sep(s) < j < s.len() implies !is_path_sep(#[trigger] s[j]) by {
            if j < s.len() - 1 {
                assert(s[j] == s.drop_last()[j]);
            }
        }
    }
}

/// Position just after the last `c` in `s` (0 when `s` has no `c`): where
/// the final `c`-separated segment starts.
pub fn after_last_char(s: &str, c: char) -> (i: usize)
    ensures
        i == rfind_char(s@, c) + 1,
        i <= s@.len(),
{
    let n = s.unicode_len();
    let mut i = n;
    assert(s@.take(n as int) =~= s@);
    while i > 0
        invariant
            i <= n,
            n == s@.len(),
            rfind_char(s@, c) == rfind_char(s@.take(i as int), c),
        decreases i,
    {
        let ch = s.get_char(i - 1);
        if ch == c {
            return i;
        }
        assert(s@.take(i as int).drop_last() =~= s@.take(i - 1));
        i = i - 1;
    }
    0
}

/// Position just after the last path separator in `s` (0 when there is
/// none): where the file name part of a path starts.
pub fn after_last_path_sep(s: &str) -> (i: usize)
    ensures
        i == rfind_path_sep(s@) + 1,
        i <= s@.len(),
{
    let n = s.unicode_len();
    let mut i = n;
    assert(s@.take(n as int) =~= s@);
    while i > 0
        invariant
            i <= n,
            n == s@.len(),
            rfind_path_sep(s@) == rfind_path_sep(s@.take(i as int)),
        decreases i,
    {
        let ch = s.get_char(i - 1);
        if ch == '/' || ch == '\\' {
            return i;
        }
        assert(s@.take(i as int).drop_last() =~= s@.take(i - 1));
        i = i - 1;
    }
    0
}

/// The code of a character after ASCII lower-casing (`A`-`Z` become
/// `a`-`z`; every other character is kept).
pub open spec fn ascii_lower_code(c: char) -> u32 {
    if 'A' <= c && c <= 'Z' {
        (c as u32 + 32) as u32
    } else {
        c as u32
    }
}

/// Two strings that are equal once both are ASCII lower-cased.
pub open spec fn eq_ignore_ascii_case(a: Seq<char>, b: Seq<char>) -> bool {
    &&& a.len() == b.len()
    &&& forall|i: int| 0 <= i < a.len() ==> ascii_lower_code(a[i]) == ascii_lower_code(b[i])
}

/// Whether two strings are equal when ASCII letters are compared without
/// regard to case.
pub fn str_eq_ignore_ascii_case(a: &str, b: &str) -> (r: bool)
    ensures
        r == eq_ignore_ascii_case(a@, b@),
{
    let n = a.unicode_len();
    if n != b.unicode_len() {
        return false;
    }
    let mut i: usize = 0;
    while i < n
        invariant
            i <= n,
            n == a@.len(),
            n == b@.len(),
            forall|j: int| 0 <= j < i ==> ascii_lower_code(a@[j]) == ascii_lower_code(b@[j]),
        decreases n - i,
    {
        let x = a.get_char(i);
        let y = b.get_char(i);
        let lx: u32 = if 'A' <= x && x <= 'Z' { x as u32 + 32 } else { x as u32 };
        let ly: u32 = if 'A' <= y && y <= 'Z' { y as u32 + 32 } else { y as u32 };
        if lx != ly {
            return false;
        }
        i = i + 1;
    }
    true
}

/// The character of a decimal digit.
pub open spec fn digit_char(d: nat) -> char {
    (d + 48) as char
}

/// Decimal notation of `n`, without sign or leading zeros.
pub open spec fn decimal(n: nat) -> Seq<char>
    decreases n,
{
    if n < 10 {
        seq![digit_char(n)]
    } else {
        decimal(n / 10).push(digit_char(n % 10))
    }
}

/// Appends the decimal digit `d`.
pub fn push_digit(s: &mut String, d: u128)
    requires
        d < 10,
    ensures
        final(s)@ == old(s)@.push(digit_char(d as nat)),
{
    let c = (d as u8 + 48u8) as char;
    push_char(s, c);
}

/// Appends the decimal notation of `n`.
pub fn push_decimal(s: &mut String, n: u128)
    ensures
        final(s)@ == old(s)@ + decimal(n as nat),
    decreases n,
{
    if n >= 10 {
        push_decimal(s, n / 10);
    }
    push_digit(s, n % 10);
    assert(old(s)@ + decimal(n as nat) =~= if n >= 10 {
        (old(s)@ + decimal((n / 10) as nat)).push(digit_char((n % 10) as nat))
    } else {
        old(s)@.push(digit_char((n % 10) as nat))
    });
}

} // verus!
