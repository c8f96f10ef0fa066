//! Text helpers: the few `str` operations of std that the parsers use,
//! with what their documentation says of them, and a decimal reader that
//! accepts exactly what `str::parse::<u32>` accepts.

use vstd::prelude::*;
use vstd::string::StrSliceExecFns;

verus! {

/// `p` is a prefix of `s`.
pub open spec fn has_prefix(s: Seq<char>, p: Seq<char>) -> bool {
    p.len() <= s.len() && s.take(p.len() as int) == p
}

/// `p` is a suffix of `s`.
pub open spec fn has_suffix(s: Seq<char>, p: Seq<char>) -> bool {
    p.len() <= s.len() && s.skip(s.len() - p.len()) == p
}

/// `p` occurs somewhere in `s`.
pub open spec fn has_infix(s: Seq<char>, p: Seq<char>) -> bool {
    exists|i: int| 0 <= i && i + p.len() <= s.len() && #[trigger] s.subrange(i, i + p.len()) == p
}

/// `str` equality (`==` on two string slices): equal character sequences.
#[verifier::external_body]
pub(crate) fn str_eq(a: &str, b: &str) -> (r: bool)
    ensures
        r == (a@ == b@),
{
    a == b
}

/// `str::starts_with` with a string pattern: the pattern is a prefix.
#[verifier::external_body]
pub(crate) fn str_starts_with(s: &str, p: &str) -> (r: bool)
    ensures
        r == has_prefix(s@, p@),
{
    s.starts_with(p)
}

/// `str::ends_with` with a string pattern: the pattern is a suffix.
#[verifier::external_body]
pub(crate) fn str_ends_with(s: &str, p: &str) -> (r: bool)
    ensures
        r == has_suffix(s@, p@),
{
    s.ends_with(p)
}

/// `str::contains` with a string pattern: the pattern occurs in the string.
#[verifier::external_body]
pub(crate) fn str_contains(s: &str, p: &str) -> (r: bool)
    ensures
        r == has_infix(s@, p@),
{
    s.contains(p)
}

/// `String::push`: the string gains the character at its end.
#[verifier::external_body]
pub(crate) fn string_push(s: &mut String, c: char)
    ensures
        final(s)@ == old(s)@.push(c),
{
    s.push(c);
}

/// The decimal digit character for `d` (below ten).
pub open spec fn digit_char(d: nat) -> char {
    ((d + '0' as nat) as u32) as char
}

/// How `u32::to_string` spells a number: its decimal digits, most
/// significant first, without leading zeros.
pub open spec fn decimal_of(n: nat) -> Seq<char>
    decreases n,
{
    if n < 10 {
        seq![digit_char(n)]
    } else {
        decimal_of(n / 10).push(digit_char(n % 10))
    }
}

fn push_decimal(s: &mut String, n: u32)
    ensures
        final(s)@ == old(s)@ + decimal_of(n as nat),
    decreases n,
{
    if n >= 10 {
        push_decimal(s, n / 10);
    }
    let d: u32 = n % 10;
    let c: char = match d {
        0 => '0', 1 => '1', 2 => '2', 3 => '3', 4 => '4',
        5 => '5', 6 => '6', 7 => '7', 8 => '8', _ => '9',
    };
    assert(c == digit_char(d as nat));
    let ghost before = s@;
    string_push(s, c);
    proof {
        if n >= 10 {
            assert(s@ =~= old(s)@ + decimal_of(n as nat));
        } else {
            assert(s@ =~= old(s)@ + decimal_of(n as nat));
        }
    }
}

/// Spells a number in decimal, as `u32::to_string` does.
pub fn decimal_string(n: u32) -> (r: String)
    ensures
        r@ == decimal_of(n as nat),
{
    let mut s = String::new();
    push_decimal(&mut s, n);
    assert(s@ =~= decimal_of(n as nat));
    s
}

pub open spec fn is_decimal_digit(c: char) -> bool {
    '0' <= c <= '9'
}

/// The number a string of decimal digits spells.
pub open spec fn decimal_value(s: Seq<char>) -> nat
    decreases s.len(),
{
    if s.len() == 0 {
        0
    } else {
        decimal_value(s.drop_last()) * 10 + (s.last() as nat - '0' as nat) as nat
    }
}

pub open spec fn all_decimal_digits(s: Seq<char>) -> bool {
    forall|i: int| 0 <= i < s.len() ==> is_decimal_digit(#[trigger] s[i])
}

/// What `str::parse::<u32>` gives: an optional `+`, then at least one
/// decimal digit, and a value that fits in 32 bits.
pub open spec fn u32_of(s: Seq<char>) -> Option<u32> {
    let digits = if s.len() > 0 && s[0] == '+' { s.skip(1) } else { s };
    if digits.len() > 0 && all_decimal_digits(digits) && decimal_value(digits) <= u32::MAX {
        Some(decimal_value(digits) as u32)
    } else {
        None
    }
}

proof fn lemma_decimal_value_push(s: Seq<char>, c: char)
    ensures
        decimal_value(s.push(c)) == decimal_value(s) * 10 + (c as nat - '0' as nat) as nat,
{
    assert(s.push(c).drop_last() =~= s);
}

proof fn lemma_decimal_value_grows(s: Seq<char>, c: char)
    requires
        is_decimal_digit(c),
    ensures
        decimal_value(s.push(c)) >= decimal_value(s) * 10,
{
    lemma_decimal_value_push(s, c);
}

/// Reads a decimal `u32` the way `str::parse::<u32>` does.
pub fn parse_u32(s: &str) -> (r: Option<u32>)
    ensures
        r == u32_of(s@),
{
    let n = s.unicode_len();
    let mut i: usize = 0;
    if n > 0 && s.get_char(0) == '+' {
        i = 1;
    }
    let start = i;
    let ghost digits = s@.skip(start as int);
    if i == n {
        assert(digits.len() == 0);
        return None;
    }
    let mut value: u32 = 0;
    while i < n
        invariant
            start <= i <= n,
            n == s@.len(),
            start < n,
            digits == s@.skip(start as int),
            start == 0 || (start == 1 && s@[0] == '+'),
            start == 0 ==> !(s@.len() > 0 && s@[0] == '+'),
            all_decimal_digits(s@.subrange(start as int, i as int)),
            value == decimal_value(s@.subrange(start as int, i as int)),
        decreases n - i,
    {
        let c = s.get_char(i);
        let ghost prefix = s@.subrange(start as int, i as int);
        assert(s@.subrange(start as int, i + 1) =~= prefix.push(c));
        if !('0' <= c && c <= '9') {
            assert(digits[i - start] == c);
            assert(!all_decimal_digits(digits));
            assert(digits == (if s@.len() > 0 && s@[0] == '+' { s@.skip(1) } else { s@ }));
            return None;
        }
        let d: u32 = (c as u32) - ('0' as u32);
        proof {
            lemma_decimal_value_push(prefix, c);
        }
        if value > 429496729 || (value == 429496729 && d > 5) {
            proof {
                let rest = s@.subrange(i + 1, n as int);
                assert(prefix.push(c) + rest =~= digits);
                if all_decimal_digits(digits) {
                    assert forall|j: int| 0 <= j < rest.len() implies is_decimal_digit(#[trigger] rest[j]) by {
                        assert(rest[j] == digits[i + 1 - start + j]);
                    }
                    lemma_decimal_value_prefix_bound(prefix.push(c), rest);
                    assert(decimal_value(digits) > u32::MAX);
                }
                assert(digits == (if s@.len() > 0 && s@[0] == '+' { s@.skip(1) } else { s@ }));
            }
            return None;
        }
        value = value * 10 + d;
        i = i + 1;
    }
    assert(s@.subrange(start as int, n as int) =~= digits);
    assert(digits == (if s@.len() > 0 && s@[0] == '+' { s@.skip(1) } else { s@ }));
    Some(value)
}

/// Appending digits never makes a decimal number smaller.
proof fn lemma_decimal_value_prefix_bound(p: Seq<char>, rest: Seq<char>)
    requires
        all_decimal_digits(rest),
    ensures
        decimal_value(p + rest) >= decimal_value(p),
    decreases rest.len(),
{
    if rest.len() == 0 {
        assert(p + rest =~= p);
    } else {
        let q = p + rest.drop_last();
        assert(p + rest =~= q.push(rest.last()));
        assert(all_decimal_digits(rest.drop_last()));
        lemma_decimal_value_prefix_bound(p, rest.drop_last());
        lemma_decimal_value_grows(q, rest.last());
    }
}

} // verus!

verus! {

/// How many times `sep` occurs in `s`.
pub open spec fn count_char(s: Seq<char>, sep: char) -> nat
    decreases s.len(),
{
    if s.len() == 0 {
        0
    } else {
        count_char(s.drop_last(), sep) + if s.last() == sep { 1nat } else { 0nat }
    }
}

/// `s[a..b]` is the field number `n` (from 0) of `s` split at `sep`: `n`
/// separators come before it, one (or the start) right before it, and it
/// runs up to the next separator or the end.
pub open spec fn is_field(s: Seq<char>, sep: char, n: nat, a: int, b: int) -> bool {
    &&& 0 <= a <= b <= s.len()
    &&& count_char(s.take(a), sep) == n
    &&& (a == 0 || s[a - 1] == sep)
    &&& (b == s.len() || s[b] == sep)
    &&& forall|j: int| a <= j < b ==> s[j] != sep
}

proof fn lemma_count_push(s: Seq<char>, c: char, sep: char)
    ensures
        count_char(s.push(c), sep) == count_char(s, sep) + if c == sep { 1nat } else { 0nat },
{
    assert(s.push(c).drop_last() =~= s);
}

proof fn lemma_count_bound(s: Seq<char>, sep: char)
    ensures
        count_char(s, sep) <= s.len(),
    decreases s.len(),
{
    if s.len() > 0 {
        lemma_count_bound(s.drop_last(), sep);
    }
}

/// Field `n` of `s` split at `sep` (`str::split(sep).nth(n)`), if `s` has
/// that many fields.
pub fn nth_field(s: &str, sep: char, n: usize) -> (r: Option<&str>)
    ensures
        r matches Some(f) ==> exists|a: int, b: int| is_field(s@, sep, n as nat, a, b) && f@ == s@.subrange(a, b),
        r is None ==> count_char(s@, sep) < n,
{
    let len = s.unicode_len();
    let mut i: usize = 0;
    let mut seen: usize = 0;
    let mut start: usize = 0;
    assert(s@.take(0) =~= Seq::<char>::empty());
    while i < len
        invariant
            len == s@.len(),
            i <= len,
            start <= i,
            seen <= i,
            seen == count_char(s@.take(i as int), sep),
            seen <= n,
            count_char(s@.take(start as int), sep) == seen,
            start == 0 || s@[start - 1] == sep,
            forall|j: int| start <= j < i ==> s@[j] != sep,
        decreases len - i,
    {
        let c = s.get_char(i);
        proof {
            assert(s@.take(i + 1) =~= s@.take(i as int).push(c));
            lemma_count_push(s@.take(i as int), c, sep);
        }
        if c == sep {
            if seen == n {
                let f = s.substring_char(start, i);
                assert(is_field(s@, sep, n as nat, start as int, i as int));
                return Some(f);
            }
            seen = seen + 1;
            start = i + 1;
            assert(s@.take(start as int) =~= s@.take(i + 1));
        }
        i = i + 1;
    }
    assert(s@.take(len as int) =~= s@);
    if seen == n {
        let f = s.substring_char(start, len);
        assert(is_field(s@, sep, n as nat, start as int, len as int));
        Some(f)
    } else {
        None
    }
}

proof fn lemma_count_take_mono(s: Seq<char>, sep: char, x: int, y: int)
    requires
        0 <= x <= y <= s.len(),
    ensures
        count_char(s.take(x), sep) <= count_char(s.take(y), sep),
    decreases y - x,
{
    if x < y {
        lemma_count_take_mono(s, sep, x, y - 1);
        assert(s.take(y) =~= s.take(y - 1).push(s[y - 1]));
        lemma_count_push(s.take(y - 1), s[y - 1], sep);
    }
}

proof fn lemma_count_take_sep(s: Seq<char>, sep: char, b: int)
    requires
        0 <= b < s.len(),
        s[b] == sep,
    ensures
        count_char(s.take(b + 1), sep) == count_char(s.take(b), sep) + 1,
{
    assert(s.take(b + 1) =~= s.take(b).push(s[b]));
    lemma_count_push(s.take(b), s[b], sep);
}

/// A field of a split string is determined by its number.
pub proof fn lemma_field_unique(s: Seq<char>, sep: char, n: nat, a1: int, b1: int, a2: int, b2: int)
    requires
        is_field(s, sep, n, a1, b1),
        is_field(s, sep, n, a2, b2),
    ensures
        a1 == a2,
        b1 == b2,
{
    if a1 < a2 {
        lemma_field_order(s, sep, n, a1, b1, a2, b2);
    } else if a2 < a1 {
        lemma_field_order(s, sep, n, a2, b2, a1, b1);
    }
    if b1 < b2 {
        assert(s[b1] == sep);
    } else if b2 < b1 {
        assert(s[b2] == sep);
    }
}

proof fn lemma_field_order(s: Seq<char>, sep: char, n: nat, a1: int, b1: int, a2: int, b2: int)
    requires
        is_field(s, sep, n, a1, b1),
        is_field(s, sep, n, a2, b2),
    ensures
        a2 <= a1,
{
    if a1 >= a2 {
    } else if a2 - 1 < b1 {
        assert(s[a2 - 1] == sep);
        assert(s[a2 - 1] != sep);
    } else {
        lemma_count_take_sep(s, sep, b1);
        lemma_count_take_mono(s, sep, a1, b1);
        lemma_count_take_mono(s, sep, b1 + 1, a2);
    }
}

/// Field `n` of `s` split at `sep`, if it has that many fields.
pub open spec fn field_of(s: Seq<char>, sep: char, n: nat) -> Option<Seq<char>> {
    if exists|a: int, b: int| is_field(s, sep, n, a, b) {
        let (a, b) = choose|a: int, b: int| is_field(s, sep, n, a, b);
        Some(s.subrange(a, b))
    } else {
        None
    }
}

/// Field `n` of `s` split at `sep`, as `str::split(sep).nth(n)` gives it.
pub fn split_nth(s: &str, sep: char, n: usize) -> (r: Option<&str>)
    ensures
        match r {
            Some(f) => field_of(s@, sep, n as nat) == Some(f@),
            None => field_of(s@, sep, n as nat) is None,
        },
{
    let r = nth_field(s, sep, n);
    proof {
        match r {
            Some(f) => {
                let (a, b) = choose|a: int, b: int| is_field(s@, sep, n as nat, a, b) && f@ == s@.subrange(a, b);
                assert(is_field(s@, sep, n as nat, a, b));
                let (a2, b2) = choose|a2: int, b2: int| is_field(s@, sep, n as nat, a2, b2);
                lemma_field_unique(s@, sep, n as nat, a, b, a2, b2);
            },
            None => {
                if exists|a: int, b: int| is_field(s@, sep, n as nat, a, b) {
                    let (a, b) = choose|a: int, b: int| is_field(s@, sep, n as nat, a, b);
                    lemma_count_take_mono(s@, sep, a, s@.len() as int);
                    assert(s@.take(s@.len() as int) =~= s@);
                }
            },
        }
    }
    r
}

} // verus!
