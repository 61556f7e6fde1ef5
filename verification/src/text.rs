//! Character-level helpers: digit and whitespace predicates, case-insensitive
//! comparison, and parsing of the numeric tokens the format uses, each
//! proved against a specification function over the token's characters.

use vstd::prelude::*;
use vstd::std_specs::iter::IteratorSpec;
use crate::model::Scale;

verus! {

/// An ASCII decimal digit.
pub open spec fn is_digit(c: char) -> bool {
    '0' <= c && c <= '9'
}

/// The value of a digit character; zero for anything else, so that digit
/// sums are never negative.
pub open spec fn digit_val(c: char) -> int {
    if is_digit(c) {
        (c as int) - ('0' as int)
    } else {
        0
    }
}

/// Every character of the sequence is a decimal digit.
pub open spec fn all_digits(t: Seq<char>) -> bool {
    forall|i: int| 0 <= i < t.len() ==> is_digit(t[i])
}

/// The number the digit sequence denotes in base ten.
pub open spec fn digits_val(t: Seq<char>) -> int
    decreases t.len(),
{
    if t.len() == 0 {
        0
    } else {
        digits_val(t.drop_last()) * 10 + digit_val(t.last())
    }
}

pub proof fn lemma_digits_val_nonneg(t: Seq<char>)
    ensures
        digits_val(t) >= 0,
    decreases t.len(),
{
    if t.len() > 0 {
        lemma_digits_val_nonneg(t.drop_last());
    }
}

/// A digit sequence denotes at least what any of its prefixes denotes.
pub proof fn lemma_digits_val_prefix(t: Seq<char>, i: int)
    requires
        0 <= i <= t.len(),
    ensures
        digits_val(t) >= digits_val(t.take(i)),
    decreases t.len() - i,
{
    if i == t.len() {
        assert(t.take(i) =~= t);
    } else {
        lemma_digits_val_prefix(t, i + 1);
        assert(t.take(i + 1).drop_last() =~= t.take(i));
        assert(t.take(i + 1).last() == t[i]);
        lemma_digits_val_nonneg(t.take(i));
    }
}

/// Horizontal whitespace inside a line.
pub open spec fn is_space(c: char) -> bool {
    c == ' ' || c == '\t' || c == '\r'
}

/// Case-insensitive match of a character against a lower-case ASCII
/// character `k`: equality, or the upper-case form where `k` is a
/// letter.  A `k` outside `a..z` (a digit in a spelling) matches only
/// itself.
pub open spec fn ci(c: char, k: char) -> bool {
    c == k || ('a' <= k && k <= 'z' && (c as int) + 32 == (k as int))
}

/// Exec counterpart of `ci`.
pub fn ci_eq(c: char, k: char) -> (r: bool)
    ensures
        r == ci(c, k),
{
    c == k || ('a' <= k && k <= 'z' && (c as u32) + 32 == (k as u32))
}

/// Exec counterpart of `is_space`.
pub fn space_eq(c: char) -> (r: bool)
    ensures
        r == is_space(c),
{
    c == ' ' || c == '\t' || c == '\r'
}

/// Exec counterpart of `is_digit`.
pub fn digit_eq(c: char) -> (r: bool)
    ensures
        r == is_digit(c),
{
    '0' <= c && c <= '9'
}

/// The first index at or after `p` holding character `c`, or the
/// sequence's length when there is none.
pub open spec fn find_from(t: Seq<char>, p: int, c: char) -> int
    decreases t.len() - p,
{
    if p < 0 || p >= t.len() {
        t.len() as int
    } else if t[p] == c {
        p
    } else {
        find_from(t, p + 1, c)
    }
}

pub proof fn lemma_find_from(t: Seq<char>, p: int, c: char)
    requires
        0 <= p <= t.len(),
    ensures
        p <= find_from(t, p, c) <= t.len(),
        find_from(t, p, c) < t.len() ==> t[find_from(t, p, c)] == c,
        forall|i: int| p <= i < find_from(t, p, c) ==> t[i] != c,
    decreases t.len() - p,
{
    if p < t.len() && t[p] != c {
        lemma_find_from(t, p + 1, c);
    }
}

/// Exec counterpart of `find_from`.
pub fn find_char(s: &Vec<char>, from: usize, c: char) -> (r: usize)
    requires
        from <= s@.len(),
    ensures
        r == find_from(s@, from as int, c),
        from <= r <= s@.len(),
{
    proof {
        lemma_find_from(s@, from as int, c);
    }
    let mut q: usize = from;
    while q < s.len() && s[q] != c
        invariant
            from <= q <= s@.len(),
            find_from(s@, from as int, c) == find_from(s@, q as int, c),
        decreases s@.len() - q,
    {
        q = q + 1;
    }
    q
}

/// The first index at or after `p` holding a character that is not
/// horizontal whitespace, or the sequence's length when there is none.
pub open spec fn skip_ws(t: Seq<char>, p: int) -> int
    decreases t.len() - p,
{
    if p < 0 || p >= t.len() {
        t.len() as int
    } else if is_space(t[p]) {
        skip_ws(t, p + 1)
    } else {
        p
    }
}

pub proof fn lemma_skip_ws(t: Seq<char>, p: int)
    requires
        0 <= p <= t.len(),
    ensures
        p <= skip_ws(t, p) <= t.len(),
        skip_ws(t, p) < t.len() ==> !is_space(t[skip_ws(t, p)]),
        forall|i: int| p <= i < skip_ws(t, p) ==> is_space(t[i]),
    decreases t.len() - p,
{
    if p < t.len() && is_space(t[p]) {
        lemma_skip_ws(t, p + 1);
    }
}

/// Exec counterpart of `skip_ws`.
pub fn skip_spaces(s: &Vec<char>, from: usize) -> (r: usize)
    requires
        from <= s@.len(),
    ensures
        r == skip_ws(s@, from as int),
        from <= r <= s@.len(),
{
    proof {
        lemma_skip_ws(s@, from as int);
    }
    let mut q: usize = from;
    while q < s.len() && space_eq(s[q])
        invariant
            from <= q <= s@.len(),
            skip_ws(s@, from as int) == skip_ws(s@, q as int),
        decreases s@.len() - q,
    {
        q = q + 1;
    }
    q
}

/// The unsigned number a non-empty all-digit token denotes, when it fits
/// in a `u64`.
pub open spec fn u64_opt(t: Seq<char>) -> Option<u64> {
    if t.len() > 0 && all_digits(t) && digits_val(t) <= u64::MAX {
        Some(digits_val(t) as u64)
    } else {
        None
    }
}

/// Scans `s[from..to]` as an unsigned decimal number.
pub fn scan_digits(s: &Vec<char>, from: usize, to: usize) -> (r: Option<u64>)
    requires
        from <= to <= s@.len(),
    ensures
        r == u64_opt(s@.subrange(from as int, to as int)),
{
    let ghost t = s@.subrange(from as int, to as int);
    if from == to {
        return None;
    }
    let mut acc: u64 = 0;
    let mut j: usize = from;
    while j < to
        invariant
            from <= j <= to <= s@.len(),
            t == s@.subrange(from as int, to as int),
            all_digits(t.take(j - from)),
            acc == digits_val(t.take(j - from)),
        decreases to - j,
    {
        let c = s[j];
        assert(c == t[j - from]);
        if !digit_eq(c) {
            assert(!all_digits(t));
            return None;
        }
        let d: u64 = (c as u64) - 48;
        assert(d == digit_val(c));
        proof {
            assert(t.take(j + 1 - from).drop_last() =~= t.take(j - from));
            assert(t.take(j + 1 - from).last() == t[j - from]);
        }
        if acc > 0xFFFF_FFFF_FFFF_FFFFu64 / 10 {
            proof {
                lemma_digits_val_nonneg(t.take(j - from));
                lemma_digits_val_prefix(t, j + 1 - from);
            }
            assert(digits_val(t) > u64::MAX);
            return None;
        }
        let shifted: u64 = acc * 10;
        if d > 0xFFFF_FFFF_FFFF_FFFFu64 - shifted {
            proof {
                lemma_digits_val_prefix(t, j + 1 - from);
            }
            assert(digits_val(t) > u64::MAX);
            return None;
        }
        acc = shifted + d;
        j = j + 1;
    }
    proof {
        assert(t.take(to - from) =~= t);
    }
    Some(acc)
}

/// The signed value of a digit token under an optional leading minus,
/// when it fits in an `i64`.
pub open spec fn signed_val(neg: bool, digits: Seq<char>) -> Option<i64> {
    if digits.len() > 0 && all_digits(digits) {
        let v = digits_val(digits);
        if neg && v <= (i64::MAX as int) + 1 {
            Some((-v) as i64)
        } else if !neg && v <= i64::MAX as int {
            Some(v as i64)
        } else {
            None
        }
    } else {
        None
    }
}

/// Scans `s[from..to]` as a digit run and applies the sign.
pub fn signed_scan(neg: bool, s: &Vec<char>, from: usize, to: usize) -> (r: Option<i64>)
    requires
        from <= to <= s@.len(),
    ensures
        r == signed_val(neg, s@.subrange(from as int, to as int)),
{
    let ghost t = s@.subrange(from as int, to as int);
    proof {
        lemma_digits_val_nonneg(t);
    }
    match scan_digits(s, from, to) {
        None => None,
        Some(v) => {
            if neg {
                if v <= 9223372036854775808u64 {
                    if v == 9223372036854775808u64 {
                        Some(i64::MIN)
                    } else {
                        Some(-(v as i64))
                    }
                } else {
                    None
                }
            } else {
                if v <= 9223372036854775807u64 {
                    Some(v as i64)
                } else {
                    None
                }
            }
        },
    }
}

/// The `i64` a signed decimal token denotes: an optional `-`, then one or
/// more digits, and nothing else.
pub open spec fn i64_opt(t: Seq<char>) -> Option<i64> {
    if t.len() >= 1 && t[0] == '-' {
        signed_val(true, t.skip(1))
    } else {
        signed_val(false, t)
    }
}

/// Parses a whole token as a signed 64-bit integer.
pub fn parse_i64_token(s: &Vec<char>) -> (r: Option<i64>)
    ensures
        r == i64_opt(s@),
{
    if s.len() >= 1 && s[0] == '-' {
        let r = signed_scan(true, s, 1, s.len());
        proof {
            assert(s@.subrange(1, s@.len() as int) =~= s@.skip(1));
        }
        r
    } else {
        let r = signed_scan(false, s, 0, s.len());
        proof {
            assert(s@.subrange(0, s@.len() as int) =~= s@);
        }
        r
    }
}

/// Parses a whole token as an unsigned 64-bit integer (no sign allowed).
pub fn parse_u64_token(s: &Vec<char>) -> (r: Option<u64>)
    ensures
        r == u64_opt(s@),
{
    let r = scan_digits(s, 0, s.len());
    proof {
        assert(s@.subrange(0, s@.len() as int) =~= s@);
    }
    r
}

/// The `u32` an unsigned decimal token denotes, when it fits.
pub open spec fn u32_opt(t: Seq<char>) -> Option<u32> {
    match u64_opt(t) {
        Some(v) => if v <= u32::MAX as u64 {
            Some(v as u32)
        } else {
            None
        },
        None => None,
    }
}

/// Parses a whole token as an unsigned 32-bit integer.
pub fn parse_u32_token(s: &Vec<char>) -> (r: Option<u32>)
    ensures
        r == u32_opt(s@),
{
    match parse_u64_token(s) {
        Some(v) => if v <= 0xFFFF_FFFFu64 {
            Some(v as u32)
        } else {
            None
        },
        None => None,
    }
}

/// The exact decimal a scale token denotes: an optional `-`, one or more
/// integer digits, and optionally a `.` followed by one or more fraction
/// digits.  The mantissa must fit in an `i64`.
pub open spec fn scale_opt(t: Seq<char>) -> Option<Scale> {
    let neg = t.len() >= 1 && t[0] == '-';
    let u = if neg {
        t.skip(1)
    } else {
        t
    };
    let dot = find_from(u, 0, '.');
    if dot == u.len() {
        match signed_val(neg, u) {
            Some(m) => Some(Scale { mantissa: m, frac_digits: 0 }),
            None => None,
        }
    } else if dot == 0 || dot == u.len() - 1 {
        None
    } else {
        let digits = u.take(dot) + u.skip(dot + 1);
        match signed_val(neg, digits) {
            Some(m) => Some(Scale { mantissa: m, frac_digits: (u.len() - dot - 1) as usize }),
            None => None,
        }
    }
}

/// Parses a whole token as an exact decimal scale value.
pub fn parse_scale_token(s: &Vec<char>) -> (r: Option<Scale>)
    ensures
        r == scale_opt(s@),
{
    let neg = s.len() >= 1 && s[0] == '-';
    let start: usize = if neg {
        1
    } else {
        0
    };
    let ghost u = if neg {
        s@.skip(1)
    } else {
        s@
    };
    proof {
        assert(u =~= s@.subrange(start as int, s@.len() as int));
        lemma_find_from(u, 0, '.');
    }
    let dot = find_char(s, start, '.');
    assert(dot - start == find_from(u, 0, '.')) by {
        lemma_find_offset(s@, start as int, '.');
    }
    if dot == s.len() {
        let m = signed_scan(neg, s, start, s.len());
        match m {
            Some(m) => Some(Scale { mantissa: m, frac_digits: 0 }),
            None => None,
        }
    } else if dot == start || dot == s.len() - 1 {
        None
    } else {
        let mut digits: Vec<char> = Vec::new();
        gather(s, start, dot, &mut digits);
        gather(s, dot + 1, s.len(), &mut digits);
        proof {
            assert(u.take(dot - start) =~= s@.subrange(start as int, dot as int));
            assert(u.skip(dot - start + 1) =~= s@.subrange(dot + 1, s@.len() as int));
        }
        let m = signed_scan_vec(neg, &digits);
        match m {
            Some(m) => Some(
                Scale { mantissa: m, frac_digits: s.len() - dot - 1 },
            ),
            None => None,
        }
    }
}

/// Appends `s[a..b]` to `out`.
pub fn gather(s: &Vec<char>, a: usize, b: usize, out: &mut Vec<char>)
    requires
        a <= b <= s@.len(),
    ensures
        final(out)@ == old(out)@ + s@.subrange(a as int, b as int),
{
    let mut j: usize = a;
    while j < b
        invariant
            a <= j <= b <= s@.len(),
            out@ == old(out)@ + s@.subrange(a as int, j as int),
        decreases b - j,
    {
        proof {
            assert(s@.subrange(a as int, j + 1) =~= s@.subrange(a as int, j as int).push(
                s@[j as int],
            ));
            assert(old(out)@ + s@.subrange(a as int, j + 1) =~= (old(out)@ + s@.subrange(
                a as int,
                j as int,
            )).push(s@[j as int]));
        }
        out.push(s[j]);
        j = j + 1;
    }
    proof {
        assert(out@ =~= old(out)@ + s@.subrange(a as int, b as int));
    }
}

/// A fresh vector holding `s[a..b]`.
pub fn sub_vec(s: &Vec<char>, a: usize, b: usize) -> (r: Vec<char>)
    requires
        a <= b <= s@.len(),
    ensures
        r@ == s@.subrange(a as int, b as int),
{
    let mut r: Vec<char> = Vec::new();
    gather(s, a, b, &mut r);
    r
}

/// A fresh copy of a character vector.
pub fn copy_chars(s: &Vec<char>) -> (r: Vec<char>)
    ensures
        r@ == s@,
{
    let r = sub_vec(s, 0, s.len());
    proof {
        assert(s@.subrange(0, s@.len() as int) =~= s@);
    }
    r
}

/// The characters of a string slice, in order.
pub fn chars_of(s: &str) -> (r: Vec<char>)
    ensures
        r@ == s@,
{
    broadcast use vstd::string::axiom_spec_iter, vstd::string::next_postcondition;

    let mut it = s.chars();
    let mut r: Vec<char> = Vec::new();
    loop
        invariant
            it.obeys_prophetic_iter_laws(),
            r@ + vstd::std_specs::iter::IteratorSpec::remaining(&it) == s@,
        decreases s@.len() - r@.len(),
    {
        match it.next() {
            Some(c) => {
                proof {
                    assert(r@.push(c) + vstd::std_specs::iter::IteratorSpec::remaining(&it)
                        =~= s@);
                }
                r.push(c);
            },
            None => {
                proof {
                    assert(r@ + vstd::std_specs::iter::IteratorSpec::remaining(&it) =~= r@);
                }
                return r;
            },
        }
    }
}

/// `signed_scan` over a whole vector.
fn signed_scan_vec(neg: bool, s: &Vec<char>) -> (r: Option<i64>)
    ensures
        r == signed_val(neg, s@),
{
    let r = signed_scan(neg, s, 0, s.len());
    proof {
        assert(s@.subrange(0, s@.len() as int) =~= s@);
    }
    r
}

/// Finding within a suffix is finding from an offset, shifted.
pub proof fn lemma_find_offset(t: Seq<char>, p: int, c: char)
    requires
        0 <= p <= t.len(),
    ensures
        find_from(t, p, c) - p == find_from(t.skip(p), 0, c),
{
    lemma_find_from(t, p, c);
    let u = t.skip(p);
    lemma_find_from(u, 0, c);
    let f = find_from(t, p, c);
    let g = find_from(u, 0, c);
    assert forall|i: int| 0 <= i < u.len() implies u[i] == t[p + i] by {}
    if f < t.len() {
        assert(u[f - p] == c);
        assert(g <= f - p);
    }
    if g < u.len() {
        assert(t[p + g] == c);
        assert(f <= p + g);
    }
    if f == t.len() && g < u.len() {
        assert(t[p + g] == c);
        assert(false);
    }
    if g == u.len() && f < t.len() {
        assert(u[f - p] == c);
        assert(false);
    }
}

} // verus!
