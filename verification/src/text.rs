//! Plain text helpers: decimal rendering and parsing for counters and
//! edit fields, character-level string editing, and the lexicographic
//! order the group list is shown in.

use vstd::prelude::*;

verus! {

/// The digit character for `d`.
pub open spec fn spec_digit_str(d: int) -> Seq<char> {
    if d == 0 {
        "0"@
    } else if d == 1 {
        "1"@
    } else if d == 2 {
        "2"@
    } else if d == 3 {
        "3"@
    } else if d == 4 {
        "4"@
    } else if d == 5 {
        "5"@
    } else if d == 6 {
        "6"@
    } else if d == 7 {
        "7"@
    } else if d == 8 {
        "8"@
    } else {
        "9"@
    }
}

/// The decimal rendering of `n`, without sign or padding.
pub open spec fn spec_dec_digits(n: int) -> Seq<char>
    decreases n,
{
    if n < 10 {
        spec_digit_str(n)
    } else {
        spec_dec_digits(n / 10) + spec_digit_str(n % 10)
    }
}

fn digit_str(d: u64) -> (r: &'static str)
    requires
        d < 10,
    ensures
        r@ == spec_digit_str(d as int),
{
    match d {
        0 => "0",
        1 => "1",
        2 => "2",
        3 => "3",
        4 => "4",
        5 => "5",
        6 => "6",
        7 => "7",
        8 => "8",
        _ => "9",
    }
}

/// Render `n` in decimal.
pub fn u64_to_string(n: u64) -> (s: String)
    ensures
        s@ == spec_dec_digits(n as int),
    decreases n,
{
    if n < 10 {
        String::from_str(digit_str(n))
    } else {
        u64_to_string(n / 10).concat(digit_str(n % 10))
    }
}

/// The numeric value of the digit `c`, if it is one.
pub open spec fn spec_digit_of(c: char) -> Option<int> {
    if c == '0' {
        Some(0)
    } else if c == '1' {
        Some(1)
    } else if c == '2' {
        Some(2)
    } else if c == '3' {
        Some(3)
    } else if c == '4' {
        Some(4)
    } else if c == '5' {
        Some(5)
    } else if c == '6' {
        Some(6)
    } else if c == '7' {
        Some(7)
    } else if c == '8' {
        Some(8)
    } else if c == '9' {
        Some(9)
    } else {
        None
    }
}

/// Whether every character of `s` is a digit.
pub open spec fn spec_all_digits(s: Seq<char>) -> bool {
    forall|i: int| 0 <= i < s.len() ==> (#[trigger] spec_digit_of(s[i])) is Some
}

/// The value of an all-digit string (0 where a character is no digit).
pub open spec fn spec_digits_value(s: Seq<char>) -> int
    decreases s.len(),
{
    if s.len() == 0 {
        0
    } else {
        spec_digits_value(s.drop_last()) * 10 + (match spec_digit_of(s.last()) {
            Some(d) => d,
            None => 0,
        })
    }
}

/// The digit part of a decimal literal: everything after an optional
/// leading plus sign.
pub open spec fn spec_digit_part(s: Seq<char>) -> Seq<char> {
    if s.len() >= 1 && s[0] == '+' {
        s.drop_first()
    } else {
        s
    }
}

/// What parsing `s` as an unsigned decimal yields: an optional leading
/// plus sign, then at least one digit, and a value within `max`.
pub open spec fn spec_parse_uint(s: Seq<char>, max: int) -> Option<u64> {
    let d = spec_digit_part(s);
    if d.len() >= 1 && spec_all_digits(d) && spec_digits_value(d) <= max {
        Some(spec_digits_value(d) as u64)
    } else {
        None
    }
}

proof fn lemma_digits_value_nonneg(s: Seq<char>)
    ensures
        spec_digits_value(s) >= 0,
    decreases s.len(),
{
    if s.len() > 0 {
        lemma_digits_value_nonneg(s.drop_last());
    }
}

proof fn lemma_digits_value_prefix(s: Seq<char>, i: int)
    requires
        0 <= i <= s.len(),
    ensures
        spec_digits_value(s.take(i)) <= spec_digits_value(s),
    decreases s.len(),
{
    if i == s.len() {
        assert(s.take(i) =~= s);
    } else {
        let s1 = s.drop_last();
        assert(s.take(i) =~= s1.take(i));
        lemma_digits_value_prefix(s1, i);
        lemma_digits_value_nonneg(s1);
        lemma_digits_value_nonneg(s.take(i));
        assert(spec_digits_value(s) == spec_digits_value(s1) * 10 + (match spec_digit_of(
            s.last(),
        ) {
            Some(d) => d,
            None => 0,
        }));
        assert(spec_digits_value(s1) * 10 >= spec_digits_value(s1)) by (nonlinear_arith)
            requires
                spec_digits_value(s1) >= 0,
        ;
    }
}

/// The digit `c` holds, if any.
fn digit_of(c: char) -> (r: Option<u64>)
    ensures
        match r {
            Some(d) => spec_digit_of(c) == Some(d as int),
            None => spec_digit_of(c) is None,
        },
{
    match c {
        '0' => Some(0),
        '1' => Some(1),
        '2' => Some(2),
        '3' => Some(3),
        '4' => Some(4),
        '5' => Some(5),
        '6' => Some(6),
        '7' => Some(7),
        '8' => Some(8),
        '9' => Some(9),
        _ => None,
    }
}

/// Parse an unsigned decimal with an upper bound, as an edit field is
/// read back: an optional leading plus sign, then digits; anything
/// else, or a value over `max`, is rejected.
pub fn parse_uint(s: &str, max: u64) -> (r: Option<u64>)
    ensures
        r == spec_parse_uint(s@, max as int),
{
    let n = s.unicode_len();
    let start: usize = if n >= 1 && s.get_char(0) == '+' {
        1
    } else {
        0
    };
    let ghost d = spec_digit_part(s@);
    assert(d =~= s@.subrange(start as int, n as int));
    if n == start {
        return None;
    }
    let mut acc: u64 = 0;
    let mut i: usize = start;
    while i < n
        invariant
            start <= i <= n,
            n == s@.len(),
            d == spec_digit_part(s@),
            d =~= s@.subrange(start as int, n as int),
            spec_all_digits(d.take(i - start)),
            acc == spec_digits_value(d.take(i - start)),
        decreases n - i,
    {
        let c = s.get_char(i);
        assert(d[i - start] == s@[i as int]);
        match digit_of(c) {
            Some(dv) => {
                assert(d.take(i + 1 - start).drop_last() =~= d.take(i - start));
                if acc > (u64::MAX - dv) / 10 {
                    proof {
                        let t = d.take(i + 1 - start);
                        assert(t.last() == d[i - start]);
                        assert(spec_digit_of(t.last()) == Some(dv as int));
                        assert(spec_digits_value(t) == spec_digits_value(t.drop_last()) * 10
                            + dv);
                        assert(spec_digits_value(t) == acc * 10 + dv);
                        assert(acc * 10 + dv > u64::MAX) by (nonlinear_arith)
                            requires
                                acc > (u64::MAX - dv) / 10,
                                dv < 10,
                        ;
                        lemma_digits_value_prefix(d, i + 1 - start);
                    }
                    return None;
                }
                proof {
                    let t = d.take(i + 1 - start);
                    assert(t.last() == d[i - start]);
                    assert(spec_digit_of(t.last()) == Some(dv as int));
                    assert(spec_digits_value(t) == spec_digits_value(t.drop_last()) * 10 + dv);
                    assert(acc * 10 + dv <= u64::MAX) by (nonlinear_arith)
                        requires
                            acc <= (u64::MAX - dv) / 10,
                            dv < 10,
                    ;
                }
                acc = acc * 10 + dv;
            },
            None => {
                assert(spec_digit_of(d[i - start]) is None);
                assert(!spec_all_digits(d));
                return None;
            },
        }
        i = i + 1;
    }
    assert(d.take(n - start) =~= d);
    if acc <= max {
        Some(acc)
    } else {
        None
    }
}

/// Appends one character to a string.
///
/// Relies on String::push: it appends the given character to the end
/// of the string.
#[verifier::external_body]
pub(crate) fn string_push(s: &mut String, c: char)
    ensures
        final(s)@ == old(s)@.push(c),
{
    s.push(c);
}

/// Removes a string's last character, if it has one.
///
/// Relies on String::pop: it removes the last character and returns
/// it, or returns nothing when the string is empty.
#[verifier::external_body]
pub(crate) fn string_pop(s: &mut String) -> (r: Option<char>)
    ensures
        old(s)@.len() == 0 ==> final(s)@ == old(s)@ && r is None,
        old(s)@.len() > 0 ==> final(s)@ == old(s)@.drop_last() && r == Some(
            old(s)@.last(),
        ),
{
    s.pop()
}

/// Lexicographic order on strings, by Unicode scalar value: the empty
/// string first, then position by position.
pub open spec fn spec_str_le(a: Seq<char>, b: Seq<char>) -> bool
    decreases a.len(),
{
    if a.len() == 0 {
        true
    } else if b.len() == 0 {
        false
    } else if (a[0] as u32) < (b[0] as u32) {
        true
    } else if (a[0] as u32) > (b[0] as u32) {
        false
    } else {
        spec_str_le(a.drop_first(), b.drop_first())
    }
}

/// Any two strings compare, one way or the other.
pub proof fn lemma_str_le_total(a: Seq<char>, b: Seq<char>)
    ensures
        spec_str_le(a, b) || spec_str_le(b, a),
    decreases a.len(),
{
    if a.len() > 0 && b.len() > 0 && (a[0] as u32) == (b[0] as u32) {
        lemma_str_le_total(a.drop_first(), b.drop_first());
    }
}

/// The order chains.
pub proof fn lemma_str_le_trans(a: Seq<char>, b: Seq<char>, c: Seq<char>)
    requires
        spec_str_le(a, b),
        spec_str_le(b, c),
    ensures
        spec_str_le(a, c),
    decreases a.len(),
{
    if a.len() > 0 && b.len() > 0 && c.len() > 0 && (a[0] as u32) == (b[0] as u32) && (b[0]
        as u32) == (c[0] as u32) {
        lemma_str_le_trans(a.drop_first(), b.drop_first(), c.drop_first());
    }
}

/// Compare two strings in the order above.
pub fn str_le(a: &String, b: &String) -> (r: bool)
    ensures
        r == spec_str_le(a@, b@),
{
    let la = a.as_str().unicode_len();
    let lb = b.as_str().unicode_len();
    let mut i: usize = 0;
    assert(a@.skip(0) =~= a@);
    assert(b@.skip(0) =~= b@);
    while i < la && i < lb
        invariant
            i <= la,
            i <= lb,
            la == a@.len(),
            lb == b@.len(),
            spec_str_le(a@, b@) == spec_str_le(a@.skip(i as int), b@.skip(i as int)),
        decreases la - i,
    {
        let ca = a.as_str().get_char(i);
        let cb = b.as_str().get_char(i);
        proof {
            assert(a@.skip(i as int)[0] == a@[i as int]);
            assert(b@.skip(i as int)[0] == b@[i as int]);
            assert(a@.skip(i as int).drop_first() =~= a@.skip(i + 1));
            assert(b@.skip(i as int).drop_first() =~= b@.skip(i + 1));
        }
        if (ca as u32) < (cb as u32) {
            return true;
        }
        if (ca as u32) > (cb as u32) {
            return false;
        }
        i = i + 1;
    }
    proof {
        if i >= la {
            assert(a@.skip(i as int).len() == 0);
        } else {
            assert(b@.skip(i as int).len() == 0);
            assert(a@.skip(i as int).len() > 0);
        }
    }
    la <= lb
}

/// The human-scaled rendering of a byte count: plain bytes below one
/// kibibyte, otherwise kibibytes or mebibytes with one (truncated)
/// decimal place.
pub open spec fn spec_format_speed(n: int) -> Seq<char> {
    if n < 1024 {
        spec_dec_digits(n) + " B"@
    } else if n < 1048576 {
        spec_dec_digits(n / 1024int) + "."@ + spec_dec_digits((n % 1024int) * 10 / 1024int)
            + " KB"@
    } else {
        spec_dec_digits(n / 1048576int) + "."@ + spec_dec_digits(
            (n % 1048576int) * 10 / 1048576int,
        ) + " MB"@
    }
}

/// Render a per-tick byte count for display.
pub fn format_speed(bytes: u64) -> (r: String)
    ensures
        r@ == spec_format_speed(bytes as int),
{
    if bytes < 1024 {
        u64_to_string(bytes).concat(" B")
    } else if bytes < 1024 * 1024 {
        let whole = bytes / 1024;
        let tenth = (bytes % 1024) * 10 / 1024;
        u64_to_string(whole).concat(".").concat(u64_to_string(tenth).as_str()).concat(" KB")
    } else {
        let whole = bytes / (1024 * 1024);
        let tenth = (bytes % (1024 * 1024)) * 10 / (1024 * 1024);
        u64_to_string(whole).concat(".").concat(u64_to_string(tenth).as_str()).concat(" MB")
    }
}

} // verus!
