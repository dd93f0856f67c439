//! Decimal text of integers: reading it and writing it.
//!
//! Amounts and timestamps travel as decimal text so that no digit is lost
//! between the wide integers of the chain and the decimal type of the store.

use vstd::prelude::*;
use vstd::string::*;

verus! {

/// The value of a decimal digit, `None` for any other character.
pub open spec fn digit_value(c: char) -> Option<nat> {
    if c == '0' {
        Some(0nat)
    } else if c == '1' {
        Some(1nat)
    } else if c == '2' {
        Some(2nat)
    } else if c == '3' {
        Some(3nat)
    } else if c == '4' {
        Some(4nat)
    } else if c == '5' {
        Some(5nat)
    } else if c == '6' {
        Some(6nat)
    } else if c == '7' {
        Some(7nat)
    } else if c == '8' {
        Some(8nat)
    } else if c == '9' {
        Some(9nat)
    } else {
        None
    }
}

/// The character that writes a digit below ten.
pub open spec fn digit_char(d: nat) -> char {
    if d == 0 {
        '0'
    } else if d == 1 {
        '1'
    } else if d == 2 {
        '2'
    } else if d == 3 {
        '3'
    } else if d == 4 {
        '4'
    } else if d == 5 {
        '5'
    } else if d == 6 {
        '6'
    } else if d == 7 {
        '7'
    } else if d == 8 {
        '8'
    } else {
        '9'
    }
}

/// The number that a non-empty run of decimal digits writes, most
/// significant digit first; `None` where the run is empty or holds anything
/// but digits.
pub open spec fn digits_value(s: Seq<char>) -> Option<nat>
    decreases s.len(),
{
    if s.len() == 0 {
        None
    } else {
        match digit_value(s.last()) {
            None => None,
            Some(d) => if s.len() == 1 {
                Some(d)
            } else {
                match digits_value(s.drop_last()) {
                    None => None,
                    Some(v) => Some(v * 10 + d),
                }
            },
        }
    }
}

/// The canonical decimal text of a natural number: no sign, no leading zero
/// but for zero itself.
pub open spec fn decimal_text(n: nat) -> Seq<char>
    decreases n,
{
    if n < 10 {
        seq![digit_char(n)]
    } else {
        decimal_text(n / 10).push(digit_char(n % 10))
    }
}

/// The canonical decimal text of an integer: a minus sign before the digits
/// of a negative one.
pub open spec fn signed_decimal_text(v: int) -> Seq<char> {
    if v < 0 {
        seq!['-'] + decimal_text((-v) as nat)
    } else {
        decimal_text(v as nat)
    }
}

/// A non-empty run of decimal digits.
pub open spec fn all_digits(s: Seq<char>) -> bool {
    s.len() > 0 && forall|i: int| 0 <= i < s.len() ==> digit_value(#[trigger] s[i]) is Some
}

/// The text is split by a point at `k` into two runs of digits.
pub open spec fn point_at(s: Seq<char>, k: int) -> bool {
    0 < k < s.len() - 1 && s[k] == '.' && all_digits(s.subrange(0, k)) && all_digits(
        s.subrange(k + 1, s.len() as int),
    )
}

/// A plain decimal: digits, or digits, a point and digits. No sign, no
/// exponent.
pub open spec fn is_decimal_text(s: Seq<char>) -> bool {
    all_digits(s) || exists|k: int| point_at(s, k)
}

/// What follows the first character.
pub open spec fn tail(s: Seq<char>) -> Seq<char> {
    s.subrange(1, s.len() as int)
}

/// The number that a text writes as an unsigned decimal: digits, with or
/// without a plus sign before them.
pub open spec fn unsigned_value(s: Seq<char>) -> Option<nat> {
    if s.len() > 0 && s[0] == '+' {
        digits_value(tail(s))
    } else {
        digits_value(s)
    }
}

/// The number that a text writes as a signed decimal: digits, with or without
/// a plus or minus sign before them.
pub open spec fn signed_value(s: Seq<char>) -> Option<int> {
    if s.len() > 0 && s[0] == '-' {
        match digits_value(tail(s)) {
            Some(v) => Some(-(v as int)),
            None => None,
        }
    } else {
        match unsigned_value(s) {
            Some(v) => Some(v as int),
            None => None,
        }
    }
}

/// The digits' value where there is one and it does not exceed `max`.
pub open spec fn bounded_digits(s: Seq<char>, max: nat) -> Option<u128> {
    match digits_value(s) {
        Some(v) => if v <= max {
            Some(v as u128)
        } else {
            None
        },
        None => None,
    }
}

/// The unsigned 128-bit integer that a text writes, if it writes one.
pub open spec fn u128_of_text(s: Seq<char>) -> Option<u128> {
    match unsigned_value(s) {
        Some(v) => if v <= u128::MAX {
            Some(v as u128)
        } else {
            None
        },
        None => None,
    }
}

/// The unsigned 64-bit integer that a text writes, if it writes one.
pub open spec fn u64_of_text(s: Seq<char>) -> Option<u64> {
    match unsigned_value(s) {
        Some(v) => if v <= u64::MAX {
            Some(v as u64)
        } else {
            None
        },
        None => None,
    }
}

/// The signed 128-bit integer that a text writes, if it writes one.
pub open spec fn i128_of_text(s: Seq<char>) -> Option<i128> {
    match signed_value(s) {
        Some(v) => if i128::MIN <= v <= i128::MAX {
            Some(v as i128)
        } else {
            None
        },
        None => None,
    }
}

/// The signed 64-bit integer that a text writes, if it writes one.
pub open spec fn i64_of_text(s: Seq<char>) -> Option<i64> {
    match signed_value(s) {
        Some(v) => if i64::MIN <= v <= i64::MAX {
            Some(v as i64)
        } else {
            None
        },
        None => None,
    }
}

/// A run that holds a character which is no digit writes no number.
pub proof fn lemma_non_digit(s: Seq<char>, k: int)
    requires
        0 <= k < s.len(),
        digit_value(s[k]) is None,
    ensures
        digits_value(s) is None,
    decreases s.len(),
{
    if k < s.len() - 1 {
        lemma_non_digit(s.drop_last(), k);
    }
}

/// A run of digits is worth at least as much as any of its non-empty
/// prefixes.
pub proof fn lemma_prefix_bound(s: Seq<char>, k: int)
    requires
        1 <= k <= s.len(),
        digits_value(s) is Some,
    ensures
        digits_value(s.subrange(0, k)) is Some,
        digits_value(s.subrange(0, k)).unwrap() <= digits_value(s).unwrap(),
    decreases s.len() - k,
{
    if k == s.len() {
        assert(s.subrange(0, k) =~= s);
    } else {
        lemma_prefix_bound(s.drop_last(), k);
        assert(s.drop_last().subrange(0, k) =~= s.subrange(0, k));
    }
}

/// Reading the canonical text of a number gives the number back.
pub proof fn lemma_decimal_round_trip(n: nat)
    ensures
        digits_value(decimal_text(n)) == Some(n),
        unsigned_value(decimal_text(n)) == Some(n),
        decimal_text(n).len() > 0,
    decreases n,
{
    let t = decimal_text(n);
    if n >= 10 {
        lemma_decimal_round_trip(n / 10);
        assert(t.drop_last() =~= decimal_text(n / 10));
        assert(t.last() == digit_char(n % 10));
    }
    assert(digits_value(t) == Some(n));
    if t[0] == '+' {
        lemma_non_digit(t, 0);
    }
}

/// Reading the canonical text of an integer gives the integer back.
pub proof fn lemma_signed_round_trip(v: int)
    ensures
        signed_value(signed_decimal_text(v)) == Some(v),
{
    if v < 0 {
        let m = (-v) as nat;
        lemma_decimal_round_trip(m);
        let t = signed_decimal_text(v);
        assert(tail(t) =~= decimal_text(m));
    } else {
        lemma_decimal_round_trip(v as nat);
        let t = decimal_text(v as nat);
        if t[0] == '-' {
            lemma_non_digit(t, 0);
        }
    }
}

/// What writes a number is a run of digits.
pub proof fn lemma_value_needs_digits(s: Seq<char>)
    requires
        digits_value(s) is Some,
    ensures
        all_digits(s),
{
    assert forall|i: int| 0 <= i < s.len() implies digit_value(#[trigger] s[i]) is Some by {
        if digit_value(s[i]) is None {
            lemma_non_digit(s, i);
        }
    }
}

/// The value of a digit character.
pub fn digit_of(c: char) -> (r: Option<u8>)
    ensures
        match r {
            Some(d) => digit_value(c) == Some(d as nat),
            None => digit_value(c) is None,
        },
{
    if c == '0' {
        Some(0u8)
    } else if c == '1' {
        Some(1u8)
    } else if c == '2' {
        Some(2u8)
    } else if c == '3' {
        Some(3u8)
    } else if c == '4' {
        Some(4u8)
    } else if c == '5' {
        Some(5u8)
    } else if c == '6' {
        Some(6u8)
    } else if c == '7' {
        Some(7u8)
    } else if c == '8' {
        Some(8u8)
    } else if c == '9' {
        Some(9u8)
    } else {
        None
    }
}

/// Reads the digits that follow the first `start` characters of `s`, as far
/// as their value does not exceed `max`.
pub fn parse_digits(s: &str, start: usize, max: u128) -> (r: Option<u128>)
    requires
        start <= s@.len(),
    ensures
        r == bounded_digits(s@.subrange(start as int, s@.len() as int), max as nat),
{
    let n: usize = s.unicode_len();
    let ghost body = s@.subrange(start as int, s@.len() as int);
    if start >= n {
        return None;
    }
    let mut acc: u128 = 0;
    let mut i: usize = start;
    while i < n
        invariant
            start <= i <= n,
            n == s@.len(),
            body == s@.subrange(start as int, s@.len() as int),
            i == start ==> acc == 0,
            i > start ==> digits_value(body.subrange(0, i - start)) == Some(acc as nat),
            acc <= max,
        decreases n - i,
    {
        let c = s.get_char(i);
        let ghost k = i - start;
        assert(body[k] == c);
        match digit_of(c) {
            None => {
                proof {
                    lemma_non_digit(body, k);
                }
                return None;
            },
            Some(d) => {
                let ghost prefix = body.subrange(0, k + 1);
                proof {
                    assert(prefix.last() == c);
                    assert(prefix.drop_last() =~= body.subrange(0, k));
                    assert(digits_value(prefix) == Some((acc * 10 + d) as nat));
                }
                let d128: u128 = d as u128;
                if acc > max / 10 || (acc == max / 10 && d128 > max % 10) {
                    proof {
                        assert(acc * 10 + d > max);
                        if digits_value(body) is Some {
                            lemma_prefix_bound(body, k + 1);
                        }
                    }
                    return None;
                }
                acc = acc * 10 + d128;
            },
        }
        i = i + 1;
    }
    proof {
        assert(body.subrange(0, i - start) =~= body);
    }
    Some(acc)
}

/// Reads an unsigned decimal of up to 128 bits.
pub fn parse_u128(s: &str) -> (r: Option<u128>)
    ensures
        r == u128_of_text(s@),
{
    let n: usize = s.unicode_len();
    if n > 0 && s.get_char(0) == '+' {
        parse_digits(s, 1, u128::MAX)
    } else {
        assert(s@.subrange(0, s@.len() as int) =~= s@);
        parse_digits(s, 0, u128::MAX)
    }
}

/// Reads an unsigned decimal of up to 64 bits.
pub fn parse_u64(s: &str) -> (r: Option<u64>)
    ensures
        r == u64_of_text(s@),
{
    let n: usize = s.unicode_len();
    let wide = if n > 0 && s.get_char(0) == '+' {
        parse_digits(s, 1, 0xffff_ffff_ffff_ffffu128)
    } else {
        assert(s@.subrange(0, s@.len() as int) =~= s@);
        parse_digits(s, 0, 0xffff_ffff_ffff_ffffu128)
    };
    match wide {
        Some(v) => Some(v as u64),
        None => None,
    }
}

/// Reads a signed decimal of up to 128 bits.
pub fn parse_i128(s: &str) -> (r: Option<i128>)
    ensures
        r == i128_of_text(s@),
{
    let n: usize = s.unicode_len();
    if n > 0 && s.get_char(0) == '-' {
        match parse_digits(s, 1, 0x8000_0000_0000_0000_0000_0000_0000_0000u128) {
            Some(m) => if m == 0x8000_0000_0000_0000_0000_0000_0000_0000u128 {
                Some(i128::MIN)
            } else {
                Some(-(m as i128))
            },
            None => None,
        }
    } else {
        let wide = if n > 0 && s.get_char(0) == '+' {
            parse_digits(s, 1, 0x7fff_ffff_ffff_ffff_ffff_ffff_ffff_ffffu128)
        } else {
            assert(s@.subrange(0, s@.len() as int) =~= s@);
            parse_digits(s, 0, 0x7fff_ffff_ffff_ffff_ffff_ffff_ffff_ffffu128)
        };
        match wide {
            Some(v) => Some(v as i128),
            None => None,
        }
    }
}

/// Reads a signed decimal of up to 64 bits.
pub fn parse_i64(s: &str) -> (r: Option<i64>)
    ensures
        r == i64_of_text(s@),
{
    match parse_i128(s) {
        Some(v) => if v < -0x8000_0000_0000_0000i128 || v > 0x7fff_ffff_ffff_ffffi128 {
            None
        } else {
            Some(v as i64)
        },
        None => None,
    }
}

/// Whether a text is a plain decimal.
pub fn is_decimal(s: &str) -> (r: bool)
    ensures
        r == is_decimal_text(s@),
{
    let n: usize = s.unicode_len();
    let mut point: Option<usize> = None;
    let mut i: usize = 0;
    while i < n
        invariant
            i <= n,
            n == s@.len(),
            match point {
                None => forall|k: int| 0 <= k < i ==> digit_value(#[trigger] s@[k]) is Some,
                Some(d) => 0 < d < i && s@[d as int] == '.' && forall|k: int|
                    0 <= k < i && k != d ==> digit_value(#[trigger] s@[k]) is Some,
            },
        decreases n - i,
    {
        let c = s.get_char(i);
        if digit_of(c).is_some() {
        } else if c == '.' && point.is_none() && i > 0 {
            point = Some(i);
        } else {
            proof {
                let other: int = match point {
                    Some(d) => if c == '.' {
                        d as int
                    } else {
                        i as int
                    },
                    None => i as int,
                };
                assert forall|k: int| !point_at(s@, k) by {
                    if point_at(s@, k) {
                        let at: int = if k == i {
                            other
                        } else {
                            i as int
                        };
                        assert(digit_value(s@[at]) is None);
                        if at < k {
                            assert(s@.subrange(0, k)[at] == s@[at]);
                        } else {
                            assert(s@.subrange(k + 1, s@.len() as int)[at - k - 1] == s@[at]);
                        }
                    }
                }
                assert(digit_value(s@[i as int]) is None);
            }
            return false;
        }
        i = i + 1;
    }
    match point {
        None => {
            proof {
                assert forall|k: int| !point_at(s@, k) by {
                    if point_at(s@, k) {
                        assert(digit_value(s@[k]) is Some);
                    }
                }
            }
            n > 0
        },
        Some(d) => {
            proof {
                assert(digit_value(s@[d as int]) is None);
                if d + 1 < n {
                    let front = s@.subrange(0, d as int);
                    let back = s@.subrange(d + 1, s@.len() as int);
                    assert forall|k: int| 0 <= k < front.len() implies digit_value(
                        #[trigger] front[k],
                    ) is Some by {
                        assert(front[k] == s@[k]);
                    }
                    assert forall|k: int| 0 <= k < back.len() implies digit_value(
                        #[trigger] back[k],
                    ) is Some by {
                        assert(back[k] == s@[k + d + 1]);
                    }
                    assert(point_at(s@, d as int));
                } else {
                    assert forall|k: int| !point_at(s@, k) by {
                        if point_at(s@, k) {
                            assert(digit_value(s@[k]) is Some);
                        }
                    }
                }
            }
            d + 1 < n
        },
    }
}

/// The text of one digit.
fn digit_text(d: u128) -> (r: &'static str)
    requires
        d < 10,
    ensures
        r@ == seq![digit_char(d as nat)],
{
    proof {
        reveal_strlit("0");
        reveal_strlit("1");
        reveal_strlit("2");
        reveal_strlit("3");
        reveal_strlit("4");
        reveal_strlit("5");
        reveal_strlit("6");
        reveal_strlit("7");
        reveal_strlit("8");
        reveal_strlit("9");
    }
    let r = if d == 0 {
        "0"
    } else if d == 1 {
        "1"
    } else if d == 2 {
        "2"
    } else if d == 3 {
        "3"
    } else if d == 4 {
        "4"
    } else if d == 5 {
        "5"
    } else if d == 6 {
        "6"
    } else if d == 7 {
        "7"
    } else if d == 8 {
        "8"
    } else {
        "9"
    };
    assert(r@ =~= seq![digit_char(d as nat)]);
    r
}

/// Writes the canonical decimal text of an unsigned integer.
pub fn format_u128(n: u128) -> (r: String)
    ensures
        r@ == decimal_text(n as nat),
    decreases n,
{
    if n < 10 {
        String::from_str(digit_text(n))
    } else {
        let mut text = format_u128(n / 10);
        text.append(digit_text(n % 10));
        assert(text@ =~= decimal_text(n as nat));
        text
    }
}

/// Writes the canonical decimal text of a signed integer.
pub fn format_i128(v: i128) -> (r: String)
    ensures
        r@ == signed_decimal_text(v as int),
{
    if v < 0 {
        let magnitude: u128 = ((-(v + 1)) as u128) + 1;
        let digits = format_u128(magnitude);
        let mut text = String::from_str("-");
        text.append(digits.as_str());
        proof {
            reveal_strlit("-");
            assert(text@ =~= signed_decimal_text(v as int));
        }
        text
    } else {
        format_u128(v as u128)
    }
}

} // verus!
