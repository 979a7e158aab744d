//! Decimal notation for integers: writing a number as text and reading it back.

use crate::text::chars_of;
use vstd::prelude::*;

verus! {

/// Whether `c` is one of the ten ASCII digits.
pub open spec fn is_digit(c: char) -> bool {
    '0' <= c && c <= '9'
}

/// The digit that stands for `d`, for `d` below ten.
pub open spec fn digit_char(d: int) -> char {
    if d == 0 {
        '0'
    } else if d == 1 {
        '1'
    } else if d == 2 {
        '2'
    } else if d == 3 {
        '3'
    } else if d == 4 {
        '4'
    } else if d == 5 {
        '5'
    } else if d == 6 {
        '6'
    } else if d == 7 {
        '7'
    } else if d == 8 {
        '8'
    } else {
        '9'
    }
}

/// The number that the digit `c` stands for.
pub open spec fn digit_value(c: char) -> int {
    if c == '0' {
        0
    } else if c == '1' {
        1
    } else if c == '2' {
        2
    } else if c == '3' {
        3
    } else if c == '4' {
        4
    } else if c == '5' {
        5
    } else if c == '6' {
        6
    } else if c == '7' {
        7
    } else if c == '8' {
        8
    } else {
        9
    }
}

/// The digits of `n`, most significant first, without leading zeros.
pub open spec fn digits(n: nat) -> Seq<char>
    decreases n,
{
    if n < 10 {
        seq![digit_char(n as int)]
    } else {
        digits(n / 10).push(digit_char((n % 10) as int))
    }
}

/// `n` in decimal notation, with a leading minus sign when it is negative.
pub open spec fn decimal(n: int) -> Seq<char> {
    if n < 0 {
        seq!['-'] + digits((-n) as nat)
    } else {
        digits(n as nat)
    }
}

/// Whether `s` consists of digits only.
pub open spec fn all_digits(s: Seq<char>) -> bool {
    forall|i: int| 0 <= i < s.len() ==> is_digit(#[trigger] s[i])
}

/// The number that a sequence of digits denotes; zero for the empty sequence.
pub open spec fn digits_value(s: Seq<char>) -> nat
    decreases s.len(),
{
    if s.len() == 0 {
        0
    } else {
        (digits_value(s.drop_last()) * 10 + digit_value(s.last())) as nat
    }
}

/// The integer that `s` denotes: an optional sign, `+` or `-`, followed by one
/// or more digits and nothing else. `None` for any other text.
pub open spec fn parse_int(s: Seq<char>) -> Option<int> {
    if s.len() > 0 && (s[0] == '-' || s[0] == '+') {
        let body = s.skip(1);
        if body.len() > 0 && all_digits(body) {
            if s[0] == '-' {
                Some(-(digits_value(body) as int))
            } else {
                Some(digits_value(body) as int)
            }
        } else {
            None
        }
    } else if s.len() > 0 && all_digits(s) {
        Some(digits_value(s) as int)
    } else {
        None
    }
}

/// The 16-bit signed integer that `s` denotes, if it denotes an integer and
/// that integer fits.
pub open spec fn parse_i16_spec(s: Seq<char>) -> Option<i16> {
    match parse_int(s) {
        Some(v) => if i16::MIN <= v <= i16::MAX {
            Some(v as i16)
        } else {
            None
        },
        None => None,
    }
}

/// The 32-bit signed integer that `s` denotes, if it denotes an integer and
/// that integer fits.
pub open spec fn parse_i32_spec(s: Seq<char>) -> Option<i32> {
    match parse_int(s) {
        Some(v) => if i32::MIN <= v <= i32::MAX {
            Some(v as i32)
        } else {
            None
        },
        None => None,
    }
}

/// A longer sequence of digits never denotes a smaller number than its prefix.
pub proof fn lemma_digits_value_prefix(s: Seq<char>, k: int)
    requires
        0 <= k <= s.len(),
    ensures
        digits_value(s.take(k)) <= digits_value(s),
    decreases s.len() - k,
{
    if k == s.len() {
        assert(s.take(k) =~= s);
    } else {
        lemma_digits_value_prefix(s, k + 1);
        let t = s.take(k + 1);
        assert(t.drop_last() =~= s.take(k));
    }
}

/// The digits of a number are digits, at least one, and denote the number.
pub proof fn lemma_digits(n: nat)
    ensures
        digits(n).len() > 0,
        all_digits(digits(n)),
        digits_value(digits(n)) == n,
    decreases n,
{
    if n < 10 {
        assert(digits(n).drop_last() =~= Seq::<char>::empty());
        assert(digits(n).last() == digit_char(n as int));
        assert(digits_value(digits(n).drop_last()) == 0);
        assert(digit_value(digit_char(n as int)) == n);
    } else {
        lemma_digits(n / 10);
        let front = digits(n / 10);
        let last = digit_char((n % 10) as int);
        assert(digits(n) == front.push(last));
        assert(digits(n).drop_last() =~= front);
        assert(digits(n).last() == last);
        assert(digit_value(last) == n % 10);
        assert(digits_value(digits(n)) == digits_value(front) * 10 + digit_value(last));
        assert forall|i: int| 0 <= i < digits(n).len() implies is_digit(#[trigger] digits(n)[i]) by {
            if i < front.len() {
                assert(digits(n)[i] == front[i]);
            }
        }
    }
}

/// A number that is written in decimal notation is read back as itself.
pub proof fn lemma_parse_decimal(n: int)
    ensures
        parse_int(decimal(n)) == Some(n),
{
    if n < 0 {
        lemma_digits((-n) as nat);
        assert(decimal(n).skip(1) =~= digits((-n) as nat));
    } else {
        lemma_digits(n as nat);
        assert(is_digit(digits(n as nat)[0]));
    }
}

/// A 16-bit number that is written in decimal notation is read back as
/// itself.
pub proof fn lemma_parse_decimal_i16(n: i16)
    ensures
        parse_i16_spec(decimal(n as int)) == Some(n),
{
    lemma_parse_decimal(n as int);
}

fn digit_text(d: u8) -> (r: &'static str)
    requires
        d < 10,
    ensures
        r@ == seq![digit_char(d as int)],
{
    proof {
        reveal_strlit("0");
        reveal_strlit("1");
        reveal_strlit("2");
        reveal_strlit("3");
        reveal_strlit("4");
        reveal_strlit("5");
        reveal_strlit("6");
        reveal_strlit("7");
        reveal_strlit("8");
        reveal_strlit("9");
    }
    let r = if d == 0 {
        "0"
    } else if d == 1 {
        "1"
    } else if d == 2 {
        "2"
    } else if d == 3 {
        "3"
    } else if d == 4 {
        "4"
    } else if d == 5 {
        "5"
    } else if d == 6 {
        "6"
    } else if d == 7 {
        "7"
    } else if d == 8 {
        "8"
    } else {
        "9"
    };
    assert(r@ =~= seq![digit_char(d as int)]);
    r
}

fn digits_string(n: u64) -> (r: String)
    ensures
        r@ == digits(n as nat),
{
    let mut rest: u64 = n / 10;
    let mut out = String::from_str(digit_text((n % 10) as u8));
    proof {
        if n >= 10 {
            assert(digits(n as nat) == digits(rest as nat).push(digit_char((n % 10) as int)));
            assert(digits(rest as nat) + out@ =~= digits(n as nat));
        } else {
            assert(rest == 0);
        }
    }
    while rest > 0
        invariant
            rest > 0 ==> digits(rest as nat) + out@ == digits(n as nat),
            rest == 0 ==> out@ == digits(n as nat),
        decreases rest,
    {
        let d = digit_text((rest % 10) as u8);
        let ghost old_out = out@;
        let ghost old_rest = rest;
        out = String::from_str(d).concat(out.as_str());
        rest = rest / 10;
        proof {
            if old_rest >= 10 {
                assert(digits(old_rest as nat) == digits(rest as nat).push(
                    digit_char((old_rest % 10) as int),
                ));
                assert(digits(rest as nat) + out@ =~= digits(old_rest as nat) + old_out);
            } else {
                assert(out@ =~= digits(old_rest as nat) + old_out);
            }
        }
    }
    out
}

/// Writes `n` in decimal notation.
pub fn decimal_string(n: i64) -> (r: String)
    ensures
        r@ == decimal(n as int),
{
    if n < 0 {
        let magnitude: u64 = ((-(n + 1)) as u64) + 1;
        let body = digits_string(magnitude);
        proof {
            reveal_strlit("-");
            assert("-"@ =~= seq!['-']);
        }
        String::from_str("-").concat(body.as_str())
    } else {
        digits_string(n as u64)
    }
}

fn digit_of(c: char) -> (r: u64)
    requires
        is_digit(c),
    ensures
        r == digit_value(c),
        r < 10,
{
    if c == '0' {
        0
    } else if c == '1' {
        1
    } else if c == '2' {
        2
    } else if c == '3' {
        3
    } else if c == '4' {
        4
    } else if c == '5' {
        5
    } else if c == '6' {
        6
    } else if c == '7' {
        7
    } else if c == '8' {
        8
    } else {
        9
    }
}

/// The number that the digits from `start` on denote, if there is at least one
/// character there, all of them are digits, and the number is at most `limit`.
fn parse_magnitude(chars: &Vec<char>, start: usize, limit: u64) -> (r: Option<u64>)
    requires
        start <= chars.len(),
        limit <= 0x8000_0000,
    ensures
        r == ({
            let body = chars@.skip(start as int);
            if body.len() > 0 && all_digits(body) && digits_value(body) <= limit {
                Some(digits_value(body) as u64)
            } else {
                None
            }
        }),
{
    let n = chars.len();
    let ghost body = chars@.skip(start as int);
    if start == n {
        return None;
    }
    let mut acc: u64 = 0;
    let mut i: usize = start;
    proof {
        assert(body.take(0) =~= Seq::<char>::empty());
    }
    while i < n
        invariant
            start <= i <= n,
            n == chars.len(),
            body == chars@.skip(start as int),
            limit <= 0x8000_0000,
            all_digits(body.take(i - start)),
            acc == digits_value(body.take(i - start)),
            acc <= limit,
        decreases n - i,
    {
        let c = chars[i];
        assert(c == body[i - start]);
        if !('0' <= c && c <= '9') {
            return None;
        }
        let ghost next = body.take(i - start + 1);
        proof {
            assert(next.drop_last() =~= body.take(i - start));
            assert(next.last() == c);
            assert forall|j: int| 0 <= j < next.len() implies is_digit(#[trigger] next[j]) by {
                if j < i - start {
                    assert(next[j] == body.take(i - start)[j]);
                }
            }
        }
        acc = acc * 10 + digit_of(c);
        if acc > limit {
            proof {
                lemma_digits_value_prefix(body, i - start + 1);
            }
            return None;
        }
        i += 1;
    }
    proof {
        assert(body.take(n - start) =~= body);
    }
    Some(acc)
}

/// Reads an integer between `min` and `max`.
fn parse_bounded(s: &str, min: i64, max: i64) -> (r: Option<i64>)
    requires
        -0x8000_0000 <= min <= 0 <= max <= 0x7fff_ffff,
    ensures
        r == match parse_int(s@) {
            Some(v) => if min <= v <= max {
                Some(v as i64)
            } else {
                None
            },
            None => None,
        },
{
    let chars = chars_of(s);
    if chars.len() == 0 {
        return None;
    }
    let first = chars[0];
    if first == '-' {
        match parse_magnitude(&chars, 1, (-min) as u64) {
            Some(m) => Some(-(m as i64)),
            None => None,
        }
    } else if first == '+' {
        match parse_magnitude(&chars, 1, max as u64) {
            Some(m) => Some(m as i64),
            None => None,
        }
    } else {
        proof {
            assert(chars@.skip(0) =~= chars@);
        }
        match parse_magnitude(&chars, 0, max as u64) {
            Some(m) => Some(m as i64),
            None => None,
        }
    }
}

/// Reads a 16-bit signed integer: an optional sign followed by digits.
pub fn parse_i16(s: &str) -> (r: Option<i16>)
    ensures
        r == parse_i16_spec(s@),
{
    match parse_bounded(s, -0x8000, 0x7fff) {
        Some(v) => Some(v as i16),
        None => None,
    }
}

/// Reads a 32-bit signed integer: an optional sign followed by digits.
pub fn parse_i32(s: &str) -> (r: Option<i32>)
    ensures
        r == parse_i32_spec(s@),
{
    match parse_bounded(s, -0x8000_0000, 0x7fff_ffff) {
        Some(v) => Some(v as i32),
        None => None,
    }
}

} // verus!
