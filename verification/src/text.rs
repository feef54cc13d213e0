//! Text-level building blocks of the wire format: trailing whitespace,
//! decimal numbers and string comparison, each with its mathematical model.

use std::num::ParseIntError;
use vstd::prelude::*;
use vstd::string::*;
use vstd::utf8::*;

verus! {

/// Whether `c` has the Unicode property `White_Space`: the controls from
/// tab to carriage return, the space, the next-line control, the
/// no-break spaces, the Ogham space mark, the spaces of fixed width, the
/// line and paragraph separators, the mathematical and the ideographic
/// space. These are twenty-five characters.
pub open spec fn is_whitespace(c: char) -> bool {
    let u = c as u32;
    ||| 0x0009 <= u <= 0x000D
    ||| u == 0x0020
    ||| u == 0x0085
    ||| u == 0x00A0
    ||| u == 0x1680
    ||| 0x2000 <= u <= 0x200A
    ||| u == 0x2028
    ||| u == 0x2029
    ||| u == 0x202F
    ||| u == 0x205F
    ||| u == 0x3000
}

/// `s` without the whitespace at its end: the longest prefix of `s` that
/// is empty or ends in a character that is no whitespace.
pub open spec fn trim_end(s: Seq<char>) -> Seq<char>
    decreases s.len(),
{
    if s.len() > 0 && is_whitespace(s.last()) {
        trim_end(s.drop_last())
    } else {
        s
    }
}

/// The character of the decimal digit `d`.
pub open spec fn digit(d: nat) -> char
    recommends
        d < 10,
{
    (0x30 + d) as char
}

/// The decimal numeral of `n`, without sign or leading zeros.
pub open spec fn decimal(n: nat) -> Seq<char>
    decreases n,
{
    if n < 10 {
        seq![digit(n)]
    } else {
        decimal(n / 10).push(digit(n % 10))
    }
}

/// The decimal numeral of `v`, with a leading `-` where `v` is negative.
pub open spec fn signed_decimal(v: int) -> Seq<char> {
    if v < 0 {
        seq!['-'] + decimal((-v) as nat)
    } else {
        decimal(v as nat)
    }
}

/// Whether `c` is one of the ASCII digits `0` to `9`.
pub open spec fn is_digit(c: char) -> bool {
    '0' <= c <= '9'
}

/// Whether `s` holds ASCII digits only.
pub open spec fn all_digits(s: Seq<char>) -> bool {
    forall|i: int| 0 <= i < s.len() ==> is_digit(#[trigger] s[i])
}

/// The number that the digits of `s` denote in base ten.
pub open spec fn digits_value(s: Seq<char>) -> nat
    recommends
        all_digits(s),
    decreases s.len(),
{
    if s.len() == 0 {
        0
    } else {
        digits_value(s.drop_last()) * 10 + (s.last() as nat - 0x30) as nat
    }
}

/// The 32-bit signed integer that `s` denotes, if it denotes one: an
/// optional `+` or `-`, then at least one ASCII digit and nothing else,
/// with a value in the range of `i32`. Leading zeros are accepted.
pub open spec fn parse_i32(s: Seq<char>) -> Option<i32> {
    if s.len() == 0 {
        None
    } else {
        let signed = s[0] == '-' || s[0] == '+';
        let body = if signed {
            s.subrange(1, s.len() as int)
        } else {
            s
        };
        let value = if s[0] == '-' {
            -(digits_value(body) as int)
        } else {
            digits_value(body) as int
        };
        if body.len() > 0 && all_digits(body) && i32::MIN <= value <= i32::MAX {
            Some(value as i32)
        } else {
            None
        }
    }
}

/// `String::push` appends one character to the string.
pub assume_specification[ String::push ](s: &mut String, c: char)
    ensures
        final(s)@ == old(s)@.push(c),
;

/// `str::trim_end` returns the slice of `s` that is left when the
/// trailing characters with the Unicode property `White_Space` are
/// removed.
#[verifier::external_body]
pub(crate) fn std_trim_end<'a>(s: &'a str) -> (r: &'a str)
    ensures
        r@ == trim_end(s@),
{
    s.trim_end()
}

/// `str::parse` at `i32` accepts an optional sign followed by decimal
/// digits whose value fits in 32 bits, and gives that value; on every
/// other text it gives an error.
#[verifier::external_body]
pub(crate) fn std_parse_i32(s: &str) -> (r: Result<i32, ParseIntError>)
    ensures
        r matches Ok(v) ==> parse_i32(s@) == Some(v),
        r is Err ==> parse_i32(s@) is None,
{
    s.parse::<i32>()
}

/// Whether two string slices hold the same characters.
pub fn str_eq(a: &str, b: &str) -> (r: bool)
    ensures
        r == (a@ == b@),
{
    let x = a.as_bytes();
    let y = b.as_bytes();
    if x.len() != y.len() {
        return false;
    }
    let mut i: usize = 0;
    while i < x.len()
        invariant
            x@.len() == y@.len(),
            i <= x@.len(),
            forall|j: int| 0 <= j < i ==> x@[j] == y@[j],
            x@ == a.spec_bytes(),
            y@ == b.spec_bytes(),
        decreases x@.len() - i,
    {
        if x[i] != y[i] {
            return false;
        }
        i = i + 1;
    }
    proof {
        broadcast use encode_utf8_decode_utf8;

        assert(x@ =~= y@);
        assert(decode_utf8(encode_utf8(a@)) == a@);
        assert(decode_utf8(encode_utf8(b@)) == b@);
    }
    true
}

/// The character of a digit below ten.
fn digit_char(d: u32) -> (c: char)
    requires
        d < 10,
    ensures
        c == digit(d as nat),
{
    match d {
        0 => '0',
        1 => '1',
        2 => '2',
        3 => '3',
        4 => '4',
        5 => '5',
        6 => '6',
        7 => '7',
        8 => '8',
        _ => '9',
    }
}

/// Appends the decimal numeral of `n` to `out`.
pub fn push_decimal(out: &mut String, n: u32)
    ensures
        final(out)@ == old(out)@ + decimal(n as nat),
    decreases n,
{
    if n >= 10 {
        push_decimal(out, n / 10);
    }
    out.push(digit_char(n % 10));
}

/// Appends the decimal numeral of `v` to `out`, with its sign where `v`
/// is negative.
pub fn push_signed_decimal(out: &mut String, v: i32)
    ensures
        final(out)@ == old(out)@ + signed_decimal(v as int),
{
    if v < 0 {
        out.push('-');
        let magnitude: u32 = (-(v as i64)) as u32;
        push_decimal(out, magnitude);
    } else {
        push_decimal(out, v as u32);
    }
}

/// The line terminator at the end of a response does not matter to what
/// is left of the line: a newline, with or without a carriage return
/// before it, is trimmed away with the rest of the trailing whitespace.
pub proof fn lemma_trim_end_terminator(s: Seq<char>)
    ensures
        trim_end(s.push('\n')) == trim_end(s),
        trim_end(s.push('\r').push('\n')) == trim_end(s),
{
    assert(s.push('\n').drop_last() =~= s);
    assert(s.push('\r').push('\n').drop_last() =~= s.push('\r'));
    assert(s.push('\r').drop_last() =~= s);
    reveal_with_fuel(trim_end, 3);
}

/// Trimming leaves alone a text that does not end in whitespace, and a
/// trimmed text is such a text.
pub proof fn lemma_trim_end_fixed(s: Seq<char>)
    ensures
        s.len() == 0 || !is_whitespace(s.last()) ==> trim_end(s) == s,
        trim_end(s).len() == 0 || !is_whitespace(trim_end(s).last()),
        trim_end(trim_end(s)) == trim_end(s),
    decreases s.len(),
{
    if s.len() > 0 && is_whitespace(s.last()) {
        lemma_trim_end_fixed(s.drop_last());
    }
}

/// Every character of a decimal numeral is a digit.
pub proof fn lemma_decimal_digits(n: nat)
    ensures
        decimal(n).len() > 0,
        all_digits(decimal(n)),
    decreases n,
{
    if n >= 10 {
        lemma_decimal_digits(n / 10);
    }
}

/// A decimal numeral denotes the number it was written for.
pub proof fn lemma_decimal_value(n: nat)
    ensures
        digits_value(decimal(n)) == n,
    decreases n,
{
    let s = decimal(n);
    assert(s.last() == digit(n % 10));
    assert(digit(n % 10) as nat == 0x30 + n % 10);
    if n >= 10 {
        lemma_decimal_value(n / 10);
        assert(s.drop_last() =~= decimal(n / 10));
    } else {
        assert(s.drop_last() =~= Seq::<char>::empty());
        assert(digits_value(s.drop_last()) == 0);
    }
}

/// A signed decimal numeral is made of ASCII characters, so that it is
/// as long in UTF-8 bytes as in characters.
pub proof fn lemma_signed_decimal_ascii(v: int)
    ensures
        is_ascii_chars(signed_decimal(v)),
        encode_utf8(signed_decimal(v)).len() == signed_decimal(v).len(),
{
    let s = signed_decimal(v);
    let n = if v < 0 {
        (-v) as nat
    } else {
        v as nat
    };
    lemma_decimal_digits(n);
    assert forall|i: int| 0 <= i < s.len() implies 0 <= (#[trigger] s[i]) as nat <= 0x7f by {
        if v < 0 && i > 0 {
            assert(s[i] == decimal(n)[i - 1]);
            assert(is_digit(decimal(n)[i - 1]));
        } else if v >= 0 {
            assert(is_digit(decimal(n)[i]));
        }
    }
    is_ascii_chars_encode_utf8(s);
}

/// Writing a 32-bit integer in decimal and reading the text again gives
/// the integer back.
pub proof fn lemma_signed_decimal_round_trip(v: i32)
    ensures
        parse_i32(signed_decimal(v as int)) == Some(v),
{
    let s = signed_decimal(v as int);
    if v < 0 {
        let body = decimal((-v) as nat);
        lemma_decimal_digits((-v) as nat);
        lemma_decimal_value((-v) as nat);
        assert(s.subrange(1, s.len() as int) =~= body);
    } else {
        lemma_decimal_digits(v as nat);
        lemma_decimal_value(v as nat);
        assert(is_digit(s[0]));
    }
}

} // verus!
