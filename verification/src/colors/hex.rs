use vstd::prelude::*;
use vstd::string::*;
use crate::colors::color::Color;

verus! {

/// The value of one hexadecimal digit: `0`-`9`, `a`-`f` or `A`-`F`.
pub open spec fn digit_value(byte: u8) -> Option<u8> {
    if 0x30 <= byte <= 0x39 {
        Some((byte - 0x30) as u8)
    } else if 0x61 <= byte <= 0x66 {
        Some((byte - 0x61 + 10) as u8)
    } else if 0x41 <= byte <= 0x46 {
        Some((byte - 0x41 + 10) as u8)
    } else {
        None
    }
}

/// Every byte of `digits` is a hexadecimal digit.
pub open spec fn all_digits(digits: Seq<u8>) -> bool {
    forall|i: int| 0 <= i < digits.len() ==> (#[trigger] digit_value(digits[i])) is Some
}

/// The number that a string of hexadecimal digits writes, most significant
/// digit first. A byte that is no digit counts as zero.
pub open spec fn digits_value(digits: Seq<u8>) -> nat
    decreases digits.len(),
{
    if digits.len() == 0 {
        0
    } else {
        digits_value(digits.drop_last()) * 16 + match digit_value(digits.last()) {
            Some(d) => d as nat,
            None => 0,
        }
    }
}

/// What is left of `text` once one leading plus sign is taken away.
pub open spec fn unsigned_part(text: Seq<u8>) -> Seq<u8> {
    if text.len() > 0 && text[0] == 0x2B {
        text.skip(1)
    } else {
        text
    }
}

/// Reads `text` as a hexadecimal number that fits in a byte: an optional
/// plus sign, then one or more digits and nothing else.
pub open spec fn parse_byte(text: Seq<u8>) -> Option<u8> {
    let digits = unsigned_part(text);
    if digits.len() > 0 && all_digits(digits) && digits_value(digits) <= 255 {
        Some(digits_value(digits) as u8)
    } else {
        None
    }
}

/// Reads one hexadecimal digit.
pub fn hex_digit(byte: u8) -> (digit: Option<u8>)
    ensures
        digit == digit_value(byte),
        digit matches Some(d) ==> d <= 15,
{
    if 0x30 <= byte && byte <= 0x39 {
        Some(byte - 0x30)
    } else if 0x61 <= byte && byte <= 0x66 {
        Some(byte - 0x61 + 10)
    } else if 0x41 <= byte && byte <= 0x46 {
        Some(byte - 0x41 + 10)
    } else {
        None
    }
}

/// A string of digits is worth at least as much as any of its prefixes.
pub proof fn lemma_digits_value_grows(digits: Seq<u8>, n: int)
    requires
        0 <= n <= digits.len(),
    ensures
        digits_value(digits.take(n)) <= digits_value(digits),
    decreases digits.len(),
{
    if n == digits.len() {
        assert(digits.take(n) =~= digits);
    } else {
        lemma_digits_value_grows(digits.drop_last(), n);
        assert(digits.drop_last().take(n) =~= digits.take(n));
    }
}

/// Reads the bytes of `text` from `lo` up to `hi` as a hexadecimal byte.
pub fn parse_byte_in(text: &[u8], lo: usize, hi: usize) -> (byte: Option<u8>)
    requires
        lo <= hi <= text@.len(),
    ensures
        byte == parse_byte(text@.subrange(lo as int, hi as int)),
{
    let ghost whole = text@.subrange(lo as int, hi as int);
    let start: usize = if lo < hi && text[lo] == 0x2B {
        lo + 1
    } else {
        lo
    };
    let ghost digits = unsigned_part(whole);
    assert(digits =~= text@.subrange(start as int, hi as int));
    if start == hi {
        return None;
    }
    let mut value: u8 = 0;
    let mut at: usize = start;
    while at < hi
        invariant
            start <= at <= hi <= text@.len(),
            digits == text@.subrange(start as int, hi as int),
            digits == unsigned_part(text@.subrange(lo as int, hi as int)),
            all_digits(digits.take(at - start)),
            value == digits_value(digits.take(at - start)),
        decreases hi - at,
    {
        let ghost before = digits.take(at - start);
        let ghost after = digits.take(at - start + 1);
        assert(after.drop_last() =~= before);
        assert(after.last() == text@[at as int]);
        match hex_digit(text[at]) {
            None => {
                assert(digit_value(digits[at - start]) is None);
                return None;
            },
            Some(d) => {
                if value > 15 {
                    proof {
                        lemma_digits_value_grows(digits, at - start + 1);
                        assert(digits_value(after) == value * 16 + d);
                    }
                    return None;
                }
                assert forall|i: int| 0 <= i < after.len() implies (#[trigger] digit_value(
                    after[i],
                )) is Some by {
                    if i < before.len() {
                        assert(after[i] == before[i]);
                    }
                }
                value = value * 16 + d;
            },
        }
        at += 1;
    }
    assert(digits.take(hi - start) =~= digits);
    Some(value)
}

/// The byte that a shorthand field stands for: its digit written twice.
pub open spec fn doubled(text: Seq<u8>) -> Option<u8> {
    match parse_byte(text) {
        Some(n) if n <= 15 => Some((n * 17) as u8),
        _ => None,
    }
}

/// `text` is a hexadecimal number whose double would not fit in a byte.
pub open spec fn too_wide_to_double(text: Seq<u8>) -> bool {
    parse_byte(text) matches Some(n) && n > 15
}

/// Reads the bytes of `text` from `lo` up to `hi` as a shorthand field.
pub fn doubled_in(text: &[u8], lo: usize, hi: usize) -> (byte: Option<u8>)
    requires
        lo <= hi <= text@.len(),
        !too_wide_to_double(text@.subrange(lo as int, hi as int)),
    ensures
        byte == doubled(text@.subrange(lo as int, hi as int)),
{
    match parse_byte_in(text, lo, hi) {
        Some(n) => Some(n * 16 + n),
        None => None,
    }
}

/// Reads a shorthand hexadecimal field, in which one digit stands for two:
/// `f` gives 255 and `3` gives 51.
///
/// Fails when `hex` is not a hexadecimal number. A number above fifteen has
/// no double that fits in a byte, so it is left out.
pub fn get_byte_from_doubled_hex(hex: &str) -> (byte: Result<u8, ()>)
    requires
        !too_wide_to_double(hex.spec_bytes()),
    ensures
        byte == match doubled(hex.spec_bytes()) {
            Some(b) => Ok::<u8, ()>(b),
            None => Err::<u8, ()>(()),
        },
{
    let bytes = hex.as_bytes();
    assert(bytes@.subrange(0, bytes@.len() as int) =~= bytes@);
    match doubled_in(bytes, 0, bytes.len()) {
        Some(b) => Ok(b),
        None => Err(()),
    }
}

/// A field of one byte can never be too wide to double.
pub proof fn lemma_single_digit_doubles(text: Seq<u8>)
    requires
        text.len() == 1,
    ensures
        !too_wide_to_double(text),
        doubled(text) == match digit_value(text[0]) {
            Some(d) => Some((d * 17) as u8),
            None => None,
        },
{
    let digits = unsigned_part(text);
    if text[0] == 0x2B {
        assert(digits.len() == 0);
    } else {
        assert(digits == text);
        assert(digits.drop_last().len() == 0);
        assert(digits_value(digits.drop_last()) == 0);
        assert(digits.last() == text[0]);
        if digit_value(text[0]) is Some {
            assert(all_digits(digits));
        } else {
            assert(!all_digits(digits));
        }
    }
}

/// The colour that a hexadecimal notation writes.
///
/// The notation starts with `#`. Three or four digits after it are
/// shorthand fields for red, green, blue and alpha; six or eight digits are
/// full fields of two digits each. Without an alpha field the colour is
/// opaque. With any other number of bytes after the `#` the notation writes
/// opaque black.
pub open spec fn hex_color(text: Seq<u8>) -> Option<Color> {
    let len = text.len();
    if len == 0 || text[0] != 0x23 {
        None
    } else if len == 4 || len == 5 {
        let alpha = if len == 5 {
            doubled(text.subrange(4, 5))
        } else {
            Some(255u8)
        };
        channels(
            doubled(text.subrange(1, 2)),
            doubled(text.subrange(2, 3)),
            doubled(text.subrange(3, 4)),
            alpha,
        )
    } else if len == 7 || len == 9 {
        let alpha = if len == 9 {
            parse_byte(text.subrange(7, 9))
        } else {
            Some(255u8)
        };
        channels(
            parse_byte(text.subrange(1, 3)),
            parse_byte(text.subrange(3, 5)),
            parse_byte(text.subrange(5, 7)),
            alpha,
        )
    } else {
        Some(Color::opaque(0, 0, 0))
    }
}

/// The colour of four channels, if each of them was read.
pub open spec fn channels(r: Option<u8>, g: Option<u8>, b: Option<u8>, a: Option<u8>) -> Option<
    Color,
> {
    match (r, g, b, a) {
        (Some(r), Some(g), Some(b), Some(a)) => Some(Color { r, g, b, a }),
        _ => None,
    }
}

/// Reads a colour in hexadecimal notation: `#rgb`, `#rgba`, `#rrggbb` or
/// `#rrggbbaa`.
pub fn from_hex(hex: &str) -> (color: Option<Color>)
    ensures
        color == hex_color(hex.spec_bytes()),
{
    let text = hex.as_bytes();
    let len = text.len();
    if len == 0 || text[0] != 0x23 {
        return None;
    }
    let mut red: u8 = 0;
    let mut green: u8 = 0;
    let mut blue: u8 = 0;
    let mut alpha: u8 = 255;
    if len == 4 || len == 5 {
        proof {
            lemma_single_digit_doubles(text@.subrange(1, 2));
            lemma_single_digit_doubles(text@.subrange(2, 3));
            lemma_single_digit_doubles(text@.subrange(3, 4));
        }
        red = match doubled_in(text, 1, 2) {
            None => return None,
            Some(value) => value,
        };
        green = match doubled_in(text, 2, 3) {
            None => return None,
            Some(value) => value,
        };
        blue = match doubled_in(text, 3, 4) {
            None => return None,
            Some(value) => value,
        };
    }
    if len == 5 {
        proof {
            lemma_single_digit_doubles(text@.subrange(4, 5));
        }
        alpha = match doubled_in(text, 4, 5) {
            None => return None,
            Some(value) => value,
        };
    }
    if len == 7 || len == 9 {
        red = match parse_byte_in(text, 1, 3) {
            None => return None,
            Some(value) => value,
        };
        green = match parse_byte_in(text, 3, 5) {
            None => return None,
            Some(value) => value,
        };
        blue = match parse_byte_in(text, 5, 7) {
            None => return None,
            Some(value) => value,
        };
    }
    if len == 9 {
        alpha = match parse_byte_in(text, 7, 9) {
            None => return None,
            Some(value) => value,
        };
    }
    Some(Color::new_rgba(red, green, blue, alpha))
}

} // verus!
