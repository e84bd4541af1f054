//! The integer part of colours: reading a hex colour code such as `#805E4E` into
//! its red, green and blue components (each from 0 to 255 for a code of at most
//! six digits).
use std::num::ParseIntError;
use vstd::prelude::*;
use vstd::string::StrSliceExecFns;

verus! {

#[verifier::external_type_specification]
#[verifier::external_body]
pub struct ExParseIntError(ParseIntError);

/// The value of a hexadecimal digit of either case, or -1 for any other character.
pub open spec fn hex_digit_value(c: char) -> int {
    let n = c as u32;
    if 48 <= n <= 57 {
        n - 48
    } else if 97 <= n <= 102 {
        n - 97 + 10
    } else if 65 <= n <= 70 {
        n - 65 + 10
    } else {
        -1
    }
}

/// Whether every character is a hexadecimal digit.
pub open spec fn is_hex_digits(s: Seq<char>) -> bool {
    forall|i: int| 0 <= i < s.len() ==> hex_digit_value(#[trigger] s[i]) >= 0
}

/// The number the hexadecimal digits stand for.
pub open spec fn hex_value(s: Seq<char>) -> int
    decreases s.len(),
{
    if s.len() == 0 {
        0
    } else {
        hex_value(s.drop_last()) * 16 + hex_digit_value(s.last())
    }
}

/// The `i32` a string stands for in base 16: an optional `+` or `-`, then one or
/// more hexadecimal digits of either case, with a value that fits an `i32`; none
/// for any other string.
pub open spec fn parse_hex_i32(s: Seq<char>) -> Option<i32> {
    let negative = s.len() > 0 && s[0] == '-';
    let digits = if s.len() > 0 && (s[0] == '-' || s[0] == '+') {
        s.drop_first()
    } else {
        s
    };
    let v = if negative {
        -hex_value(digits)
    } else {
        hex_value(digits)
    };
    if digits.len() == 0 || !is_hex_digits(digits) || v < i32::MIN || v > i32::MAX {
        None
    } else {
        Some(v as i32)
    }
}

/// Reads a string as an `i32` in base 16, by `i32::from_str_radix` with radix 16.
/// As std documents it, the string must be an optional sign followed by at least
/// one digit, every digit from 0-9, a-f or A-F, and the value must fit the type;
/// otherwise the result is an error.
#[verifier::external_body]
fn i32_from_hex_str(s: &str) -> (r: Result<i32, ParseIntError>)
    ensures
        match r {
            Ok(v) => parse_hex_i32(s@) == Some(v),
            Err(_) => parse_hex_i32(s@) is None,
        },
{
    i32::from_str_radix(s, 16)
}

/// The digits of a colour code: the code without a leading `#`.
pub open spec fn colour_code_digits(code: Seq<char>) -> Seq<char> {
    if code.len() > 0 && code[0] == '#' {
        code.drop_first()
    } else {
        code
    }
}

/// Rust's division, which rounds towards zero, by a positive divisor.
pub open spec fn div_toward_zero(a: int, d: int) -> int {
    if a >= 0 {
        a / d
    } else {
        -((-a) / d)
    }
}

/// Rust's remainder, which has the sign of the dividend, by a positive divisor.
pub open spec fn rem_toward_zero(a: int, d: int) -> int {
    a - d * div_toward_zero(a, d)
}

/// The red, green and blue components of a colour value: the blue byte is the
/// remainder by 0x100, the green byte the remainder by 0x100 of what is above it,
/// and red what is above the green byte.
pub open spec fn colour_components(v: int) -> (int, int, int) {
    let b = rem_toward_zero(v, 0x100);
    let g = rem_toward_zero(div_toward_zero(v - b, 0x100), 0x100);
    let r = div_toward_zero(v - g, 0x10000);
    (r, g, b)
}

/// Splits a colour value into its red, green and blue components.
pub fn split_colour_value(colour_values: i32) -> (rgb: (i32, i32, i32))
    ensures
        (rgb.0 as int, rgb.1 as int, rgb.2 as int) == colour_components(colour_values as int),
{
    let b = colour_values % 0x100;
    let g = (colour_values - b) / 0x100 % 0x100;
    let r = (colour_values - g) / 0x10000;
    (r, g, b)
}

/// For a value of at most 24 bits, the components are its three bytes, red being
/// the highest.
pub proof fn lemma_components_are_bytes(v: int)
    requires
        0 <= v < 0x100_0000,
    ensures
        colour_components(v) == (v / 0x10000, (v / 0x100) % 0x100, v % 0x100),
        0 <= colour_components(v).0 < 0x100,
        0 <= colour_components(v).1 < 0x100,
        0 <= colour_components(v).2 < 0x100,
{
    let b = v % 0x100;
    assert(v - b == 0x100 * (v / 0x100));
    assert((v - b) / 0x100 == v / 0x100);
    let g = (v / 0x100) % 0x100;
    assert(v / 0x10000 == (v / 0x100) / 0x100) by {
        vstd::arithmetic::div_mod::lemma_div_denominator(v, 0x100, 0x100);
    }
    assert((v - g) / 0x10000 == v / 0x10000) by {
        let q = v / 0x10000;
        assert(v == 0x10000 * q + 0x100 * g + b) by {
            assert(v / 0x100 == 0x100 * q + g);
        }
        assert(v - g == 0x10000 * q + (0x100 * g + b - g));
        assert(0 <= 0x100 * g + b - g < 0x10000);
        vstd::arithmetic::div_mod::lemma_fundamental_div_mod_converse(v - g, 0x10000, q, 0x100 * g + b - g);
    }
}

/// Reads a hex colour code like `#805E4E` (the `#` may be left out) into its red,
/// green and blue components. Fails when what follows the `#` is not a base 16
/// number that fits an `i32`.
pub fn hex_components(hex_str: &str) -> (rgb: Result<(i32, i32, i32), ParseIntError>)
    ensures
        match parse_hex_i32(colour_code_digits(hex_str@)) {
            Some(v) => rgb matches Ok(c) && (c.0 as int, c.1 as int, c.2 as int) == colour_components(v as int),
            None => rgb is Err,
        },
{
    let n = hex_str.unicode_len();
    let digits = if n > 0 && hex_str.get_char(0) == '#' {
        hex_str.substring_char(1, n)
    } else {
        hex_str
    };
    assert(digits@ == colour_code_digits(hex_str@));
    let colour_values = i32_from_hex_str(digits)?;
    Ok(split_colour_value(colour_values))
}

} // verus!
