use vstd::arithmetic::power::{lemma_pow0, lemma_pow_increases, lemma_pow_positive, pow};
use vstd::prelude::*;
use crate::vector::Vec3;

verus! {

/// The bit patterns of the single-precision quotients of three whole
/// numbers by three others, component by component. It is meant for
/// divisors that are not zero: a number divided by zero, and zero by zero
/// above all, has no quotient whose bits are fixed.
pub uninterp spec fn quotient_bits(num: (u32, u32, u32), den: (u32, u32, u32)) -> (u32, u32, u32);

/// Divides three whole numbers by three others, none of them zero, in
/// single precision.
///
/// Calls glam: both triples become a `UVec3` and, by `as_vec3`, a `Vec3`;
/// the first is divided by the second with glam's `Div<Vec3>`, which
/// divides component by component. With divisors that are not zero each
/// quotient is a finite number, rounded as IEEE 754 says, and so the same
/// wherever it is computed. The contract names the bit patterns of the
/// three quotients and says nothing else about them.
#[verifier::external_body]
fn divide(num: (u32, u32, u32), den: (u32, u32, u32)) -> (quotient: Vec3)
    requires
        den.0 != 0,
        den.1 != 0,
        den.2 != 0,
    ensures
        (quotient.x, quotient.y, quotient.z) == quotient_bits(num, den),
{
    let n = glam::UVec3::new(num.0, num.1, num.2).as_vec3();
    let d = glam::UVec3::new(den.0, den.1, den.2).as_vec3();
    let q = n / d;
    Vec3 { x: q.x.to_bits(), y: q.y.to_bits(), z: q.z.to_bits() }
}

/// The colour of the unit cube that an 8-bit colour stands for: each
/// channel divided by 255.
pub open spec fn unit_color(r: u8, g: u8, b: u8) -> Vec3 {
    let q = quotient_bits((r as u32, g as u32, b as u32), (255, 255, 255));
    Vec3 { x: q.0, y: q.1, z: q.2 }
}

/// Scales an 8-bit colour to the unit cube.
pub fn rgb8_to_unit(r: u8, g: u8, b: u8) -> (color: Vec3)
    ensures
        color == unit_color(r, g, b),
{
    divide((r as u32, g as u32, b as u32), (255, 255, 255))
}

/// The value of a hexadecimal digit, in either case.
pub open spec fn digit_value(byte: u8) -> Option<int> {
    if 0x30 <= byte <= 0x39 {
        Some(byte - 0x30)
    } else if 0x61 <= byte <= 0x66 {
        Some(byte - 0x61 + 10)
    } else if 0x41 <= byte <= 0x46 {
        Some(byte - 0x41 + 10)
    } else {
        None
    }
}

/// The number that a run of hexadecimal digits writes; none if a byte of it
/// is no digit. The empty run writes zero.
pub open spec fn digits_value(digits: Seq<u8>) -> Option<int>
    decreases digits.len(),
{
    if digits.len() == 0 {
        Some(0)
    } else {
        match (digits_value(digits.drop_last()), digit_value(digits.last())) {
            (Some(front), Some(last)) => Some(front * 16 + last),
            _ => None,
        }
    }
}

/// The number that a text writes in hexadecimal: one digit at least, and
/// before the digits at most one plus sign.
pub open spec fn hex_value(text: Seq<u8>) -> Option<int> {
    let digits = if text.len() > 1 && text[0] == 0x2B {
        text.skip(1)
    } else {
        text
    };
    if digits.len() == 0 {
        None
    } else {
        digits_value(digits)
    }
}

/// The text without its leading number sign, if it has one.
pub open spec fn without_hash(text: Seq<u8>) -> Seq<u8> {
    if text.len() > 0 && text[0] == 0x23 {
        text.skip(1)
    } else {
        text
    }
}

/// The channels that a number stands for: in the short form each of its
/// last three hexadecimal digits doubled, in the long form its last three
/// bytes.
pub open spec fn channels_of(value: int, short: bool) -> (u8, u8, u8) {
    if short {
        (
            (((value / 256) % 16) * 17) as u8,
            (((value / 16) % 16) * 17) as u8,
            ((value % 16) * 17) as u8,
        )
    } else {
        (((value / 65536) % 256) as u8, ((value / 256) % 256) as u8, (value % 256) as u8)
    }
}

/// The channels that a colour text names: the text, after its number sign
/// if it has one, is three or six bytes long and writes a hexadecimal
/// number.
pub open spec fn hex_channels(text: Seq<u8>) -> Option<(u8, u8, u8)> {
    let body = without_hash(text);
    if body.len() != 3 && body.len() != 6 {
        None
    } else {
        match hex_value(body) {
            Some(value) => Some(channels_of(value, body.len() == 3)),
            None => None,
        }
    }
}

/// A run of hexadecimal digits writes a number below sixteen to the power
/// of its length.
pub proof fn lemma_digits_bound(digits: Seq<u8>)
    ensures
        digits_value(digits) matches Some(value) ==> 0 <= value < pow(16, digits.len()),
    decreases digits.len(),
{
    reveal(pow);
    if digits.len() > 0 {
        lemma_digits_bound(digits.drop_last());
    }
}

/// Up to six hexadecimal digits write a number below 2^24.
pub proof fn lemma_six_digits(n: nat)
    requires
        n <= 6,
    ensures
        0 < pow(16, n) <= 0x100_0000,
{
    reveal_with_fuel(pow, 7);
    lemma_pow_positive(16, n);
    lemma_pow_increases(16, n, 6);
}

/// Reads one hexadecimal digit.
fn read_digit(byte: u8) -> (value: Option<u32>)
    ensures
        match value {
            Some(v) => digit_value(byte) == Some(v as int),
            None => digit_value(byte).is_none(),
        },
{
    if 0x30 <= byte && byte <= 0x39 {
        Some((byte - 0x30) as u32)
    } else if 0x61 <= byte && byte <= 0x66 {
        Some((byte - 0x61 + 10) as u32)
    } else if 0x41 <= byte && byte <= 0x46 {
        Some((byte - 0x41 + 10) as u32)
    } else {
        None
    }
}

/// Reads the hexadecimal number that the bytes from `from` on write.
fn read_hex(text: &[u8], from: usize) -> (value: Option<u32>)
    requires
        from <= text@.len(),
        text@.len() - from <= 6,
    ensures
        match value {
            Some(v) => digits_value(text@.skip(from as int)) == Some(v as int),
            None => digits_value(text@.skip(from as int)).is_none(),
        },
{
    let ghost digits = text@.skip(from as int);
    let mut value: u32 = 0;
    let mut i: usize = from;
    proof {
        lemma_pow0(16);
    }
    while i < text.len()
        invariant
            from <= i <= text@.len(),
            text@.len() - from <= 6,
            digits == text@.skip(from as int),
            digits_value(digits.take(i - from)) == Some(value as int),
            value < pow(16, (i - from) as nat),
        decreases text@.len() - i,
    {
        let ghost upto = digits.take(i - from + 1);
        proof {
            assert(upto.drop_last() =~= digits.take(i - from));
            assert(upto.last() == text@[i as int]);
            lemma_six_digits((i - from) as nat);
            lemma_digits_bound(upto);
        }
        match read_digit(text[i]) {
            Some(d) => {
                value = value * 16 + d;
            },
            None => {
                proof {
                    lemma_digits_need_digits(digits, i - from);
                }
                return None;
            },
        }
        i = i + 1;
    }
    proof {
        assert(digits.take(i - from) =~= digits);
    }
    Some(value)
}

/// A run of digits writes no number if one of its bytes is no digit.
pub proof fn lemma_digits_need_digits(digits: Seq<u8>, i: int)
    requires
        0 <= i < digits.len(),
        digit_value(digits[i]).is_none(),
    ensures
        digits_value(digits).is_none(),
    decreases digits.len(),
{
    if i < digits.len() - 1 {
        lemma_digits_need_digits(digits.drop_last(), i);
    }
}

/// Reads the channels of a colour text such as `#fa0` or `#ffaa00`.
pub fn parse_hex_channels(text: &[u8]) -> (channels: Option<(u8, u8, u8)>)
    ensures
        channels == hex_channels(text@),
{
    let start: usize = if text.len() > 0 && text[0] == 0x23 {
        1
    } else {
        0
    };
    let len = text.len() - start;
    proof {
        assert(without_hash(text@) =~= text@.skip(start as int));
    }
    if len != 3 && len != 6 {
        return None;
    }
    let ghost body = text@.skip(start as int);
    let from: usize = if text[start] == 0x2B {
        start + 1
    } else {
        start
    };
    proof {
        assert(body[0] == text@[start as int]);
        if from == start + 1 {
            assert(body.skip(1) =~= text@.skip(from as int));
        }
    }
    match read_hex(text, from) {
        Some(value) => {
            proof {
                lemma_digits_bound(text@.skip(from as int));
                lemma_six_digits(text@.skip(from as int).len());
            }
            if len == 3 {
                Some(
                    (
                        (((value / 256) % 16) * 17) as u8,
                        (((value / 16) % 16) * 17) as u8,
                        ((value % 16) * 17) as u8,
                    ),
                )
            } else {
                Some(
                    (((value / 65536) % 256) as u8, ((value / 256) % 256) as u8, (value % 256) as u8),
                )
            }
        },
        None => None,
    }
}

/// The colour that a text names, if it names one: the channels that it
/// writes in hexadecimal, scaled to the unit cube.
pub open spec fn hex_color(text: Seq<u8>) -> Option<Vec3> {
    match hex_channels(text) {
        Some((r, g, b)) => Some(unit_color(r, g, b)),
        None => None,
    }
}

/// The colour that a string names, if it names one.
pub open spec fn hex_color_of(text: Seq<char>) -> Option<Vec3> {
    hex_color(vstd::utf8::encode_utf8(text))
}

/// Reads a colour text such as `#fa0` or `#ffaa00`.
pub fn hex_to_rgb(hex: &str) -> (color: Option<Vec3>)
    ensures
        color == hex_color_of(hex@),
{
    match parse_hex_channels(hex.as_bytes()) {
        Some((r, g, b)) => Some(rgb8_to_unit(r, g, b)),
        None => None,
    }
}

} // verus!
