//! Parsing `"rrggbb"` hex triplets into integer colour channels.
//!
//! A six-digit hex string names one sRGB colour; each two-digit group is one
//! channel in 0–255. Scaling the channels into the 0.0–1.0 range the colour
//! pipeline works in is a single division per channel and is left to the
//! caller, so that everything up to that point is exact integer arithmetic.

use crate::error::Error;
use vstd::prelude::*;
use vstd::string::StringSliceAdditionalSpecFns;

verus! {

/// True of an ASCII byte that is a base-16 digit, in either letter case.
pub open spec fn is_hex_digit(b: u8) -> bool {
    (48 <= b && b <= 57) || (97 <= b && b <= 102) || (65 <= b && b <= 70)
}

/// The numeric value of a base-16 digit byte; 0 for any other byte.
pub open spec fn hex_digit_value(b: u8) -> u8 {
    if 48 <= b && b <= 57 {
        (b - 48) as u8
    } else if 97 <= b && b <= 102 {
        (b - 87) as u8
    } else if 65 <= b && b <= 70 {
        (b - 55) as u8
    } else {
        0
    }
}

/// The value of the two-digit group `hi lo`, 0–255.
pub open spec fn hex_pair_value(hi: u8, lo: u8) -> u8 {
    (hex_digit_value(hi) * 16 + hex_digit_value(lo)) as u8
}

/// A byte sequence that is a well-formed `"rrggbb"` triplet: exactly six
/// base-16 digits.
pub open spec fn rgb_hex_wellformed(bs: Seq<u8>) -> bool {
    bs.len() == 6 && (forall|i: int| 0 <= i < 6 ==> is_hex_digit(bs[i]))
}

/// One sRGB colour as its three raw 0–255 channels, straight out of a hex
/// triplet and before any scaling into the unit interval.
#[derive(Clone, Copy, Debug, PartialEq, Eq, Structural)]
pub struct RgbChannels {
    pub r: u8,
    pub g: u8,
    pub b: u8,
}

/// The numeric value of a base-16 digit byte, or `None` for any other byte.
fn hex_digit(b: u8) -> (r: Option<u8>)
    ensures
        is_hex_digit(b) ==> r == Some(hex_digit_value(b)),
        !is_hex_digit(b) ==> r is None,
{
    if 48 <= b && b <= 57 {
        Some(b - 48)
    } else if 97 <= b && b <= 102 {
        Some(b - 87)
    } else if 65 <= b && b <= 70 {
        Some(b - 55)
    } else {
        None
    }
}

/// Parse one two-digit group into its 0–255 value.
fn parse_hex_pair(hi: u8, lo: u8) -> (r: Result<u8, Error>)
    ensures
        match r {
            Ok(v) => is_hex_digit(hi) && is_hex_digit(lo) && v == hex_pair_value(hi, lo),
            Err(e) => e == Error::ParseIntError && !(is_hex_digit(hi) && is_hex_digit(lo)),
        },
{
    match (hex_digit(hi), hex_digit(lo)) {
        (Some(h), Some(l)) => Ok(h * 16 + l),
        _ => Err(Error::ParseIntError),
    }
}

impl RgbChannels {
    /// Parse a colour given as exactly six hex digits, `"rrggbb"`, with no
    /// `#` prefix and no alpha group.
    ///
    /// Succeeds exactly on well-formed triplets; a string of any other
    /// length is a length error, and a six-byte string holding a non-digit
    /// is a digit error.
    pub fn from_rgb_hex(hex: &str) -> (r: Result<RgbChannels, Error>)
        ensures
            ({
                let bs = hex.spec_bytes();
                match r {
                    Ok(c) => rgb_hex_wellformed(bs) && c.r == hex_pair_value(bs[0], bs[1])
                        && c.g == hex_pair_value(bs[2], bs[3]) && c.b == hex_pair_value(
                        bs[4],
                        bs[5],
                    ),
                    Err(Error::RgbFromHexError) => bs.len() != 6,
                    Err(Error::ParseIntError) => bs.len() == 6 && !rgb_hex_wellformed(bs),
                }
            }),
    {
        let bs: &[u8] = hex.as_bytes();
        if bs.len() != 6 {
            return Err(Error::RgbFromHexError);
        }
        let red: u8 = match parse_hex_pair(bs[0], bs[1]) {
            Ok(v) => v,
            Err(e) => {
                return Err(e);
            },
        };
        let green: u8 = match parse_hex_pair(bs[2], bs[3]) {
            Ok(v) => v,
            Err(e) => {
                return Err(e);
            },
        };
        let blue: u8 = match parse_hex_pair(bs[4], bs[5]) {
            Ok(v) => v,
            Err(e) => {
                return Err(e);
            },
        };
        Ok(RgbChannels { r: red, g: green, b: blue })
    }
}

} // verus!
