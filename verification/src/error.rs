//! Errors reported by the hex-triplet parser.

use vstd::prelude::*;

verus! {

/// What can go wrong when reading an `"rrggbb"` colour string.
///
/// `RgbFromHexError` is reported when the string is not exactly six bytes
/// long; `ParseIntError` when one of the three two-digit groups is not valid
/// base-16.
#[derive(Clone, Copy, Debug, PartialEq, Eq, Structural)]
pub enum Error {
    RgbFromHexError,
    ParseIntError,
}

impl Error {
    /// A human-readable description, in place of a `Display` impl.
    pub fn message(&self) -> (r: &'static str)
        ensures
            *self == Error::RgbFromHexError ==> r@ == "RGB from Hex error"@,
            *self == Error::ParseIntError ==> r@ == "ParseIntError"@,
    {
        match self {
            Error::RgbFromHexError => "RGB from Hex error",
            Error::ParseIntError => "ParseIntError",
        }
    }
}

} // verus!
