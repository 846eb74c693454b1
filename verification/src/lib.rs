//! Integer-exact core of the Memo colour tooling.
//!
//! The colour pipeline itself works in floating point and lives outside this
//! library; what stands here is everything that can be stated and proved over
//! plain integers and strings: parsing `"rrggbb"` hex triplets into 0–255
//! channel values, decoding a hex-encoded session signing key, and the small
//! configuration helpers around them.

pub mod config;
pub mod error;
pub mod hex;
