//! Startup configuration helpers: reading boolean switches from environment
//! values and decoding the hex-encoded session signing key.
//!
//! Looking a variable up in the process environment is left to the caller;
//! the functions here take the looked-up value and do the part that can be
//! verified: the comparison against `"true"` and the hex decoding.

use vstd::prelude::*;
use vstd::string::StrSliceExecFns;
use vstd::string::StringSliceAdditionalSpecFns;

verus! {

/// Server-side settings gathered from the environment at startup.
#[derive(Debug)]
pub struct ServerConfig {
    pub registration_magic_word: String,
}

/// The decimal value of an ASCII decimal digit or lower-case hex letter;
/// any other byte (upper-case letters included) counts as 0.
pub open spec fn dec_of_ascii_hex(b: u8) -> u8 {
    if 48 <= b && b <= 57 {
        (b - 48) as u8
    } else if 97 <= b && b <= 102 {
        (b - 87) as u8
    } else {
        0
    }
}

/// Byte `i` of a decoded signing key: the value of the `i`-th two-digit
/// group of the hex-encoded key `bs`.
pub open spec fn signing_key_byte(bs: Seq<u8>, i: int) -> u8 {
    (dec_of_ascii_hex(bs[2 * i]) * 16 + dec_of_ascii_hex(bs[2 * i + 1])) as u8
}

/// Map one ASCII byte to its hex-digit value, `0-9` and `a-f` only; every
/// other byte maps to 0.
pub fn ascii_hex_digit_to_dec(ascii_hex: u8) -> (r: u8)
    ensures
        r == dec_of_ascii_hex(ascii_hex),
{
    match ascii_hex {
        48 => 0,
        49 => 1,
        50 => 2,
        51 => 3,
        52 => 4,
        53 => 5,
        54 => 6,
        55 => 7,
        56 => 8,
        57 => 9,
        97 => 10,
        98 => 11,
        99 => 12,
        100 => 13,
        101 => 14,
        102 => 15,
        _ => 0,
    }
}

/// Decode the first 64 hex characters of the session signing key into the
/// 32 raw key bytes the cookie session store needs.
pub fn read_signing_key(session_signing_key: &str) -> (key: Vec<u8>)
    requires
        session_signing_key.spec_bytes().len() >= 64,
    ensures
        key@.len() == 32,
        forall|i: int|
            0 <= i < 32 ==> key@[i] == signing_key_byte(session_signing_key.spec_bytes(), i),
{
    let bs: &[u8] = session_signing_key.as_bytes();
    let mut key: Vec<u8> = Vec::new();
    let mut i: usize = 0;
    while i < 32
        invariant
            i <= 32,
            bs@ == session_signing_key.spec_bytes(),
            bs@.len() >= 64,
            key@.len() == i,
            forall|j: int| 0 <= j < i ==> key@[j] == signing_key_byte(bs@, j),
        decreases 32 - i,
    {
        let d0 = ascii_hex_digit_to_dec(bs[2 * i]);
        let d1 = ascii_hex_digit_to_dec(bs[2 * i + 1]);
        key.push(d0 * 16 + d1);
        i += 1;
    }
    key
}

/// Whether an environment value holds the switch value `"true"`.
///
/// `value` is the result of looking the variable up: absent stays absent,
/// and a present value maps to whether it is exactly `"true"`.
pub fn env_var_bool(value: Option<&str>) -> (r: Option<bool>)
    ensures
        match value {
            Some(s) => r == Some(s@ == "true"@),
            None => r is None,
        },
{
    match value {
        None => None,
        Some(s) => {
            proof {
                reveal_strlit("true");
            }
            let eq = s.unicode_len() == 4 && s.get_char(0) == 't' && s.get_char(1) == 'r'
                && s.get_char(2) == 'u' && s.get_char(3) == 'e';
            proof {
                if eq {
                    assert(s@ =~= "true"@);
                } else {
                    assert(s@ != "true"@);
                }
            }
            Some(eq)
        },
    }
}

} // verus!
