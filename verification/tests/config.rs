use memo_core::config::{ascii_hex_digit_to_dec, env_var_bool, read_signing_key, ServerConfig};

#[test]
fn test_ascii_hex_digits() {
    let digits: [(u8, u8); 16] = [
        (b'0', 0),
        (b'1', 1),
        (b'2', 2),
        (b'3', 3),
        (b'4', 4),
        (b'5', 5),
        (b'6', 6),
        (b'7', 7),
        (b'8', 8),
        (b'9', 9),
        (b'a', 10),
        (b'b', 11),
        (b'c', 12),
        (b'd', 13),
        (b'e', 14),
        (b'f', 15),
    ];
    for (byte, value) in digits {
        assert_eq!(ascii_hex_digit_to_dec(byte), value);
    }
}

#[test]
fn test_ascii_hex_digit_other_bytes() {
    // upper case is not recognised by the signing-key decoder
    assert_eq!(ascii_hex_digit_to_dec(b'A'), 0);
    assert_eq!(ascii_hex_digit_to_dec(b'F'), 0);
    assert_eq!(ascii_hex_digit_to_dec(b'g'), 0);
    assert_eq!(ascii_hex_digit_to_dec(b'/'), 0);
    assert_eq!(ascii_hex_digit_to_dec(0), 0);
    assert_eq!(ascii_hex_digit_to_dec(255), 0);
}

#[test]
fn test_read_signing_key() {
    let key = read_signing_key("00112233445566778899aabbccddeeff00112233445566778899aabbccddeeff");
    assert_eq!(key.len(), 32);
    let expected: [u8; 16] = [
        0x00, 0x11, 0x22, 0x33, 0x44, 0x55, 0x66, 0x77, 0x88, 0x99, 0xaa, 0xbb, 0xcc, 0xdd, 0xee,
        0xff,
    ];
    assert_eq!(&key[..16], &expected);
    assert_eq!(&key[16..], &expected);
}

#[test]
fn test_read_signing_key_ignores_trailing_input() {
    let long = read_signing_key("ff112233445566778899aabbccddeeff00112233445566778899aabbccddee00extra");
    assert_eq!(long.len(), 32);
    assert_eq!(long[0], 0xff);
    assert_eq!(long[31], 0x00);
}

#[test]
fn test_read_signing_key_non_hex_counts_as_zero() {
    let key = read_signing_key("zz112233445566778899aabbccddeeff00112233445566778899aabbccddeeff");
    assert_eq!(key[0], 0);
    assert_eq!(key[1], 0x11);
}

#[test]
fn test_env_var_bool() {
    assert_eq!(env_var_bool(Some("true")), Some(true));
    assert_eq!(env_var_bool(Some("false")), Some(false));
    assert_eq!(env_var_bool(Some("TRUE")), Some(false));
    assert_eq!(env_var_bool(Some("true ")), Some(false));
    assert_eq!(env_var_bool(Some("")), Some(false));
    assert_eq!(env_var_bool(None), None);
}

#[test]
fn test_server_config_holds_magic_word() {
    let config = ServerConfig { registration_magic_word: String::from("abracadabra") };
    assert_eq!(config.registration_magic_word, "abracadabra");
}
