//! Tests of the HOTP token generator: dynamic truncation, digit reduction
//! and the rendered token line.

use hotp::hotp::{
    dynamic_truncate, gen_token_finish, gen_token_request, moving_factor_bytes, oracle_crypt,
    token_value, DriverError,
};
use hotp::store::{KeyDigits, KeyState};

fn sample_digest() -> [u8; 32] {
    let mut d = [0u8; 32];
    for i in 0..32 {
        d[i] = i as u8;
    }
    d
}

fn sample_key(digits: KeyDigits, moving_factor: u64) -> KeyState {
    KeyState::new(32, [0x61u8; 64], [0u8; 16], digits, moving_factor)
}

#[test]
fn truncation_known_offset_and_window() {
    // Last byte is 31, low nibble 15: window is bytes 15..19, top bit of
    // byte 15 cleared.
    let d = sample_digest();
    let t = dynamic_truncate(&d[..]);
    assert_eq!(t, 0x0F101112);
}

#[test]
fn truncation_masks_top_bit() {
    let mut d = [0u8; 32];
    d[0] = 0xFF;
    d[1] = 0xEE;
    d[2] = 0xDD;
    d[3] = 0xCC;
    // Last byte 0: offset 0, first window byte 0xFF & 0x7F = 0x7F.
    let t = dynamic_truncate(&d[..]);
    assert_eq!(t, 0x7FEEDDCC);
    assert!(t < 0x8000_0000);
}

#[test]
fn truncation_is_pure_in_the_digest() {
    let d = sample_digest();
    let e = sample_digest();
    assert_eq!(dynamic_truncate(&d[..]), dynamic_truncate(&e[..]));
    assert_eq!(
        token_value(&d[..], &KeyDigits::Eight),
        token_value(&e[..], &KeyDigits::Eight)
    );
}

#[test]
fn token_value_reduces_modulo_digits() {
    let d = sample_digest();
    // 0x0F101112 = 252711186
    assert_eq!(token_value(&d[..], &KeyDigits::Six), 711186);
    assert_eq!(token_value(&d[..], &KeyDigits::Seven), 2711186);
    assert_eq!(token_value(&d[..], &KeyDigits::Eight), 52711186);
}

#[test]
fn token_line_exact_text() {
    let key = sample_key(KeyDigits::Six, 0);
    let d = sample_digest();
    let (out, advance) = gen_token_finish(&key, 0, &d[..]).unwrap();
    assert!(advance);
    assert_eq!(out, b"Token (moving factor = 0): 711186\r\n".to_vec());
}

#[test]
fn token_line_zero_pads_to_width() {
    // A digest whose truncated value is tiny: all zero bytes.
    let d = [0u8; 32];
    let key = sample_key(KeyDigits::Eight, 7);
    let (out, _) = gen_token_finish(&key, 0, &d[..]).unwrap();
    assert_eq!(out, b"Token (moving factor = 7): 00000000\r\n".to_vec());
}

#[test]
fn token_has_exactly_digits_characters() {
    let d = sample_digest();
    for (digits, width) in [
        (KeyDigits::Six, 6usize),
        (KeyDigits::Seven, 7),
        (KeyDigits::Eight, 8),
    ] {
        for mf in [0u64, 1, 9, 12345, u64::MAX] {
            let key = sample_key(digits, mf);
            let (out, _) = gen_token_finish(&key, 0, &d[..]).unwrap();
            let text = String::from_utf8(out).unwrap();
            let head = format!("Token (moving factor = {}): ", mf);
            assert!(text.starts_with(&head));
            let token = text[head.len()..].trim_end_matches("\r\n");
            assert_eq!(token.len(), width);
            assert!(token.bytes().all(|b| b.is_ascii_digit()));
            let value: u64 = token.parse().unwrap();
            assert!(value < 10u64.pow(width as u32));
        }
    }
}

#[test]
fn nonzero_result_code_is_a_driver_failure() {
    let key = sample_key(KeyDigits::Six, 3);
    let d = sample_digest();
    let r = gen_token_finish(&key, 7, &d[..]);
    assert_eq!(r.unwrap_err(), DriverError { status: 7 });
}

#[test]
fn request_carries_decrypted_key_and_big_endian_factor() {
    let key = sample_key(KeyDigits::Six, 0x0102030405060708);
    let req = gen_token_request(&key).unwrap();
    assert_eq!(req.key, vec![0x61u8; 32]);
    assert_eq!(req.data, vec![1u8, 2, 3, 4, 5, 6, 7, 8]);
}

#[test]
fn moving_factor_zero_is_eight_zero_bytes() {
    assert_eq!(moving_factor_bytes(0), vec![0u8; 8]);
    assert_eq!(moving_factor_bytes(u64::MAX), vec![0xFFu8; 8]);
}

#[test]
fn oracle_stub_hands_ciphertext_back() {
    let iv = [0u8; 16];
    let src = [9u8, 8, 7];
    let out = oracle_crypt(&iv, &src[..]).unwrap();
    assert_eq!(out, vec![9u8, 8, 7]);
}
