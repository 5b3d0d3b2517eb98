use bfx::client::Client;
use bfx::text;

fn ring_hmac_hex(key: &[u8], msg: &[u8]) -> String {
    let k = ring::hmac::Key::new(ring::hmac::HMAC_SHA384, key);
    let tag = ring::hmac::sign(&k, msg);
    let mut out = String::new();
    for b in tag.as_ref() {
        out.push_str(&format!("{:02x}", b));
    }
    out
}

#[test]
fn signature_is_deterministic() {
    let c = Client::new("api-key".to_string(), "api-secret".to_string());
    let url = "auth/r/wallets".to_string();
    let payload = "{\"category\":28}".to_string();
    let h1 = c.build_headers_with_nonce(&url, Some(&payload), "1700000000000000".to_string());
    let h2 = c.build_headers_with_nonce(&url, Some(&payload), "1700000000000000".to_string());
    assert_eq!(h1.signature, h2.signature);
    assert_eq!(h1.nonce, "1700000000000000");
    assert_eq!(h1.api_key, "api-key");
}

#[test]
fn signature_changes_with_nonce() {
    let c = Client::new("api-key".to_string(), "api-secret".to_string());
    let url = "auth/r/wallets".to_string();
    let h1 = c.build_headers_with_nonce(&url, None, "1".to_string());
    let h2 = c.build_headers_with_nonce(&url, None, "2".to_string());
    assert_ne!(h1.signature, h2.signature);
}

#[test]
fn signature_matches_hmac_of_canonical_string() {
    let c = Client::new("k".to_string(), "secret".to_string());
    let url = "auth/r/wallets".to_string();
    let h = c.build_headers_with_nonce(&url, Some(&"{}".to_string()), "42".to_string());
    let expected = ring_hmac_hex(b"secret", b"/api/v2/auth/r/wallets42{}");
    assert_eq!(h.signature, expected);
}

#[test]
fn sign_payload_is_hex_of_the_tag() {
    let c = Client::new(String::new(), String::new());
    let sig = c.sign_payload(b"key-bytes", b"message-bytes");
    assert_eq!(sig.len(), 96);
    assert_eq!(sig, ring_hmac_hex(b"key-bytes", b"message-bytes"));
    assert!(sig.chars().all(|ch| ch.is_ascii_hexdigit() && !ch.is_ascii_uppercase()));
}

#[test]
fn nonce_of_seconds_is_microseconds() {
    assert_eq!(bfx::client::nonce_of_seconds(5), "5000000");
    assert_eq!(bfx::client::nonce_of_seconds(0), "0");
    assert_eq!(bfx::client::nonce_of_seconds(1700000000), "1700000000000000");
}

#[test]
fn generate_nonce_is_a_whole_microsecond_reading() {
    let c = Client::new(String::new(), String::new());
    let n = c.generate_nonce();
    let v: u64 = n.parse().expect("nonce must be a decimal numeral");
    assert!(v > 0);
    assert_eq!(v % 1_000_000, 0);
}

#[test]
fn hex_rendering_is_two_digits_per_byte() {
    assert_eq!(text::hex_lower(&[0xbe, 0xef]), "beef");
    assert_eq!(text::hex_lower(&[0x00, 0x0a, 0xff]), "000aff");
    assert_eq!(text::hex_lower(&[]), "");
}

#[test]
fn decimal_rendering() {
    assert_eq!(text::u64_to_dec(0), "0");
    assert_eq!(text::u64_to_dec(90210), "90210");
    assert_eq!(text::u64_to_dec(u64::MAX), "18446744073709551615");
    assert_eq!(text::i64_to_dec(-42), "-42");
    assert_eq!(text::i64_to_dec(7), "7");
    assert_eq!(text::i64_to_dec(i64::MIN), "-9223372036854775808");
}

#[test]
fn integer_parsing() {
    assert_eq!(text::parse_u64("12345"), Some(12345));
    assert_eq!(text::parse_u64("18446744073709551615"), Some(u64::MAX));
    assert_eq!(text::parse_u64("18446744073709551616"), None);
    assert_eq!(text::parse_u64(""), None);
    assert_eq!(text::parse_u64("12a"), None);
    assert_eq!(text::parse_u64("-3"), None);
    assert_eq!(text::parse_i64("-3"), Some(-3));
    assert_eq!(text::parse_i64("-9223372036854775808"), Some(i64::MIN));
    assert_eq!(text::parse_i64("-9223372036854775809"), None);
    assert_eq!(text::parse_i64("1.5"), None);
}

#[test]
fn user_agent_and_content_type_are_fixed() {
    assert_eq!(bfx::client::user_agent(), "bitfinex-api-rs");
    assert_eq!(bfx::client::content_type(), "application/json");
}
