//! Tests of the byte-buffer wrapper and its two codecs, run against the
//! real base64 collaborator and the real UTF-8 machinery.

use zenroom_minimal::{Error, Octet};

#[test]
fn base64_exact_value() {
    let o = Octet::new(b"hello".to_vec());
    assert_eq!(o.to_base64(), "aGVsbG8".to_string());
}

#[test]
fn base64_url_safe_alphabet() {
    // 0xfb 0xef picks the url-safe characters '-' and '_' territory.
    let o = Octet::new(vec![0xfb, 0xff, 0xbf]);
    let text = o.to_base64();
    assert!(!text.contains('+') && !text.contains('/'));
    assert!(!text.contains('='));
}

#[test]
fn base64_round_trip() {
    let bytes: Vec<u8> = (0u16..=255).map(|b| b as u8).collect();
    let o = Octet::new(bytes.clone());
    let text = o.to_base64();
    let back = Octet::from_base64(&text).expect("canonical text must decode");
    assert_eq!(back.as_bytes(), &bytes);
}

#[test]
fn base64_rejects_garbage() {
    assert!(matches!(Octet::from_base64("!!!"), Err(Error::Shape)));
}

#[test]
fn base64_decode_exact_value() {
    let o = Octet::from_base64("aGVsbG8").unwrap();
    assert_eq!(o.as_bytes(), &b"hello".to_vec());
}

#[test]
fn utf8_round_trip() {
    let o = Octet::from_string("héllo wörld");
    let text = o.to_text().expect("valid text must read back");
    assert_eq!(text, "héllo wörld".to_string());
}

#[test]
fn invalid_utf8_fails() {
    let o = Octet::new(vec![0xff, 0xfe]);
    assert!(matches!(o.to_text(), Err(Error::Shape)));
}

#[test]
fn empty_octet() {
    let o = Octet::default();
    assert_eq!(o.len(), 0);
    assert_eq!(o.to_base64(), "".to_string());
}

#[test]
fn from_string_takes_utf8_bytes() {
    let o = Octet::from_string("hé");
    assert_eq!(o.as_bytes(), &vec![0x68, 0xc3, 0xa9]);
    assert_eq!(o.len(), 3);
}
