//! Host-level tests of the keyring against the real signing
//! collaborator: key sizes, signature size, and verification under
//! tampering.

use zenroom_minimal::{Keyring, Octet};

#[test]
fn generated_key_sizes() {
    let keyring = Keyring::new_generated().unwrap();
    assert_eq!(keyring.public().len(), 65);
    assert_eq!(keyring.private().len(), 138);
}

#[test]
fn signature_is_64_bytes() {
    let keyring = Keyring::new_generated().unwrap();
    let message = Octet::new(b"hello".to_vec());
    let signature = keyring.sign(&message).unwrap();
    assert_eq!(signature.len(), 64);
}

#[test]
fn verify_matching_pair() {
    let keyring = Keyring::new_generated().unwrap();
    let message = Octet::new(b"hello".to_vec());
    let signature = keyring.sign(&message).unwrap();
    assert!(keyring.verify(&message, &signature));
}

#[test]
fn verify_rejects_tampered_message() {
    let keyring = Keyring::new_generated().unwrap();
    let message = Octet::new(b"hello".to_vec());
    let signature = keyring.sign(&message).unwrap();
    let tampered = Octet::new(b"hellp".to_vec());
    assert!(!keyring.verify(&tampered, &signature));
}

#[test]
fn verify_rejects_tampered_signature() {
    let keyring = Keyring::new_generated().unwrap();
    let message = Octet::new(b"hello".to_vec());
    let signature = keyring.sign(&message).unwrap();
    let mut bytes: Vec<u8> = signature.into_bytes();
    bytes[0] = bytes[0].wrapping_add(1);
    let tampered = Octet::new(bytes);
    assert!(!keyring.verify(&message, &tampered));
}

#[test]
fn verify_rejects_foreign_public_key() {
    let signer = Keyring::new_generated().unwrap();
    let other = Keyring::new_generated().unwrap();
    let message = Octet::new(b"hello".to_vec());
    let signature = signer.sign(&message).unwrap();
    assert!(!other.verify(&message, &signature));
}

#[test]
fn blank_keyring_cannot_sign() {
    let keyring = Keyring::new();
    assert_eq!(keyring.public().len(), 0);
    assert_eq!(keyring.private().len(), 0);
    let message = Octet::new(b"hello".to_vec());
    assert!(keyring.sign(&message).is_err());
}

#[test]
fn set_private_rederives_public() {
    let mut original = Keyring::new_generated().unwrap();
    let doc = original.private().duplicate();
    let mut fresh = Keyring::new();
    fresh.set_private(doc).unwrap();
    assert_eq!(fresh.public().as_bytes(), original.public().as_bytes());

    let message = Octet::new(b"payload".to_vec());
    let signature = fresh.sign(&message).unwrap();
    assert!(original.verify(&message, &signature));
    let _ = original.generate();
}

#[test]
fn set_private_rejects_garbage() {
    let mut keyring = Keyring::new();
    assert!(keyring.set_private(Octet::new(vec![1, 2, 3])).is_err());
}

#[test]
fn set_public_replaces_key() {
    let mut keyring = Keyring::new_generated().unwrap();
    let replacement = Octet::new(vec![4u8; 65]);
    let returned = keyring.set_public(replacement).unwrap();
    assert_eq!(returned.as_bytes(), keyring.public().as_bytes());
    assert_eq!(keyring.public().as_bytes(), &vec![4u8; 65]);
}
