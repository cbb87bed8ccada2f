use base64::Engine;
use sandbox_server::crypto::{encrypt_code, generate_key};

#[test]
fn roundtrip() {
    let plain = b"hello world";
    let key = generate_key(64);
    let enc = encrypt_code(plain, &key);
    let dec = base64::engine::general_purpose::STANDARD.decode(&enc).unwrap();
    let recovered: Vec<u8> =
        dec.iter().enumerate().map(|(i, &b)| b ^ key[i % key.len()]).collect();
    assert_eq!(recovered, plain);
}

#[test]
fn encryption_has_exact_values() {
    // 'a' ^ 1, 'b' ^ 2, 'c' ^ 1
    assert_eq!(encrypt_code(b"abc", &[1, 2]), "YGBi");
    assert_eq!(encrypt_code(b"a", &[0]), "YQ==");
    assert_eq!(encrypt_code(b"", &[]), "");
}

#[test]
fn keys_have_the_asked_length_and_are_filled() {
    assert_eq!(generate_key(0).len(), 0);
    let key = generate_key(64);
    assert_eq!(key.len(), 64);
    // That all bytes of a random key are zero has the probability 2^-512.
    assert!(key.iter().any(|&b| b != 0));
    assert_ne!(key, generate_key(64));
}
