use nostr_faucet_e2e::keys::{Keys, PublicKey};

#[test]
fn fresh_keys_differ() {
    let a = Keys::generate();
    let b = Keys::generate();
    assert_ne!(a.to_secret_hex(), b.to_secret_hex());
    assert_ne!(a.public_key().to_hex(), b.public_key().to_hex());
}

#[test]
fn the_public_key_belongs_to_the_secret_key() {
    let keys = Keys::generate();
    let theirs = nostr_sdk::Keys::parse(&keys.to_secret_hex()).unwrap();
    assert_eq!(keys.public_key().to_hex(), theirs.public_key().to_hex());
    assert_eq!(keys.public_key().bytes, theirs.public_key().to_bytes());
}

#[test]
fn hexadecimal_is_in_lower_case_with_leading_zeros() {
    let mut bytes = [0u8; 32];
    bytes[0] = 0x0a;
    bytes[31] = 0xff;
    let hex = PublicKey { bytes }.to_hex();
    assert_eq!(hex.len(), 64);
    assert!(hex.starts_with("0a00"));
    assert!(hex.ends_with("00ff"));
}

#[test]
fn a_key_in_hexadecimal_is_read_back() {
    let key = Keys::generate().public_key();
    assert_eq!(PublicKey::parse(&key.to_hex()).ok().unwrap().bytes, key.bytes);
}

#[test]
fn different_keys_have_different_texts() {
    let a = PublicKey { bytes: [1; 32] };
    let b = PublicKey { bytes: [16; 32] };
    assert_ne!(a.to_hex(), b.to_hex());
}

#[test]
fn a_key_is_read_from_a_uri() {
    let key = PublicKey::parse(
        "nostr:npub14f8usejl26twx0dhuxjh9cas7keav9vr0v8nvtwtrjqx3vycc76qqh9nsy",
    )
    .ok()
    .unwrap();
    assert_eq!(key.to_hex(), "aa4fc8665f5696e33db7e1a572e3b0f5b3d615837b0f362dcb1c8068b098c7b4");
}

#[test]
fn what_is_no_key_is_not_read() {
    for text in ["", "not a key", "aa4fc8665f5696e33db7e1a572e3b0f5"] {
        assert_eq!(PublicKey::parse(text).err().unwrap(), "Invalid public key");
    }
}
