use nostr_faucet_e2e::keys::{Keys, PublicKey};
use nostr_faucet_e2e::seal::{open, seal};

#[test]
fn a_sealed_message_opens_on_both_sides() {
    let alice = Keys::generate();
    let faucet = Keys::generate();
    let sealed = seal(&alice, &faucet.public_key(), "hello").unwrap();
    assert_ne!(sealed, "hello");
    assert_eq!(open(&faucet, &alice.public_key(), &sealed).unwrap(), "hello");
    assert_eq!(open(&alice, &faucet.public_key(), &sealed).unwrap(), "hello");
}

#[test]
fn a_sealed_message_opens_for_nobody_else() {
    let alice = Keys::generate();
    let faucet = Keys::generate();
    let sealed = seal(&alice, &faucet.public_key(), "hello").unwrap();
    let stranger = Keys::generate();
    assert_eq!(open(&stranger, &alice.public_key(), &sealed).err().unwrap(), "invalid HMAC");
}

#[test]
fn what_is_not_sealed_does_not_open() {
    let alice = Keys::generate();
    let faucet = Keys::generate();
    assert_eq!(
        open(&alice, &faucet.public_key(), "AAAA").err().unwrap(),
        "unknown version: 0"
    );
    assert_eq!(
        open(&alice, &faucet.public_key(), "").err().unwrap(),
        "Version not found in payload"
    );
    assert!(open(&alice, &faucet.public_key(), "hello").is_err());
}

#[test]
fn a_message_must_not_be_empty_or_too_long() {
    let alice = Keys::generate();
    let key = Keys::generate().public_key();
    assert_eq!(seal(&alice, &key, "").err().unwrap(), "message empty");
    assert!(seal(&alice, &key, &"x".repeat(65408)).is_ok());
    assert_eq!(seal(&alice, &key, &"x".repeat(65409)).err().unwrap(), "message too long");
    // The length counts in bytes.
    assert!(seal(&alice, &key, &"é".repeat(32704)).is_ok());
    assert!(seal(&alice, &key, &"é".repeat(32705)).is_err());
}

#[test]
fn the_longest_message_opens() {
    let alice = Keys::generate();
    let faucet = Keys::generate();
    let message = "x".repeat(65408);
    let sealed = seal(&alice, &faucet.public_key(), &message).unwrap();
    assert_eq!(open(&faucet, &alice.public_key(), &sealed).unwrap(), message);
}

#[test]
fn nothing_is_sealed_for_what_is_no_point() {
    let alice = Keys::generate();
    for bytes in [[0xff; 32], [0; 32]] {
        let error = seal(&alice, &PublicKey { bytes }, "hello").err().unwrap();
        assert_eq!(error, "malformed public key");
    }
    let error = seal(&alice, &PublicKey { bytes: [0; 32] }, "").err().unwrap();
    assert_eq!(error, "malformed public key");
}
