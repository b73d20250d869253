use nostr_faucet_e2e::events::SignedEvent;
use nostr_faucet_e2e::grant::{open_profile, rated_profile, Publication, PublicationAction};
use nostr_faucet_e2e::keys::Keys;
use nostr_faucet_e2e::{publish_grant, publish_grant_for};
use serde_json::Value;

const KIND: u16 = 31234;

fn sent(publication: &mut Publication) -> SignedEvent {
    loop {
        match publication.next() {
            PublicationAction::Send(event) => return event,
            PublicationAction::Finished | PublicationAction::Failed(_) => {
                panic!("nothing was sent")
            }
            _ => {}
        }
    }
}

fn checked(event: &SignedEvent) -> nostr_sdk::Event {
    let tags: Vec<nostr_sdk::Tag> =
        event.tags.iter().map(|tag| nostr_sdk::Tag::parse(tag.clone()).unwrap()).collect();
    let signature = nostr_sdk::secp256k1::schnorr::Signature::from_slice(&event.signature).unwrap();
    let event = nostr_sdk::Event::new(
        nostr_sdk::EventId::from_byte_array(event.id),
        nostr_sdk::PublicKey::from_byte_array(event.author.bytes),
        nostr_sdk::Timestamp::from(event.created_at),
        nostr_sdk::Kind::Custom(event.kind),
        tags,
        event.content.clone(),
        signature,
    );
    event.verify().unwrap();
    event
}

#[test]
fn a_publication_runs_its_course() {
    let owner = Keys::generate();
    let faucet = Keys::generate().public_key();
    let asker = Keys::generate().public_key();
    let mut publication = publish_grant(KIND, &owner, &faucet, &asker, "{}", "ws://relay");
    assert_eq!(publication.owner().to_secret_hex(), owner.to_secret_hex());
    assert!(matches!(publication.next(), PublicationAction::Connect(relay) if relay == "ws://relay"));
    assert!(matches!(publication.next(), PublicationAction::Sleep(200)));
    assert!(matches!(publication.next(), PublicationAction::Send(_)));
    assert!(matches!(publication.next(), PublicationAction::Sleep(600)));
    assert!(matches!(publication.next(), PublicationAction::Shutdown));
    assert!(matches!(publication.next(), PublicationAction::Finished));
    assert!(matches!(publication.next(), PublicationAction::Finished));
}

#[test]
fn a_publication_that_fails_is_no_success() {
    let owner = Keys::generate();
    let faucet = Keys::generate().public_key();
    let new = || publish_grant_for(KIND, &owner, &faucet, "OTHERS", "{}", "ws://relay");
    // After the connection, and after the event, was to be had.
    for steps in [1, 3] {
        let mut publication = new();
        for _ in 0..steps {
            publication.next();
        }
        publication.fail("gone".to_string());
        publication.fail("later".to_string());
        for _ in 0..6 {
            assert!(matches!(publication.next(), PublicationAction::Failed(e) if e == "gone"));
        }
    }
    // What is published stays so.
    let mut publication = new();
    for _ in 0..5 {
        publication.next();
    }
    publication.fail("gone".to_string());
    assert!(matches!(publication.next(), PublicationAction::Finished));
}

#[test]
fn a_signature_is_told_from_what_is_none() {
    let owner = Keys::generate();
    let faucet = Keys::generate().public_key();
    let mut event = sent(&mut publish_grant_for(KIND, &owner, &faucet, "OTHERS", "{}", "r"));
    assert!(event.verify_signature());
    event.signature[0] ^= 1;
    assert!(!event.verify_signature());
    event.signature[0] ^= 1;
    event.id[31] ^= 1;
    assert!(!event.verify_signature());
    event.id[31] ^= 1;
    event.author = faucet;
    assert!(!event.verify_signature());
    event.author.bytes = [0xff; 32];
    assert!(!event.verify_signature());
}

#[test]
fn a_grant_is_signed_by_its_owner() {
    let owner = Keys::generate();
    let faucet = Keys::generate().public_key();
    let asker = Keys::generate().public_key();
    let profile = open_profile(7, 8);
    let event = sent(&mut publish_grant(KIND, &owner, &faucet, &asker, &profile, "ws://relay"));
    let verified = checked(&event);
    assert_eq!(verified.pubkey.to_hex(), owner.public_key().to_hex());
    assert_eq!(event.kind, KIND);
    assert_eq!(event.content, profile);
    let identifier = format!("{}:{}", faucet.to_hex(), asker.to_hex());
    assert_eq!(
        event.tags,
        vec![
            vec!["d".to_string(), identifier],
            vec!["p".to_string(), faucet.to_hex()],
        ]
    );
}

#[test]
fn a_grant_for_others_names_no_key() {
    let owner = Keys::generate();
    let faucet = Keys::generate().public_key();
    let event = sent(&mut publish_grant_for(KIND, &owner, &faucet, "OTHERS", "{}", "ws://relay"));
    checked(&event);
    assert_eq!(event.tags[0], vec!["d".to_string(), format!("{}:OTHERS", faucet.to_hex())]);
    assert_ne!(Keys::generate().public_key().to_hex(), "OTHERS");
}

#[test]
fn a_faucet_that_is_its_own_owner_is_not_addressed() {
    let owner = Keys::generate();
    let asker = Keys::generate().public_key();
    let event =
        sent(&mut publish_grant(KIND, &owner, &owner.public_key(), &asker, "{}", "ws://relay"));
    checked(&event);
    assert_eq!(event.tags.len(), 1);
    assert_eq!(event.tags[0][0], "d");
}

#[test]
fn a_later_grant_takes_the_place_of_an_earlier_one() {
    let owner = Keys::generate();
    let faucet = Keys::generate().public_key();
    let asker = Keys::generate().public_key();
    let profile = open_profile(1, 1);
    let earlier = sent(&mut publish_grant(KIND, &owner, &faucet, &asker, &profile, "ws://relay"));
    let later = sent(&mut publish_grant(KIND, &owner, &faucet, &asker, "{}", "ws://relay"));
    assert_eq!(checked(&earlier).coordinate(), checked(&later).coordinate());
    assert!(checked(&earlier).coordinate().is_some());
    assert_eq!(later.content, "{}");
}

#[test]
fn grants_for_different_askers_do_not_meet() {
    let owner = Keys::generate();
    let faucet = Keys::generate().public_key();
    let one = Keys::generate().public_key();
    let other = Keys::generate().public_key();
    let first = sent(&mut publish_grant(KIND, &owner, &faucet, &one, "{}", "ws://relay"));
    let second = sent(&mut publish_grant(KIND, &owner, &faucet, &other, "{}", "ws://relay"));
    assert_ne!(first.tags[0], second.tags[0]);
}

#[test]
fn an_open_profile_allows_every_method() {
    let profile = open_profile(100_000_000, 120);
    assert_eq!(
        profile,
        r#"{"methods":{"OTHERS":{}},"quota":{"amount":100000000,"per_secs":120,"max_capacity":100000000}}"#
    );
    let value: Value = serde_json::from_str(&profile).unwrap();
    assert_eq!(value["quota"]["max_capacity"], Value::from(100_000_000u64));
}

#[test]
fn a_rated_profile_allows_payment_alone() {
    let profile = rated_profile(1, 600, 100_000_000, 120);
    assert_eq!(
        profile,
        r#"{"methods":{"pay_onchain":{"rate":{"amount":1,"per_secs":600,"max_capacity":1}}},"quota":{"amount":100000000,"per_secs":120,"max_capacity":100000000}}"#
    );
    let value: Value = serde_json::from_str(&profile).unwrap();
    assert_eq!(value["methods"]["pay_onchain"]["rate"]["per_secs"], Value::from(600u64));
}
