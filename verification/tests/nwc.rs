use nostr_faucet_e2e::json::Json;
use nostr_faucet_e2e::keys::{Keys, PublicKey};
use nostr_faucet_e2e::nwc::{
    error_code, Call, CallAction, CallError, CallEvent, Reply, REQUEST_KIND, RESPONSE_KIND,
    WAIT_NANOS,
};
use nostr_faucet_e2e::seal::seal;
use nostr_faucet_e2e::{ask, call, refusal};
use serde_json::Value;

/// The call, once its request was sent at the time `at`, with the request.
fn sent(call: &mut Call, at: u64) -> nostr_faucet_e2e::events::SignedEvent {
    assert!(matches!(call.step(CallEvent::Begin), CallAction::Connect(_)));
    assert!(matches!(call.step(CallEvent::Connected { now: 1000 }), CallAction::Subscribe(_)));
    let request = match call.step(CallEvent::Subscribed) {
        CallAction::Send(event) => event,
        _ => panic!("the request was not sent"),
    };
    assert!(matches!(call.step(CallEvent::Sent { at }), CallAction::ReadClock));
    request
}

fn reply(from: &Keys, to: &PublicKey, text: &str) -> Reply {
    Reply { author: from.public_key(), content: seal(from, to, text).unwrap() }
}

fn finished(action: CallAction) -> Result<Json, CallError> {
    match action {
        CallAction::Finish(result) => result,
        _ => panic!("the call goes on"),
    }
}

fn failure(action: CallAction) -> CallError {
    match finished(action) {
        Ok(_) => panic!("the call came to something"),
        Err(error) => error,
    }
}

#[test]
fn the_faucet_reads_what_is_asked() {
    let us = Keys::generate();
    let faucet = Keys::generate();
    let mut asking = ask("ws://relay", &us, &faucet.public_key(), "bcrt1qabc", 100_000_000);
    let request = sent(&mut asking, 0);
    let theirs = nostr_sdk::Keys::parse(&faucet.to_secret_hex()).unwrap();
    let plain = nostr_sdk::nips::nip44::decrypt(
        theirs.secret_key(),
        &nostr_sdk::PublicKey::from_byte_array(request.author.bytes),
        &request.content,
    )
    .unwrap();
    let value: Value = serde_json::from_str(&plain).unwrap();
    assert_eq!(value["method"], Value::from("pay_onchain"));
    assert_eq!(value["params"]["address"], Value::from("bcrt1qabc"));
    assert_eq!(value["params"]["amount_sats"], Value::from(100_000_000u64));
    assert_eq!(request.kind, REQUEST_KIND);
    assert_eq!(request.author.bytes, us.public_key().bytes);
    assert_eq!(
        request.tags,
        vec![vec!["p".to_string(), faucet.public_key().to_hex()]]
    );
}

#[test]
fn a_call_says_where_and_what_to_look_for() {
    let us = Keys::generate();
    let faucet = Keys::generate().public_key();
    let params = Json::Object(vec![]);
    let mut informing = call("ws://relay", &us, &faucet, "get_info", params);
    assert_eq!(informing.us().to_secret_hex(), us.to_secret_hex());
    assert!(matches!(informing.step(CallEvent::Begin), CallAction::Connect(relay) if relay == "ws://relay"));
    let watch = match informing.step(CallEvent::Connected { now: 77 }) {
        CallAction::Subscribe(query) => query,
        _ => panic!("no subscription"),
    };
    assert_eq!(watch.kind, RESPONSE_KIND);
    assert_eq!(watch.recipient.bytes, us.public_key().bytes);
    assert_eq!(watch.since, Some(77));
    assert_eq!(watch.request, None);
    let request = match informing.step(CallEvent::Subscribed) {
        CallAction::Send(event) => event,
        _ => panic!("the request was not sent"),
    };
    informing.step(CallEvent::Sent { at: 5 });
    let (fetch, within) = match informing.step(CallEvent::Clock { at: 5 }) {
        CallAction::Fetch(query, within) => (query, within),
        _ => panic!("nothing is fetched"),
    };
    assert_eq!(fetch.kind, RESPONSE_KIND);
    assert_eq!(fetch.recipient.bytes, us.public_key().bytes);
    assert_eq!(fetch.since, None);
    assert_eq!(fetch.request, Some(request.id));
    assert_eq!(within, 2000);
}

#[test]
fn a_call_returns_what_the_faucet_wrote() {
    let us = Keys::generate();
    let faucet = Keys::generate();
    let mut asking = ask("ws://relay", &us, &faucet.public_key(), "addr", 1);
    sent(&mut asking, 10);
    assert!(matches!(asking.step(CallEvent::Clock { at: 11 }), CallAction::Fetch(_, _)));
    assert!(matches!(asking.step(CallEvent::Fetched { replies: vec![] }), CallAction::ReadClock));
    assert!(matches!(asking.step(CallEvent::Clock { at: 12 }), CallAction::Fetch(_, _)));
    let replies = vec![
        reply(&faucet, &us.public_key(), "{\"error\":{\"message\":\"no\"}}"),
        reply(&faucet, &us.public_key(), "{\"result\":{}}"),
    ];
    assert!(matches!(asking.step(CallEvent::Fetched { replies }), CallAction::Disconnect));
    let answer = finished(asking.step(CallEvent::Closed)).ok().unwrap();
    assert_eq!(refusal(&answer).unwrap(), "no");
    assert_eq!(failure(asking.step(CallEvent::Begin)), CallError::OutOfTurn);
}

#[test]
fn a_call_keeps_the_request_that_it_looks_for() {
    let us = Keys::generate();
    let faucet = Keys::generate().public_key();
    let mut asking = ask("ws://relay", &us, &faucet, "addr", 1);
    let request = sent(&mut asking, 0);
    let mut at: u64 = 0;
    while at < 5 {
        match asking.step(CallEvent::Clock { at }) {
            CallAction::Fetch(query, _) => assert_eq!(query.request, Some(request.id)),
            _ => panic!("nothing is fetched"),
        }
        asking.step(CallEvent::Fetched { replies: vec![] });
        at += 1;
    }
}

#[test]
fn the_wait_is_thirty_seconds() {
    let us = Keys::generate();
    let faucet = Keys::generate().public_key();
    let start = 1_000;
    let mut patient = ask("ws://relay", &us, &faucet, "addr", 1);
    sent(&mut patient, start);
    let almost = CallEvent::Clock { at: start + WAIT_NANOS - 1 };
    assert!(matches!(patient.step(almost), CallAction::Fetch(_, _)));
    patient.step(CallEvent::Fetched { replies: vec![] });
    let over = CallEvent::Clock { at: start + 30_000_000_000 };
    assert_eq!(failure(patient.step(over)), CallError::NoAnswer);
}

#[test]
fn a_clock_that_goes_back_is_no_reason_to_give_up() {
    let us = Keys::generate();
    let faucet = Keys::generate().public_key();
    let mut asking = ask("ws://relay", &us, &faucet, "addr", 1);
    sent(&mut asking, 100);
    assert!(matches!(asking.step(CallEvent::Clock { at: 0 }), CallAction::Fetch(_, _)));
}

#[test]
fn a_request_that_cannot_be_sealed_is_not_sent() {
    let us = Keys::generate();
    let nobody = PublicKey { bytes: [0xff; 32] };
    let mut asking = ask("ws://relay", &us, &nobody, "addr", 1);
    asking.step(CallEvent::Begin);
    asking.step(CallEvent::Connected { now: 0 });
    assert_eq!(
        failure(asking.step(CallEvent::Subscribed)),
        CallError::NotSealed("malformed public key".to_string())
    );

    let faucet = Keys::generate().public_key();
    let mut long = ask("ws://relay", &us, &faucet, &"x".repeat(70_000), 1);
    long.step(CallEvent::Begin);
    long.step(CallEvent::Connected { now: 0 });
    assert_eq!(
        failure(long.step(CallEvent::Subscribed)),
        CallError::NotSealed("message too long".to_string())
    );
}

#[test]
fn a_reply_that_does_not_open_fails() {
    let us = Keys::generate();
    let faucet = Keys::generate();
    let mut asking = ask("ws://relay", &us, &faucet.public_key(), "addr", 1);
    sent(&mut asking, 0);
    asking.step(CallEvent::Clock { at: 0 });
    let replies = vec![Reply { author: faucet.public_key(), content: "AAAA".to_string() }];
    assert_eq!(
        failure(asking.step(CallEvent::Fetched { replies })),
        CallError::NotOpened("unknown version: 0".to_string())
    );
}

#[test]
fn a_reply_that_is_not_json_fails() {
    let us = Keys::generate();
    let faucet = Keys::generate();
    let mut asking = ask("ws://relay", &us, &faucet.public_key(), "addr", 1);
    sent(&mut asking, 0);
    asking.step(CallEvent::Clock { at: 0 });
    let replies = vec![reply(&faucet, &us.public_key(), "sorry")];
    assert!(matches!(asking.step(CallEvent::Fetched { replies }), CallAction::Disconnect));
    assert_eq!(
        failure(asking.step(CallEvent::Closed)),
        CallError::NotJson("expected value at line 1 column 1".to_string())
    );
}

#[test]
fn a_relay_that_fails_ends_the_call() {
    let us = Keys::generate();
    let faucet = Keys::generate().public_key();
    let gone = || CallEvent::Failed { error: "gone".to_string() };
    let lost = || CallError::Relay("gone".to_string());
    let mut asking = ask("ws://relay", &us, &faucet, "addr", 1);
    asking.step(CallEvent::Begin);
    assert_eq!(failure(asking.step(gone())), lost());
    let mut asking = ask("ws://relay", &us, &faucet, "addr", 1);
    sent(&mut asking, 0);
    // The clock does not fail.
    assert_eq!(failure(asking.step(gone())), CallError::OutOfTurn);
    let mut asking = ask("ws://relay", &us, &faucet, "addr", 1);
    sent(&mut asking, 0);
    asking.step(CallEvent::Clock { at: 0 });
    assert_eq!(failure(asking.step(gone())), lost());
    assert_eq!(failure(asking.step(gone())), CallError::OutOfTurn);
}

#[test]
fn a_reply_that_is_there_survives_a_relay_that_fails() {
    let us = Keys::generate();
    let faucet = Keys::generate();
    let mut asking = ask("ws://relay", &us, &faucet.public_key(), "addr", 1);
    sent(&mut asking, 0);
    asking.step(CallEvent::Clock { at: 0 });
    let replies = vec![reply(&faucet, &us.public_key(), "{\"result\":7}")];
    assert!(matches!(asking.step(CallEvent::Fetched { replies }), CallAction::Disconnect));
    let gone = CallEvent::Failed { error: "gone".to_string() };
    let answer = finished(asking.step(gone)).ok().unwrap();
    assert!(matches!(answer.get("result"), Some(Json::Unsigned(7))));
}

#[test]
fn one_request_is_sent_in_a_run() {
    let us = Keys::generate();
    let faucet = Keys::generate();
    let mut asking = ask("ws://relay", &us, &faucet.public_key(), "addr", 1);
    let mut action = asking.step(CallEvent::Begin);
    let mut requests = vec![];
    let mut fetches = 0;
    let answer = loop {
        let next = match action {
            CallAction::Connect(_) => CallEvent::Connected { now: 0 },
            CallAction::Subscribe(_) => CallEvent::Subscribed,
            CallAction::Send(event) => {
                requests.push(event.id);
                CallEvent::Sent { at: 0 }
            }
            CallAction::ReadClock => CallEvent::Clock { at: fetches },
            CallAction::Fetch(query, _) => {
                assert_eq!(query.request, Some(requests[0]));
                fetches += 1;
                let replies = if fetches < 4 {
                    vec![]
                } else {
                    vec![
                        reply(&faucet, &us.public_key(), "1"),
                        reply(&faucet, &us.public_key(), "2"),
                    ]
                };
                CallEvent::Fetched { replies }
            }
            CallAction::Disconnect => CallEvent::Closed,
            CallAction::Finish(result) => break result,
        };
        action = asking.step(next);
    };
    assert_eq!(requests.len(), 1);
    assert!(matches!(answer, Ok(Json::Unsigned(1))));
}

#[test]
fn what_is_told_out_of_turn_fails() {
    let us = Keys::generate();
    let faucet = Keys::generate().public_key();
    let mut asking = ask("ws://relay", &us, &faucet, "addr", 1);
    assert_eq!(failure(asking.step(CallEvent::Subscribed)), CallError::OutOfTurn);
    assert_eq!(failure(asking.step(CallEvent::Begin)), CallError::OutOfTurn);
}

#[test]
fn errors_have_words() {
    assert_eq!(
        CallError::NoAnswer.message(),
        "no answer from the faucet in 30s — a faucet that is down and a faucet \
         that refused must not look the same, so this is a failure"
    );
    assert_eq!(CallError::Relay("gone".to_string()).message(), "gone");
    assert_eq!(CallError::NotSealed("too long".to_string()).message(), "too long");
    assert_eq!(CallError::NotOpened("invalid HMAC".to_string()).message(), "invalid HMAC");
    assert_eq!(CallError::NotJson("expected value".to_string()).message(), "expected value");
    assert_eq!(CallError::OutOfTurn.message(), "the call was told of something out of turn");
}

#[test]
fn a_refusal_is_the_message_of_the_error() {
    let read = |text: &str| refusal(&Json::parse(text).ok().unwrap());
    assert_eq!(read("{\"error\":{\"message\":\"over quota\"}}"), Some("over quota".to_string()));
    assert_eq!(read("{\"error\":{\"message\":\"\"}}"), Some(String::new()));
    assert_eq!(read("{\"error\":null}"), None);
    assert_eq!(read("{\"error\":{\"message\":1}}"), None);
    assert_eq!(read("{\"error\":{\"code\":\"X\"}}"), None);
    assert_eq!(read("{\"error\":\"message\"}"), None);
    assert_eq!(read("{\"result\":{\"message\":\"x\"}}"), None);
    assert_eq!(read("[]"), None);
}

#[test]
fn a_code_is_that_of_the_error() {
    let read = |text: &str| error_code(&Json::parse(text).ok().unwrap());
    assert_eq!(read("{\"error\":{\"code\":\"RESTRICTED\"}}"), Some("RESTRICTED".to_string()));
    assert_eq!(read("{\"error\":{\"code\":7}}"), None);
    assert_eq!(read("{\"code\":\"RESTRICTED\"}"), None);
    assert_eq!(read("{\"error\":null}"), None);
}
