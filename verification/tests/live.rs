use nostr_faucet_e2e::json::Json;
use nostr_faucet_e2e::keys::Keys;
use nostr_faucet_e2e::live::{paid, Live, LiveAction, LiveError, LiveEvent, Setting};
use nostr_faucet_e2e::nwc::CallError;

fn some(text: &str) -> Result<String, String> {
    Ok(text.to_string())
}

fn unset() -> Result<String, String> {
    Err("environment variable not found".to_string())
}

fn asker() -> Live {
    let faucet = Keys::generate().public_key().to_hex();
    Live::new(some("ws://relay"), some(&faucet), some("bcrt1q"), None).ok().unwrap()
}

fn parsed(text: &str) -> Json {
    Json::parse(text).ok().unwrap()
}

fn error(action: LiveAction) -> LiveError {
    match action {
        LiveAction::Finish(Err(error)) => error,
        _ => panic!("no error"),
    }
}

/// An asker that has told what it is to be paid and waits for the reply.
fn asking() -> Live {
    let mut live = asker();
    assert!(matches!(live.step(LiveEvent::Begin), LiveAction::Call(_)));
    let info = parsed("{\"result\":{\"network\":\"signet\",\"methods\":[\"pay_onchain\"]}}");
    match live.step(LiveEvent::Called(Ok(info))) {
        LiveAction::Count { network, methods, amount } => {
            assert_eq!(network, "signet");
            assert_eq!(methods, "[\"pay_onchain\"]");
            assert_eq!(amount, "1");
        }
        _ => panic!("nothing is counted"),
    }
    let counted = live.step(LiveEvent::Counted(Ok(100_000_000)));
    assert!(matches!(counted, LiveAction::Call(_)));
    live
}

#[test]
fn a_transaction_id_comes_out() {
    let mut live = asking();
    let reply = parsed("{\"result\":{\"txid\":\"abc\"}}");
    let action = live.step(LiveEvent::Called(Ok(reply)));
    assert!(matches!(action, LiveAction::Finish(Ok(txid)) if txid == "abc"));
}

#[test]
fn a_faucet_may_say_little_of_itself() {
    let mut live = asker();
    live.step(LiveEvent::Begin);
    match live.step(LiveEvent::Called(Ok(parsed("{}")))) {
        LiveAction::Count { network, methods, .. } => {
            assert_eq!(network, "unknown");
            assert_eq!(methods, "none");
        }
        _ => panic!("nothing is counted"),
    }
}

#[test]
fn a_refusal_is_told() {
    let mut live = asking();
    let reply = parsed("{\"error\":{\"message\":\"over quota\"},\"result\":{\"txid\":\"abc\"}}");
    let refused = error(live.step(LiveEvent::Called(Ok(reply))));
    assert_eq!(refused.message(), "the faucet refused: over quota");
}

#[test]
fn an_answer_without_a_transaction_id_is_told() {
    let mut live = asking();
    let bare = error(live.step(LiveEvent::Called(Ok(parsed("{\"result\":{\"txid\":5}}")))));
    assert_eq!(bare.message(), "the faucet answered without a txid");
    assert!(matches!(paid(&parsed("{}")), Err(LiveError::NoTxid)));
}

#[test]
fn calls_that_come_to_nothing_are_told() {
    let mut live = asker();
    live.step(LiveEvent::Begin);
    let silent = error(live.step(LiveEvent::Called(Err(CallError::NoAnswer))));
    assert!(matches!(silent, LiveError::NoInfo(CallError::NoAnswer)));
    assert_eq!(
        silent.message(),
        "get_info failed — is the faucet running and on this relay?"
    );
    assert_eq!(silent.cause().unwrap(), CallError::NoAnswer.message());
    let mut live = asking();
    let silent = error(live.step(LiveEvent::Called(Err(CallError::NoAnswer))));
    assert!(matches!(silent, LiveError::NoReply(CallError::NoAnswer)));
    assert_eq!(silent.message(), CallError::NoAnswer.message());
    assert!(silent.cause().is_none());
}

#[test]
fn an_amount_must_be_a_number() {
    let mut live = asker();
    live.step(LiveEvent::Begin);
    live.step(LiveEvent::Called(Ok(parsed("{}"))));
    let odd = error(live.step(LiveEvent::Counted(Err("invalid float literal".to_string()))));
    assert_eq!(odd.message(), "amount is not a number");
    assert_eq!(odd.cause().unwrap(), "invalid float literal");
}

#[test]
fn nothing_is_asked_before_the_faucet_has_said_what_it_can_do() {
    let mut live = asker();
    let early = error(live.step(LiveEvent::Counted(Ok(1))));
    assert!(matches!(early, LiveError::NoReply(CallError::OutOfTurn)));
}

#[test]
fn settings_are_looked_for_in_order() {
    let key = Keys::generate().public_key().to_hex();
    let wrong = |relay: Result<String, String>,
                 faucet: Result<String, String>,
                 address: Result<String, String>| {
        Live::new(relay, faucet, address, None).err().unwrap()
    };
    let missing = wrong(unset(), unset(), unset());
    assert!(matches!(&missing, LiveError::Unset(Setting::Relay, _)));
    assert_eq!(missing.message(), "FAUCET_RELAY must be set — see the module docs");
    assert_eq!(missing.cause().unwrap(), "environment variable not found");
    let missing = wrong(some("ws://relay"), unset(), unset());
    assert_eq!(missing.message(), "FAUCET_PUBKEY must be set — see the module docs");
    let odd = wrong(some("ws://relay"), some("nobody"), unset());
    assert_eq!(odd.message(), "FAUCET_PUBKEY is not a key");
    assert_eq!(odd.cause().unwrap(), "Invalid public key");
    let missing = wrong(some("ws://relay"), some(&key), unset());
    assert_eq!(missing.message(), "DEST_ADDRESS must be set — see the module docs");
}

#[test]
fn one_who_asks_says_who_and_whom() {
    let faucet = Keys::generate().public_key();
    let mut live = Live::new(some("ws://relay"), some(&faucet.to_hex()), some("bcrt1q"), None)
        .ok()
        .unwrap();
    assert_eq!(live.faucet().bytes, faucet.bytes);
    let asker = live.asker();
    match live.step(LiveEvent::Begin) {
        LiveAction::Call(call) => assert_eq!(call.us().public_key().bytes, asker.bytes),
        _ => panic!("nothing is called"),
    }
}

#[test]
fn an_amount_can_be_set() {
    let faucet = Keys::generate().public_key().to_hex();
    let mut live =
        Live::new(some("ws://relay"), some(&faucet), some("bcrt1q"), Some("0.5".to_string())).ok().unwrap();
    live.step(LiveEvent::Begin);
    match live.step(LiveEvent::Called(Ok(parsed("{}")))) {
        LiveAction::Count { amount, .. } => assert_eq!(amount, "0.5"),
        _ => panic!("nothing is counted"),
    }
}
