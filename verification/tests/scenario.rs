use nostr_faucet_e2e::events::SignedEvent;
use nostr_faucet_e2e::failure::Reason;
use nostr_faucet_e2e::cast::Cast;
use nostr_faucet_e2e::funding::{faucet_funds_alice, funding_with};
use nostr_faucet_e2e::grant::{Publication, PublicationAction};
use nostr_faucet_e2e::json::Json;
use nostr_faucet_e2e::keys::Keys;
use nostr_faucet_e2e::limits::{faucet_limits, limits_with};
use nostr_faucet_e2e::nwc::{Call, CallAction, CallError, CallEvent};
use nostr_faucet_e2e::scenario::{Action, Node, Scenario};
use nostr_faucet_e2e::script::{one_coin_grant, Act, Outcome, Step};
use serde_json::Value;

const KIND: u16 = 31234;

fn node(rpc_port: u16) -> Node {
    Node { rpc_port, rpc_user: "user".to_string(), rpc_password: "pass".to_string() }
}

fn limits() -> Scenario {
    faucet_limits(KIND, "ws://relay", node(18443))
}

fn funding() -> Scenario {
    faucet_funds_alice(KIND, "ws://relay", node(18443), node(18444))
}

fn parsed(text: &str) -> Json {
    Json::parse(text).ok().unwrap()
}

fn refused(code: &str, message: &str) -> Outcome {
    Outcome::Called(Ok(parsed(&format!(
        "{{\"error\":{{\"code\":\"{}\",\"message\":\"{}\"}}}}",
        code, message
    ))))
}

fn paid() -> Outcome {
    Outcome::Called(Ok(parsed("{\"result\":{\"txid\":\"abc\"}}")))
}

fn listed() -> Outcome {
    Outcome::Called(Ok(parsed(
        "{\"result\":{\"methods\":[\"get_balance\",\"get_info\",\"pay_onchain\"]}}",
    )))
}

fn address(text: &str) -> Outcome {
    Outcome::Answered(Ok(Json::Text(text.to_string())))
}

fn balance(text: &str) -> Outcome {
    Outcome::Answered(Ok(parsed(text)))
}

fn weighed(enough: bool) -> Outcome {
    Outcome::Weighed { enough, before: "1".to_string(), after: "2".to_string() }
}

/// What lets the scenario of the limits pass, in order.
fn limits_outcomes() -> Vec<Outcome> {
    vec![
        Outcome::Address("miner".to_string()),
        Outcome::Done,
        Outcome::Done,
        Outcome::Done,
        Outcome::Done,
        address("t1"),
        paid(),
        Outcome::Done,
        Outcome::Done,
        address("t2"),
        paid(),
        Outcome::Done,
        Outcome::Done,
        address("t3"),
        refused("QUOTA_EXCEEDED", "over the total cap"),
        refused("NOT_IMPLEMENTED", "no Lightning"),
        Outcome::Done,
        address("t4"),
        refused("UNAUTHORIZED", "who are you"),
        Outcome::Done,
        Outcome::Done,
        address("t5"),
        refused("RESTRICTED", "revoked"),
        Outcome::Done,
        address("t6"),
        refused("QUOTA_EXCEEDED", "over the total cap"),
        refused("UNAUTHORIZED", "revoked"),
        Outcome::Done,
        refused("QUOTA_EXCEEDED", "over the total cap"),
        refused("RATE_LIMITED", "slow down"),
    ]
}

/// What lets the scenario of the funding pass, in order.
fn funding_outcomes() -> Vec<Outcome> {
    let mut all = vec![];
    for miner in ["m0", "m1"] {
        all.push(Outcome::Address(miner.to_string()));
        all.push(Outcome::Done);
        all.push(Outcome::Done);
        all.push(Outcome::Done);
        all.push(Outcome::Done);
    }
    for _ in 0..2 {
        all.push(balance("1.00000000"));
        all.push(address("t"));
        all.push(paid());
        all.push(Outcome::Done);
        all.push(balance("2.00000000"));
        all.push(weighed(true));
    }
    for _ in 0..2 {
        all.push(address("t"));
        all.push(refused("QUOTA_EXCEEDED", "Quota exceeded"));
    }
    all.push(listed());
    all.push(listed());
    all
}

/// Tells the scenario of each outcome, and returns what it did for each.
fn run(scenario: &mut Scenario, outcomes: Vec<Outcome>) -> Vec<Action> {
    let mut actions = vec![];
    for outcome in outcomes {
        match scenario.action() {
            Some(action) => actions.push(action),
            None => break,
        }
        scenario.tell(outcome);
    }
    actions
}

/// The reason why the scenario fails when the outcome of this index is another.
fn reason(mut scenario: Scenario, mut outcomes: Vec<Outcome>, index: usize, other: Outcome) -> Reason {
    outcomes[index] = other;
    let actions = run(&mut scenario, outcomes);
    assert_eq!(actions.len(), index + 1);
    assert!(scenario.action().is_none());
    scenario.failure().unwrap().reason
}

fn sent(publication: &mut Publication) -> SignedEvent {
    loop {
        match publication.next() {
            PublicationAction::Send(event) => return event,
            PublicationAction::Finished | PublicationAction::Failed(_) => {
                panic!("nothing was sent")
            }
            _ => {}
        }
    }
}

/// The request of a call, read with the secret key of the faucet.
fn request(call: &mut Call, faucet_secret: &str) -> Value {
    call.step(CallEvent::Begin);
    call.step(CallEvent::Connected { now: 0 });
    let event = match call.step(CallEvent::Subscribed) {
        CallAction::Send(event) => event,
        _ => panic!("nothing was sent"),
    };
    let keys = nostr_sdk::Keys::parse(faucet_secret).unwrap();
    let author = nostr_sdk::PublicKey::from_byte_array(event.author.bytes);
    let plain =
        nostr_sdk::nips::nip44::decrypt(keys.secret_key(), &author, &event.content).unwrap();
    serde_json::from_str(&plain).unwrap()
}

/// The value of a line `key = "value"` of a config file.
fn setting(config: &str, key: &str) -> String {
    let start = format!("{} = \"", key);
    let line = config.lines().find(|line| line.starts_with(&start)).unwrap();
    line[start.len()..line.len() - 1].to_string()
}

#[test]
fn the_limits_pass_where_every_expectation_is_met() {
    let mut scenario = limits();
    let actions = run(&mut scenario, limits_outcomes());
    assert_eq!(actions.len(), 30);
    assert!(scenario.action().is_none());
    assert!(scenario.failure().is_none());
}

#[test]
fn the_funding_passes_where_every_expectation_is_met() {
    let mut scenario = funding();
    let actions = run(&mut scenario, funding_outcomes());
    assert_eq!(actions.len(), 28);
    assert!(scenario.action().is_none());
    assert!(scenario.failure().is_none());
}

#[test]
fn the_limits_set_up_one_chain() {
    let mut scenario = limits();
    let actions = run(&mut scenario, limits_outcomes());
    assert!(matches!(&actions[0], Action::NewAddress { chain: 0 }));
    assert!(
        matches!(&actions[1], Action::Mine { chain: 0, blocks: 110, to } if to == "miner")
    );
    assert!(matches!(&actions[2], Action::CreateWallet { chain: 0, name } if name == "treasury"));
    match &actions[3] {
        Action::Launch { chain: 0, launch } => {
            assert!(launch.directory.is_none());
            assert_eq!(launch.file, "faucet.toml");
            assert_eq!(launch.name, "faucet");
            assert_eq!(launch.wait_secs, 3);
            assert_eq!(setting(&launch.config, "relay"), "ws://relay");
            assert_eq!(setting(&launch.config, "rpc_user"), "user");
            assert_eq!(setting(&launch.config, "rpc_password"), "pass");
            assert_eq!(setting(&launch.config, "chain_label"), "limits.regtest");
            assert!(launch.config.contains("\nrpc_port = 18443\n"));
            assert!(launch.config.contains("\namount = 200000000\nper_secs = 120\n"));
        }
        _ => panic!("the faucet is not started"),
    }
    assert!(matches!(&actions[7], Action::Mine { chain: 0, blocks: 1, to } if to == "miner"));
}

#[test]
fn the_limits_grant_and_ask() {
    let mut scenario = limits();
    let mut actions = run(&mut scenario, limits_outcomes());
    let config = match &actions[3] {
        Action::Launch { launch, .. } => launch.config.clone(),
        _ => panic!("the faucet is not started"),
    };
    let secret = setting(&config, "secret_key");
    let faucet = nostr_sdk::Keys::parse(&secret).unwrap().public_key().to_hex();

    let mut authors = vec![];
    let mut tags = vec![];
    let mut profiles = vec![];
    for index in [4, 8, 12, 16, 19, 20, 23, 27] {
        match &mut actions[index] {
            Action::Publish(publication) => {
                let event = sent(publication);
                assert_eq!(event.kind, KIND);
                assert_eq!(event.tags[1][1], faucet);
                authors.push(event.author.to_hex());
                tags.push(event.tags[0][1].clone());
                profiles.push(event.content);
            }
            _ => panic!("no grant is published"),
        }
    }
    // All but the impostor's are of the one owner whom the config names.
    assert!(config.contains(&format!("owners = [\"{}\"]", authors[0])));
    for index in [1, 2, 4, 5, 6, 7] {
        assert_eq!(authors[index], authors[0]);
    }
    assert_ne!(authors[3], authors[0]);
    assert_eq!(profiles[0], one_coin_grant(120));
    assert_eq!(
        profiles[3],
        r#"{"methods":{"OTHERS":{}},"quota":{"amount":10000000000,"per_secs":1,"max_capacity":10000000000}}"#
    );
    assert_eq!(profiles[5], "{}");
    assert_eq!(tags[4], tags[5]);
    assert_eq!(tags[6], format!("{}:OTHERS", faucet));
    assert_eq!(
        profiles[7],
        r#"{"methods":{"pay_onchain":{"rate":{"amount":1,"per_secs":600,"max_capacity":1}}},"quota":{"amount":100000000,"per_secs":120,"max_capacity":100000000}}"#
    );

    // Each ask goes to the address that the treasury gave last.
    for (index, to) in [(6, "t1"), (10, "t2"), (14, "t3"), (18, "t4"), (22, "t5"), (25, "t6"), (26, "t6"), (28, "t6"), (29, "t6")] {
        match &mut actions[index] {
            Action::Call(call) => {
                let asked = request(call, &secret);
                assert_eq!(asked["method"], Value::from("pay_onchain"));
                assert_eq!(asked["params"]["address"], Value::from(to));
                assert_eq!(asked["params"]["amount_sats"], Value::from(100_000_000u64));
            }
            _ => panic!("nothing is asked"),
        }
    }
    match &mut actions[15] {
        Action::Call(call) => {
            let asked = request(call, &secret);
            assert_eq!(asked["method"], Value::from("pay_invoice"));
            assert_eq!(asked["params"]["invoice"], Value::from("lnbcrt1p000000"));
        }
        _ => panic!("nothing is asked"),
    }
}

#[test]
fn the_same_asker_asks_twice() {
    let mut scenario = limits();
    let actions = run(&mut scenario, limits_outcomes());
    let keys = |index: usize| match &actions[index] {
        Action::Call(call) => call.us().to_secret_hex(),
        _ => panic!("nothing is asked"),
    };
    assert_eq!(keys(14), keys(15));
    assert_eq!(keys(22), keys(26));
    assert_eq!(keys(28), keys(29));
    let askers = [keys(6), keys(10), keys(14), keys(18), keys(22), keys(25), keys(28)];
    for i in 0..askers.len() {
        for j in 0..i {
            assert_ne!(askers[i], askers[j]);
        }
    }
}

#[test]
fn the_treasury_is_asked_for_an_address() {
    let mut scenario = limits();
    let actions = run(&mut scenario, limits_outcomes());
    match &actions[5] {
        Action::Rpc { chain: 0, wallet, method, params } => {
            assert_eq!(wallet, "treasury");
            assert_eq!(method, "getnewaddress");
            assert_eq!(params.to_text(), "[\"\",\"bech32\"]");
        }
        _ => panic!("no address is asked for"),
    }
}

#[test]
fn the_funding_sets_up_two_chains() {
    let mut scenario = funding();
    let actions = run(&mut scenario, funding_outcomes());
    let launch = |index: usize| match &actions[index] {
        Action::Launch { launch, .. } => launch,
        _ => panic!("the faucet is not started"),
    };
    assert_eq!(launch(3).directory.as_deref(), Some("btc.regtest"));
    assert_eq!(launch(3).name, "btc.regtest-faucet");
    assert_eq!(launch(8).directory.as_deref(), Some("btk.regtest"));
    assert_eq!(launch(8).name, "btk.regtest-faucet");
    assert!(launch(3).config.contains("\nrpc_port = 18443\n"));
    assert!(launch(8).config.contains("\nrpc_port = 18444\n"));
    assert!(launch(8).config.contains("\namount = 500000000\nper_secs = 30\n"));
    assert_ne!(
        setting(&launch(3).config, "secret_key"),
        setting(&launch(8).config, "secret_key")
    );
    assert!(matches!(&actions[6], Action::Mine { chain: 1, blocks: 110, to } if to == "m1"));
    assert!(matches!(&actions[19], Action::Mine { chain: 1, blocks: 1, to } if to == "m1"));
}

#[test]
fn the_funding_weighs_the_treasury() {
    let mut scenario = funding();
    let mut actions = run(&mut scenario, funding_outcomes());
    match &actions[10] {
        Action::Rpc { chain: 0, wallet, method, params } => {
            assert_eq!(wallet, "treasury");
            assert_eq!(method, "getbalance");
            assert_eq!(params.to_text(), "[]");
        }
        _ => panic!("no balance is read"),
    }
    match &actions[15] {
        Action::Weigh { chain: 0, before, after } => {
            assert_eq!(before, "1.0");
            assert_eq!(after, "2.0");
        }
        _ => panic!("nothing is weighed"),
    }
    let secret = match &actions[8] {
        Action::Launch { launch, .. } => setting(&launch.config, "secret_key"),
        _ => panic!("the faucet is not started"),
    };
    match &mut actions[27] {
        Action::Call(call) => {
            let asked = request(call, &secret);
            assert_eq!(asked["method"], Value::from("get_info"));
            assert_eq!(asked["params"].to_string(), "{}");
        }
        _ => panic!("nothing is asked"),
    }
}

#[test]
fn the_limits_fail_for_the_first_expectation_that_is_not_met() {
    let fails = |index: usize, other: Outcome| reason(limits(), limits_outcomes(), index, other);
    assert_eq!(fails(6, refused("X", "no")), Reason::AskerRefused(1));
    assert_eq!(fails(10, refused("X", "no")), Reason::AskerRefused(2));
    assert_eq!(fails(14, paid()), Reason::PaidPastCap);
    assert_eq!(fails(14, refused("X", "over quota")), Reason::NotByCap);
    assert_eq!(fails(15, paid()), Reason::LightningNotRefused);
    assert_eq!(fails(15, refused("X", "no")), Reason::LightningOtherwise);
    assert_eq!(fails(18, paid()), Reason::ImpostorCounted);
    assert_eq!(fails(18, refused("QUOTA_EXCEEDED", "no")), Reason::ImpostorOtherwise);
    assert_eq!(fails(22, paid()), Reason::NotRevoked);
    assert_eq!(fails(22, refused("QUOTA_EXCEEDED", "no")), Reason::RevokedOtherwise);
    assert_eq!(fails(25, refused("UNAUTHORIZED", "no")), Reason::StrangerRefused);
    assert_eq!(fails(26, paid()), Reason::DeniedLetThrough);
    assert_eq!(fails(28, refused("RATE_LIMITED", "no")), Reason::RateTooSoon);
    assert_eq!(fails(29, paid()), Reason::RateIgnored);
}

#[test]
fn the_funding_fails_for_the_first_expectation_that_is_not_met() {
    let fails = |index: usize, other: Outcome| reason(funding(), funding_outcomes(), index, other);
    assert_eq!(fails(12, refused("X", "no")), Reason::FirstRefused);
    assert_eq!(fails(15, weighed(false)), Reason::TreasuryShort);
    assert_eq!(fails(23, paid()), Reason::QuotaIgnored);
    assert_eq!(fails(25, refused("X", "no")), Reason::NotForQuota);
    assert_eq!(fails(26, paid()), Reason::NoMethods);
    let text = Outcome::Called(Ok(parsed("{\"result\":{\"methods\":\"all\"}}")));
    assert_eq!(fails(26, text), Reason::MethodsNoList);
    let none = Outcome::Called(Ok(parsed("{\"result\":{\"methods\":[]}}")));
    assert_eq!(fails(27, none), Reason::WrongMethods);
}

#[test]
fn what_goes_wrong_on_the_way_fails_too() {
    let fails = |index: usize, other: Outcome| reason(funding(), funding_outcomes(), index, other);
    let down = || Outcome::Answered(Err("down".to_string()));
    assert_eq!(fails(10, down()), Reason::BalanceRpc);
    assert_eq!(fails(10, address("1")), Reason::BalanceNoNumber);
    assert_eq!(fails(11, down()), Reason::AddressRpc);
    assert_eq!(fails(11, balance("1")), Reason::AddressNoText);
    assert_eq!(fails(14, down()), Reason::BalanceRpc);
    let silent = Outcome::Called(Err(CallError::NoAnswer));
    assert_eq!(fails(12, silent), Reason::CallFailed);
    let failed = || Outcome::Failed("no such file".to_string());
    assert_eq!(fails(3, failed()), Reason::NotDone);
    assert_eq!(fails(4, failed()), Reason::NotDone);
    assert_eq!(fails(1, failed()), Reason::OutOfTurn);
    assert_eq!(fails(0, Outcome::Done), Reason::OutOfTurn);
    assert_eq!(fails(1, paid()), Reason::OutOfTurn);
    assert_eq!(fails(15, Outcome::Done), Reason::OutOfTurn);
}

#[test]
fn a_failure_names_the_chain_and_what_was_seen() {
    let mut outcomes = funding_outcomes();
    outcomes[21] = Outcome::Weighed {
        enough: false,
        before: "1".to_string(),
        after: "1.5".to_string(),
    };
    let mut scenario = funding();
    run(&mut scenario, outcomes);
    assert_eq!(
        scenario.failure().unwrap().message(),
        "btk.regtest: treasury went 1 -> 1.5, expected at least 1 coin more"
    );
}

#[test]
fn a_call_that_came_to_nothing_is_told_in_its_own_words() {
    let mut outcomes = limits_outcomes();
    outcomes[6] = Outcome::Called(Err(CallError::NotOpened("invalid HMAC".to_string())));
    let mut scenario = limits();
    run(&mut scenario, outcomes);
    assert_eq!(scenario.failure().unwrap().message(), "invalid HMAC");
}

#[test]
fn a_scenario_tells_where_it_stands() {
    let mut scenario = funding();
    assert_eq!(scenario.done(), 0);
    let outcomes: Vec<Outcome> = funding_outcomes().into_iter().take(21).collect();
    run(&mut scenario, outcomes);
    assert_eq!(scenario.done(), 21);
    let (step, label) = scenario.step().unwrap();
    assert!(step == Step { chain: 1, act: Act::Grown });
    assert_eq!(label, "btk.regtest");
    scenario.tell(weighed(false));
    assert_eq!(scenario.done(), 21);
    assert!(scenario.step().is_none());
}

#[test]
fn the_owner_of_the_cast_is_in_the_config() {
    let mut scenario = limits();
    let owner = scenario.cast().owner.public_key().to_hex();
    let actions = run(&mut scenario, limits_outcomes());
    match &actions[3] {
        Action::Launch { launch, .. } => {
            assert!(launch.config.contains(&format!("owners = [\"{}\"]", owner)));
        }
        _ => panic!("the faucet is not started"),
    }
}

#[test]
fn what_could_not_be_done_is_told_in_its_own_words() {
    let mut outcomes = limits_outcomes();
    outcomes[4] = Outcome::Failed("relay not connected".to_string());
    let mut scenario = limits();
    run(&mut scenario, outcomes);
    assert_eq!(scenario.failure().unwrap().message(), "relay not connected");
}

#[test]
fn the_faucets_have_the_keys_that_they_were_given() {
    let (core, knots) = (Keys::generate(), Keys::generate());
    let cast = Cast::generate();
    let mut scenario =
        funding_with(KIND, "ws://relay", node(1), node(2), cast, core, knots);
    let owner = format!("owners = [\"{}\"]", cast.owner.public_key().to_hex());
    let actions = run(&mut scenario, funding_outcomes());
    let mut directories = vec![];
    for (index, keys) in [(3, core), (8, knots)] {
        match &actions[index] {
            Action::Launch { launch, .. } => {
                assert_eq!(setting(&launch.config, "secret_key"), keys.to_secret_hex());
                assert_eq!(launch.config.lines().nth(4).unwrap(), owner);
                directories.push(launch.directory.clone());
            }
            _ => panic!("the faucet is not started"),
        }
    }
    assert_ne!(directories[0], directories[1]);
}

#[test]
fn the_parties_are_those_that_were_given() {
    let cast = Cast::generate();
    let faucet = Keys::generate();
    let mut scenario = limits_with(KIND, "ws://relay", node(1), cast, faucet);
    let mut actions = run(&mut scenario, limits_outcomes());
    match &actions[3] {
        Action::Launch { launch, .. } => {
            assert_eq!(setting(&launch.config, "secret_key"), faucet.to_secret_hex());
        }
        _ => panic!("the faucet is not started"),
    }
    match &mut actions[16] {
        Action::Publish(publication) => {
            let author = sent(publication).author;
            assert_eq!(author.bytes, cast.impostor.public_key().bytes);
            assert_ne!(author.bytes, cast.owner.public_key().bytes);
        }
        _ => panic!("no grant is published"),
    }
    match &actions[18] {
        Action::Call(call) => {
            assert_eq!(call.us().to_secret_hex(), cast.victim.to_secret_hex());
        }
        _ => panic!("nothing is asked"),
    }
}

#[test]
fn a_failure_stays() {
    let mut scenario = limits();
    scenario.tell(Outcome::Done);
    assert_eq!(scenario.failure().unwrap().reason, Reason::OutOfTurn);
    scenario.tell(Outcome::Address("miner".to_string()));
    assert!(scenario.action().is_none());
    assert_eq!(scenario.failure().unwrap().reason, Reason::OutOfTurn);
}

#[test]
fn a_scenario_that_has_passed_stays_so() {
    let mut scenario = limits();
    run(&mut scenario, limits_outcomes());
    scenario.tell(Outcome::Address("miner".to_string()));
    assert!(scenario.action().is_none());
    assert!(scenario.failure().is_none());
}
