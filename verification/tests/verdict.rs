use nostr_faucet_e2e::failure::{Failure, Reason};
use nostr_faucet_e2e::json::Json;
use nostr_faucet_e2e::verdict::{judge, resp_refusal, Check};

const PAID: &str = "{\"result\":{\"txid\":\"abc\"}}";

fn refused(code: &str, message: &str) -> String {
    format!("{{\"error\":{{\"code\":\"{}\",\"message\":\"{}\"}}}}", code, message)
}

fn judged(check: Check, reply: &str) -> Option<Failure> {
    judge(check, "btc.regtest", &Json::parse(reply).ok().unwrap())
}

fn met(check: Check, reply: &str) -> bool {
    judged(check, reply).is_none()
}

fn words(check: Check, reply: &str) -> String {
    judged(check, reply).unwrap().message()
}

#[test]
fn an_asker_is_paid() {
    assert!(met(Check::AskerPaid(1), PAID));
    assert_eq!(
        words(Check::AskerPaid(2), &refused("QUOTA_EXCEEDED", "the \\\"cap\\\"")),
        "asker 2 was refused: Some(\"the \\\"cap\\\"\")"
    );
}

#[test]
fn the_cap_refuses() {
    assert!(met(Check::CapRefuses, &refused("QUOTA_EXCEEDED", "over the total cap")));
    assert_eq!(
        words(Check::CapRefuses, PAID),
        "a key inside its own quota was paid past the total cap"
    );
    assert_eq!(
        words(Check::CapRefuses, &refused("QUOTA_EXCEEDED", "over the Total Cap")),
        "refused, but not by the cap: over the Total Cap"
    );
}

#[test]
fn a_lightning_method_is_refused() {
    assert!(met(Check::LightningRefused, &refused("NOT_IMPLEMENTED", "")));
    assert_eq!(
        words(Check::LightningRefused, PAID),
        "pay_invoice was not refused by an on-chain-only faucet"
    );
    assert_eq!(
        words(Check::LightningRefused, &refused("OTHER", "")),
        "refused as OTHER, expected NOT_IMPLEMENTED — the faucet implements \
         no Lightning method and its info event says so"
    );
}

#[test]
fn an_impostors_grant_is_ignored() {
    assert!(met(Check::ImpostorIgnored, &refused("UNAUTHORIZED", "")));
    assert_eq!(
        words(Check::ImpostorIgnored, PAID),
        "a grant signed by a non-owner took effect — dln-node#1"
    );
    assert_eq!(
        words(Check::ImpostorIgnored, &refused("QUOTA_EXCEEDED", "")),
        "refused as QUOTA_EXCEEDED, expected UNAUTHORIZED — anything else means the \
         impostor's grant authorized this key and something later refused it"
    );
    assert!(!met(Check::ImpostorIgnored, &refused("RESTRICTED", "")));
}

#[test]
fn an_empty_grant_revokes() {
    assert!(met(Check::Revoked, &refused("UNAUTHORIZED", "")));
    assert!(met(Check::Revoked, &refused("RESTRICTED", "")));
    assert_eq!(words(Check::Revoked, PAID), "an empty grant did not revoke");
    assert_eq!(
        words(Check::Revoked, &refused("QUOTA_EXCEEDED", "")),
        "refused as QUOTA_EXCEEDED — a revoked key must be refused for the revocation, \
         not by a limit that would have refused it anyway"
    );
}

#[test]
fn a_stranger_is_authorized() {
    assert!(met(Check::StrangerAuthorized, PAID));
    assert!(met(Check::StrangerAuthorized, &refused("QUOTA_EXCEEDED", "")));
    assert_eq!(
        words(Check::StrangerAuthorized, &refused("RESTRICTED", "")),
        "a key with no grant of its own was refused as RESTRICTED while an OTHERS \
         grant was in force — OTHERS is what makes the faucet open"
    );
}

#[test]
fn an_explicit_entry_beats_the_default() {
    assert!(met(Check::Denied, &refused("RESTRICTED", "")));
    assert!(met(Check::Denied, &refused("UNAUTHORIZED", "")));
    assert_eq!(
        words(Check::Denied, PAID),
        "a key with an explicit empty grant was let through by OTHERS \
         (refused as <paid>) — an explicit entry must beat the default, or \
         a deny-list is impossible on an open faucet"
    );
}

#[test]
fn a_rate_limits_the_second_request() {
    assert!(met(Check::RateNotYet, PAID));
    assert!(met(Check::RateNotYet, &refused("QUOTA_EXCEEDED", "")));
    assert_eq!(
        words(Check::RateNotYet, &refused("RATE_LIMITED", "")),
        "the first request of a one-per-window rate was already rate limited"
    );
    assert!(met(Check::RateLimits, &refused("RATE_LIMITED", "")));
    assert_eq!(
        words(Check::RateLimits, &refused("QUOTA_EXCEEDED", "")),
        "a second request inside a one-per-window `rate` was refused as \
         QUOTA_EXCEEDED — a grant that names `rate` must limit. Deserialising \
         it to no limit at all is dln-node#2"
    );
}

#[test]
fn the_first_coin_is_paid() {
    assert!(met(Check::FirstCoin, PAID));
    assert_eq!(
        words(Check::FirstCoin, &refused("OTHER", "empty")),
        "btc.regtest: the faucet refused a first request from a granted key: Some(\"empty\")"
    );
}

#[test]
fn the_second_coin_is_refused_for_the_quota() {
    assert!(met(Check::QuotaRefuses, &refused("QUOTA_EXCEEDED", "over your QUOTA")));
    assert_eq!(
        words(Check::QuotaRefuses, PAID),
        "btc.regtest: a second coin inside the window was paid — the quota is not enforced"
    );
    assert_eq!(
        words(Check::QuotaRefuses, &refused("OTHER", "empty")),
        "btc.regtest: refused, but not for the quota: empty"
    );
}

#[test]
fn the_faucet_lists_what_it_implements() {
    let listing = |methods: &str| format!("{{\"result\":{{\"methods\":{}}}}}", methods);
    assert!(met(Check::Methods, &listing("[\"get_balance\",\"get_info\",\"pay_onchain\"]")));
    // What is no text is passed over.
    assert!(met(Check::Methods, &listing("[1,\"get_balance\",null,\"get_info\",\"pay_onchain\"]")));
    assert_eq!(
        words(Check::Methods, &listing("[\"get_info\",\"get_balance\",\"pay_onchain\"]")),
        "btc.regtest: advertises [\"get_info\", \"get_balance\", \"pay_onchain\"]"
    );
    assert_eq!(words(Check::Methods, &listing("[]")), "btc.regtest: advertises []");
    assert!(!met(
        Check::Methods,
        &listing("[\"get_balance\",\"get_info\",\"pay_onchain\",\"pay_invoice\"]")
    ));
    assert_eq!(words(Check::Methods, &listing("\"all\"")), "methods is not an array");
    assert_eq!(words(Check::Methods, PAID), "get_info carries no methods");
}

#[test]
fn a_payment_is_no_refusal() {
    for check in [
        Check::CapRefuses,
        Check::LightningRefused,
        Check::ImpostorIgnored,
        Check::Revoked,
        Check::Denied,
        Check::RateLimits,
        Check::QuotaRefuses,
    ] {
        assert!(!met(check, PAID));
    }
    for check in [
        Check::AskerPaid(1),
        Check::FirstCoin,
        Check::StrangerAuthorized,
        Check::RateNotYet,
    ] {
        assert!(met(check, PAID));
    }
}

#[test]
fn a_reply_authorizes_or_denies() {
    for code in ["UNAUTHORIZED", "RESTRICTED", "QUOTA_EXCEEDED", "RATE_LIMITED"] {
        let reply = refused(code, "");
        assert_ne!(met(Check::StrangerAuthorized, &reply), met(Check::Denied, &reply));
        assert_ne!(met(Check::RateNotYet, &reply), met(Check::RateLimits, &reply));
    }
}

#[test]
fn a_missing_refusal_says_why() {
    let why = || Failure::bare(Reason::PaidPastCap, "limits.regtest");
    let reply = Json::parse(&refused("X", "no")).ok().unwrap();
    assert_eq!(resp_refusal(&reply, why()).ok().unwrap(), "no");
    let reply = Json::parse(PAID).ok().unwrap();
    assert_eq!(resp_refusal(&reply, why()).err().unwrap().reason, Reason::PaidPastCap);
}

#[test]
fn other_failures_have_words() {
    let seen = |reason: Reason, detail: &str| {
        Failure::seen(reason, "btk.regtest", detail.to_string()).message()
    };
    assert_eq!(seen(Reason::AddressRpc, "down"), "treasury getnewaddress: down");
    assert_eq!(seen(Reason::AddressNoText, ""), "getnewaddress did not return a string");
    assert_eq!(seen(Reason::BalanceRpc, "down"), "treasury getbalance: down");
    assert_eq!(seen(Reason::BalanceNoNumber, ""), "getbalance did not return a number");
    assert_eq!(seen(Reason::CallFailed, "invalid HMAC"), "invalid HMAC");
    assert_eq!(
        seen(Reason::OutOfTurn, ""),
        "the scenario was told of something out of turn"
    );
    let short = Failure {
        reason: Reason::TreasuryShort,
        label: "btc.regtest".to_string(),
        detail: "1".to_string(),
        later: "1.5".to_string(),
    };
    assert_eq!(
        short.message(),
        "btc.regtest: treasury went 1 -> 1.5, expected at least 1 coin more"
    );
}
