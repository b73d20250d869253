//! Why a scenario failed.

use crate::text;
use crate::text::{debug_text, decimal};
use vstd::prelude::*;
use vstd::string::*;

verus! {

/// The expectation that was not met.
#[derive(Clone, Copy, Debug, PartialEq, Eq, Structural)]
pub enum Reason {
    /// A granted asker was refused, the asker of this number.
    AskerRefused(u64),
    /// A key was paid past the total cap.
    PaidPastCap,
    /// A key was refused, but not by the total cap.
    NotByCap,
    /// A Lightning method was not refused.
    LightningNotRefused,
    /// A Lightning method was refused, but not as not implemented.
    LightningOtherwise,
    /// A grant that no owner signed took effect.
    ImpostorCounted,
    /// The key that an impostor granted was refused, but not as unauthorized.
    ImpostorOtherwise,
    /// An empty grant did not revoke.
    NotRevoked,
    /// A revoked key was refused, but not for the revocation.
    RevokedOtherwise,
    /// A key with no grant of its own was refused although others are granted.
    StrangerRefused,
    /// A key with an empty grant was let through because others are granted.
    DeniedLetThrough,
    /// A rate limited its first request.
    RateTooSoon,
    /// A rate did not limit.
    RateIgnored,
    /// A granted key was refused its first coin.
    FirstRefused,
    /// The treasury did not grow by a coin.
    TreasuryShort,
    /// A second coin was paid inside the window.
    QuotaIgnored,
    /// A second coin was refused, but not for the quota.
    NotForQuota,
    /// The faucet lists no methods.
    NoMethods,
    /// What the faucet gives as its methods is no list.
    MethodsNoList,
    /// The faucet lists other methods than it implements.
    WrongMethods,
    /// A faucet could not be started, or a grant not be published.
    NotDone,
    /// A call came to nothing.
    CallFailed,
    /// The treasury gave no address.
    AddressRpc,
    /// What the treasury gave as an address is no text.
    AddressNoText,
    /// The treasury gave no balance.
    BalanceRpc,
    /// What the treasury gave as a balance is no number.
    BalanceNoNumber,
    /// The scenario was told of something that it did not wait for.
    OutOfTurn,
}

/// Why a scenario failed: the expectation, the chain that it was about, and what
/// was seen instead.
pub struct Failure {
    pub reason: Reason,
    pub label: String,
    pub detail: String,
    /// What was seen after `detail`, where two things were.
    pub later: String,
}

/// A failure, with its texts as values.
pub struct FailureView {
    pub reason: Reason,
    pub label: Seq<char>,
    pub detail: Seq<char>,
    pub later: Seq<char>,
}

impl Failure {
    /// The failure, with its texts as values.
    pub open spec fn view(&self) -> FailureView {
        FailureView {
            reason: self.reason,
            label: self.label@,
            detail: self.detail@,
            later: self.later@,
        }
    }
}

/// What is said of a failure.
pub open spec fn failure_text(failure: FailureView) -> Seq<char> {
    match failure.reason {
        Reason::AskerRefused(asker) => "asker "@ + decimal(asker as nat)
            + " was refused: Some("@ + debug_text(failure.detail) + ")"@,
        Reason::PaidPastCap => "a key inside its own quota was paid past the total cap"@,
        Reason::NotByCap => "refused, but not by the cap: "@ + failure.detail,
        Reason::LightningNotRefused => "pay_invoice was not refused by an on-chain-only faucet"@,
        Reason::LightningOtherwise => "refused as "@ + failure.detail
            + ", expected NOT_IMPLEMENTED — the faucet implements no Lightning method and its info event says so"@,
        Reason::ImpostorCounted => "a grant signed by a non-owner took effect — dln-node#1"@,
        Reason::ImpostorOtherwise => "refused as "@ + failure.detail
            + ", expected UNAUTHORIZED — anything else means the impostor's grant authorized this key and something later refused it"@,
        Reason::NotRevoked => "an empty grant did not revoke"@,
        Reason::RevokedOtherwise => "refused as "@ + failure.detail
            + " — a revoked key must be refused for the revocation, not by a limit that would have refused it anyway"@,
        Reason::StrangerRefused => "a key with no grant of its own was refused as "@
            + failure.detail
            + " while an OTHERS grant was in force — OTHERS is what makes the faucet open"@,
        Reason::DeniedLetThrough => "a key with an explicit empty grant was let through by OTHERS (refused as "@
            + failure.detail
            + ") — an explicit entry must beat the default, or a deny-list is impossible on an open faucet"@,
        Reason::RateTooSoon => "the first request of a one-per-window rate was already rate limited"@,
        Reason::RateIgnored => "a second request inside a one-per-window `rate` was refused as "@
            + failure.detail
            + " — a grant that names `rate` must limit. Deserialising it to no limit at all is dln-node#2"@,
        Reason::FirstRefused => failure.label
            + ": the faucet refused a first request from a granted key: Some("@ + debug_text(
            failure.detail,
        ) + ")"@,
        Reason::TreasuryShort => failure.label + ": treasury went "@ + failure.detail + " -> "@
            + failure.later + ", expected at least 1 coin more"@,
        Reason::QuotaIgnored => failure.label
            + ": a second coin inside the window was paid — the quota is not enforced"@,
        Reason::NotForQuota => failure.label + ": refused, but not for the quota: "@
            + failure.detail,
        Reason::NoMethods => "get_info carries no methods"@,
        Reason::MethodsNoList => "methods is not an array"@,
        Reason::WrongMethods => failure.label + ": advertises "@ + failure.detail,
        Reason::NotDone => failure.detail,
        Reason::CallFailed => failure.detail,
        Reason::AddressRpc => "treasury getnewaddress: "@ + failure.detail,
        Reason::AddressNoText => "getnewaddress did not return a string"@,
        Reason::BalanceRpc => "treasury getbalance: "@ + failure.detail,
        Reason::BalanceNoNumber => "getbalance did not return a number"@,
        Reason::OutOfTurn => "the scenario was told of something out of turn"@,
    }
}

impl Failure {
    /// A failure with nothing more to say than its reason and its chain.
    pub fn bare(reason: Reason, label: &str) -> (r: Failure)
        ensures
            r@ == (FailureView {
                reason,
                label: label@,
                detail: Seq::empty(),
                later: Seq::empty(),
            }),
    {
        Failure { reason, label: label.to_owned(), detail: String::new(), later: String::new() }
    }

    /// A failure with what was seen instead.
    pub fn seen(reason: Reason, label: &str, detail: String) -> (r: Failure)
        ensures
            r@ == (FailureView { reason, label: label@, detail: detail@, later: Seq::empty() }),
    {
        Failure { reason, label: label.to_owned(), detail, later: String::new() }
    }

    /// The failure in words.
    pub fn message(&self) -> (r: String)
        ensures
            r@ == failure_text(self@),
    {
        let label = self.label.clone();
        let detail = self.detail.as_str();
        match self.reason {
            Reason::AskerRefused(asker) => "asker ".to_owned().concat(
                text::number(asker).as_str(),
            ).concat(" was refused: Some(").concat(text::quoted(detail).as_str()).concat(")"),
            Reason::PaidPastCap =>
                "a key inside its own quota was paid past the total cap".to_owned(),
            Reason::NotByCap => "refused, but not by the cap: ".to_owned().concat(detail),
            Reason::LightningNotRefused =>
                "pay_invoice was not refused by an on-chain-only faucet".to_owned(),
            Reason::LightningOtherwise => "refused as ".to_owned().concat(detail).concat(
                ", expected NOT_IMPLEMENTED — the faucet implements no Lightning method and its info event says so",
            ),
            Reason::ImpostorCounted =>
                "a grant signed by a non-owner took effect — dln-node#1".to_owned(),
            Reason::ImpostorOtherwise => "refused as ".to_owned().concat(detail).concat(
                ", expected UNAUTHORIZED — anything else means the impostor's grant authorized this key and something later refused it",
            ),
            Reason::NotRevoked => "an empty grant did not revoke".to_owned(),
            Reason::RevokedOtherwise => "refused as ".to_owned().concat(detail).concat(
                " — a revoked key must be refused for the revocation, not by a limit that would have refused it anyway",
            ),
            Reason::StrangerRefused =>
                "a key with no grant of its own was refused as ".to_owned().concat(detail).concat(
                " while an OTHERS grant was in force — OTHERS is what makes the faucet open",
            ),
            Reason::DeniedLetThrough =>
                "a key with an explicit empty grant was let through by OTHERS (refused as ".to_owned().concat(
                detail,
            ).concat(
                ") — an explicit entry must beat the default, or a deny-list is impossible on an open faucet",
            ),
            Reason::RateTooSoon =>
                "the first request of a one-per-window rate was already rate limited".to_owned(),
            Reason::RateIgnored =>
                "a second request inside a one-per-window `rate` was refused as ".to_owned().concat(
                detail,
            ).concat(
                " — a grant that names `rate` must limit. Deserialising it to no limit at all is dln-node#2",
            ),
            Reason::FirstRefused => label.concat(
                ": the faucet refused a first request from a granted key: Some(",
            ).concat(text::quoted(detail).as_str()).concat(")"),
            Reason::TreasuryShort => label.concat(": treasury went ").concat(detail).concat(
                " -> ",
            ).concat(self.later.as_str()).concat(", expected at least 1 coin more"),
            Reason::QuotaIgnored => label.concat(
                ": a second coin inside the window was paid — the quota is not enforced",
            ),
            Reason::NotForQuota => label.concat(": refused, but not for the quota: ").concat(
                detail,
            ),
            Reason::NoMethods => "get_info carries no methods".to_owned(),
            Reason::MethodsNoList => "methods is not an array".to_owned(),
            Reason::WrongMethods => label.concat(": advertises ").concat(detail),
            Reason::NotDone => self.detail.clone(),
            Reason::CallFailed => self.detail.clone(),
            Reason::AddressRpc => "treasury getnewaddress: ".to_owned().concat(detail),
            Reason::AddressNoText => "getnewaddress did not return a string".to_owned(),
            Reason::BalanceRpc => "treasury getbalance: ".to_owned().concat(detail),
            Reason::BalanceNoNumber => "getbalance did not return a number".to_owned(),
            Reason::OutOfTurn => "the scenario was told of something out of turn".to_owned(),
        }
    }
}

/// A failure in words: what was expected, with the chain and what was seen instead where it
/// matters.
pub proof fn law_failure_in_words(failure: Failure, words: String)
    requires
        call_ensures(Failure::message, (&failure,), words),
    ensures
        failure.reason matches Reason::AskerRefused(asker) ==> words@ == "asker "@ + decimal(asker as nat)
            + " was refused: Some("@ + debug_text(failure.detail@) + ")"@,
        failure.reason == Reason::PaidPastCap ==> words@ == "a key inside its own quota was paid past the total cap"@,
        failure.reason == Reason::NotByCap ==> words@ == "refused, but not by the cap: "@ + failure.detail@,
        failure.reason == Reason::LightningNotRefused ==> words@ == "pay_invoice was not refused by an on-chain-only faucet"@,
        failure.reason == Reason::LightningOtherwise ==> words@ == "refused as "@ + failure.detail@
            + ", expected NOT_IMPLEMENTED — the faucet implements no Lightning method and its info event says so"@,
        failure.reason == Reason::ImpostorCounted ==> words@ == "a grant signed by a non-owner took effect — dln-node#1"@,
        failure.reason == Reason::ImpostorOtherwise ==> words@ == "refused as "@ + failure.detail@
            + ", expected UNAUTHORIZED — anything else means the impostor's grant authorized this key and something later refused it"@,
        failure.reason == Reason::NotRevoked ==> words@ == "an empty grant did not revoke"@,
        failure.reason == Reason::RevokedOtherwise ==> words@ == "refused as "@ + failure.detail@
            + " — a revoked key must be refused for the revocation, not by a limit that would have refused it anyway"@,
        failure.reason == Reason::StrangerRefused ==> words@ == "a key with no grant of its own was refused as "@
            + failure.detail@
            + " while an OTHERS grant was in force — OTHERS is what makes the faucet open"@,
        failure.reason == Reason::DeniedLetThrough ==> words@ == "a key with an explicit empty grant was let through by OTHERS (refused as "@
            + failure.detail@
            + ") — an explicit entry must beat the default, or a deny-list is impossible on an open faucet"@,
        failure.reason == Reason::RateTooSoon ==> words@ == "the first request of a one-per-window rate was already rate limited"@,
        failure.reason == Reason::RateIgnored ==> words@ == "a second request inside a one-per-window `rate` was refused as "@
            + failure.detail@
            + " — a grant that names `rate` must limit. Deserialising it to no limit at all is dln-node#2"@,
        failure.reason == Reason::FirstRefused ==> words@ == failure.label@
            + ": the faucet refused a first request from a granted key: Some("@ + debug_text(
            failure.detail@,
        ) + ")"@,
        failure.reason == Reason::TreasuryShort ==> words@ == failure.label@ + ": treasury went "@ + failure.detail@ + " -> "@
            + failure.later@ + ", expected at least 1 coin more"@,
        failure.reason == Reason::QuotaIgnored ==> words@ == failure.label@
            + ": a second coin inside the window was paid — the quota is not enforced"@,
        failure.reason == Reason::NotForQuota ==> words@ == failure.label@ + ": refused, but not for the quota: "@
            + failure.detail@,
        failure.reason == Reason::NoMethods ==> words@ == "get_info carries no methods"@,
        failure.reason == Reason::MethodsNoList ==> words@ == "methods is not an array"@,
        failure.reason == Reason::WrongMethods ==> words@ == failure.label@ + ": advertises "@ + failure.detail@,
        failure.reason == Reason::NotDone ==> words@ == failure.detail@,
        failure.reason == Reason::CallFailed ==> words@ == failure.detail@,
        failure.reason == Reason::AddressRpc ==> words@ == "treasury getnewaddress: "@ + failure.detail@,
        failure.reason == Reason::AddressNoText ==> words@ == "getnewaddress did not return a string"@,
        failure.reason == Reason::BalanceRpc ==> words@ == "treasury getbalance: "@ + failure.detail@,
        failure.reason == Reason::BalanceNoNumber ==> words@ == "getbalance did not return a number"@,
        failure.reason == Reason::OutOfTurn ==> words@ == "the scenario was told of something out of turn"@,
{
}

/// A failure says no more than it was made of.
pub proof fn law_failure_is_made_of(
    reason: Reason,
    label: &str,
    detail: String,
    plain: Failure,
    detailed: Failure,
)
    requires
        call_ensures(Failure::bare, (reason, label), plain),
        call_ensures(Failure::seen, (reason, label, detail), detailed),
    ensures
        plain.reason == reason,
        plain.label@ == label@,
        plain.detail@.len() == 0,
        plain.later@.len() == 0,
        detailed.reason == reason,
        detailed.label@ == label@,
        detailed.detail@ == detail@,
        detailed.later@.len() == 0,
{
}

}
