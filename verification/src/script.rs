//! What a scenario is made of: acts, one after the other, each on one chain.

use crate::cast::Role;
use crate::failure::{Failure, FailureView, Reason};
use crate::grant;
use crate::grant::{
    lemma_open_profile, lemma_rated_profile, open_profile_text, rated_profile_text,
};
use crate::json::{json_text, Json, JsonTree};
use crate::nwc::{
    ask_params, asks_payment, call_error_text, lemma_asks_payment, request_tree, CallError,
    CallErrorView,
};
use crate::text::{decimal, law_decimal_injective};
use crate::verdict;
use crate::verdict::{bare, met, seen, shortfall, Check};
use vstd::prelude::*;

verus! {

/// Blocks that are mined in advance. It is past coinbase maturity, so the miner
/// has something spendable.
pub const PREMINE: u64 = 110;

/// One coin, in sats: what is asked for, each time.
pub const ONE_COIN_SAT: u64 = 100_000_000;

/// What the impostor grants, in sats.
pub const GREEDY_SAT: u64 = 10_000_000_000;

/// Seconds in which a rated grant allows one request.
pub const RATE_SECS: u64 = 600;

/// Whom a grant is for.
#[derive(Clone, Copy, Debug, PartialEq, Eq, Structural)]
pub enum Target {
    /// One who takes part.
    Key(Role),
    /// Any key with no grant of its own.
    Others,
}

/// What a grant allows.
#[derive(Clone, Copy, Debug, PartialEq, Eq, Structural)]
pub enum Profile {
    /// Every method, and one coin per window.
    OneCoin,
    /// Every method, and a hundred coins per second.
    Greedy,
    /// Nothing.
    Revocation,
    /// Payment on chain alone, once in [`RATE_SECS`], and one coin per window.
    Rated,
}

/// What a faucet is called for.
#[derive(Clone, Copy, Debug, PartialEq, Eq, Structural)]
pub enum Request {
    /// A coin, to the address that the treasury gave last.
    Coin,
    /// The payment of a Lightning invoice.
    Invoice,
    /// What the faucet implements.
    Info,
}

/// One act of a scenario.
#[derive(Clone, Copy, Debug, PartialEq, Eq, Structural)]
pub enum Act {
    /// The miner takes an address.
    NewAddress,
    /// The miner mines so much that something is spendable.
    Premine,
    /// The treasury's wallet is created.
    CreateTreasury,
    /// The faucet is started.
    Launch,
    /// A grant is published.
    Grant { by: Role, to: Target, profile: Profile },
    /// The treasury gives an address.
    TreasuryAddress,
    /// The faucet is called, and something is expected of its reply.
    Ask { by: Role, request: Request, check: Check },
    /// One block is mined, so that what was paid is confirmed.
    Mine,
    /// The treasury's balance is read, before a payment.
    Before,
    /// The treasury's balance is read, after a payment.
    After,
    /// The treasury is expected to have grown by one coin between the two.
    Grown,
}

/// An act, on the chain of this index.
#[derive(Clone, Copy, Debug, PartialEq, Eq, Structural)]
pub struct Step {
    pub chain: usize,
    pub act: Act,
}

/// An act, on the chain of this index.
pub open spec fn on(chain: usize, act: Act) -> Step {
    Step { chain, act }
}

/// The publication of a grant.
pub open spec fn grants(by: Role, to: Target, profile: Profile) -> Act {
    Act::Grant { by, to, profile }
}

/// A call of the faucet.
pub open spec fn calls(by: Role, request: Request, check: Check) -> Act {
    Act::Ask { by, request, check }
}

/// An act, on the chain of this index.
pub(crate) fn step(chain: usize, act: Act) -> (r: Step)
    ensures
        r == on(chain, act),
{
    Step { chain, act }
}

/// The publication of a grant, on the chain of this index.
pub(crate) fn grant_step(chain: usize, by: Role, to: Target, profile: Profile) -> (r: Step)
    ensures
        r == on(chain, grants(by, to, profile)),
{
    Step { chain, act: Act::Grant { by, to, profile } }
}

/// A call of the faucet, on the chain of this index.
pub(crate) fn ask_step(chain: usize, by: Role, request: Request, check: Check) -> (r: Step)
    ensures
        r == on(chain, calls(by, request, check)),
{
    Step { chain, act: Act::Ask { by, request, check } }
}

/// What came of an act.
pub enum Outcome {
    /// It was done.
    Done,
    /// It could not be done, as these words say.
    Failed(String),
    /// The miner's address.
    Address(String),
    /// What the wallet answered, or the error that it gave.
    Answered(Result<Json, String>),
    /// What the faucet replied, or why there is no reply.
    Called(Result<Json, CallError>),
    /// Whether the second balance is at least one coin more than the first, and the
    /// two as they are shown.
    Weighed { enough: bool, before: String, after: String },
}

/// What came of an act, with its texts and JSON as values.
pub enum OutcomeView {
    Done,
    Failed(Seq<char>),
    Address(Seq<char>),
    Answered(Result<JsonTree, Seq<char>>),
    Called(Result<JsonTree, CallErrorView>),
    Weighed { enough: bool, before: Seq<char>, after: Seq<char> },
}

impl Outcome {
    /// What came of an act, with its texts and JSON as values.
    pub open spec fn view(&self) -> OutcomeView {
        match self {
            Outcome::Done => OutcomeView::Done,
            Outcome::Failed(error) => OutcomeView::Failed(error@),
            Outcome::Address(address) => OutcomeView::Address(address@),
            Outcome::Answered(Ok(value)) => OutcomeView::Answered(Ok(value@)),
            Outcome::Answered(Err(error)) => OutcomeView::Answered(Err(error@)),
            Outcome::Called(Ok(reply)) => OutcomeView::Called(Ok(reply@)),
            Outcome::Called(Err(error)) => OutcomeView::Called(Err(error@)),
            Outcome::Weighed { enough, before, after } => OutcomeView::Weighed {
                enough: *enough,
                before: before@,
                after: after@,
            },
        }
    }
}

/// What the faucet replied, where it did.
pub open spec fn reply_in(outcome: OutcomeView) -> Option<JsonTree> {
    match outcome {
        OutcomeView::Called(Ok(reply)) => Some(reply),
        _ => None,
    }
}

/// The profile of a grant, as JSON, where a window has so many seconds.
pub open spec fn profile_text(profile: Profile, window_secs: u64) -> Seq<char> {
    match profile {
        Profile::OneCoin => open_profile_text(ONE_COIN_SAT as nat, window_secs as nat),
        Profile::Greedy => open_profile_text(GREEDY_SAT as nat, 1),
        Profile::Revocation => "{}"@,
        Profile::Rated => rated_profile_text(
            1,
            RATE_SECS as nat,
            ONE_COIN_SAT as nat,
            window_secs as nat,
        ),
    }
}

/// The method that a request calls.
pub open spec fn method_of(request: Request) -> Seq<char> {
    match request {
        Request::Coin => "pay_onchain"@,
        Request::Invoice => "pay_invoice"@,
        Request::Info => "get_info"@,
    }
}

/// What a request says besides its method, where the treasury's address is this.
pub open spec fn params_of(request: Request, treasury: Seq<char>) -> JsonTree {
    match request {
        Request::Coin => ask_params(treasury, ONE_COIN_SAT),
        Request::Invoice => JsonTree::Object(
            Map::<Seq<char>, JsonTree>::empty().insert(
                "invoice"@,
                JsonTree::Text("lnbcrt1p000000"@),
            ),
        ),
        Request::Info => JsonTree::Object(Map::empty()),
    }
}

/// What the wallet is asked for an address with: no label, and bech32 explicitly,
/// since not every node defaults to it.
pub open spec fn address_params() -> JsonTree {
    JsonTree::Array(seq![JsonTree::Text(""@), JsonTree::Text("bech32"@)])
}

/// Whether a value is a number.
pub open spec fn is_number(tree: JsonTree) -> bool {
    tree is Unsigned || tree is Number
}

/// Whether what came of an act is what was expected.
pub open spec fn meets(act: Act, outcome: OutcomeView) -> bool {
    match act {
        Act::NewAddress => outcome is Address,
        Act::Premine | Act::CreateTreasury | Act::Launch | Act::Grant { .. } | Act::Mine => outcome
            is Done,
        Act::TreasuryAddress => outcome matches OutcomeView::Answered(Ok(tree)) && tree is Text,
        Act::Ask { check, .. } => outcome matches OutcomeView::Called(Ok(reply)) && met(
            check,
            reply,
        ),
        Act::Before | Act::After => outcome matches OutcomeView::Answered(Ok(tree)) && is_number(
            tree,
        ),
        Act::Grown => outcome matches OutcomeView::Weighed { enough, .. } && enough,
    }
}

/// How an act fails, on the chain of this label, when what came of it is not what
/// was expected.
pub open spec fn failure_of(act: Act, label: Seq<char>, outcome: OutcomeView) -> FailureView {
    match (act, outcome) {
        (Act::Launch | Act::Grant { .. }, OutcomeView::Failed(error)) => seen(
            Reason::NotDone,
            label,
            error,
        ),
        (Act::TreasuryAddress, OutcomeView::Answered(Ok(_))) => bare(Reason::AddressNoText, label),
        (Act::TreasuryAddress, OutcomeView::Answered(Err(error))) => seen(
            Reason::AddressRpc,
            label,
            error,
        ),
        (Act::Ask { check, .. }, OutcomeView::Called(Ok(reply))) => shortfall(check, label, reply),
        (Act::Ask { .. }, OutcomeView::Called(Err(error))) => seen(
            Reason::CallFailed,
            label,
            call_error_text(error),
        ),
        (Act::Before | Act::After, OutcomeView::Answered(Ok(_))) => bare(
            Reason::BalanceNoNumber,
            label,
        ),
        (Act::Before | Act::After, OutcomeView::Answered(Err(error))) => seen(
            Reason::BalanceRpc,
            label,
            error,
        ),
        (Act::Grown, OutcomeView::Weighed { before, after, .. }) => FailureView {
            reason: Reason::TreasuryShort,
            label,
            detail: before,
            later: after,
        },
        _ => bare(Reason::OutOfTurn, label),
    }
}

/// One coin per window, as a grant, which is where all per-key policy lives.
pub fn one_coin_grant(window_secs: u64) -> (r: String)
    ensures
        r@ == profile_text(Profile::OneCoin, window_secs),
{
    grant::open_profile(ONE_COIN_SAT, window_secs)
}

/// The profile of a grant, as JSON.
pub fn write_profile(profile: Profile, window_secs: u64) -> (r: String)
    ensures
        r@ == profile_text(profile, window_secs),
{
    match profile {
        Profile::OneCoin => one_coin_grant(window_secs),
        Profile::Greedy => grant::open_profile(GREEDY_SAT, 1),
        Profile::Revocation => "{}".to_owned(),
        Profile::Rated => grant::rated_profile(1, RATE_SECS, ONE_COIN_SAT, window_secs),
    }
}

/// The address that the treasury's wallet answered with.
pub fn treasury_address(label: &str, answer: Result<Json, String>) -> (r: Result<String, Failure>)
    ensures
        r is Ok <==> meets(Act::TreasuryAddress, Outcome::Answered(answer)@),
        r matches Ok(address) ==> answer->Ok_0@ == JsonTree::Text(address@),
        r matches Err(failure) ==> failure@ == failure_of(
            Act::TreasuryAddress,
            label@,
            Outcome::Answered(answer)@,
        ),
{
    match answer {
        Ok(value) => match value.as_text() {
            Some(address) => Ok(address),
            None => Err(Failure::bare(Reason::AddressNoText, label)),
        },
        Err(error) => Err(Failure::seen(Reason::AddressRpc, label, error)),
    }
}

/// The balance that the treasury's wallet answered with, as the numeral of it.
pub fn treasury_balance(label: &str, answer: Result<Json, String>) -> (r: Result<String, Failure>)
    ensures
        r is Ok <==> meets(Act::Before, Outcome::Answered(answer)@),
        r matches Ok(numeral) ==> numeral@ == json_text(answer->Ok_0@),
        r matches Err(failure) ==> failure@ == failure_of(
            Act::Before,
            label@,
            Outcome::Answered(answer)@,
        ),
{
    match answer {
        Ok(value) => if value.is_number() {
            Ok(value.to_text())
        } else {
            Err(Failure::bare(Reason::BalanceNoNumber, label))
        },
        Err(error) => Err(Failure::seen(Reason::BalanceRpc, label, error)),
    }
}

/// Holds what came of a call to what is expected of the reply: `None`, or how it
/// fails.
pub fn called(check: Check, label: &str, reply: Result<Json, CallError>) -> (r: Option<Failure>)
    ensures
        r is None <==> (reply matches Ok(value) && met(check, value@)),
        r matches Some(failure) ==> failure@ == (match reply {
            Ok(value) => shortfall(check, label@, value@),
            Err(error) => seen(Reason::CallFailed, label@, call_error_text(error@)),
        }),
{
    match reply {
        Ok(value) => verdict::judge(check, label, &value),
        Err(error) => Some(Failure::seen(Reason::CallFailed, label, error.message())),
    }
}

proof fn lemma_amounts_in_decimal()
    ensures
        decimal(100_000_000) == "100000000"@,
        decimal(10_000_000_000) == "10000000000"@,
        decimal(1) == "1"@,
        decimal(600) == "600"@,
{
    reveal_with_fuel(decimal, 12);
    reveal_strlit("100000000");
    reveal_strlit("10000000000");
    reveal_strlit("1");
    reveal_strlit("600");
    assert(decimal(100_000_000) =~= "100000000"@);
    assert(decimal(10_000_000_000) =~= "10000000000"@);
    assert(decimal(1) =~= "1"@);
    assert(decimal(600) =~= "600"@);
}

proof fn lemma_one_coin_text(window_secs: u64)
    ensures
        profile_text(Profile::OneCoin, window_secs)
            == "{\"methods\":{\"OTHERS\":{}},\"quota\":{\"amount\":100000000,\"per_secs\":"@
            + decimal(window_secs as nat) + ",\"max_capacity\":100000000}}"@,
{
    lemma_amounts_in_decimal();
    lemma_open_profile(100_000_000, window_secs as nat);
    reveal_strlit("{\"methods\":{\"OTHERS\":{}},\"quota\":{\"amount\":100000000,\"per_secs\":");
    reveal_strlit("{\"methods\":{\"OTHERS\":{}},\"quota\":{\"amount\":");
    reveal_strlit("100000000");
    reveal_strlit(",\"per_secs\":");
    reveal_strlit(",\"max_capacity\":100000000}}");
    reveal_strlit(",\"max_capacity\":");
    reveal_strlit("}}");
    assert("{\"methods\":{\"OTHERS\":{}},\"quota\":{\"amount\":100000000,\"per_secs\":"@
        =~= "{\"methods\":{\"OTHERS\":{}},\"quota\":{\"amount\":"@ + "100000000"@
        + ",\"per_secs\":"@);
    assert(",\"max_capacity\":100000000}}"@ =~= ",\"max_capacity\":"@ + "100000000"@ + "}}"@);
    assert(profile_text(Profile::OneCoin, window_secs)
        =~= "{\"methods\":{\"OTHERS\":{}},\"quota\":{\"amount\":100000000,\"per_secs\":"@ + decimal(
        window_secs as nat,
    ) + ",\"max_capacity\":100000000}}"@);
}

/// A grant of one coin carries the window that it was given, whatever it is; grants for
/// different windows have different texts.
pub proof fn law_one_coin_grant_carries_its_window(
    window_secs: u64,
    r: String,
    other_secs: u64,
    other: String,
)
    requires
        call_ensures(one_coin_grant, (window_secs,), r),
        call_ensures(one_coin_grant, (other_secs,), other),
    ensures
        r@ == "{\"methods\":{\"OTHERS\":{}},\"quota\":{\"amount\":100000000,\"per_secs\":"@
            + decimal(window_secs as nat) + ",\"max_capacity\":100000000}}"@,
        window_secs != other_secs ==> r@ != other@,
{
    lemma_one_coin_text(window_secs);
    lemma_one_coin_text(other_secs);
    if r@ == other@ {
        let head = "{\"methods\":{\"OTHERS\":{}},\"quota\":{\"amount\":100000000,\"per_secs\":"@;
        let tail = ",\"max_capacity\":100000000}}"@;
        let a = decimal(window_secs as nat);
        let b = decimal(other_secs as nat);
        assert(r@.len() == head.len() + a.len() + tail.len());
        assert(other@.len() == head.len() + b.len() + tail.len());
        assert(r@.subrange(head.len() as int, (head.len() + a.len()) as int) =~= a);
        assert(other@.subrange(head.len() as int, (head.len() + b.len()) as int) =~= b);
        law_decimal_injective(window_secs as nat, other_secs as nat);
    }
}

/// What each profile says: one coin per window; a hundred coins per second; nothing; or payment
/// alone, once in six hundred seconds, and one coin per window.
pub proof fn law_profiles_spelled_out(profile: Profile, window_secs: u64, r: String)
    requires
        call_ensures(write_profile, (profile, window_secs), r),
    ensures
        r@ == profile_text(profile, window_secs),
        profile == Profile::OneCoin ==> r@
            == "{\"methods\":{\"OTHERS\":{}},\"quota\":{\"amount\":100000000,\"per_secs\":"@
            + decimal(window_secs as nat) + ",\"max_capacity\":100000000}}"@,
        profile == Profile::Greedy ==> r@ == "{\"methods\":{\"OTHERS\":{}},\"quota\":{\"amount\":"@
            + "10000000000"@ + ",\"per_secs\":"@ + "1"@ + ",\"max_capacity\":"@ + "10000000000"@
            + "}}"@,
        profile == Profile::Revocation ==> r@ == "{}"@,
        profile == Profile::Rated ==> r@
            == "{\"methods\":{\"pay_onchain\":{\"rate\":{\"amount\":"@ + "1"@ + ",\"per_secs\":"@
            + "600"@ + ",\"max_capacity\":"@ + "1"@ + "}}},\"quota\":{\"amount\":"@ + "100000000"@
            + ",\"per_secs\":"@ + decimal(window_secs as nat) + ",\"max_capacity\":"@
            + "100000000"@ + "}}"@,
{
    lemma_amounts_in_decimal();
    lemma_one_coin_text(window_secs);
    lemma_open_profile(10_000_000_000, 1);
    lemma_rated_profile(1, 600, 100_000_000, window_secs as nat);
}

/// What each request says: a coin is asked for by its address and a hundred million sats; an
/// invoice is asked to be paid by the invoice alone; and what the faucet can do, by nothing.
pub proof fn law_requests_spelled_out(treasury: Seq<char>)
    ensures
        asks_payment(
            request_tree(method_of(Request::Coin), params_of(Request::Coin, treasury)),
            treasury,
            100_000_000,
        ),
        method_of(Request::Invoice) == "pay_invoice"@,
        params_of(Request::Invoice, treasury) matches JsonTree::Object(params) && params.dom()
            == set!["invoice"@] && params["invoice"@] == JsonTree::Text("lnbcrt1p000000"@),
        method_of(Request::Info) == "get_info"@,
        params_of(Request::Info, treasury) matches JsonTree::Object(params) && params.dom()
            == Set::<Seq<char>>::empty(),
{
    lemma_asks_payment(treasury, 100_000_000);
    assert(params_of(Request::Invoice, treasury)->Object_0.dom() =~= set!["invoice"@]);
    assert(params_of(Request::Info, treasury)->Object_0.dom() =~= Set::<Seq<char>>::empty());
}

/// What is expected of each act, and how it fails otherwise: an act is met by what it was to
/// give, and by nothing else.
pub proof fn law_acts_are_met_or_fail(act: Act, label: Seq<char>, outcome: OutcomeView)
    ensures
        act == Act::NewAddress ==> (meets(act, outcome) <==> outcome is Address),
        act == Act::Premine || act == Act::CreateTreasury || act == Act::Launch || act == Act::Mine
            || act is Grant ==> (meets(act, outcome) <==> outcome is Done),
        act == Act::TreasuryAddress ==> (meets(act, outcome) <==> (outcome
            matches OutcomeView::Answered(Ok(JsonTree::Text(_))))),
        act == Act::Before || act == Act::After ==> (meets(act, outcome) <==> ((outcome
            matches OutcomeView::Answered(Ok(JsonTree::Unsigned(_)))) || (outcome
            matches OutcomeView::Answered(Ok(JsonTree::Number(_)))))),
        act == Act::Grown ==> (meets(act, outcome) <==> (outcome matches OutcomeView::Weighed {
            enough,
            ..
        } && enough)),
        act matches Act::Ask { check, .. } ==> (outcome matches OutcomeView::Called(Ok(reply)) ==> (
        meets(act, outcome) <==> met(check, reply)) && failure_of(act, label, outcome) == shortfall(
            check,
            label,
            reply,
        )),
        act is Ask && !(outcome is Called) ==> !meets(act, outcome),
        act is Ask ==> (outcome matches OutcomeView::Called(Err(error)) ==> !meets(act, outcome)
            && failure_of(act, label, outcome).reason == Reason::CallFailed && failure_of(
            act,
            label,
            outcome,
        ).detail == call_error_text(error)),
        act == Act::Launch || act is Grant ==> (outcome matches OutcomeView::Failed(words)
            ==> failure_of(act, label, outcome).reason == Reason::NotDone && failure_of(
            act,
            label,
            outcome,
        ).detail == words),
        act == Act::TreasuryAddress ==> (outcome matches OutcomeView::Answered(Err(words))
            ==> failure_of(act, label, outcome).reason == Reason::AddressRpc && failure_of(
            act,
            label,
            outcome,
        ).detail == words),
        act == Act::TreasuryAddress ==> (outcome matches OutcomeView::Answered(Ok(_)) ==> failure_of(
            act,
            label,
            outcome,
        ).reason == Reason::AddressNoText),
        act == Act::Before || act == Act::After ==> (outcome matches OutcomeView::Answered(
            Err(words),
        ) ==> failure_of(act, label, outcome).reason == Reason::BalanceRpc && failure_of(
            act,
            label,
            outcome,
        ).detail == words),
        act == Act::Before || act == Act::After ==> (outcome matches OutcomeView::Answered(Ok(_))
            ==> failure_of(act, label, outcome).reason == Reason::BalanceNoNumber),
        act == Act::Grown ==> (outcome matches OutcomeView::Weighed { before, after, .. }
            ==> failure_of(act, label, outcome).reason == Reason::TreasuryShort && failure_of(
            act,
            label,
            outcome,
        ).detail == before && failure_of(act, label, outcome).later == after),
        failure_of(act, label, outcome).label == label,
{
}

/// What the treasury answers is taken as it is: an address where it is a text, a balance where
/// it is a number.
pub proof fn law_treasury_answers_are_taken(
    label: &str,
    answer: Result<Json, String>,
    address: Result<String, Failure>,
    balance: Result<String, Failure>,
)
    requires
        call_ensures(treasury_address, (label, answer), address),
        call_ensures(treasury_balance, (label, answer), balance),
    ensures
        address is Ok <==> (answer matches Ok(value) && value@ is Text),
        address matches Ok(text) ==> answer->Ok_0@ == JsonTree::Text(text@),
        balance is Ok <==> (answer matches Ok(value) && (value@ is Unsigned || value@ is Number)),
        balance matches Ok(numeral) ==> numeral@ == json_text(answer->Ok_0@),
        answer matches Err(words) ==> (address matches Err(f) && f.reason == Reason::AddressRpc
            && f.label@ == label@ && f.detail@ == words@) && (balance matches Err(f) && f.reason
            == Reason::BalanceRpc && f.label@ == label@ && f.detail@ == words@),
        answer is Ok ==> (address matches Err(f) ==> f.reason == Reason::AddressNoText && f.label@
            == label@) && (balance matches Err(f) ==> f.reason == Reason::BalanceNoNumber && f.label@
            == label@),
{
}

/// Whether step `j` grants this to one who takes part, on a chain, and no step between `j` and
/// `i` grants them anything else there.
pub open spec fn grant_stands(
    script: Seq<Step>,
    j: int,
    i: int,
    chain: usize,
    by: Role,
    role: Role,
    profile: Profile,
) -> bool {
    &&& 0 <= j < i <= script.len()
    &&& script[j] == (Step { chain, act: Act::Grant { by, to: Target::Key(role), profile } })
    &&& forall|k: int|
        j < k < i ==> !((#[trigger] script[k]).chain == chain && (script[k].act matches Act::Grant {
            to,
            ..
        } && to == Target::Key(role)))
}

/// Whether a chain is set up in order: first the miner takes an address, mines in advance, the
/// treasury's wallet is created and the faucet is started; and each of these happens once.
pub open spec fn set_up(script: Seq<Step>, chain: usize, first: int) -> bool {
    &&& 0 <= first && first + 3 < script.len()
    &&& script[first] == (Step { chain, act: Act::NewAddress })
    &&& script[first + 1] == (Step { chain, act: Act::Premine })
    &&& script[first + 2] == (Step { chain, act: Act::CreateTreasury })
    &&& script[first + 3] == (Step { chain, act: Act::Launch })
    &&& forall|k: int|
        0 <= k < script.len() && (#[trigger] script[k]).chain == chain && !(first <= k <= first + 3)
            ==> k > first + 3 && script[k].act != Act::NewAddress && script[k].act != Act::Premine
            && script[k].act != Act::CreateTreasury && script[k].act != Act::Launch
}

}
