//! Alice asks two faucets, on two chains, for a coin each, and gets both.
//!
//! A faucet pays a granted key and the coin arrives; a second coin inside the window is
//! refused, with a reason; and each faucet advertises exactly what it implements.

use crate::binary;
use crate::binary::{binary_path, build_error, Build, BuildError};
use crate::cast::{Cast, Role};
use crate::config::{law_config_lines, owner_line, plain, text_line};
use crate::json::{json_text, JsonTree};
use crate::keys::{hex_text, is_secret, law_hex_injective, Keys};
use crate::nwc::{ask_params, refusal_of, request_tree};
use crate::scenario::{
    at_step, does, fresh, is_chain, law_passes_where_all_is_met, law_scenario_keeps_its_terms,
    lemma_stands_at, met_so_far, placed, ran, settings_of, Action, Launch, Node, Scenario,
    ScenarioView, Terms,
};
use crate::script;
use crate::script::{
    calls, grant_stands, grants, is_number, meets, on, reply_in, set_up, Act, OutcomeView, Profile,
    Request, Step, Target, ONE_COIN_SAT,
};
use crate::text::{contains_text, lines, lowercase, occurs_at};
use crate::verdict::{implemented, methods_of, text_items, Check};
use vstd::prelude::*;

verus! {

/// Seconds in a window. Not a week: a policy of one coin a week cannot be tried against
/// real time.
pub const WINDOW_SECS: u64 = 30;

/// Five coins, which no asker here comes near.
pub const TOTAL_CAP_SAT: u64 = 500_000_000;

/// The scenario, step by step.
pub open spec fn funding_script() -> Seq<Step> {
    seq![
        // Two chains, each with a funded miner, a treasury and a faucet that grants Alice a coin.
        on(0, Act::NewAddress),
        on(0, Act::Premine),
        on(0, Act::CreateTreasury),
        on(0, Act::Launch),
        on(0, grants(Role::Owner, Target::Key(Role::Alice), Profile::OneCoin)),
        on(1, Act::NewAddress),
        on(1, Act::Premine),
        on(1, Act::CreateTreasury),
        on(1, Act::Launch),
        on(1, grants(Role::Owner, Target::Key(Role::Alice), Profile::OneCoin)),
        // Alice asks each faucet for one coin.
        on(0, Act::Before),
        on(0, Act::TreasuryAddress),
        on(0, calls(Role::Alice, Request::Coin, Check::FirstCoin)),
        on(0, Act::Mine),
        on(0, Act::After),
        on(0, Act::Grown),
        on(1, Act::Before),
        on(1, Act::TreasuryAddress),
        on(1, calls(Role::Alice, Request::Coin, Check::FirstCoin)),
        on(1, Act::Mine),
        on(1, Act::After),
        on(1, Act::Grown),
        // A second coin inside the window is refused.
        on(0, Act::TreasuryAddress),
        on(0, calls(Role::Alice, Request::Coin, Check::QuotaRefuses)),
        on(1, Act::TreasuryAddress),
        on(1, calls(Role::Alice, Request::Coin, Check::QuotaRefuses)),
        // Each faucet advertises what it implements.
        on(0, calls(Role::Alice, Request::Info, Check::Methods)),
        on(1, calls(Role::Alice, Request::Info, Check::Methods)),
    ]
}

/// What holds throughout the scenario.
pub open spec fn funding_terms() -> Terms {
    Terms { window_secs: WINDOW_SECS, total_cap_sats: TOTAL_CAP_SAT, own_directory: true }
}

/// Whether this is the scenario, not begun yet.
pub open spec fn is_funding(s: ScenarioView) -> bool {
    &&& fresh(s)
    &&& s.script == funding_script()
    &&& s.terms == funding_terms()
    &&& s.chains.len() == 2
    &&& s.chains[0].label == "btc.regtest"@
    &&& s.chains[1].label == "btk.regtest"@
}

fn write_script() -> (r: Vec<Step>)
    ensures
        r@ == funding_script(),
{
    let steps = vec![
        script::step(0, Act::NewAddress),
        script::step(0, Act::Premine),
        script::step(0, Act::CreateTreasury),
        script::step(0, Act::Launch),
        script::grant_step(0, Role::Owner, Target::Key(Role::Alice), Profile::OneCoin),
        script::step(1, Act::NewAddress),
        script::step(1, Act::Premine),
        script::step(1, Act::CreateTreasury),
        script::step(1, Act::Launch),
        script::grant_step(1, Role::Owner, Target::Key(Role::Alice), Profile::OneCoin),
        script::step(0, Act::Before),
        script::step(0, Act::TreasuryAddress),
        script::ask_step(0, Role::Alice, Request::Coin, Check::FirstCoin),
        script::step(0, Act::Mine),
        script::step(0, Act::After),
        script::step(0, Act::Grown),
        script::step(1, Act::Before),
        script::step(1, Act::TreasuryAddress),
        script::ask_step(1, Role::Alice, Request::Coin, Check::FirstCoin),
        script::step(1, Act::Mine),
        script::step(1, Act::After),
        script::step(1, Act::Grown),
        script::step(0, Act::TreasuryAddress),
        script::ask_step(0, Role::Alice, Request::Coin, Check::QuotaRefuses),
        script::step(1, Act::TreasuryAddress),
        script::ask_step(1, Role::Alice, Request::Coin, Check::QuotaRefuses),
        script::ask_step(0, Role::Alice, Request::Info, Check::Methods),
        script::ask_step(1, Role::Alice, Request::Info, Check::Methods),
    ];
    proof {
        assert(steps@ =~= funding_script());
    }
    steps
}

proof fn lemma_placed(s: ScenarioView)
    requires
        s.script == funding_script(),
        s.chains.len() == 2,
    ensures
        placed(s),
{
}

/// The scenario in which Alice is funded, with these parties and these faucets, on two
/// chains: the one of `core`, and the one of `knots`. `kind` is the event kind of grants.
pub fn funding_with(
    kind: u16,
    relay: &str,
    core: Node,
    knots: Node,
    cast: Cast,
    core_faucet: Keys,
    knots_faucet: Keys,
) -> (r: Scenario)
    ensures
        is_funding(r@),
        r@.kind == kind,
        r@.relay == relay@,
        r@.cast == cast,
        is_chain(r@.chains[0], "btc.regtest"@, core),
        is_chain(r@.chains[1], "btk.regtest"@, knots),
        r@.chains[0].secret == core_faucet.secret(),
        r@.chains[1].secret == knots_faucet.secret(),
{
    let steps = write_script();
    let terms = Terms {
        window_secs: WINDOW_SECS,
        total_cap_sats: TOTAL_CAP_SAT,
        own_directory: true,
    };
    let nodes = vec![
        ("btc.regtest", core, core_faucet),
        ("btk.regtest", knots, knots_faucet),
    ];
    Scenario::new(kind, relay, cast, terms, nodes, steps)
}

/// The scenario in which Alice is funded, with fresh keys for everybody.
pub fn faucet_funds_alice(kind: u16, relay: &str, core: Node, knots: Node) -> (r: Scenario)
    ensures
        is_funding(r@),
        r@.kind == kind,
        r@.relay == relay@,
        is_chain(r@.chains[0], "btc.regtest"@, core),
        is_chain(r@.chains[1], "btk.regtest"@, knots),
        forall|role: Role| is_secret(#[trigger] r@.cast.secret(role)),
{
    funding_with(
        kind,
        relay,
        core,
        knots,
        Cast::generate(),
        Keys::generate(),
        Keys::generate(),
    )
}

/// The path of the faucet's binary that was built in `repo`, or why there is none. A build that
/// could not be started is told with its directory.
pub fn faucet_binary(repo: String, build: Build) -> (r: Result<String, BuildError>)
    ensures
        r is Ok <==> build_error(repo@, build, true) is None,
        r matches Ok(path) ==> path@ == binary_path(repo@),
        r matches Err(error) ==> build_error(repo@, build, true) == Some(error@),
{
    binary::built(repo, build, true)
}

/// Whether these outcomes let the scenario pass.
pub open spec fn passes(s: ScenarioView, outcomes: Seq<OutcomeView>) -> bool {
    &&& is_funding(s)
    &&& outcomes.len() == funding_script().len()
    &&& ran(s, outcomes).passed()
}

proof fn lemma_all_met(s: ScenarioView, outcomes: Seq<OutcomeView>)
    requires
        passes(s, outcomes),
    ensures
        outcomes.len() == 28,
        forall|i: int|
            0 <= i < 28 ==> meets(#[trigger] funding_script()[i].act, outcomes[i]),
{
    lemma_placed(s);
    law_passes_where_all_is_met(s, outcomes);
}

/// Whether the six steps from `first` on paid Alice, on this chain: a balance was read, and
/// an address; the faucet was asked to pay a coin to that address, and did not refuse; a
/// block was mined; the balance was read again; and, of exactly these two balances, the
/// second was told to be at least one coin more.
pub open spec fn pays(
    s: ScenarioView,
    outcomes: Seq<OutcomeView>,
    first: int,
    chain: usize,
) -> bool {
    let asking = at_step(s, outcomes, first + 2);
    let weighing = at_step(s, outcomes, first + 5);
    &&& funding_script()[first] == on(chain, Act::Before)
    &&& funding_script()[first + 1] == on(chain, Act::TreasuryAddress)
    &&& funding_script()[first + 2] == on(
        chain,
        calls(Role::Alice, Request::Coin, Check::FirstCoin),
    )
    &&& funding_script()[first + 3] == on(chain, Act::Mine)
    &&& funding_script()[first + 4] == on(chain, Act::After)
    &&& funding_script()[first + 5] == on(chain, Act::Grown)
    &&& outcomes[first] matches OutcomeView::Answered(Ok(before))
    &&& outcomes[first + 1] matches OutcomeView::Answered(Ok(JsonTree::Text(address)))
    &&& outcomes[first + 2] matches OutcomeView::Called(Ok(reply))
    &&& outcomes[first + 4] matches OutcomeView::Answered(Ok(after))
    &&& outcomes[first + 5] matches OutcomeView::Weighed { enough, .. }
    &&& is_number(before)
    &&& is_number(after)
    &&& asking.running() && asking.step() == funding_script()[first + 2]
    &&& forall|action: Action| #[trigger]
        does(asking, action) ==> (action matches Action::Call(call) && call@.payload == json_text(
            request_tree("pay_onchain"@, ask_params(address, ONE_COIN_SAT)),
        ))
    &&& refusal_of(reply) is None
    &&& weighing.running() && weighing.step() == funding_script()[first + 5]
    &&& forall|action: Action| #[trigger]
        does(weighing, action) ==> (action matches Action::Weigh {
            chain: on_chain,
            before: lesser,
            after: greater,
        } && on_chain == chain && lesser@ == json_text(before) && greater@ == json_text(after))
    &&& enough
}

proof fn lemma_pays(s: ScenarioView, outcomes: Seq<OutcomeView>, first: int, chain: usize)
    requires
        passes(s, outcomes),
        (first == 10 && chain == 0) || (first == 16 && chain == 1),
    ensures
        pays(s, outcomes, first, chain),
{
    lemma_all_met(s, outcomes);
    lemma_placed(s);
    assert(met_so_far(s, outcomes, outcomes.len() as int));
    assert(meets(funding_script()[first].act, outcomes[first]));
    assert(meets(funding_script()[first + 1].act, outcomes[first + 1]));
    assert(meets(funding_script()[first + 2].act, outcomes[first + 2]));
    assert(meets(funding_script()[first + 4].act, outcomes[first + 4]));
    assert(meets(funding_script()[first + 5].act, outcomes[first + 5]));
    lemma_stands_at(s, outcomes, first);
    lemma_stands_at(s, outcomes, first + 1);
    lemma_stands_at(s, outcomes, first + 2);
    lemma_stands_at(s, outcomes, first + 3);
    lemma_stands_at(s, outcomes, first + 4);
    lemma_stands_at(s, outcomes, first + 5);
}

/// Passing shows that Alice was funded, on both chains: the first request was not refused,
/// and once a block was mined the treasury had at least one coin more than before. A
/// transaction id alone would not do.
pub proof fn law_passing_shows_the_coins(s: ScenarioView, outcomes: Seq<OutcomeView>)
    requires
        passes(s, outcomes),
    ensures
        pays(s, outcomes, 10, 0),
        pays(s, outcomes, 16, 1),
{
    lemma_pays(s, outcomes, 10, 0);
    lemma_pays(s, outcomes, 16, 1);
}

/// Passing shows the quota, on both chains: the second coin was refused, and the refusal
/// names the quota.
pub proof fn law_passing_shows_the_quota(s: ScenarioView, outcomes: Seq<OutcomeView>)
    requires
        passes(s, outcomes),
    ensures
        funding_script()[23] == on(0, calls(Role::Alice, Request::Coin, Check::QuotaRefuses)),
        reply_in(outcomes[23]) matches Some(reply) && (refusal_of(reply) matches Some(message)
            && contains_text(lowercase(message), "quota"@)),
        funding_script()[25] == on(1, calls(Role::Alice, Request::Coin, Check::QuotaRefuses)),
        reply_in(outcomes[25]) matches Some(reply) && (refusal_of(reply) matches Some(message)
            && contains_text(lowercase(message), "quota"@)),
{
    lemma_all_met(s, outcomes);
    assert(meets(funding_script()[23].act, outcomes[23]));
    assert(meets(funding_script()[25].act, outcomes[25]));
}

/// The methods that a reply lists, where it lists any.
pub open spec fn listed_in(outcome: OutcomeView) -> Option<Seq<Seq<char>>> {
    match reply_in(outcome) {
        Some(reply) => match methods_of(reply) {
            Some(JsonTree::Array(items)) => Some(text_items(items)),
            _ => None,
        },
        None => None,
    }
}

/// Passing shows what the faucets advertise, on both chains: exactly what they implement,
/// and no method that is about an invoice.
pub proof fn law_passing_shows_the_methods(s: ScenarioView, outcomes: Seq<OutcomeView>)
    requires
        passes(s, outcomes),
    ensures
        funding_script()[26] == on(0, calls(Role::Alice, Request::Info, Check::Methods)),
        listed_in(outcomes[26]) == Some(implemented()),
        funding_script()[27] == on(1, calls(Role::Alice, Request::Info, Check::Methods)),
        listed_in(outcomes[27]) == Some(implemented()),
        forall|i: int|
            0 <= i < implemented().len() ==> !contains_text(#[trigger] implemented()[i], "invoice"@),
{
    lemma_all_met(s, outcomes);
    assert(meets(funding_script()[26].act, outcomes[26]));
    assert(meets(funding_script()[27].act, outcomes[27]));
    lemma_no_invoice();
}

proof fn lemma_no_invoice()
    ensures
        !contains_text("get_balance"@, "invoice"@),
        !contains_text("get_info"@, "invoice"@),
        !contains_text("pay_onchain"@, "invoice"@),
{
    reveal_strlit("invoice");
    reveal_strlit("get_balance");
    reveal_strlit("get_info");
    reveal_strlit("pay_onchain");
    let needle = "invoice"@;
    assert forall|i: int| !occurs_at("get_balance"@, needle, i) by {
        if occurs_at("get_balance"@, needle, i) {
            assert("get_balance"@[i + 2] == needle[2]);
        }
    }
    assert forall|i: int| !occurs_at("get_info"@, needle, i) by {
        if occurs_at("get_info"@, needle, i) {
            assert("get_info"@[i + 2] == needle[2]);
        }
    }
    assert forall|i: int| !occurs_at("pay_onchain"@, needle, i) by {
        if occurs_at("pay_onchain"@, needle, i) {
            assert("pay_onchain"@[i + 2] == needle[2]);
        }
    }
}

/// The two faucets are kept apart: whenever they are started, each has a directory of its
/// own, so that neither's config takes the place of the other's; both configs name the same
/// owner; and they hold the secret keys of their own chains, which differ where the keys
/// that the scenario was given do.
pub proof fn law_faucets_are_apart(
    s: ScenarioView,
    to_first: Seq<OutcomeView>,
    to_second: Seq<OutcomeView>,
    first: Launch,
    second: Launch,
)
    requires
        is_funding(s),
        ran(s, to_first).running(),
        ran(s, to_first).step() == on(0, Act::Launch),
        does(ran(s, to_first), Action::Launch { chain: 0, launch: first }),
        ran(s, to_second).running(),
        ran(s, to_second).step() == on(1, Act::Launch),
        does(ran(s, to_second), Action::Launch { chain: 1, launch: second }),
        plain(settings_of(s, s.chains[0])),
        plain(settings_of(s, s.chains[1])),
    ensures
        first.directory matches Some(directory) && directory@ == "btc.regtest"@,
        second.directory matches Some(directory) && directory@ == "btk.regtest"@,
        first.directory->0@ != second.directory->0@,
        first.file@ == second.file@,
        lines(first.config@)[3] == text_line("secret_key"@, hex_text(s.chains[0].secret)),
        lines(second.config@)[3] == text_line("secret_key"@, hex_text(s.chains[1].secret)),
        s.chains[0].secret != s.chains[1].secret ==> lines(first.config@)[3] != lines(
            second.config@,
        )[3],
        lines(first.config@)[4] == owner_line(s.cast.public(Role::Owner)),
        lines(second.config@)[4] == owner_line(s.cast.public(Role::Owner)),
{
    lemma_placed(s);
    law_scenario_keeps_its_terms(s, to_first);
    law_scenario_keeps_its_terms(s, to_second);
    let core = settings_of(s, s.chains[0]);
    let knots = settings_of(s, s.chains[1]);
    assert(settings_of(ran(s, to_first), ran(s, to_first).chain()) == core);
    assert(settings_of(ran(s, to_second), ran(s, to_second).chain()) == knots);
    law_config_lines(core);
    law_config_lines(knots);
    reveal_strlit("btc.regtest");
    reveal_strlit("btk.regtest");
    assert("btc.regtest"@[2] != "btk.regtest"@[2]);
    let a = hex_text(s.chains[0].secret);
    let b = hex_text(s.chains[1].secret);
    if text_line("secret_key"@, a) == text_line("secret_key"@, b) {
        let head = "secret_key"@ + " = \""@;
        assert(text_line("secret_key"@, a).len() == head.len() + a.len() + "\""@.len());
        assert(text_line("secret_key"@, b).len() == head.len() + b.len() + "\""@.len());
        assert(text_line("secret_key"@, a).subrange(
            head.len() as int,
            (head.len() + a.len()) as int,
        ) =~= a);
        assert(text_line("secret_key"@, b).subrange(
            head.len() as int,
            (head.len() + b.len()) as int,
        ) =~= b);
        law_hex_injective(s.chains[0].secret, s.chains[1].secret);
    }
}

/// Whoever is expected to be paid, or to be refused for the quota, was granted a coin by the
/// owner, on that chain, before, and nothing else since; and whoever is expected to be refused
/// for the quota was expected to be paid on that chain before.
pub proof fn law_who_is_to_be_paid_was_granted(s: ScenarioView, i: int, by: Role)
    requires
        is_funding(s),
        0 <= i < s.script.len(),
        s.script[i].act matches Act::Ask { by: asker, check, .. } && asker == by && (check
            == Check::FirstCoin || check == Check::QuotaRefuses),
    ensures
        exists|j: int|
            0 <= j < i && #[trigger] grant_stands(
                s.script,
                j,
                i,
                s.script[i].chain,
                Role::Owner,
                by,
                Profile::OneCoin,
            ),
        s.script[i].act->check == Check::QuotaRefuses ==> exists|j: int|
            0 <= j < i && #[trigger] s.script[j] == (Step {
                chain: s.script[i].chain,
                act: Act::Ask { by, request: Request::Coin, check: Check::FirstCoin },
            }),
{
    let script = s.script;
    assert(i == 12 || i == 18 || i == 23 || i == 25);
    if i == 12 || i == 23 {
        assert(grant_stands(
            script,
            4,
            i,
            script[i].chain,
            Role::Owner,
            by,
            Profile::OneCoin,
        ));
    }
    if i == 18 || i == 25 {
        assert(grant_stands(
            script,
            9,
            i,
            script[i].chain,
            Role::Owner,
            by,
            Profile::OneCoin,
        ));
    }
    assert(script[12].act is Ask && script[18].act is Ask);
}

/// Both chains are set up once, in order, before anything else happens on them; every coin is
/// asked for right after the treasury of that chain gave a fresh address; and the steps are as
/// many as they need to be.
pub proof fn law_steps_come_in_order(s: ScenarioView, i: int)
    requires
        is_funding(s),
        0 <= i < s.script.len(),
    ensures
        set_up(s.script, 0, 0),
        set_up(s.script, 1, 5),
        s.script[i].chain == 0 || s.script[i].chain == 1,
        s.script[i].act matches Act::Ask { request: Request::Coin, .. } ==> i > 0 && s.script[i - 1]
            == (Step { chain: s.script[i].chain, act: Act::TreasuryAddress }),
        s.script[i].act matches Act::Ask { by, request, check } ==> by == Role::Alice && (request
            == Request::Info <==> check == Check::Methods) && request != Request::Invoice && (check
            == Check::FirstCoin || check == Check::QuotaRefuses || check == Check::Methods),
        s.script[i].act matches Act::Ask { check: Check::FirstCoin, .. } ==> i + 3
            < s.script.len() && s.script[i + 1] == (Step {
            chain: s.script[i].chain,
            act: Act::Mine,
        }) && s.script[i + 2] == (Step { chain: s.script[i].chain, act: Act::After })
            && s.script[i + 3] == (Step { chain: s.script[i].chain, act: Act::Grown }) && i > 1
            && s.script[i - 2] == (Step { chain: s.script[i].chain, act: Act::Before }),
        s.script.len() == 28,
{
}

/// Every promise is tried once on each chain: on the same chain there are no two steps of one
/// expectation.
pub proof fn law_every_promise_is_tried(s: ScenarioView)
    requires
        is_funding(s),
    ensures
        forall|i: int, j: int|
            0 <= i < s.script.len() && 0 <= j < s.script.len() && i != j && (
            #[trigger] s.script[i]).act is Ask && (#[trigger] s.script[j]).act is Ask
                && s.script[i].chain == s.script[j].chain ==> s.script[i].act->check
                != s.script[j].act->check,
{
}

/// The scenario is what it was made of: this kind, this relay, these nodes, these parties and
/// these faucets, on the chains `btc.regtest` and `btk.regtest`, with a window of thirty
/// seconds and a cap of five hundred million sats, each faucet in a directory of its own.
pub proof fn law_funding_is_made_of(
    kind: u16,
    relay: &str,
    core: Node,
    knots: Node,
    cast: Cast,
    core_faucet: Keys,
    knots_faucet: Keys,
    r: Scenario,
    drawn: Scenario,
)
    requires
        call_ensures(
            funding_with,
            (kind, relay, core, knots, cast, core_faucet, knots_faucet),
            r,
        ),
        call_ensures(faucet_funds_alice, (kind, relay, core, knots), drawn),
    ensures
        r@.kind == kind,
        r@.relay == relay@,
        r@.cast == cast,
        r@.terms.window_secs == 30,
        r@.terms.total_cap_sats == 500_000_000,
        r@.terms.own_directory,
        r@.chains.len() == 2,
        r@.chains[0].label == "btc.regtest"@,
        r@.chains[0].rpc_port == core.rpc_port,
        r@.chains[0].rpc_user == core.rpc_user@,
        r@.chains[0].rpc_password == core.rpc_password@,
        r@.chains[0].secret == core_faucet.secret(),
        r@.chains[1].label == "btk.regtest"@,
        r@.chains[1].rpc_port == knots.rpc_port,
        r@.chains[1].rpc_user == knots.rpc_user@,
        r@.chains[1].rpc_password == knots.rpc_password@,
        r@.chains[1].secret == knots_faucet.secret(),
        r@.at == 0,
        r@.failure is None,
        drawn@.kind == kind,
        drawn@.relay == relay@,
        drawn@.terms == r@.terms,
        drawn@.script == r@.script,
        drawn@.chains.len() == 2,
        drawn@.chains[0].label == "btc.regtest"@,
        drawn@.chains[0].rpc_port == core.rpc_port,
        drawn@.chains[0].rpc_user == core.rpc_user@,
        drawn@.chains[0].rpc_password == core.rpc_password@,
        drawn@.chains[1].label == "btk.regtest"@,
        drawn@.chains[1].rpc_port == knots.rpc_port,
        drawn@.chains[1].rpc_user == knots.rpc_user@,
        drawn@.chains[1].rpc_password == knots.rpc_password@,
        drawn@.at == 0,
        drawn@.failure is None,
{
}

/// A binary that was built stands below its directory; a build that could not be started is
/// told with its directory.
pub proof fn law_funding_binary(repo: String, build: Build, r: Result<String, BuildError>)
    requires
        call_ensures(faucet_binary, (repo, build), r),
    ensures
        build is Succeeded <==> r is Ok,
        r matches Ok(path) ==> path@ == repo@ + "/target/debug/nostr-faucet"@,
        build matches Build::NotRun(words) ==> (r matches Err(BuildError::NotRunIn {
            repo: directory,
            words: own,
        }) && directory@ == repo@ && own@ == words@),
        build is Failed ==> (r matches Err(BuildError::Failed)),
{
}

}
