//! The limits, and who may change them.
//!
//! A faucet pays, and it stops, and only its owner can talk it out of stopping. The
//! total cap refuses a key that is inside its own quota, which is what bounds a script,
//! since new keys are free. A Lightning method is refused as not implemented. A grant
//! from a key that is not an owner changes nothing. The owner widens and revokes live,
//! because a grant is an event rather than a config file.

use crate::binary;
use crate::binary::{binary_path, build_error, Build, BuildError};
use crate::cast::{Cast, Role};
use crate::events::SignedEvent;
use crate::grant::Publication;
use crate::keys::{is_secret, Keys};
use crate::nwc::{code_of, refusal_of};
use crate::scenario::{
    at_step, does, fresh, is_chain, law_passes_where_all_is_met, law_scenario_keeps_its_terms,
    lemma_stands_at, met_so_far, placed, ran, settings_of, Action, Node, Scenario, ScenarioView,
    Terms,
};
use crate::script;
use crate::script::{
    calls, grant_stands, grants, meets, on, reply_in, set_up, Act, OutcomeView, Profile, Request, Step, Target,
    ONE_COIN_SAT,
};
use crate::text::contains_text;
use crate::verdict::{denies, lemma_codes_differ, Check};
use vstd::prelude::*;

verus! {

/// Seconds in a window.
pub const WINDOW_SECS: u64 = 120;

/// Two coins across everyone, so a third asker hits it while still inside their own
/// untouched one-coin quota.
pub const TOTAL_CAP_SAT: u64 = 200_000_000;

/// The scenario, step by step.
pub open spec fn limits_script() -> Seq<Step> {
    seq![
        on(0, Act::NewAddress),
        on(0, Act::Premine),
        on(0, Act::CreateTreasury),
        on(0, Act::Launch),
        // Two keys exhaust the total cap.
        on(0, grants(Role::Owner, Target::Key(Role::First), Profile::OneCoin)),
        on(0, Act::TreasuryAddress),
        on(0, calls(Role::First, Request::Coin, Check::AskerPaid(1))),
        on(0, Act::Mine),
        on(0, grants(Role::Owner, Target::Key(Role::Second), Profile::OneCoin)),
        on(0, Act::TreasuryAddress),
        on(0, calls(Role::Second, Request::Coin, Check::AskerPaid(2))),
        on(0, Act::Mine),
        // A third key, inside its own quota, is refused by the cap.
        on(0, grants(Role::Owner, Target::Key(Role::Fresh), Profile::OneCoin)),
        on(0, Act::TreasuryAddress),
        on(0, calls(Role::Fresh, Request::Coin, Check::CapRefuses)),
        // A Lightning method is refused as not implemented.
        on(0, calls(Role::Fresh, Request::Invoice, Check::LightningRefused)),
        // A grant from a key that is not an owner changes nothing.
        on(0, grants(Role::Impostor, Target::Key(Role::Victim), Profile::Greedy)),
        on(0, Act::TreasuryAddress),
        on(0, calls(Role::Victim, Request::Coin, Check::ImpostorIgnored)),
        // The owner revokes, live, with no restart.
        on(0, grants(Role::Owner, Target::Key(Role::Alice), Profile::OneCoin)),
        on(0, grants(Role::Owner, Target::Key(Role::Alice), Profile::Revocation)),
        on(0, Act::TreasuryAddress),
        on(0, calls(Role::Alice, Request::Coin, Check::Revoked)),
        // `OTHERS` opens the faucet; an explicit empty grant still denies.
        on(0, grants(Role::Owner, Target::Others, Profile::OneCoin)),
        on(0, Act::TreasuryAddress),
        on(0, calls(Role::Stranger, Request::Coin, Check::StrangerAuthorized)),
        on(0, calls(Role::Alice, Request::Coin, Check::Denied)),
        // A grant that names a rate limits.
        on(0, grants(Role::Owner, Target::Key(Role::Hasty), Profile::Rated)),
        on(0, calls(Role::Hasty, Request::Coin, Check::RateNotYet)),
        on(0, calls(Role::Hasty, Request::Coin, Check::RateLimits)),
    ]
}

/// What holds throughout the scenario.
pub open spec fn limits_terms() -> Terms {
    Terms { window_secs: WINDOW_SECS, total_cap_sats: TOTAL_CAP_SAT, own_directory: false }
}

/// Whether this is the scenario, not begun yet.
pub open spec fn is_limits(s: ScenarioView) -> bool {
    &&& fresh(s)
    &&& s.script == limits_script()
    &&& s.terms == limits_terms()
    &&& s.chains.len() == 1
    &&& s.chains[0].label == "limits.regtest"@
}

fn write_script() -> (r: Vec<Step>)
    ensures
        r@ == limits_script(),
{
    let steps = vec![
        script::step(0, Act::NewAddress),
        script::step(0, Act::Premine),
        script::step(0, Act::CreateTreasury),
        script::step(0, Act::Launch),
        script::grant_step(0, Role::Owner, Target::Key(Role::First), Profile::OneCoin),
        script::step(0, Act::TreasuryAddress),
        script::ask_step(0, Role::First, Request::Coin, Check::AskerPaid(1)),
        script::step(0, Act::Mine),
        script::grant_step(0, Role::Owner, Target::Key(Role::Second), Profile::OneCoin),
        script::step(0, Act::TreasuryAddress),
        script::ask_step(0, Role::Second, Request::Coin, Check::AskerPaid(2)),
        script::step(0, Act::Mine),
        script::grant_step(0, Role::Owner, Target::Key(Role::Fresh), Profile::OneCoin),
        script::step(0, Act::TreasuryAddress),
        script::ask_step(0, Role::Fresh, Request::Coin, Check::CapRefuses),
        script::ask_step(0, Role::Fresh, Request::Invoice, Check::LightningRefused),
        script::grant_step(0, Role::Impostor, Target::Key(Role::Victim), Profile::Greedy),
        script::step(0, Act::TreasuryAddress),
        script::ask_step(0, Role::Victim, Request::Coin, Check::ImpostorIgnored),
        script::grant_step(0, Role::Owner, Target::Key(Role::Alice), Profile::OneCoin),
        script::grant_step(0, Role::Owner, Target::Key(Role::Alice), Profile::Revocation),
        script::step(0, Act::TreasuryAddress),
        script::ask_step(0, Role::Alice, Request::Coin, Check::Revoked),
        script::grant_step(0, Role::Owner, Target::Others, Profile::OneCoin),
        script::step(0, Act::TreasuryAddress),
        script::ask_step(0, Role::Stranger, Request::Coin, Check::StrangerAuthorized),
        script::ask_step(0, Role::Alice, Request::Coin, Check::Denied),
        script::grant_step(0, Role::Owner, Target::Key(Role::Hasty), Profile::Rated),
        script::ask_step(0, Role::Hasty, Request::Coin, Check::RateNotYet),
        script::ask_step(0, Role::Hasty, Request::Coin, Check::RateLimits),
    ];
    proof {
        assert(steps@ =~= limits_script());
    }
    steps
}

proof fn lemma_placed(s: ScenarioView)
    requires
        s.script == limits_script(),
        s.chains.len() == 1,
    ensures
        placed(s),
{
}

/// The scenario of the limits, with these parties and this faucet: one chain, one faucet.
/// `kind` is the event kind of grants.
pub fn limits_with(kind: u16, relay: &str, node: Node, cast: Cast, faucet: Keys) -> (r: Scenario)
    ensures
        is_limits(r@),
        r@.kind == kind,
        r@.relay == relay@,
        r@.cast == cast,
        is_chain(r@.chains[0], "limits.regtest"@, node),
        r@.chains[0].secret == faucet.secret(),
{
    let steps = write_script();
    let terms = Terms {
        window_secs: WINDOW_SECS,
        total_cap_sats: TOTAL_CAP_SAT,
        own_directory: false,
    };
    Scenario::new(kind, relay, cast, terms, vec![("limits.regtest", node, faucet)], steps)
}

/// The scenario of the limits, with fresh keys for everybody.
pub fn faucet_limits(kind: u16, relay: &str, node: Node) -> (r: Scenario)
    ensures
        is_limits(r@),
        r@.kind == kind,
        r@.relay == relay@,
        is_chain(r@.chains[0], "limits.regtest"@, node),
        forall|role: Role| is_secret(#[trigger] r@.cast.secret(role)),
{
    limits_with(kind, relay, node, Cast::generate(), Keys::generate())
}

/// The path of the faucet's binary that was built in `repo`, or why there is none. Of a build
/// that could not be started, the error's own words are all that is told.
pub fn faucet_binary(repo: String, build: Build) -> (r: Result<String, BuildError>)
    ensures
        r is Ok <==> build_error(repo@, build, false) is None,
        r matches Ok(path) ==> path@ == binary_path(repo@),
        r matches Err(error) ==> build_error(repo@, build, false) == Some(error@),
{
    binary::built(repo, build, false)
}

/// Whether these outcomes let the scenario pass.
pub open spec fn passes(s: ScenarioView, outcomes: Seq<OutcomeView>) -> bool {
    &&& is_limits(s)
    &&& outcomes.len() == limits_script().len()
    &&& ran(s, outcomes).passed()
}

proof fn lemma_all_met(s: ScenarioView, outcomes: Seq<OutcomeView>)
    requires
        passes(s, outcomes),
    ensures
        outcomes.len() == 30,
        forall|i: int|
            0 <= i < 30 ==> meets(#[trigger] limits_script()[i].act, outcomes[i]),
{
    lemma_placed(s);
    law_passes_where_all_is_met(s, outcomes);
}

/// Passing shows the total cap: two keys took a coin each, and that is the whole cap; a
/// third key, which was granted a coin and had asked for nothing, was refused, and the
/// refusal names the cap.
pub proof fn law_passing_shows_the_cap(s: ScenarioView, outcomes: Seq<OutcomeView>)
    requires
        passes(s, outcomes),
    ensures
        s.terms.total_cap_sats == 2 * ONE_COIN_SAT,
        limits_script()[6].act == calls(Role::First, Request::Coin, Check::AskerPaid(1)),
        reply_in(outcomes[6]) matches Some(reply) && refusal_of(reply) is None,
        limits_script()[10].act == calls(Role::Second, Request::Coin, Check::AskerPaid(2)),
        reply_in(outcomes[10]) matches Some(reply) && refusal_of(reply) is None,
        limits_script()[12].act == grants(
            Role::Owner,
            Target::Key(Role::Fresh),
            Profile::OneCoin,
        ),
        forall|i: int|
            0 <= i < 14 ==> !((#[trigger] limits_script()[i]).act matches Act::Ask { by, .. } && by
                == Role::Fresh),
        limits_script()[14].act == calls(Role::Fresh, Request::Coin, Check::CapRefuses),
        reply_in(outcomes[14]) matches Some(reply) && (refusal_of(reply) matches Some(message)
            && contains_text(message, "total cap"@)),
{
    lemma_all_met(s, outcomes);
    assert(meets(limits_script()[6].act, outcomes[6]));
    assert(meets(limits_script()[10].act, outcomes[10]));
    assert(meets(limits_script()[14].act, outcomes[14]));
}

/// Passing shows that a Lightning method is refused, as not implemented.
pub proof fn law_passing_shows_no_lightning(s: ScenarioView, outcomes: Seq<OutcomeView>)
    requires
        passes(s, outcomes),
    ensures
        limits_script()[15].act == calls(Role::Fresh, Request::Invoice, Check::LightningRefused),
        reply_in(outcomes[15]) matches Some(reply) && code_of(reply) == Some("NOT_IMPLEMENTED"@),
{
    lemma_all_met(s, outcomes);
    assert(meets(limits_script()[15].act, outcomes[15]));
}

/// Passing shows that only an owner's grant counts: a key that the impostor granted a
/// fortune, and nobody else granted anything, was refused as unauthorized. It was not
/// refused by a limit, which would mean that the grant took effect. The grant was the
/// impostor's: its author is not the owner that the faucet's config names, unless the two
/// have the same key.
pub proof fn law_passing_shows_only_owners_grant(s: ScenarioView, outcomes: Seq<OutcomeView>)
    requires
        passes(s, outcomes),
    ensures
        limits_script()[16].act == grants(
            Role::Impostor,
            Target::Key(Role::Victim),
            Profile::Greedy,
        ),
        forall|i: int|
            0 <= i < 18 && i != 16 ==> !((#[trigger] limits_script()[i]).act matches Act::Grant {
                to,
                ..
            } && (to == Target::Key(Role::Victim) || to == Target::Others)),
        at_step(s, outcomes, 3).step() == on(0, Act::Launch),
        at_step(s, outcomes, 16).running(),
        at_step(s, outcomes, 16).step() == limits_script()[16],
        forall|publication: Publication, event: SignedEvent|
            does(at_step(s, outcomes, 16), Action::Publish(publication)) && #[trigger] event.signs(
                publication@.draft,
                publication@.secret,
            ) ==> event.author@ == s.cast.public(Role::Impostor),
        settings_of(at_step(s, outcomes, 3), at_step(s, outcomes, 3).chain()).owner
            == s.cast.public(Role::Owner),
        s.cast.public(Role::Impostor) != s.cast.public(Role::Owner) ==> forall|
            publication: Publication,
            event: SignedEvent,
        |
            does(at_step(s, outcomes, 16), Action::Publish(publication)) && #[trigger] event.signs(
                publication@.draft,
                publication@.secret,
            ) ==> event.author@ != settings_of(
                at_step(s, outcomes, 3),
                at_step(s, outcomes, 3).chain(),
            ).owner,
        limits_script()[18].act == calls(Role::Victim, Request::Coin, Check::ImpostorIgnored),
        reply_in(outcomes[18]) matches Some(reply) && code_of(reply) == Some("UNAUTHORIZED"@),
{
    lemma_all_met(s, outcomes);
    assert(meets(limits_script()[18].act, outcomes[18]));
    lemma_placed(s);
    assert(met_so_far(s, outcomes, outcomes.len() as int));
    lemma_stands_at(s, outcomes, 3);
    lemma_stands_at(s, outcomes, 16);
    law_scenario_keeps_its_terms(s, outcomes.take(3));
    law_scenario_keeps_its_terms(s, outcomes.take(16));
}

/// Passing shows that an empty grant revokes, with no restart: a key that the owner
/// granted a coin, and then nothing, was refused for the revocation.
pub proof fn law_passing_shows_revocation(s: ScenarioView, outcomes: Seq<OutcomeView>)
    requires
        passes(s, outcomes),
    ensures
        limits_script()[19].act == grants(
            Role::Owner,
            Target::Key(Role::Alice),
            Profile::OneCoin,
        ),
        limits_script()[20].act == grants(
            Role::Owner,
            Target::Key(Role::Alice),
            Profile::Revocation,
        ),
        limits_script()[22].act == calls(Role::Alice, Request::Coin, Check::Revoked),
        reply_in(outcomes[22]) matches Some(reply) && (code_of(reply) matches Some(code) && denies(
            code,
        )),
        forall|i: int| 3 < i < 30 ==> (#[trigger] limits_script()[i]).act != Act::Launch,
{
    lemma_all_met(s, outcomes);
    assert(meets(limits_script()[22].act, outcomes[22]));
}

/// Passing shows what `OTHERS` does: it authorizes a key that has no grant of its own,
/// and it does not override an empty grant.
pub proof fn law_passing_shows_others(s: ScenarioView, outcomes: Seq<OutcomeView>)
    requires
        passes(s, outcomes),
    ensures
        limits_script()[23].act == grants(Role::Owner, Target::Others, Profile::OneCoin),
        forall|i: int|
            0 <= i < 30 ==> !((#[trigger] limits_script()[i]).act matches Act::Grant { to, .. } && to
                == Target::Key(Role::Stranger)),
        limits_script()[25].act == calls(
            Role::Stranger,
            Request::Coin,
            Check::StrangerAuthorized,
        ),
        reply_in(outcomes[25]) matches Some(reply) && (code_of(reply) matches Some(code)
            ==> !denies(code)),
        forall|i: int|
            20 < i < 30 ==> !((#[trigger] limits_script()[i]).act matches Act::Grant { to, .. }
                && to == Target::Key(Role::Alice)),
        limits_script()[26].act == calls(Role::Alice, Request::Coin, Check::Denied),
        reply_in(outcomes[26]) matches Some(reply) && (code_of(reply) matches Some(code) && denies(
            code,
        )),
{
    lemma_all_met(s, outcomes);
    assert(meets(limits_script()[25].act, outcomes[25]));
    assert(meets(limits_script()[26].act, outcomes[26]));
    lemma_codes_differ();
}

/// Passing shows that a rate limits: under a grant of one request per window, the first
/// request was not rate limited, and the second, right after it, was.
pub proof fn law_passing_shows_the_rate(s: ScenarioView, outcomes: Seq<OutcomeView>)
    requires
        passes(s, outcomes),
    ensures
        limits_script()[27].act == grants(Role::Owner, Target::Key(Role::Hasty), Profile::Rated),
        limits_script()[28].act == calls(Role::Hasty, Request::Coin, Check::RateNotYet),
        reply_in(outcomes[28]) matches Some(reply) && code_of(reply) != Some("RATE_LIMITED"@),
        limits_script()[29].act == calls(Role::Hasty, Request::Coin, Check::RateLimits),
        reply_in(outcomes[29]) matches Some(reply) && code_of(reply) == Some("RATE_LIMITED"@),
{
    lemma_all_met(s, outcomes);
    assert(meets(limits_script()[28].act, outcomes[28]));
    assert(meets(limits_script()[29].act, outcomes[29]));
    lemma_codes_differ();
}

/// Whoever is expected to be paid, or to be refused by the total cap alone, was granted a coin
/// by the owner before, and nothing else since.
pub proof fn law_who_is_to_be_paid_was_granted(s: ScenarioView, i: int, by: Role)
    requires
        is_limits(s),
        0 <= i < s.script.len(),
        s.script[i].act matches Act::Ask { by: asker, check, .. } && asker == by && (check
            is AskerPaid || check == Check::CapRefuses),
    ensures
        exists|j: int|
            0 <= j < i && #[trigger] grant_stands(
                s.script,
                j,
                i,
                s.script[i].chain,
                Role::Owner,
                by,
                Profile::OneCoin,
            ),
{
    let script = s.script;
    assert(i == 6 || i == 10 || i == 14);
    if i == 6 {
        assert(grant_stands(
            script,
            4,
            i,
            script[i].chain,
            Role::Owner,
            by,
            Profile::OneCoin,
        ));
    }
    if i == 10 {
        assert(grant_stands(
            script,
            8,
            i,
            script[i].chain,
            Role::Owner,
            by,
            Profile::OneCoin,
        ));
    }
    if i == 14 {
        assert(grant_stands(
            script,
            12,
            i,
            script[i].chain,
            Role::Owner,
            by,
            Profile::OneCoin,
        ));
    }
}

/// Whoever is expected to be refused was granted what is to refuse them, and nothing else
/// since: the impostor's victim by the impostor alone, the revoked and the denied nothing by
/// the owner, and the hasty a rate.
pub proof fn law_who_is_to_be_refused_was_granted_that(s: ScenarioView, i: int, by: Role)
    requires
        is_limits(s),
        0 <= i < s.script.len(),
    ensures
        s.script[i].act matches Act::Ask { by: asker, check, .. } ==> asker == by ==> check
            == Check::ImpostorIgnored ==> (exists|j: int|
            0 <= j < i && #[trigger] grant_stands(
                s.script,
                j,
                i,
                s.script[i].chain,
                Role::Impostor,
                by,
                Profile::Greedy,
            )) && forall|k: int|
            0 <= k < i ==> !((#[trigger] s.script[k]).act matches Act::Grant { by: granter, to, .. }
                && granter == Role::Owner && (to == Target::Key(by) || to == Target::Others)),
        s.script[i].act matches Act::Ask { by: asker, check, .. } ==> asker == by ==> (check
            == Check::Revoked || check == Check::Denied) ==> exists|j: int|
            0 <= j < i && #[trigger] grant_stands(
                s.script,
                j,
                i,
                s.script[i].chain,
                Role::Owner,
                by,
                Profile::Revocation,
            ),
        s.script[i].act matches Act::Ask { by: asker, check, .. } ==> asker == by ==> (check
            == Check::RateNotYet || check == Check::RateLimits) ==> exists|j: int|
            0 <= j < i && #[trigger] grant_stands(
                s.script,
                j,
                i,
                s.script[i].chain,
                Role::Owner,
                by,
                Profile::Rated,
            ),
{
    let script = s.script;
    assert(script[i].act is Ask && script[i].act->check == Check::ImpostorIgnored ==> i == 18);
    assert(script[i].act is Ask && script[i].act->check == Check::Revoked ==> i == 22);
    assert(script[i].act is Ask && script[i].act->check == Check::Denied ==> i == 26);
    assert(script[i].act is Ask && script[i].act->check == Check::RateNotYet ==> i == 28);
    assert(script[i].act is Ask && script[i].act->check == Check::RateLimits ==> i == 29);
    if i == 18 {
        assert(grant_stands(
            script,
            16,
            i,
            script[i].chain,
            Role::Impostor,
            Role::Victim,
            Profile::Greedy,
        ));
    }
    if i == 22 {
        assert(grant_stands(
            script,
            20,
            i,
            script[i].chain,
            Role::Owner,
            Role::Alice,
            Profile::Revocation,
        ));
    }
    if i == 26 {
        assert(grant_stands(
            script,
            20,
            i,
            script[i].chain,
            Role::Owner,
            Role::Alice,
            Profile::Revocation,
        ));
    }
    if i == 28 {
        assert(grant_stands(
            script,
            27,
            i,
            script[i].chain,
            Role::Owner,
            Role::Hasty,
            Profile::Rated,
        ));
    }
    if i == 29 {
        assert(grant_stands(
            script,
            27,
            i,
            script[i].chain,
            Role::Owner,
            Role::Hasty,
            Profile::Rated,
        ));
    }
}

/// The chain is set up once, in order, before anything else; each expectation of an asker comes
/// right after the treasury gave a fresh address, but for those that follow another on the same
/// address; and each payment is confirmed by a block before anything else happens.
pub proof fn law_steps_come_in_order(s: ScenarioView, i: int)
    requires
        is_limits(s),
        0 <= i < s.script.len(),
    ensures
        set_up(s.script, 0, 0),
        s.script[i].chain == 0,
        s.script[i].act matches Act::Ask { check, .. } ==> (check is AskerPaid || check
            == Check::CapRefuses || check == Check::ImpostorIgnored || check == Check::Revoked
            || check == Check::StrangerAuthorized) ==> i > 0 && s.script[i - 1] == (Step {
            chain: 0,
            act: Act::TreasuryAddress,
        }),
        s.script[i].act matches Act::Ask { check, .. } ==> check is AskerPaid ==> i + 1
            < s.script.len() && s.script[i + 1] == (Step { chain: 0, act: Act::Mine }),
        s.script[i].act matches Act::Ask { request, check, .. } ==> (request == Request::Invoice
            <==> check == Check::LightningRefused) && request != Request::Info,
        s.script[i].act matches Act::Ask { check: Check::AskerPaid(n), .. } ==> (n == 1 || n == 2),
{
}

/// Every promise is tried once: there is one step for each expectation, and the two that are to
/// be paid are numbered one and two, and are not the same.
pub proof fn law_every_promise_is_tried(s: ScenarioView)
    requires
        is_limits(s),
    ensures
        forall|i: int, j: int|
            0 <= i < s.script.len() && 0 <= j < s.script.len() && i != j && (
            #[trigger] s.script[i]).act is Ask && (#[trigger] s.script[j]).act is Ask
                ==> s.script[i].act->check != s.script[j].act->check,
        exists|i: int|
            0 <= i < s.script.len() && (#[trigger] s.script[i]).act == (Act::Ask {
                by: Role::First,
                request: Request::Coin,
                check: Check::AskerPaid(1),
            }),
        exists|i: int|
            0 <= i < s.script.len() && (#[trigger] s.script[i]).act == (Act::Ask {
                by: Role::Second,
                request: Request::Coin,
                check: Check::AskerPaid(2),
            }),
        s.script.len() == 30,
{
    assert(s.script[6].act == (Act::Ask {
        by: Role::First,
        request: Request::Coin,
        check: Check::AskerPaid(1),
    }));
    assert(s.script[10].act == (Act::Ask {
        by: Role::Second,
        request: Request::Coin,
        check: Check::AskerPaid(2),
    }));
}

/// The scenario is what it was made of: this kind, this relay, this node, these parties and
/// this faucet, on the chain `limits.regtest`, with a window of a hundred and twenty seconds
/// and a cap of two hundred million sats, in the scenario's own directory.
pub proof fn law_limits_are_made_of(
    kind: u16,
    relay: &str,
    node: Node,
    cast: Cast,
    faucet: Keys,
    r: Scenario,
    drawn: Scenario,
)
    requires
        call_ensures(limits_with, (kind, relay, node, cast, faucet), r),
        call_ensures(faucet_limits, (kind, relay, node), drawn),
    ensures
        r@.kind == kind,
        r@.relay == relay@,
        r@.cast == cast,
        r@.terms.window_secs == 120,
        r@.terms.total_cap_sats == 200_000_000,
        !r@.terms.own_directory,
        r@.chains.len() == 1,
        r@.chains[0].label == "limits.regtest"@,
        r@.chains[0].rpc_port == node.rpc_port,
        r@.chains[0].rpc_user == node.rpc_user@,
        r@.chains[0].rpc_password == node.rpc_password@,
        r@.chains[0].secret == faucet.secret(),
        r@.at == 0,
        r@.failure is None,
        drawn@.kind == kind,
        drawn@.relay == relay@,
        drawn@.terms == r@.terms,
        drawn@.script == r@.script,
        drawn@.chains.len() == 1,
        drawn@.chains[0].label == "limits.regtest"@,
        drawn@.chains[0].rpc_port == node.rpc_port,
        drawn@.chains[0].rpc_user == node.rpc_user@,
        drawn@.chains[0].rpc_password == node.rpc_password@,
        drawn@.at == 0,
        drawn@.failure is None,
{
}

/// A binary that was built stands below its directory; a build that could not be started is
/// told in its own words alone.
pub proof fn law_limits_binary(repo: String, build: Build, r: Result<String, BuildError>)
    requires
        call_ensures(faucet_binary, (repo, build), r),
    ensures
        build is Succeeded <==> r is Ok,
        r matches Ok(path) ==> path@ == repo@ + "/target/debug/nostr-faucet"@,
        build matches Build::NotRun(words) ==> (r matches Err(BuildError::NotRun(own)) && own@
            == words@),
        build is Failed ==> (r matches Err(BuildError::Failed)),
{
}

}
