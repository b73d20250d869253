//! A scenario as it runs: what to do next, and what is made of what came of it.

use crate::cast::{Cast, Role};
use crate::config;
use crate::config::{
    config_file, law_config_lines, law_config_spelled_out, lemma_hex_one_line, Settings,
};
use crate::events::{identifier_tag, tag_texts, SignedEvent};
use crate::failure::{Failure, FailureView, Reason};
use crate::grant;
use crate::grant::{
    grant_draft, grant_identifier, law_published_grant, Publication, PublicationPhase,
    PublicationView,
};
use crate::json::{
    entry_trees, json_text, object_of, reads, reads_back, trees, Json, JsonTree, MAX_DEPTH,
};
use crate::keys::{hex_text, is_secret, public_key_of, Keys};
use crate::nwc;
use crate::nwc::{
    is_request, law_faucet_reads_request, request_tree, Call, CallPhaseView, CallView,
};
use crate::script;
use crate::script::{
    address_params, failure_of, law_requests_spelled_out, meets, method_of, params_of,
    profile_text, Act, Outcome, OutcomeView, Profile, Request, Step, Target, ONE_COIN_SAT, PREMINE,
};
use crate::seal::nip44_open;
use crate::text::{decimal, lines, one_line};
use crate::verdict::Check;
use vstd::prelude::*;
use vstd::string::*;

verus! {

/// Seconds that a faucet gets to fail loudly in, after it was started: it checks its
/// miner at startup.
pub const LAUNCH_SECS: u64 = 3;

/// What a chain's node is reached with.
pub struct Node {
    pub rpc_port: u16,
    pub rpc_user: String,
    pub rpc_password: String,
}

/// What holds throughout a scenario.
#[derive(Clone, Copy, Debug, PartialEq, Eq, Structural)]
pub struct Terms {
    /// Seconds in a window.
    pub window_secs: u64,
    /// What a faucet pays out in total, per window, in sats.
    pub total_cap_sats: u64,
    /// Whether each faucet has a directory of its own, and a name after its chain.
    pub own_directory: bool,
}

/// How a faucet is started.
pub struct Launch {
    /// The directory, below the scenario's own, that it has for itself.
    pub directory: Option<String>,
    /// The name of its config file, in that directory.
    pub file: String,
    /// What its config file holds.
    pub config: String,
    /// What its process is called.
    pub name: String,
    /// Seconds to wait after it was started.
    pub wait_secs: u64,
}

struct Chain {
    label: String,
    node: Node,
    faucet: Keys,
    miner: String,
    treasury: String,
    before: String,
    after: String,
}

/// A chain: its node, the faucet that pays on it, and what was noted of it.
pub struct ChainView {
    pub label: Seq<char>,
    pub rpc_port: u16,
    pub rpc_user: Seq<char>,
    pub rpc_password: Seq<char>,
    /// The faucet's secret key.
    pub secret: Seq<u8>,
    /// The miner's address.
    pub miner: Seq<char>,
    /// The address that the treasury gave last.
    pub treasury: Seq<char>,
    /// The treasury's balance before a payment.
    pub before: Seq<char>,
    /// The treasury's balance after it.
    pub after: Seq<char>,
}

/// A scenario as it runs.
pub struct Scenario {
    kind: u16,
    relay: String,
    cast: Cast,
    terms: Terms,
    chains: Vec<Chain>,
    script: Vec<Step>,
    at: usize,
    failure: Option<Failure>,
}

/// A scenario: who, where and what, how far it has come, and why it failed, if it
/// did.
pub struct ScenarioView {
    /// The event kind of grants.
    pub kind: u16,
    pub relay: Seq<char>,
    pub cast: Cast,
    pub terms: Terms,
    pub chains: Seq<ChainView>,
    pub script: Seq<Step>,
    /// How many steps are done.
    pub at: nat,
    pub failure: Option<FailureView>,
}

/// What is to be done for a scenario. Each is done on the chain of the index that
/// comes with it, or on the relay.
pub enum Action {
    /// Take a new address of the miner.
    NewAddress { chain: usize },
    /// Mine so many blocks to this address.
    Mine { chain: usize, blocks: u64, to: String },
    /// Create a wallet of this name.
    CreateWallet { chain: usize, name: String },
    /// Start the faucet.
    Launch { chain: usize, launch: Launch },
    /// Publish a grant.
    Publish(Publication),
    /// Call a method of the node, for this wallet.
    Rpc { chain: usize, wallet: String, method: String, params: Json },
    /// Call the faucet.
    Call(Call),
    /// Tell whether the second numeral is at least one more than the first.
    Weigh { chain: usize, before: String, after: String },
}

impl Chain {
    spec fn view(&self) -> ChainView {
        ChainView {
            label: self.label@,
            rpc_port: self.node.rpc_port,
            rpc_user: self.node.rpc_user@,
            rpc_password: self.node.rpc_password@,
            secret: self.faucet.secret(),
            miner: self.miner@,
            treasury: self.treasury@,
            before: self.before@,
            after: self.after@,
        }
    }
}

impl ChainView {
    /// The faucet's public key.
    pub open spec fn faucet(self) -> Seq<u8> {
        public_key_of(self.secret)
    }
}

spec fn chain_views(chains: Seq<Chain>) -> Seq<ChainView> {
    Seq::new(chains.len(), |i: int| chains[i]@)
}

impl ScenarioView {
    /// Whether there is something left to do.
    pub open spec fn running(self) -> bool {
        self.failure is None && self.at < self.script.len()
    }

    /// Whether the scenario is through, with every expectation met.
    pub open spec fn passed(self) -> bool {
        self.failure is None && self.at == self.script.len()
    }

    /// The step that is next.
    pub open spec fn step(self) -> Step {
        self.script[self.at as int]
    }

    /// The chain of the step that is next.
    pub open spec fn chain(self) -> ChainView {
        self.chains[self.step().chain as int]
    }
}

/// What the config file of a chain's faucet is made of.
pub open spec fn settings_of(s: ScenarioView, chain: ChainView) -> Settings {
    Settings {
        relay: s.relay,
        secret_key: hex_text(chain.secret),
        owner: s.cast.public(Role::Owner),
        rpc_port: chain.rpc_port,
        rpc_user: chain.rpc_user,
        rpc_password: chain.rpc_password,
        chain_label: chain.label,
        total_cap_sats: s.terms.total_cap_sats,
        window_secs: s.terms.window_secs,
    }
}

/// Whether this is how the faucet of a chain is started.
pub open spec fn launches(s: ScenarioView, chain: ChainView, launch: Launch) -> bool {
    &&& launch.file@ == "faucet.toml"@
    &&& launch.config@ == config_file(settings_of(s, chain))
    &&& launch.wait_secs == LAUNCH_SECS
    &&& if s.terms.own_directory {
        &&& launch.directory matches Some(directory)
        &&& directory@ == chain.label
        &&& launch.name@ == chain.label + "-faucet"@
    } else {
        &&& launch.directory is None
        &&& launch.name@ == "faucet"@
    }
}

/// Whom a grant names.
pub open spec fn controller_of(s: ScenarioView, to: Target) -> Seq<char> {
    match to {
        Target::Key(role) => hex_text(s.cast.public(role)),
        Target::Others => "OTHERS"@,
    }
}

/// Whether `action` is what a running scenario is to do.
pub open spec fn does(s: ScenarioView, action: Action) -> bool {
    let index = s.step().chain;
    let chain = s.chain();
    match s.step().act {
        Act::NewAddress => action == (Action::NewAddress { chain: index }),
        Act::Premine => {
            &&& action matches Action::Mine { chain: on, blocks, to }
            &&& on == index
            &&& blocks == PREMINE
            &&& to@ == chain.miner
        },
        Act::CreateTreasury => {
            &&& action matches Action::CreateWallet { chain: on, name }
            &&& on == index
            &&& name@ == "treasury"@
        },
        Act::Launch => {
            &&& action matches Action::Launch { chain: on, launch }
            &&& on == index
            &&& launches(s, chain, launch)
        },
        Act::Grant { by, to, profile } => {
            &&& action matches Action::Publish(publication)
            &&& publication@ == PublicationView {
                relay: s.relay,
                secret: s.cast.secret(by),
                draft: grant_draft(
                    s.kind,
                    chain.faucet(),
                    controller_of(s, to),
                    profile_text(profile, s.terms.window_secs),
                ),
                phase: PublicationPhase::Connect,
                error: Seq::empty(),
            }
        },
        Act::TreasuryAddress => {
            &&& action matches Action::Rpc { chain: on, wallet, method, params }
            &&& on == index
            &&& wallet@ == "treasury"@
            &&& method@ == "getnewaddress"@
            &&& params@ == address_params()
        },
        Act::Ask { by, request, .. } => {
            let tree = request_tree(method_of(request), params_of(request, chain.treasury));
            &&& action matches Action::Call(call)
            &&& call@ == CallView {
                relay: s.relay,
                secret: s.cast.secret(by),
                faucet: chain.faucet(),
                payload: json_text(tree),
                phase: CallPhaseView::Start,
            }
            &&& reads(json_text(tree), tree)
        },
        Act::Mine => {
            &&& action matches Action::Mine { chain: on, blocks, to }
            &&& on == index
            &&& blocks == 1
            &&& to@ == chain.miner
        },
        Act::Before | Act::After => {
            &&& action matches Action::Rpc { chain: on, wallet, method, params }
            &&& on == index
            &&& wallet@ == "treasury"@
            &&& method@ == "getbalance"@
            &&& params@ == JsonTree::Array(Seq::empty())
        },
        Act::Grown => {
            &&& action matches Action::Weigh { chain: on, before, after }
            &&& on == index
            &&& before@ == chain.before
            &&& after@ == chain.after
        },
    }
}

/// What is noted of a chain when an expectation is met on it.
pub open spec fn noted(chain: ChainView, act: Act, outcome: OutcomeView) -> ChainView {
    match (act, outcome) {
        (Act::NewAddress, OutcomeView::Address(miner)) => ChainView { miner, ..chain },
        (Act::TreasuryAddress, OutcomeView::Answered(Ok(JsonTree::Text(treasury)))) => ChainView {
            treasury,
            ..chain
        },
        (Act::Before, OutcomeView::Answered(Ok(tree))) => ChainView {
            before: json_text(tree),
            ..chain
        },
        (Act::After, OutcomeView::Answered(Ok(tree))) => ChainView {
            after: json_text(tree),
            ..chain
        },
        _ => chain,
    }
}

/// The scenario after it was told what came of its next step: one step further, or
/// failed. One that is over stays as it is.
pub open spec fn told(s: ScenarioView, outcome: OutcomeView) -> ScenarioView {
    let step = s.step();
    if !s.running() {
        s
    } else if meets(step.act, outcome) {
        ScenarioView {
            at: s.at + 1,
            chains: s.chains.update(step.chain as int, noted(s.chain(), step.act, outcome)),
            ..s
        }
    } else {
        ScenarioView { failure: Some(failure_of(step.act, s.chain().label, outcome)), ..s }
    }
}

/// Something to note of a chain.
enum Note {
    Nothing,
    Miner(String),
    Treasury(String),
    Before(String),
    After(String),
}

spec fn with_note(chain: ChainView, note: Note) -> ChainView {
    match note {
        Note::Nothing => chain,
        Note::Miner(text) => ChainView { miner: text@, ..chain },
        Note::Treasury(text) => ChainView { treasury: text@, ..chain },
        Note::Before(text) => ChainView { before: text@, ..chain },
        Note::After(text) => ChainView { after: text@, ..chain },
    }
}

/// What to note of what came of an act, or how the act failed.
fn settle(act: Act, label: &str, outcome: Outcome) -> (r: Result<Note, Failure>)
    ensures
        r is Ok <==> meets(act, outcome@),
        r matches Ok(note) ==> forall|chain: ChainView|
            #[trigger] with_note(chain, note) == noted(chain, act, outcome@),
        r matches Err(failure) ==> failure@ == failure_of(act, label@, outcome@),
{
    match (act, outcome) {
        (Act::NewAddress, Outcome::Address(miner)) => Ok(Note::Miner(miner)),
        (Act::Premine, Outcome::Done) => Ok(Note::Nothing),
        (Act::CreateTreasury, Outcome::Done) => Ok(Note::Nothing),
        (Act::Launch, Outcome::Done) => Ok(Note::Nothing),
        (Act::Grant { .. }, Outcome::Done) => Ok(Note::Nothing),
        (Act::Mine, Outcome::Done) => Ok(Note::Nothing),
        (Act::TreasuryAddress, Outcome::Answered(answer)) => match script::treasury_address(
            label,
            answer,
        ) {
            Ok(address) => Ok(Note::Treasury(address)),
            Err(failure) => Err(failure),
        },
        (Act::Ask { check, .. }, Outcome::Called(reply)) => match script::called(
            check,
            label,
            reply,
        ) {
            Some(failure) => Err(failure),
            None => Ok(Note::Nothing),
        },
        (Act::Before, Outcome::Answered(answer)) => match script::treasury_balance(label, answer) {
            Ok(numeral) => Ok(Note::Before(numeral)),
            Err(failure) => Err(failure),
        },
        (Act::After, Outcome::Answered(answer)) => match script::treasury_balance(label, answer) {
            Ok(numeral) => Ok(Note::After(numeral)),
            Err(failure) => Err(failure),
        },
        (Act::Grown, Outcome::Weighed { enough, before, after }) => if enough {
            Ok(Note::Nothing)
        } else {
            Err(
                Failure {
                    reason: Reason::TreasuryShort,
                    label: label.to_owned(),
                    detail: before,
                    later: after,
                },
            )
        },
        (Act::Launch, Outcome::Failed(error)) => Err(
            Failure::seen(Reason::NotDone, label, error),
        ),
        (Act::Grant { .. }, Outcome::Failed(error)) => Err(
            Failure::seen(Reason::NotDone, label, error),
        ),
        _ => Err(Failure::bare(Reason::OutOfTurn, label)),
    }
}

/// What the wallet is asked for an address with.
fn write_address_params() -> (r: Json)
    ensures
        r@ == address_params(),
{
    let mut items: Vec<Json> = Vec::new();
    items.push(Json::Text("".to_owned()));
    items.push(Json::Text("bech32".to_owned()));
    proof {
        assert(trees(items@) =~= seq![JsonTree::Text(""@), JsonTree::Text("bech32"@)]);
    }
    Json::Array(items)
}

/// What the faucet is asked to pay a Lightning invoice with.
fn write_invoice_params() -> (r: Json)
    ensures
        forall|treasury: Seq<char>| r@ == #[trigger] params_of(Request::Invoice, treasury),
{
    let mut entries: Vec<(String, Json)> = Vec::new();
    entries.push(("invoice".to_owned(), Json::Text("lnbcrt1p000000".to_owned())));
    proof {
        let listed = entry_trees(entries@);
        reveal_with_fuel(object_of, 2);
        assert(listed.drop_last() =~= Seq::empty());
    }
    Json::Object(entries)
}

proof fn lemma_request_reads_back(request: Request, treasury: Seq<char>)
    ensures
        reads_back(
            request_tree(method_of(request), params_of(request, treasury)),
            MAX_DEPTH as nat,
        ),
{
    reveal_with_fuel(reads_back, 4);
}

impl Scenario {
    /// The scenario as it stands.
    pub closed spec fn view(&self) -> ScenarioView {
        ScenarioView {
            kind: self.kind,
            relay: self.relay@,
            cast: self.cast,
            terms: self.terms,
            chains: chain_views(self.chains@),
            script: self.script@,
            at: self.at as nat,
            failure: match self.failure {
                Some(failure) => Some(failure@),
                None => None,
            },
        }
    }

    #[verifier::type_invariant]
    spec fn well_formed(self) -> bool {
        &&& self.at <= self.script@.len()
        &&& forall|i: int|
            0 <= i < self.script@.len() ==> (#[trigger] self.script@[i]).chain < self.chains@.len()
    }

    /// What to do next, or `None` where the scenario is over.
    pub fn action(&self) -> (r: Option<Action>)
        ensures
            r is Some <==> self@.running(),
            r matches Some(action) ==> does(self@, action),
    {
        proof {
            use_type_invariant(self);
        }
        if self.failure.is_some() || self.at == self.script.len() {
            return None;
        }
        let step = self.script[self.at];
        let chain = &self.chains[step.chain];
        let index: usize = step.chain;
        let action = match step.act {
            Act::NewAddress => Action::NewAddress { chain: index },
            Act::Premine => Action::Mine { chain: index, blocks: PREMINE, to: chain.miner.clone() },
            Act::CreateTreasury => Action::CreateWallet {
                chain: index,
                name: "treasury".to_owned(),
            },
            Act::Launch => Action::Launch { chain: index, launch: self.launch(chain) },
            Act::Grant { by, to, profile } => Action::Publish(self.publish(chain, by, to, profile)),
            Act::TreasuryAddress => Action::Rpc {
                chain: index,
                wallet: "treasury".to_owned(),
                method: "getnewaddress".to_owned(),
                params: write_address_params(),
            },
            Act::Ask { by, request, .. } => Action::Call(self.request(chain, by, request)),
            Act::Mine => Action::Mine { chain: index, blocks: 1, to: chain.miner.clone() },
            Act::Before | Act::After => {
                let items: Vec<Json> = Vec::new();
                proof {
                    assert(trees(items@) =~= Seq::empty());
                }
                Action::Rpc {
                    chain: index,
                    wallet: "treasury".to_owned(),
                    method: "getbalance".to_owned(),
                    params: Json::Array(items),
                }
            },
            Act::Grown => Action::Weigh {
                chain: index,
                before: chain.before.clone(),
                after: chain.after.clone(),
            },
        };
        Some(action)
    }

    /// How the faucet of a chain is started.
    fn launch(&self, chain: &Chain) -> (r: Launch)
        ensures
            launches(self@, chain@, r),
    {
        let config = config::faucet_toml(
            self.relay.as_str(),
            chain.faucet.to_secret_hex().as_str(),
            &self.cast.keys(Role::Owner).public_key(),
            chain.node.rpc_port,
            chain.node.rpc_user.as_str(),
            chain.node.rpc_password.as_str(),
            chain.label.as_str(),
            self.terms.total_cap_sats,
            self.terms.window_secs,
        );
        let directory = if self.terms.own_directory {
            Some(chain.label.clone())
        } else {
            None
        };
        let name = if self.terms.own_directory {
            chain.label.clone().concat("-faucet")
        } else {
            "faucet".to_owned()
        };
        Launch { directory, file: "faucet.toml".to_owned(), config, name, wait_secs: LAUNCH_SECS }
    }

    /// The publication of a grant.
    fn publish(&self, chain: &Chain, by: Role, to: Target, profile: Profile) -> (r: Publication)
        ensures
            r@ == (PublicationView {
                relay: self@.relay,
                secret: self@.cast.secret(by),
                draft: grant_draft(
                    self@.kind,
                    chain@.faucet(),
                    controller_of(self@, to),
                    profile_text(profile, self@.terms.window_secs),
                ),
                phase: PublicationPhase::Connect,
                error: Seq::empty(),
            }),
    {
        let granter = self.cast.keys(by);
        let faucet = chain.faucet.public_key();
        let text = script::write_profile(profile, self.terms.window_secs);
        match to {
            Target::Key(role) => grant::publish_grant(
                self.kind,
                &granter,
                &faucet,
                &self.cast.keys(role).public_key(),
                text.as_str(),
                self.relay.as_str(),
            ),
            Target::Others => grant::publish_grant_for(
                self.kind,
                &granter,
                &faucet,
                "OTHERS",
                text.as_str(),
                self.relay.as_str(),
            ),
        }
    }

    /// A call of the faucet.
    fn request(&self, chain: &Chain, by: Role, request: Request) -> (r: Call)
        ensures
            ({
                let tree = request_tree(method_of(request), params_of(request, chain@.treasury));
                &&& r@ == CallView {
                    relay: self@.relay,
                    secret: self@.cast.secret(by),
                    faucet: chain@.faucet(),
                    payload: json_text(tree),
                    phase: CallPhaseView::Start,
                }
                &&& reads(json_text(tree), tree)
            }),
    {
        let us = self.cast.keys(by);
        let faucet = chain.faucet.public_key();
        proof {
            lemma_request_reads_back(request, chain@.treasury);
        }
        match request {
            Request::Coin => nwc::ask(
                self.relay.as_str(),
                &us,
                &faucet,
                chain.treasury.as_str(),
                ONE_COIN_SAT,
            ),
            Request::Invoice => nwc::call(
                self.relay.as_str(),
                &us,
                &faucet,
                "pay_invoice",
                write_invoice_params(),
            ),
            Request::Info => {
                let entries: Vec<(String, Json)> = Vec::new();
                proof {
                    assert(entry_trees(entries@) =~= Seq::empty());
                }
                nwc::call(self.relay.as_str(), &us, &faucet, "get_info", Json::Object(entries))
            },
        }
    }

    /// Tells the scenario what came of what it was to do.
    pub fn tell(&mut self, outcome: Outcome)
        ensures
            final(self)@ == told(old(self)@, outcome@),
    {
        proof {
            use_type_invariant(&*self);
        }
        if self.failure.is_some() || self.at == self.script.len() {
            return;
        }
        let step = self.script[self.at];
        let index: usize = step.chain;
        match settle(step.act, self.chains[index].label.as_str(), outcome) {
            Ok(note) => {
                let ghost given = note;
                match note {
                    Note::Nothing => {},
                    Note::Miner(text) => {
                        self.chains[index].miner = text;
                    },
                    Note::Treasury(text) => {
                        self.chains[index].treasury = text;
                    },
                    Note::Before(text) => {
                        self.chains[index].before = text;
                    },
                    Note::After(text) => {
                        self.chains[index].after = text;
                    },
                }
                self.at = self.at + 1;
                proof {
                    let chain = old(self)@.chain();
                    assert(self.chains@[index as int]@ == with_note(chain, given));
                    assert(self@.chains =~= told(old(self)@, outcome@).chains);
                }
            },
            Err(failure) => {
                self.failure = Some(failure);
            },
        }
    }

    /// How many steps are done.
    pub fn done(&self) -> (r: usize)
        ensures
            r == self@.at,
    {
        self.at
    }

    /// The step that is next, with the label of its chain, or `None` where the scenario is
    /// over.
    pub fn step(&self) -> (r: Option<(Step, &str)>)
        ensures
            r is Some <==> self@.running(),
            r matches Some((step, label)) ==> step == self@.step() && label@
                == self@.chain().label,
    {
        proof {
            use_type_invariant(self);
        }
        if self.failure.is_some() || self.at == self.script.len() {
            return None;
        }
        let step = self.script[self.at];
        Some((step, self.chains[step.chain].label.as_str()))
    }

    /// Who takes part.
    pub fn cast(&self) -> (r: Cast)
        ensures
            r == self@.cast,
    {
        self.cast
    }

    /// Why the scenario failed, if it did.
    pub fn failure(&self) -> (r: Option<&Failure>)
        ensures
            r is Some <==> self@.failure is Some,
            r matches Some(failure) ==> self@.failure == Some(failure@),
    {
        match &self.failure {
            Some(failure) => Some(failure),
            None => None,
        }
    }
}

/// A scenario that has not begun: nothing was noted, nothing failed, and the faucet of
/// each chain has keys.
pub open spec fn fresh(s: ScenarioView) -> bool {
    &&& s.at == 0
    &&& s.failure is None
    &&& forall|i: int|
        0 <= i < s.chains.len() ==> {
            let chain = #[trigger] s.chains[i];
            &&& is_secret(chain.secret)
            &&& chain.miner.len() == 0
            &&& chain.treasury.len() == 0
            &&& chain.before.len() == 0
            &&& chain.after.len() == 0
        }
}

/// Whether a chain has this label and this node.
pub open spec fn is_chain(chain: ChainView, label: Seq<char>, node: Node) -> bool {
    &&& chain.label == label
    &&& chain.rpc_port == node.rpc_port
    &&& chain.rpc_user == node.rpc_user@
    &&& chain.rpc_password == node.rpc_password@
}

impl Scenario {
    /// A scenario that follows `script`, on one chain per label and node. The faucet
    /// of each chain has the keys that come with them.
    pub(crate) fn new(
        kind: u16,
        relay: &str,
        cast: Cast,
        terms: Terms,
        nodes: Vec<(&str, Node, Keys)>,
        script: Vec<Step>,
    ) -> (r: Scenario)
        requires
            forall|i: int|
                0 <= i < script@.len() ==> (#[trigger] script@[i]).chain < nodes@.len(),
        ensures
            fresh(r@),
            r@.kind == kind,
            r@.relay == relay@,
            r@.cast == cast,
            r@.terms == terms,
            r@.script == script@,
            r@.chains.len() == nodes@.len(),
            forall|i: int|
                0 <= i < nodes@.len() ==> is_chain(
                    #[trigger] r@.chains[i],
                    nodes@[i].0@,
                    nodes@[i].1,
                ),
            forall|i: int|
                0 <= i < nodes@.len() ==> (#[trigger] r@.chains[i]).secret
                    == nodes@[i].2.secret(),
    {
        let mut chains: Vec<Chain> = Vec::new();
        for entry in it: nodes
            invariant
                it.seq() == nodes@,
                chains@.len() == it.index(),
                forall|i: int|
                    0 <= i < chains@.len() ==> {
                        let chain = (#[trigger] chains@[i])@;
                        &&& is_chain(chain, nodes@[i].0@, nodes@[i].1)
                        &&& chain.secret == nodes@[i].2.secret()
                        &&& is_secret(chain.secret)
                        &&& chain.miner.len() == 0
                        &&& chain.treasury.len() == 0
                        &&& chain.before.len() == 0
                        &&& chain.after.len() == 0
                    },
        {
            chains.push(
                Chain {
                    label: entry.0.to_owned(),
                    node: entry.1,
                    faucet: entry.2.same(),
                    miner: String::new(),
                    treasury: String::new(),
                    before: String::new(),
                    after: String::new(),
                },
            );
        }
        Scenario { kind, relay: relay.to_owned(), cast, terms, chains, script, at: 0, failure: None }
    }
}

/// Whether every step of a scenario is on one of its chains.
pub open spec fn placed(s: ScenarioView) -> bool {
    forall|i: int| 0 <= i < s.script.len() ==> (#[trigger] s.script[i]).chain < s.chains.len()
}

/// The scenario after it was told of these outcomes, one after the other.
pub open spec fn ran(s: ScenarioView, outcomes: Seq<OutcomeView>) -> ScenarioView
    decreases outcomes.len(),
{
    if outcomes.len() == 0 {
        s
    } else {
        told(ran(s, outcomes.drop_last()), outcomes.last())
    }
}

/// The state in which step `index` is next, where every expectation before it was met.
pub open spec fn at_step(s: ScenarioView, outcomes: Seq<OutcomeView>, index: int) -> ScenarioView {
    ran(s, outcomes.take(index))
}

/// Whether the first `count` outcomes are what was expected.
pub open spec fn met_so_far(s: ScenarioView, outcomes: Seq<OutcomeView>, count: int) -> bool {
    forall|i: int| 0 <= i < count ==> meets((#[trigger] s.script[i]).act, outcomes[i])
}

/// A scenario stays what it is: whatever it is told, the parties, the terms, the script
/// and each chain's label, node and faucet are the same after.
pub proof fn law_scenario_keeps_its_terms(s: ScenarioView, outcomes: Seq<OutcomeView>)
    requires
        placed(s),
    ensures
        ({
            let after = ran(s, outcomes);
            &&& after.kind == s.kind
            &&& after.relay == s.relay
            &&& after.cast == s.cast
            &&& after.terms == s.terms
            &&& after.script == s.script
            &&& after.chains.len() == s.chains.len()
            &&& forall|i: int|
                0 <= i < s.chains.len() ==> (#[trigger] after.chains[i]) == (ChainView {
                    miner: after.chains[i].miner,
                    treasury: after.chains[i].treasury,
                    before: after.chains[i].before,
                    after: after.chains[i].after,
                    ..s.chains[i]
                })
        }),
    decreases outcomes.len(),
{
    if outcomes.len() > 0 {
        law_scenario_keeps_its_terms(s, outcomes.drop_last());
    }
}

/// As long as every expectation is met, a scenario goes on, one step for each outcome.
proof fn lemma_goes_on(s: ScenarioView, outcomes: Seq<OutcomeView>)
    requires
        fresh(s),
        placed(s),
        outcomes.len() <= s.script.len(),
        met_so_far(s, outcomes, outcomes.len() as int),
    ensures
        ran(s, outcomes).failure is None,
        ran(s, outcomes).at == outcomes.len(),
    decreases outcomes.len(),
{
    if outcomes.len() > 0 {
        let rest = outcomes.drop_last();
        assert(met_so_far(s, rest, rest.len() as int));
        lemma_goes_on(s, rest);
        law_scenario_keeps_its_terms(s, rest);
        assert(meets(s.script[rest.len() as int].act, outcomes.last()));
    }
}

/// Where every expectation is met, a scenario stands before step `count` after as many
/// outcomes, and goes on from there with the next.
pub(crate) proof fn lemma_stands_at(s: ScenarioView, outcomes: Seq<OutcomeView>, count: int)
    requires
        fresh(s),
        placed(s),
        0 <= count < outcomes.len(),
        outcomes.len() <= s.script.len(),
        met_so_far(s, outcomes, outcomes.len() as int),
    ensures
        ({
            let now = ran(s, outcomes.take(count));
            let next = ran(s, outcomes.take(count + 1));
            &&& now.running()
            &&& now.at == count
            &&& now.script == s.script
            &&& now.chains.len() == s.chains.len()
            &&& next == told(now, outcomes[count])
            &&& next.chains == now.chains.update(
                s.script[count].chain as int,
                noted(
                    now.chains[s.script[count].chain as int],
                    s.script[count].act,
                    outcomes[count],
                ),
            )
        }),
{
    let head = outcomes.take(count);
    let longer = outcomes.take(count + 1);
    assert(met_so_far(s, head, count));
    lemma_goes_on(s, head);
    law_scenario_keeps_its_terms(s, head);
    assert(longer.drop_last() =~= head);
    assert(meets(s.script[count].act, outcomes[count]));
}

/// The first expectation that is not met fails the scenario, for its own reason, and
/// nothing that it is told later changes that.
pub proof fn law_first_failure_stays(s: ScenarioView, outcomes: Seq<OutcomeView>, first: int)
    requires
        fresh(s),
        0 <= first < s.script.len(),
        first < outcomes.len(),
        placed(s),
        met_so_far(s, outcomes, first),
        !meets(s.script[first].act, outcomes[first]),
    ensures
        ran(s, outcomes).at == first,
        ran(s, outcomes).failure == Some(
            failure_of(
                s.script[first].act,
                s.chains[s.script[first].chain as int].label,
                outcomes[first],
            ),
        ),
    decreases outcomes.len(),
{
    let rest = outcomes.drop_last();
    assert(met_so_far(s, rest, first));
    if first < rest.len() {
        law_first_failure_stays(s, rest, first);
    } else {
        lemma_goes_on(s, rest);
        law_scenario_keeps_its_terms(s, rest);
    }
}

/// A scenario passes where every expectation is met, and only there.
pub proof fn law_passes_where_all_is_met(s: ScenarioView, outcomes: Seq<OutcomeView>)
    requires
        fresh(s),
        outcomes.len() == s.script.len(),
        placed(s),
    ensures
        ran(s, outcomes).passed() <==> met_so_far(s, outcomes, outcomes.len() as int),
{
    if met_so_far(s, outcomes, outcomes.len() as int) {
        lemma_goes_on(s, outcomes);
        law_scenario_keeps_its_terms(s, outcomes);
    } else {
        let first = lemma_first_unmet(s, outcomes, outcomes.len() as int);
        law_first_failure_stays(s, outcomes, first);
    }
}

/// Where not every expectation is met, there is a first one that is not.
proof fn lemma_first_unmet(s: ScenarioView, outcomes: Seq<OutcomeView>, count: int) -> (first: int)
    requires
        0 <= count,
        !met_so_far(s, outcomes, count),
    ensures
        0 <= first < count,
        met_so_far(s, outcomes, first),
        !meets(s.script[first].act, outcomes[first]),
    decreases count,
{
    if met_so_far(s, outcomes, count - 1) {
        count - 1
    } else {
        lemma_first_unmet(s, outcomes, count - 1)
    }
}

/// A scenario ends: told as often as it has steps, it has passed or failed.
pub proof fn law_scenario_ends(s: ScenarioView, outcomes: Seq<OutcomeView>)
    requires
        fresh(s),
        outcomes.len() >= s.script.len(),
        placed(s),
    ensures
        !ran(s, outcomes).running(),
        ran(s, outcomes).passed() || ran(s, outcomes).failure is Some,
    decreases outcomes.len(),
{
    if outcomes.len() > s.script.len() {
        law_scenario_ends(s, outcomes.drop_last());
        law_scenario_keeps_its_terms(s, outcomes.drop_last());
    } else if met_so_far(s, outcomes, outcomes.len() as int) {
        law_passes_where_all_is_met(s, outcomes);
    } else {
        let first = lemma_first_unmet(s, outcomes, outcomes.len() as int);
        law_first_failure_stays(s, outcomes, first);
    }
}

/// What a scenario asks of a faucet, the faucet can read: whatever request is sent for the
/// call, the faucet's own keys open it, and it holds the method and the params of the step.
pub proof fn law_faucet_reads_the_step(
    s: ScenarioView,
    action: Action,
    call: Call,
    event: SignedEvent,
    by: Role,
    request: Request,
    check: Check,
)
    requires
        s.step().act == (Act::Ask { by, request, check }),
        action == Action::Call(call),
        does(s, action),
        is_secret(s.chain().secret),
        is_request(call@, event),
    ensures
        event.author@ == s.cast.public(by),
        nip44_open(s.chain().secret, event.author@, event.content@) matches Ok(plain)
            && reads(
            plain,
            request_tree(method_of(request), params_of(request, s.chain().treasury)),
        ),
{
    law_faucet_reads_request(
        call@,
        event,
        s.chain().secret,
        method_of(request),
        params_of(request, s.chain().treasury),
    );
}

/// What a scenario grants is what the step says: the event that is sent for the publication
/// is of the granter, carries the profile, and names the faucet and whom it is for.
pub proof fn law_grant_of_the_step(
    s: ScenarioView,
    action: Action,
    publication: Publication,
    event: SignedEvent,
    by: Role,
    to: Target,
    profile: Profile,
)
    requires
        s.step().act == (Act::Grant { by, to, profile }),
        action == Action::Publish(publication),
        does(s, action),
        event.signs(publication@.draft, publication@.secret),
    ensures
        event.author@ == s.cast.public(by),
        event.kind == s.kind,
        event.content@ == profile_text(profile, s.terms.window_secs),
        tag_texts(event.tags@).len() > 0,
        tag_texts(event.tags@)[0] == identifier_tag(
            grant_identifier(s.chain().faucet(), controller_of(s, to)),
        ),
{
    law_published_grant(
        event,
        s.cast.secret(by),
        s.kind,
        s.chain().faucet(),
        controller_of(s, to),
        profile_text(profile, s.terms.window_secs),
    );
}

/// What is done for each act that is not a grant or a call, on its own chain: the miner takes
/// an address, and a hundred and ten blocks, later one, are mined to the address that was
/// noted; the wallet `treasury` is created, and asked for an address, with no label and as
/// bech32, or for its balance; and the balances that were noted are weighed, the earlier first.
pub proof fn law_chain_acts_spelled_out(scenario: &Scenario, action: Action)
    requires
        call_ensures(Scenario::action, (scenario,), Some(action)),
    ensures
        scenario@.running(),
        scenario@.step().act == Act::NewAddress ==> action == (Action::NewAddress {
            chain: scenario@.step().chain,
        }),
        scenario@.step().act == Act::Premine ==> (action matches Action::Mine { chain, blocks, to }
            && chain == scenario@.step().chain && blocks == 110 && to@ == scenario@.chain().miner),
        scenario@.step().act == Act::Mine ==> (action matches Action::Mine { chain, blocks, to }
            && chain == scenario@.step().chain && blocks == 1 && to@ == scenario@.chain().miner),
        scenario@.step().act == Act::CreateTreasury ==> (action matches Action::CreateWallet {
            chain,
            name,
        } && chain == scenario@.step().chain && name@ == "treasury"@),
        scenario@.step().act == Act::TreasuryAddress ==> (action matches Action::Rpc {
            chain,
            wallet,
            method,
            params,
        } && chain == scenario@.step().chain && wallet@ == "treasury"@ && method@
            == "getnewaddress"@ && (params@ matches JsonTree::Array(items) && items.len() == 2
            && items[0] == JsonTree::Text(Seq::empty()) && items[1] == JsonTree::Text("bech32"@))),
        scenario@.step().act == Act::Before || scenario@.step().act == Act::After ==> (action
            matches Action::Rpc { chain, wallet, method, params } && chain
            == scenario@.step().chain && wallet@ == "treasury"@ && method@ == "getbalance"@ && (
        params@ matches JsonTree::Array(items) && items.len() == 0)),
        scenario@.step().act == Act::Grown ==> (action matches Action::Weigh {
            chain,
            before,
            after,
        } && chain == scenario@.step().chain && before@ == scenario@.chain().before && after@
            == scenario@.chain().after),
{
    reveal_strlit("");
    assert(""@ =~= Seq::empty());
}

/// How a faucet is started: from the file `faucet.toml`, after which three seconds are waited.
/// Where faucets have directories of their own, the directory is named after the chain, and so
/// is the process. The file holds the scenario's relay, the faucet's own secret key, the
/// owner's public key, the chain's node and label, and the scenario's cap and window.
pub proof fn law_launch_spelled_out(scenario: &Scenario, on_chain: usize, launch: Launch)
    requires
        call_ensures(
            Scenario::action,
            (scenario,),
            Some(Action::Launch { chain: on_chain, launch }),
        ),
        scenario@.step().act == Act::Launch,
        one_line(scenario@.relay),
        one_line(scenario@.chain().rpc_user),
        one_line(scenario@.chain().rpc_password),
        one_line(scenario@.chain().label),
    ensures
        on_chain == scenario@.step().chain,
        launch.file@ == "faucet.toml"@,
        launch.wait_secs == 3,
        scenario@.terms.own_directory ==> (launch.directory matches Some(directory) && directory@
            == scenario@.chain().label) && launch.name@ == scenario@.chain().label + "-faucet"@,
        !scenario@.terms.own_directory ==> launch.directory is None && launch.name@ == "faucet"@,
        lines(launch.config@)[2] == "relay = \""@ + scenario@.relay + "\""@,
        lines(launch.config@)[3] == "secret_key = \""@ + hex_text(scenario@.chain().secret)
            + "\""@,
        lines(launch.config@)[4] == "owners = [\""@ + hex_text(
            public_key_of(scenario@.cast.owner.secret()),
        ) + "\"]"@,
        lines(launch.config@)[8] == "rpc_port = "@ + decimal(scenario@.chain().rpc_port as nat),
        lines(launch.config@)[9] == "rpc_user = \""@ + scenario@.chain().rpc_user + "\""@,
        lines(launch.config@)[10] == "rpc_password = \""@ + scenario@.chain().rpc_password + "\""@,
        lines(launch.config@)[12] == "chain_label = \""@ + scenario@.chain().label + "\""@,
        lines(launch.config@)[15] == "amount = "@ + decimal(
            scenario@.terms.total_cap_sats as nat,
        ),
        lines(launch.config@)[16] == "per_secs = "@ + decimal(
            scenario@.terms.window_secs as nat,
        ),
        lines(launch.config@)[17] == "max_capacity = "@ + decimal(
            scenario@.terms.total_cap_sats as nat,
        ),
{
    let settings = settings_of(scenario@, scenario@.chain());
    lemma_hex_one_line(scenario@.chain().secret);
    law_config_lines(settings);
    law_config_spelled_out(settings);
}

/// A grant of a scenario is the granter's, for the one it names or for `OTHERS`, of this
/// chain's faucet, and holds the profile of its step, over the scenario's relay.
pub proof fn law_grant_spelled_out(
    scenario: &Scenario,
    publication: Publication,
    by: Role,
    to: Target,
    profile: Profile,
    role: Role,
    text: String,
)
    requires
        call_ensures(Scenario::action, (scenario,), Some(Action::Publish(publication))),
        scenario@.step().act == (Act::Grant { by, to, profile }),
        call_ensures(
            crate::script::write_profile,
            (profile, scenario@.terms.window_secs),
            text,
        ),
    ensures
        publication@.relay == scenario@.relay,
        publication@.secret == scenario@.cast.spec_keys(by).secret(),
        publication@.draft.kind == scenario@.kind,
        publication@.draft.content == text@,
        to == Target::Key(role) ==> publication@.draft.tags == seq![
            seq![
                seq!['d'],
                hex_text(public_key_of(scenario@.chain().secret)) + seq![':'] + hex_text(
                    public_key_of(scenario@.cast.spec_keys(role).secret()),
                ),
            ],
            seq![seq!['p'], hex_text(public_key_of(scenario@.chain().secret))],
        ],
        to == Target::Others ==> publication@.draft.tags == seq![
            seq![
                seq!['d'],
                hex_text(public_key_of(scenario@.chain().secret)) + seq![':'] + "OTHERS"@,
            ],
            seq![seq!['p'], hex_text(public_key_of(scenario@.chain().secret))],
        ],
        publication@.phase == PublicationPhase::Connect,
{
    reveal_strlit(":");
    assert(":"@ =~= seq![':']);
}

/// A call of a scenario is the asker's, to this chain's faucet, over the scenario's relay; a
/// coin is asked for as a hundred million sats to the address that the treasury of this chain
/// gave last, an invoice as the payment of it, and information with no params.
pub proof fn law_call_spelled_out(
    scenario: &Scenario,
    call: Call,
    by: Role,
    request: Request,
    check: Check,
)
    requires
        call_ensures(Scenario::action, (scenario,), Some(Action::Call(call))),
        scenario@.step().act == (Act::Ask { by, request, check }),
    ensures
        call@.relay == scenario@.relay,
        call@.secret == scenario@.cast.spec_keys(by).secret(),
        call@.faucet == public_key_of(scenario@.chain().secret),
        call@.phase == CallPhaseView::Start,
        crate::json::json_read(call@.payload) matches Ok(JsonTree::Object(members))
            && members.dom() == set!["method"@, "params"@] && (request == Request::Coin
            ==> members["method"@] == JsonTree::Text("pay_onchain"@) && (members["params"@]
            matches JsonTree::Object(params) && params.dom() == set!["address"@, "amount_sats"@]
            && params["address"@] == JsonTree::Text(scenario@.chain().treasury)
            && params["amount_sats"@] == JsonTree::Unsigned(100_000_000))) && (request
            == Request::Invoice ==> members["method"@] == JsonTree::Text("pay_invoice"@) && (
        members["params"@] matches JsonTree::Object(params) && params.dom() == set!["invoice"@]
            && params["invoice"@] == JsonTree::Text("lnbcrt1p000000"@))) && (request
            == Request::Info ==> members["method"@] == JsonTree::Text("get_info"@) && (
        members["params"@] matches JsonTree::Object(params) && params.dom()
            == Set::<Seq<char>>::empty())),
{
    law_requests_spelled_out(scenario@.chain().treasury);
    reveal_strlit("method");
    reveal_strlit("params");
    assert("method"@[0] != "params"@[0]);
    let tree = request_tree(method_of(request), params_of(request, scenario@.chain().treasury));
    assert(tree->Object_0.dom() =~= set!["method"@, "params"@]);
}

/// The last step before `count` that is this act on this chain, or -1 where there is none.
pub open spec fn latest(script: Seq<Step>, chain: usize, act: Act, count: int) -> int
    decreases count,
{
    if count <= 0 {
        -1
    } else if script[count - 1] == (Step { chain, act }) {
        count - 1
    } else {
        latest(script, chain, act, count - 1)
    }
}

/// What is noted of a chain is what came last: the address that the miner took, the address
/// that the treasury gave, and its balances before and after, each on its own chain, and
/// nothing that came of anything else.
pub proof fn law_what_came_last_is_noted(
    s: ScenarioView,
    outcomes: Seq<OutcomeView>,
    chain: usize,
)
    requires
        fresh(s),
        placed(s),
        outcomes.len() <= s.script.len(),
        met_so_far(s, outcomes, outcomes.len() as int),
        chain < s.chains.len(),
    ensures
        ({
            let now = ran(s, outcomes).chains[chain as int];
            let count = outcomes.len() as int;
            let miner = latest(s.script, chain, Act::NewAddress, count);
            let treasury = latest(s.script, chain, Act::TreasuryAddress, count);
            let before = latest(s.script, chain, Act::Before, count);
            let after = latest(s.script, chain, Act::After, count);
            &&& miner < count && treasury < count && before < count && after < count
            &&& miner >= 0 ==> outcomes[miner] == OutcomeView::Address(now.miner)
            &&& treasury >= 0 ==> (outcomes[treasury] matches OutcomeView::Answered(
                Ok(JsonTree::Text(address)),
            ) && address == now.treasury)
            &&& before >= 0 ==> (outcomes[before] matches OutcomeView::Answered(Ok(tree))
                && now.before == json_text(tree))
            &&& after >= 0 ==> (outcomes[after] matches OutcomeView::Answered(Ok(tree)) && now.after
                == json_text(tree))
            &&& now.label == s.chains[chain as int].label
            &&& now.secret == s.chains[chain as int].secret
        }),
    decreases outcomes.len(),
{
    law_scenario_keeps_its_terms(s, outcomes);
    if outcomes.len() > 0 {
        let rest = outcomes.drop_last();
        assert(met_so_far(s, rest, rest.len() as int));
        law_what_came_last_is_noted(s, rest, chain);
        lemma_goes_on(s, rest);
        law_scenario_keeps_its_terms(s, rest);
        assert(meets(s.script[rest.len() as int].act, outcomes.last()));
    }
}

/// What a scenario is told moves it one step on where it is what was expected, and fails it
/// otherwise; one that is over stays as it is.
pub proof fn law_told_moves_on_or_fails(s: ScenarioView, outcome: OutcomeView)
    ensures
        s.running() <==> s.failure is None && s.at < s.script.len(),
        s.passed() <==> s.failure is None && s.at == s.script.len(),
        !s.running() ==> told(s, outcome) == s,
        s.running() && meets(s.script[s.at as int].act, outcome) ==> told(s, outcome).at == s.at + 1
            && told(s, outcome).failure is None,
        s.running() && !meets(s.script[s.at as int].act, outcome) ==> told(s, outcome).at == s.at
            && told(s, outcome).chains == s.chains && told(s, outcome).failure == Some(
            failure_of(
                s.script[s.at as int].act,
                s.chains[s.script[s.at as int].chain as int].label,
                outcome,
            ),
        ),
        told(s, outcome).script == s.script,
        told(s, outcome).cast == s.cast,
        told(s, outcome).relay == s.relay,
        told(s, outcome).kind == s.kind,
        told(s, outcome).terms == s.terms,
{
}

/// A scenario shows where it stands: how far it has come, which step is next and on which
/// chain, who takes part, and why it failed.
pub proof fn law_scenario_shows_where_it_stands(
    scenario: &Scenario,
    done: usize,
    next: Option<(Step, &str)>,
    cast: Cast,
    failure: Option<&Failure>,
    action: Option<Action>,
)
    requires
        call_ensures(Scenario::done, (scenario,), done),
        call_ensures(Scenario::step, (scenario,), next),
        call_ensures(Scenario::cast, (scenario,), cast),
        call_ensures(Scenario::failure, (scenario,), failure),
        call_ensures(Scenario::action, (scenario,), action),
    ensures
        done == scenario@.at,
        next is Some <==> scenario@.failure is None && scenario@.at < scenario@.script.len(),
        action is Some <==> next is Some,
        next matches Some((step, label)) ==> step == scenario@.script[scenario@.at as int] && label@
            == scenario@.chains[step.chain as int].label,
        cast == scenario@.cast,
        failure is Some <==> scenario@.failure is Some,
        failure matches Some(f) ==> scenario@.failure == Some(f@),
{
}

}
