//! Asking a faucet that is already running somewhere.
//!
//! Nothing is spun up or torn down: the relay, the faucet and the chain outlive the one
//! who asks. A transaction id comes out, which is a promise, not money.

use crate::json::{
    entry_trees, json_text, member_of_member, reads, reads_back, text_of, Json, JsonTree,
};
use crate::keys::{is_secret, no_key_text, public_key_of, public_key_read, Keys, PublicKey};
use crate::nwc;
use crate::nwc::{
    ask_params, call_error_text, error_says, lemma_asks_payment, refusal, refusal_of, request_tree,
    Call, CallError, CallErrorView, CallPhaseView, CallView,
};
use vstd::prelude::*;
use vstd::string::*;

verus! {

/// A setting that has no default.
#[derive(Clone, Copy, Debug, PartialEq, Eq, Structural)]
pub enum Setting {
    Relay,
    Faucet,
    Address,
}

/// The name of a setting.
pub open spec fn setting_name(setting: Setting) -> Seq<char> {
    match setting {
        Setting::Relay => "FAUCET_RELAY"@,
        Setting::Faucet => "FAUCET_PUBKEY"@,
        Setting::Address => "DEST_ADDRESS"@,
    }
}

impl Setting {
    /// The name of the setting.
    pub fn name(&self) -> (r: String)
        ensures
            r@ == setting_name(*self),
    {
        match self {
            Setting::Relay => "FAUCET_RELAY".to_owned(),
            Setting::Faucet => "FAUCET_PUBKEY".to_owned(),
            Setting::Address => "DEST_ADDRESS".to_owned(),
        }
    }
}

/// Why no transaction id came out. Where something gave an error, the error's own words
/// come with it.
pub enum LiveError {
    /// A setting cannot be had.
    Unset(Setting, String),
    /// The faucet's public key is none.
    NotAKey(String),
    /// The faucet did not say what it implements.
    NoInfo(CallError),
    /// The amount is not a number.
    NotANumber(String),
    /// The faucet did not answer the request.
    NoReply(CallError),
    /// The faucet refused, with this message.
    Refused(String),
    /// The faucet answered without a transaction id.
    NoTxid,
}

/// Why no transaction id came out, with the words as values.
pub enum LiveErrorView {
    Unset(Setting, Seq<char>),
    NotAKey(Seq<char>),
    NoInfo(CallErrorView),
    NotANumber(Seq<char>),
    NoReply(CallErrorView),
    Refused(Seq<char>),
    NoTxid,
}

impl LiveError {
    /// The error, with the words as values.
    pub open spec fn view(&self) -> LiveErrorView {
        match self {
            LiveError::Unset(setting, words) => LiveErrorView::Unset(*setting, words@),
            LiveError::NotAKey(words) => LiveErrorView::NotAKey(words@),
            LiveError::NoInfo(error) => LiveErrorView::NoInfo(error@),
            LiveError::NotANumber(words) => LiveErrorView::NotANumber(words@),
            LiveError::NoReply(error) => LiveErrorView::NoReply(error@),
            LiveError::Refused(message) => LiveErrorView::Refused(message@),
            LiveError::NoTxid => LiveErrorView::NoTxid,
        }
    }

    /// The error in words.
    pub fn message(&self) -> (r: String)
        ensures
            r@ == live_error_text(self@),
    {
        match self {
            LiveError::Unset(setting, _) => setting.name().concat(
                " must be set — see the module docs",
            ),
            LiveError::NotAKey(_) => "FAUCET_PUBKEY is not a key".to_owned(),
            LiveError::NoInfo(_) =>
                "get_info failed — is the faucet running and on this relay?".to_owned(),
            LiveError::NotANumber(_) => "amount is not a number".to_owned(),
            LiveError::NoReply(error) => error.message(),
            LiveError::Refused(message) => "the faucet refused: ".to_owned().concat(
                message.as_str(),
            ),
            LiveError::NoTxid => "the faucet answered without a txid".to_owned(),
        }
    }

    /// What caused the error, in words, where something else did.
    pub fn cause(&self) -> (r: Option<String>)
        ensures
            r is Some <==> live_error_cause(self@) is Some,
            r matches Some(words) ==> live_error_cause(self@) == Some(words@),
    {
        match self {
            LiveError::Unset(_, words) => Some(words.clone()),
            LiveError::NotAKey(words) => Some(words.clone()),
            LiveError::NoInfo(error) => Some(error.message()),
            LiveError::NotANumber(words) => Some(words.clone()),
            _ => None,
        }
    }
}

/// What caused an error, where something else did.
pub open spec fn live_error_cause(error: LiveErrorView) -> Option<Seq<char>> {
    match error {
        LiveErrorView::Unset(_, words) => Some(words),
        LiveErrorView::NotAKey(words) => Some(words),
        LiveErrorView::NoInfo(error) => Some(call_error_text(error)),
        LiveErrorView::NotANumber(words) => Some(words),
        _ => None,
    }
}

/// What is said of an error.
pub open spec fn live_error_text(error: LiveErrorView) -> Seq<char> {
    match error {
        LiveErrorView::Unset(setting, _) => setting_name(setting)
            + " must be set — see the module docs"@,
        LiveErrorView::NotAKey(_) => "FAUCET_PUBKEY is not a key"@,
        LiveErrorView::NoInfo(_) => "get_info failed — is the faucet running and on this relay?"@,
        LiveErrorView::NotANumber(_) => "amount is not a number"@,
        LiveErrorView::NoReply(error) => call_error_text(error),
        LiveErrorView::Refused(message) => "the faucet refused: "@ + message,
        LiveErrorView::NoTxid => "the faucet answered without a txid"@,
    }
}

/// How far asking has come.
#[derive(Clone, Copy, Debug, PartialEq, Eq, Structural)]
pub enum LivePhase {
    Start,
    Informing,
    Counting,
    Asking,
    Over,
}

/// Somebody who asks a faucet.
pub struct Live {
    relay: String,
    asker: Keys,
    faucet: PublicKey,
    address: String,
    amount: String,
    phase: LivePhase,
}

/// Who asks which faucet for what, and how far they have come.
pub struct LiveView {
    pub relay: Seq<char>,
    /// The asker's secret key.
    pub secret: Seq<u8>,
    pub faucet: Seq<u8>,
    pub address: Seq<char>,
    /// How many coins, in decimal.
    pub amount: Seq<char>,
    pub phase: LivePhase,
}

/// What one who asks is told.
pub enum LiveEvent {
    /// They may begin.
    Begin,
    /// How the call ended.
    Called(Result<Json, CallError>),
    /// The amount in sats, or why it is not a number.
    Counted(Result<u64, String>),
}

/// What is to be done for one who asks.
pub enum LiveAction {
    /// Call the faucet.
    Call(Call),
    /// Show which network the faucet says it is on, and which methods it lists; and tell
    /// how many sats this amount of coins is.
    Count { network: String, methods: String, amount: String },
    /// Nothing more: this is the transaction id, or why there is none.
    Finish(Result<String, LiveError>),
}

/// The network that a reply to `get_info` names.
pub open spec fn network_of(info: JsonTree) -> Seq<char> {
    match text_of(member_of_member(info, "result"@, "network"@)) {
        Some(network) => network,
        None => "unknown"@,
    }
}

/// The methods that a reply to `get_info` lists, as JSON.
pub open spec fn methods_text(info: JsonTree) -> Seq<char> {
    match member_of_member(info, "result"@, "methods"@) {
        Some(methods) => json_text(methods),
        None => "none"@,
    }
}

/// The transaction id in a reply.
pub open spec fn txid_of(reply: JsonTree) -> Option<Seq<char>> {
    text_of(member_of_member(reply, "result"@, "txid"@))
}

/// The same, in another phase.
pub open spec fn live_in(live: LiveView, phase: LivePhase) -> LiveView {
    LiveView { phase, ..live }
}

/// Whether `call` is the asker's call of a method of the faucet.
pub open spec fn live_call(
    live: LiveView,
    method: Seq<char>,
    params: JsonTree,
    call: Call,
) -> bool {
    let tree = request_tree(method, params);
    &&& call@ == CallView {
        relay: live.relay,
        secret: live.secret,
        faucet: live.faucet,
        payload: json_text(tree),
        phase: CallPhaseView::Start,
    }
    &&& reads(json_text(tree), tree)
}

/// Whether one who asks, and is told `event`, goes from `before` to `after` and does
/// `action`.
pub open spec fn live_step(
    before: LiveView,
    event: LiveEvent,
    after: LiveView,
    action: LiveAction,
) -> bool {
    let fails = |error: LiveErrorView|
        after == live_in(before, LivePhase::Over) && (action matches LiveAction::Finish(Err(e))
            && e@ == error);
    match (before.phase, event) {
        (LivePhase::Start, LiveEvent::Begin) => {
            &&& after == live_in(before, LivePhase::Informing)
            &&& action matches LiveAction::Call(call)
            &&& live_call(before, "get_info"@, JsonTree::Object(Map::empty()), call)
        },
        (LivePhase::Informing, LiveEvent::Called(Ok(info))) => {
            &&& after == live_in(before, LivePhase::Counting)
            &&& action matches LiveAction::Count { network, methods, amount }
            &&& network@ == network_of(info@)
            &&& methods@ == methods_text(info@)
            &&& amount@ == before.amount
        },
        (LivePhase::Informing, LiveEvent::Called(Err(error))) => fails(
            LiveErrorView::NoInfo(error@),
        ),
        (LivePhase::Counting, LiveEvent::Counted(Ok(sats))) => {
            &&& after == live_in(before, LivePhase::Asking)
            &&& action matches LiveAction::Call(call)
            &&& live_call(before, "pay_onchain"@, ask_params(before.address, sats), call)
        },
        (LivePhase::Counting, LiveEvent::Counted(Err(words))) => fails(
            LiveErrorView::NotANumber(words@),
        ),
        (LivePhase::Asking, LiveEvent::Called(Ok(reply))) => match refusal_of(reply@) {
            Some(message) => fails(LiveErrorView::Refused(message)),
            None => match txid_of(reply@) {
                Some(txid) => {
                    &&& after == live_in(before, LivePhase::Over)
                    &&& action matches LiveAction::Finish(Ok(id))
                    &&& id@ == txid
                },
                None => fails(LiveErrorView::NoTxid),
            },
        },
        (LivePhase::Asking, LiveEvent::Called(Err(error))) => fails(
            LiveErrorView::NoReply(error@),
        ),
        _ => fails(LiveErrorView::NoReply(CallErrorView::OutOfTurn)),
    }
}

/// What is wrong with the settings: the first that cannot be had, in the order relay,
/// faucet, address, or that the faucet's key is none.
pub open spec fn settings_error(
    relay: Result<String, String>,
    faucet: Result<String, String>,
    address: Result<String, String>,
) -> Option<LiveErrorView> {
    match (relay, faucet, address) {
        (Err(words), _, _) => Some(LiveErrorView::Unset(Setting::Relay, words@)),
        (Ok(_), Err(words), _) => Some(LiveErrorView::Unset(Setting::Faucet, words@)),
        (Ok(_), Ok(key), address) => if public_key_read(key@) is None {
            Some(LiveErrorView::NotAKey(no_key_text()))
        } else {
            match address {
                Err(words) => Some(LiveErrorView::Unset(Setting::Address, words@)),
                Ok(_) => None,
            }
        },
    }
}

impl Live {
    /// Who asks which faucet for what, and how far they have come.
    pub closed spec fn view(&self) -> LiveView {
        LiveView {
            relay: self.relay@,
            secret: self.asker.secret(),
            faucet: self.faucet@,
            address: self.address@,
            amount: self.amount@,
            phase: self.phase,
        }
    }

    /// Somebody who asks, with fresh keys: on an open policy that is what any new
    /// participant looks like. Each setting comes as it was found, or with the words of
    /// why it cannot be had. An amount that is not set is one coin.
    pub fn new(
        relay: Result<String, String>,
        faucet: Result<String, String>,
        address: Result<String, String>,
        amount: Option<String>,
    ) -> (r: Result<Live, LiveError>)
        ensures
            r is Ok <==> settings_error(relay, faucet, address) is None,
            r matches Err(error) ==> settings_error(relay, faucet, address) == Some(error@),
            r matches Ok(live) ==> {
                &&& live@.relay == relay->Ok_0@
                &&& is_secret(live@.secret)
                &&& public_key_read(faucet->Ok_0@) == Some(live@.faucet)
                &&& live@.address == address->Ok_0@
                &&& live@.amount == (match amount {
                    Some(text) => text@,
                    None => "1"@,
                })
                &&& live@.phase == LivePhase::Start
            },
    {
        let relay = match relay {
            Ok(text) => text,
            Err(words) => return Err(LiveError::Unset(Setting::Relay, words)),
        };
        let key = match faucet {
            Ok(text) => text,
            Err(words) => return Err(LiveError::Unset(Setting::Faucet, words)),
        };
        let faucet = match PublicKey::parse(key.as_str()) {
            Ok(parsed) => parsed,
            Err(words) => return Err(LiveError::NotAKey(words)),
        };
        let address = match address {
            Ok(text) => text,
            Err(words) => return Err(LiveError::Unset(Setting::Address, words)),
        };
        let amount = match amount {
            Some(text) => text,
            None => "1".to_owned(),
        };
        Ok(
            Live { relay, asker: Keys::generate(), faucet, address, amount, phase: LivePhase::Start },
        )
    }

    /// Tells one who asks what happened, and learns what to do about it.
    pub fn step(&mut self, event: LiveEvent) -> (action: LiveAction)
        ensures
            live_step(old(self)@, event, final(self)@, action),
    {
        let phase = self.phase;
        self.phase = LivePhase::Over;
        match (phase, event) {
            (LivePhase::Start, LiveEvent::Begin) => {
                self.phase = LivePhase::Informing;
                LiveAction::Call(self.inform())
            },
            (LivePhase::Informing, LiveEvent::Called(Ok(info))) => {
                self.phase = LivePhase::Counting;
                LiveAction::Count {
                    network: network(&info),
                    methods: methods(&info),
                    amount: self.amount.clone(),
                }
            },
            (LivePhase::Informing, LiveEvent::Called(Err(error))) => LiveAction::Finish(
                Err(LiveError::NoInfo(error)),
            ),
            (LivePhase::Counting, LiveEvent::Counted(Ok(sats))) => {
                self.phase = LivePhase::Asking;
                LiveAction::Call(
                    nwc::ask(
                        self.relay.as_str(),
                        &self.asker,
                        &self.faucet,
                        self.address.as_str(),
                        sats,
                    ),
                )
            },
            (LivePhase::Counting, LiveEvent::Counted(Err(words))) => LiveAction::Finish(
                Err(LiveError::NotANumber(words)),
            ),
            (LivePhase::Asking, LiveEvent::Called(Ok(reply))) => LiveAction::Finish(paid(&reply)),
            (LivePhase::Asking, LiveEvent::Called(Err(error))) => LiveAction::Finish(
                Err(LiveError::NoReply(error)),
            ),
            _ => LiveAction::Finish(Err(LiveError::NoReply(CallError::OutOfTurn))),
        }
    }

    /// The public key of the one who asks.
    pub fn asker(&self) -> (r: PublicKey)
        ensures
            r@ == public_key_of(self@.secret),
    {
        self.asker.public_key()
    }

    /// The public key of the faucet.
    pub fn faucet(&self) -> (r: PublicKey)
        ensures
            r@ == self@.faucet,
    {
        self.faucet
    }

    /// The call that asks what the faucet can do.
    fn inform(&self) -> (r: Call)
        ensures
            live_call(self@, "get_info"@, JsonTree::Object(Map::empty()), r),
    {
        let entries: Vec<(String, Json)> = Vec::new();
        proof {
            assert(entry_trees(entries@) =~= Seq::empty());
            reveal_with_fuel(reads_back, 3);
        }
        nwc::call(
            self.relay.as_str(),
            &self.asker,
            &self.faucet,
            "get_info",
            Json::Object(entries),
        )
    }
}

fn network(info: &Json) -> (r: String)
    ensures
        r@ == network_of(info@),
{
    let named = match info.get_in("result", "network") {
        Some(value) => value.as_text(),
        None => None,
    };
    match named {
        Some(text) => text,
        None => "unknown".to_owned(),
    }
}

fn methods(info: &Json) -> (r: String)
    ensures
        r@ == methods_text(info@),
{
    match info.get_in("result", "methods") {
        Some(value) => value.to_text(),
        None => "none".to_owned(),
    }
}

/// The transaction id in a reply, or why there is none.
pub fn paid(reply: &Json) -> (r: Result<String, LiveError>)
    ensures
        r is Ok <==> refusal_of(reply@) is None && txid_of(reply@) is Some,
        r matches Ok(txid) ==> txid_of(reply@) == Some(txid@),
        r matches Err(error) ==> error@ == (match refusal_of(reply@) {
            Some(message) => LiveErrorView::Refused(message),
            None => LiveErrorView::NoTxid,
        }),
{
    match refusal(reply) {
        Some(message) => Err(LiveError::Refused(message)),
        None => match reply.get_in("result", "txid") {
            Some(value) => match value.as_text() {
                Some(txid) => Ok(txid),
                None => Err(LiveError::NoTxid),
            },
            None => Err(LiveError::NoTxid),
        },
    }
}

/// One who asks stays who they are: no step changes the relay, the keys, the faucet, the
/// address or the amount.
pub proof fn law_asker_stays(
    before: LiveView,
    event: LiveEvent,
    after: LiveView,
    action: LiveAction,
)
    requires
        live_step(before, event, after, action),
    ensures
        after == live_in(before, after.phase),
{
}

/// A transaction id comes out only of a reply to the request for payment that has it and
/// is no refusal.
pub proof fn law_txid_is_the_faucets(
    before: LiveView,
    event: LiveEvent,
    after: LiveView,
    txid: String,
)
    requires
        live_step(before, event, after, LiveAction::Finish(Ok(txid))),
    ensures
        before.phase == LivePhase::Asking,
        event matches LiveEvent::Called(Ok(reply)) && refusal_of(reply@) is None && txid_of(reply@)
            == Some(txid@),
{
}

/// Nothing is asked of a faucet before it has said what it can do: the request for payment
/// comes after a reply to `get_info`, never before.
pub proof fn law_informed_before_asking(
    before: LiveView,
    event: LiveEvent,
    after: LiveView,
    action: LiveAction,
)
    requires
        live_step(before, event, after, action),
    ensures
        after.phase == LivePhase::Asking ==> before.phase == LivePhase::Counting,
        after.phase == LivePhase::Counting ==> before.phase == LivePhase::Informing && (event
            matches LiveEvent::Called(reply) && reply is Ok),
{
}

/// Whether a value is an object with a member `result` that is an object with the member
/// `key`, and that is this value.
pub open spec fn result_holds(reply: JsonTree, key: Seq<char>, value: JsonTree) -> bool {
    &&& reply matches JsonTree::Object(outer)
    &&& outer.dom().contains("result"@)
    &&& outer["result"@] matches JsonTree::Object(inner)
    &&& inner.dom().contains(key)
    &&& inner[key] == value
}

/// The payment that is asked for goes to the destination that was set, from the keys that
/// asked from the start, to the faucet that was set, over the relay that was set: one who was
/// made with these settings first calls `get_info`, with no params, and then asks for the
/// payment of as many sats as they were told, to that address, and for nothing else.
pub proof fn law_payment_goes_to_the_destination(
    relay: Result<String, String>,
    faucet: Result<String, String>,
    address: Result<String, String>,
    amount: Option<String>,
    live: Live,
    informing: LiveView,
    first: LiveAction,
    info: Json,
    counting: LiveView,
    second: LiveAction,
    sats: u64,
    asking: LiveView,
    third: LiveAction,
)
    requires
        call_ensures(Live::new, (relay, faucet, address, amount), Ok::<Live, LiveError>(live)),
        live_step(live@, LiveEvent::Begin, informing, first),
        live_step(informing, LiveEvent::Called(Ok(info)), counting, second),
        live_step(counting, LiveEvent::Counted(Ok(sats)), asking, third),
    ensures
        first matches LiveAction::Call(call) && call@.relay == relay->Ok_0@ && call@.secret
            == live@.secret && public_key_read(faucet->Ok_0@) == Some(call@.faucet) && (
        crate::json::json_read(call@.payload) matches Ok(JsonTree::Object(request))
            && request.dom() == set!["method"@, "params"@] && request["method"@]
            == JsonTree::Text("get_info"@) && request["params"@] == JsonTree::Object(Map::empty())),
        second matches LiveAction::Count { amount: coins, .. } && coins@ == (match amount {
            Some(text) => text@,
            None => seq!['1'],
        }),
        third matches LiveAction::Call(call) && call@.relay == relay->Ok_0@ && call@.secret
            == live@.secret && public_key_read(faucet->Ok_0@) == Some(call@.faucet) && (
        crate::json::json_read(call@.payload) matches Ok(JsonTree::Object(request))
            && request.dom() == set!["method"@, "params"@] && request["method"@]
            == JsonTree::Text("pay_onchain"@) && (request["params"@] matches JsonTree::Object(
            params,
        ) && params.dom() == set!["address"@, "amount_sats"@] && params["address"@]
            == JsonTree::Text(address->Ok_0@) && params["amount_sats"@] == JsonTree::Unsigned(
            sats,
        ))),
{
    reveal_strlit("1");
    assert("1"@ =~= seq!['1']);
    reveal_strlit("method");
    reveal_strlit("params");
    assert("method"@[0] != "params"@[0]);
    let nothing = JsonTree::Object(Map::<Seq<char>, JsonTree>::empty());
    assert(request_tree("get_info"@, nothing)->Object_0.dom() =~= set!["method"@, "params"@]);
    lemma_asks_payment(address->Ok_0@, sats);
}

/// What the faucet says of itself is told as it says it: its network, or `unknown`; its
/// methods, as JSON, or `none`.
pub proof fn law_info_is_told_as_it_is(
    before: LiveView,
    info: Json,
    after: LiveView,
    action: LiveAction,
    name: Seq<char>,
    listed: JsonTree,
)
    requires
        before.phase == LivePhase::Informing,
        live_step(before, LiveEvent::Called(Ok(info)), after, action),
    ensures
        action matches LiveAction::Count { network, methods, .. } && (result_holds(
            info@,
            "network"@,
            JsonTree::Text(name),
        ) ==> network@ == name) && ((forall|other: Seq<char>|
            !#[trigger] result_holds(info@, "network"@, JsonTree::Text(other))) ==> network@
            == "unknown"@) && (result_holds(info@, "methods"@, listed) ==> methods@ == json_text(
            listed,
        )) && ((forall|other: JsonTree| !#[trigger] result_holds(info@, "methods"@, other))
            ==> methods@ == "none"@),
        after.phase == LivePhase::Counting,
{
    let network = member_of_member(info@, "result"@, "network"@);
    let methods = member_of_member(info@, "result"@, "methods"@);
    match network {
        Some(JsonTree::Text(s)) => {
            assert(result_holds(info@, "network"@, JsonTree::Text(s)));
        },
        _ => {},
    }
    if methods is Some {
        assert(result_holds(info@, "methods"@, methods->0));
    }
}

/// What comes of a reply to the request for payment: a message in its error is a refusal, and
/// is told, whatever else it holds; otherwise the text `result.txid` comes out, if there is
/// one.
pub proof fn law_paid_tells_refusal_or_txid(
    reply: &Json,
    r: Result<String, LiveError>,
    m: Seq<char>,
    id: Seq<char>,
)
    requires
        call_ensures(paid, (reply,), r),
    ensures
        error_says(reply@, "message"@, m) ==> (r matches Err(LiveError::Refused(message)) && message@
            == m),
        (r matches Ok(txid) && txid@ == id) <==> ((forall|other: Seq<char>|
            !#[trigger] error_says(reply@, "message"@, other)) && result_holds(
            reply@,
            "txid"@,
            JsonTree::Text(id),
        )),
        r matches Err(error) ==> error is Refused || error is NoTxid,
{
    if refusal_of(reply@) is Some {
        assert(error_says(reply@, "message"@, refusal_of(reply@)->0));
    }
}

/// What an asker does on each reply: the errors come with their causes, and what the payment
/// comes to is what the reply says.
pub proof fn law_asker_tells_what_came(
    before: LiveView,
    event: LiveEvent,
    after: LiveView,
    action: LiveAction,
    m: Seq<char>,
    id: Seq<char>,
)
    requires
        live_step(before, event, after, action),
    ensures
        before.phase == LivePhase::Informing ==> (event matches LiveEvent::Called(Err(e)) ==> (action
            matches LiveAction::Finish(Err(error)) && error@ == LiveErrorView::NoInfo(e@))),
        before.phase == LivePhase::Counting ==> (event matches LiveEvent::Counted(Err(words)) ==> (
        action matches LiveAction::Finish(Err(error)) && error@ == LiveErrorView::NotANumber(
            words@,
        ))),
        before.phase == LivePhase::Asking ==> (event matches LiveEvent::Called(Err(e)) ==> (action
            matches LiveAction::Finish(Err(error)) && error@ == LiveErrorView::NoReply(e@))),
        before.phase == LivePhase::Asking ==> (event matches LiveEvent::Called(Ok(reply)) ==> (
        error_says(reply@, "message"@, m) ==> (action matches LiveAction::Finish(Err(error))
            && error@ == LiveErrorView::Refused(m)))),
        before.phase == LivePhase::Asking ==> (event matches LiveEvent::Called(Ok(reply)) ==> ((
        forall|other: Seq<char>| !#[trigger] error_says(reply@, "message"@, other)) && result_holds(
            reply@,
            "txid"@,
            JsonTree::Text(id),
        ) ==> (action matches LiveAction::Finish(Ok(txid)) && txid@ == id))),
{
    match event {
        LiveEvent::Called(Ok(reply)) => {
            if refusal_of(reply@) is Some {
                assert(error_says(reply@, "message"@, refusal_of(reply@)->0));
            }
        },
        _ => {},
    }
}

/// What is wrong with the settings is told of the first that is wrong, with its cause.
pub proof fn law_settings_are_looked_at_in_order(
    relay: Result<String, String>,
    faucet: Result<String, String>,
    address: Result<String, String>,
    amount: Option<String>,
    r: Result<Live, LiveError>,
)
    requires
        call_ensures(Live::new, (relay, faucet, address, amount), r),
    ensures
        relay matches Err(words) ==> (r matches Err(e) && e@ == LiveErrorView::Unset(
            Setting::Relay,
            words@,
        )),
        relay is Ok ==> (faucet matches Err(words) ==> (r matches Err(e) && e@
            == LiveErrorView::Unset(Setting::Faucet, words@))),
        relay is Ok && faucet is Ok && public_key_read(faucet->Ok_0@) is None ==> (r matches Err(e)
            && e@ == LiveErrorView::NotAKey("Invalid public key"@)),
        relay is Ok && faucet is Ok && public_key_read(faucet->Ok_0@) is Some ==> (address
            matches Err(words) ==> (r matches Err(e) && e@ == LiveErrorView::Unset(
            Setting::Address,
            words@,
        ))),
        r is Ok <==> relay is Ok && faucet is Ok && public_key_read(faucet->Ok_0@) is Some
            && address is Ok,
{
}

/// An error in words, with what caused it.
pub proof fn law_live_error_in_words(error: LiveError, words: String, cause: Option<String>)
    requires
        call_ensures(LiveError::message, (&error,), words),
        call_ensures(LiveError::cause, (&error,), cause),
    ensures
        error matches LiveError::Unset(Setting::Relay, own) ==> words@ == "FAUCET_RELAY"@
            + " must be set — see the module docs"@ && (cause matches Some(c) && c@ == own@),
        error matches LiveError::Unset(Setting::Faucet, own) ==> words@ == "FAUCET_PUBKEY"@
            + " must be set — see the module docs"@ && (cause matches Some(c) && c@ == own@),
        error matches LiveError::Unset(Setting::Address, own) ==> words@ == "DEST_ADDRESS"@
            + " must be set — see the module docs"@ && (cause matches Some(c) && c@ == own@),
        error matches LiveError::NotAKey(own) ==> words@ == "FAUCET_PUBKEY is not a key"@ && (cause
            matches Some(c) && c@ == own@),
        error matches LiveError::NoInfo(inner) ==> words@
            == "get_info failed — is the faucet running and on this relay?"@ && (cause matches Some(
            c,
        ) && c@ == call_error_text(inner@)),
        error matches LiveError::NotANumber(own) ==> words@ == "amount is not a number"@ && (cause
            matches Some(c) && c@ == own@),
        error matches LiveError::NoReply(inner) ==> words@ == call_error_text(inner@)
            && cause is None,
        error matches LiveError::Refused(own) ==> words@ == "the faucet refused: "@ + own@
            && cause is None,
        error is NoTxid ==> words@ == "the faucet answered without a txid"@ && cause is None,
{
}

/// One who asks shows who they are and whom they ask.
pub proof fn law_asker_shows_who_and_whom(live: &Live, asker: PublicKey, faucet: PublicKey)
    requires
        call_ensures(Live::asker, (live,), asker),
        call_ensures(Live::faucet, (live,), faucet),
    ensures
        asker@ == public_key_of(live@.secret),
        faucet@ == live@.faucet,
{
}

/// One who asks is over when something comes out, and not before; and whoever is over stays so.
pub proof fn law_asker_ends_with_a_result(
    before: LiveView,
    event: LiveEvent,
    after: LiveView,
    action: LiveAction,
)
    requires
        live_step(before, event, after, action),
    ensures
        after.phase == LivePhase::Over <==> action is Finish,
        before.phase == LivePhase::Over ==> after == before,
        after.phase == LivePhase::Informing ==> before.phase == LivePhase::Start && event is Begin,
{
}

}
