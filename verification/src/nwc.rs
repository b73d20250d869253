//! One round trip to a faucet: a request, sealed, and the sealed reply to it.

use crate::events;
use crate::events::{
    addresses, recipient_tag, tag_texts, verifies, Draft, DraftView, SignedEvent,
};
use crate::json::{
    json_read, json_text, member, member_of_member, object_of, reads, reads_back, text_of, Json, JsonTree,
    MAX_DEPTH,
};
use crate::keys::{hex_text, is_secret, law_hex_injective, public_key_of, Keys, PublicKey};
use crate::seal;
use crate::seal::{nip44_open, opens, seal_error_text, sealable, seals};
use crate::text::texts;
use vstd::prelude::*;
use vstd::string::*;

verus! {

/// Event kind of a request.
pub const REQUEST_KIND: u16 = 23194;

/// Event kind of a response.
pub const RESPONSE_KIND: u16 = 23195;

/// Nanoseconds to wait for a reply, after the request was sent.
pub const WAIT_NANOS: u64 = 30_000_000_000;

/// Milliseconds that one look for a reply may take.
pub const FETCH_MILLIS: u64 = 2000;

/// What a request says.
pub open spec fn request_tree(method: Seq<char>, params: JsonTree) -> JsonTree {
    JsonTree::Object(
        Map::<Seq<char>, JsonTree>::empty().insert("method"@, JsonTree::Text(method)).insert(
            "params"@,
            params,
        ),
    )
}

/// What an asker sends to be paid: an address and an amount in sats.
pub open spec fn ask_params(address: Seq<char>, amount_sats: u64) -> JsonTree {
    JsonTree::Object(
        Map::<Seq<char>, JsonTree>::empty().insert("address"@, JsonTree::Text(address)).insert(
            "amount_sats"@,
            JsonTree::Unsigned(amount_sats),
        ),
    )
}

/// A request, as an event to be signed by the asker.
pub open spec fn request_draft(faucet: Seq<u8>, sealed: Seq<char>) -> DraftView {
    DraftView { kind: REQUEST_KIND, content: sealed, tags: seq![recipient_tag(faucet)] }
}

/// Which events are looked for.
pub struct Query {
    pub kind: u16,
    /// The public key that they are addressed to.
    pub recipient: PublicKey,
    /// Seconds since the Unix epoch: none earlier than this.
    pub since: Option<u64>,
    /// The event that they refer to.
    pub request: Option<[u8; 32]>,
}

/// A response as it was found: who wrote it, and what, still sealed.
pub struct Reply {
    pub author: PublicKey,
    pub content: String,
}

/// Why a call came to nothing. Where something gave an error, the error's own words
/// come with it.
#[derive(Debug, PartialEq)]
pub enum CallError {
    /// The relay failed.
    Relay(String),
    /// The request cannot be sealed for the faucet.
    NotSealed(String),
    /// No reply came in time.
    NoAnswer,
    /// The reply does not open.
    NotOpened(String),
    /// The reply is not JSON.
    NotJson(String),
    /// The call was told of something that it did not wait for.
    OutOfTurn,
}

/// Why a call came to nothing, with the words as values.
pub enum CallErrorView {
    Relay(Seq<char>),
    NotSealed(Seq<char>),
    NoAnswer,
    NotOpened(Seq<char>),
    NotJson(Seq<char>),
    OutOfTurn,
}

impl CallError {
    /// The error, with the words as values.
    pub open spec fn view(&self) -> CallErrorView {
        match self {
            CallError::Relay(words) => CallErrorView::Relay(words@),
            CallError::NotSealed(words) => CallErrorView::NotSealed(words@),
            CallError::NoAnswer => CallErrorView::NoAnswer,
            CallError::NotOpened(words) => CallErrorView::NotOpened(words@),
            CallError::NotJson(words) => CallErrorView::NotJson(words@),
            CallError::OutOfTurn => CallErrorView::OutOfTurn,
        }
    }
}

/// How far a call has come.
pub enum CallPhase {
    Start,
    Connecting,
    Subscribing,
    Sending { request: [u8; 32] },
    Checking { request: [u8; 32], sent_at: u64 },
    Fetching { request: [u8; 32], sent_at: u64 },
    Closing { plain: String },
    Over,
}

/// A call of a method of a faucet.
pub struct Call {
    relay: String,
    us: Keys,
    faucet: PublicKey,
    payload: String,
    phase: CallPhase,
}

/// What a call is told.
pub enum CallEvent {
    /// It may begin.
    Begin,
    /// The relay is connected. `now` is in seconds since the Unix epoch.
    Connected { now: u64 },
    /// The subscription stands.
    Subscribed,
    /// The request was sent. Times are in nanoseconds since any one instant.
    Sent { at: u64 },
    /// The time.
    Clock { at: u64 },
    /// What was found, in order.
    Fetched { replies: Vec<Reply> },
    /// The connection is closed.
    Closed,
    /// The relay failed, with these words. Where a reply is there already, and the
    /// connection was only to be closed, that does no harm.
    Failed { error: String },
}

/// What is to be done for a call.
pub enum CallAction {
    /// Connect to this relay, with the asker's keys.
    Connect(String),
    /// Subscribe to these events.
    Subscribe(Query),
    /// Publish this event.
    Send(SignedEvent),
    /// Tell the time.
    ReadClock,
    /// Fetch these events, within so many milliseconds.
    Fetch(Query, u64),
    /// Close the connection.
    Disconnect,
    /// Nothing more: this is the reply, or why there is none.
    Finish(Result<Json, CallError>),
}

/// How far a call has come, with times and ids as values.
pub enum CallPhaseView {
    Start,
    Connecting,
    Subscribing,
    Sending { request: Seq<u8> },
    Checking { request: Seq<u8>, sent_at: u64 },
    Fetching { request: Seq<u8>, sent_at: u64 },
    Closing { plain: Seq<char> },
    Over,
}

/// What a call is about, and how far it has come.
pub struct CallView {
    pub relay: Seq<char>,
    pub secret: Seq<u8>,
    pub faucet: Seq<u8>,
    pub payload: Seq<char>,
    pub phase: CallPhaseView,
}

impl CallPhase {
    pub open spec fn view(&self) -> CallPhaseView {
        match self {
            CallPhase::Start => CallPhaseView::Start,
            CallPhase::Connecting => CallPhaseView::Connecting,
            CallPhase::Subscribing => CallPhaseView::Subscribing,
            CallPhase::Sending { request } => CallPhaseView::Sending { request: request@ },
            CallPhase::Checking { request, sent_at } => CallPhaseView::Checking {
                request: request@,
                sent_at: *sent_at,
            },
            CallPhase::Fetching { request, sent_at } => CallPhaseView::Fetching {
                request: request@,
                sent_at: *sent_at,
            },
            CallPhase::Closing { plain } => CallPhaseView::Closing { plain: plain@ },
            CallPhase::Over => CallPhaseView::Over,
        }
    }
}

impl Query {
    /// Whether this asks for the responses to `recipient`, from `since` on.
    pub open spec fn is_watch(&self, recipient: Seq<u8>, since: u64) -> bool {
        &&& self.kind == RESPONSE_KIND
        &&& self.recipient@ == recipient
        &&& self.since == Some(since)
        &&& self.request is None
    }

    /// Whether this asks for the responses to `recipient` that refer to `request`.
    pub open spec fn is_fetch(&self, recipient: Seq<u8>, request: Seq<u8>) -> bool {
        &&& self.kind == RESPONSE_KIND
        &&& self.recipient@ == recipient
        &&& self.since is None
        &&& self.request matches Some(id) && id@ == request
    }
}

/// Whether `event` is the request of `call`: signed by the asker, addressed to the
/// faucet, and sealed between the two.
pub open spec fn is_request(call: CallView, event: SignedEvent) -> bool {
    &&& event.signs(request_draft(call.faucet, event.content@), call.secret)
    &&& seals(call.secret, call.faucet, call.payload, event.content@)
}

/// The same call in another phase.
pub open spec fn in_phase(call: CallView, phase: CallPhaseView) -> CallView {
    CallView { phase, ..call }
}

/// Whether a call is over, with this error.
pub open spec fn ends(
    before: CallView,
    after: CallView,
    action: CallAction,
    error: CallErrorView,
) -> bool {
    &&& after == in_phase(before, CallPhaseView::Over)
    &&& action matches CallAction::Finish(Err(e))
    &&& e@ == error
}

/// Whether a call waits for something from the relay.
pub open spec fn on_the_relay(phase: CallPhaseView) -> bool {
    phase is Connecting || phase is Subscribing || phase is Sending || phase is Fetching
}

/// Whether a call that is told `event` goes from `before` to `after` and does
/// `action`.
pub open spec fn call_step(
    before: CallView,
    event: CallEvent,
    after: CallView,
    action: CallAction,
) -> bool {
    let fails = |error: CallErrorView| ends(before, after, action, error);
    match (before.phase, event) {
        (CallPhaseView::Start, CallEvent::Begin) => {
            &&& after == in_phase(before, CallPhaseView::Connecting)
            &&& action matches CallAction::Connect(relay)
            &&& relay@ == before.relay
        },
        (CallPhaseView::Connecting, CallEvent::Connected { now }) => {
            &&& after == in_phase(before, CallPhaseView::Subscribing)
            &&& action matches CallAction::Subscribe(query)
            &&& query.is_watch(public_key_of(before.secret), now)
        },
        (CallPhaseView::Subscribing, CallEvent::Subscribed) => if sealable(
            before.faucet,
            before.payload,
        ) {
            &&& action matches CallAction::Send(request)
            &&& is_request(before, request)
            &&& after == in_phase(before, CallPhaseView::Sending { request: request.id@ })
        } else {
            fails(
                CallErrorView::NotSealed(seal_error_text(before.faucet, before.payload)),
            )
        },
        (CallPhaseView::Sending { request }, CallEvent::Sent { at }) => {
            &&& after == in_phase(before, CallPhaseView::Checking { request, sent_at: at })
            &&& action == CallAction::ReadClock
        },
        (CallPhaseView::Checking { request, sent_at }, CallEvent::Clock { at }) => if at - sent_at
            >= WAIT_NANOS {
            fails(CallErrorView::NoAnswer)
        } else {
            &&& after == in_phase(before, CallPhaseView::Fetching { request, sent_at })
            &&& action matches CallAction::Fetch(query, within)
            &&& query.is_fetch(public_key_of(before.secret), request)
            &&& within == FETCH_MILLIS
        },
        (CallPhaseView::Fetching { request, sent_at }, CallEvent::Fetched { replies }) => {
            if replies@.len() == 0 {
                &&& after == in_phase(before, CallPhaseView::Checking { request, sent_at })
                &&& action == CallAction::ReadClock
            } else {
                match nip44_open(before.secret, replies@[0].author@, replies@[0].content@) {
                    Ok(plain) => {
                        &&& after == in_phase(before, CallPhaseView::Closing { plain })
                        &&& action == CallAction::Disconnect
                    },
                    Err(words) => fails(CallErrorView::NotOpened(words)),
                }
            }
        },
        (CallPhaseView::Closing { plain }, CallEvent::Closed)
        | (CallPhaseView::Closing { plain }, CallEvent::Failed { .. }) => match json_read(plain) {
            Ok(tree) => {
                &&& after == in_phase(before, CallPhaseView::Over)
                &&& action matches CallAction::Finish(Ok(reply))
                &&& reply@ == tree
            },
            Err(words) => fails(CallErrorView::NotJson(words)),
        },
        (phase, CallEvent::Failed { error }) => if on_the_relay(phase) {
            fails(CallErrorView::Relay(error@))
        } else {
            fails(CallErrorView::OutOfTurn)
        },
        _ => fails(CallErrorView::OutOfTurn),
    }
}

impl Call {
    /// What the call is about, and how far it has come.
    pub closed spec fn view(&self) -> CallView {
        CallView {
            relay: self.relay@,
            secret: self.us.secret(),
            faucet: self.faucet@,
            payload: self.payload@,
            phase: self.phase@,
        }
    }

    /// The keys that call.
    pub fn us(&self) -> (r: Keys)
        ensures
            r.secret() == self@.secret,
    {
        self.us
    }

    /// Tells the call what happened, and learns what to do about it.
    pub fn step(&mut self, event: CallEvent) -> (action: CallAction)
        ensures
            call_step(old(self)@, event, final(self)@, action),
    {
        let mut phase = CallPhase::Over;
        std::mem::swap(&mut phase, &mut self.phase);
        match (phase, event) {
            (CallPhase::Start, CallEvent::Begin) => {
                self.phase = CallPhase::Connecting;
                CallAction::Connect(self.relay.clone())
            },
            (CallPhase::Connecting, CallEvent::Connected { now }) => {
                self.phase = CallPhase::Subscribing;
                CallAction::Subscribe(
                    Query {
                        kind: RESPONSE_KIND,
                        recipient: self.us.public_key(),
                        since: Some(now),
                        request: None,
                    },
                )
            },
            (CallPhase::Subscribing, CallEvent::Subscribed) => {
                match seal::seal(&self.us, &self.faucet, self.payload.as_str()) {
                    Ok(sealed) => {
                        let request = self.request(sealed);
                        self.phase = CallPhase::Sending { request: request.id };
                        CallAction::Send(request)
                    },
                    Err(words) => CallAction::Finish(Err(CallError::NotSealed(words))),
                }
            },
            (CallPhase::Sending { request }, CallEvent::Sent { at }) => {
                self.phase = CallPhase::Checking { request, sent_at: at };
                CallAction::ReadClock
            },
            (CallPhase::Checking { request, sent_at }, CallEvent::Clock { at }) => {
                if at >= sent_at && at - sent_at >= WAIT_NANOS {
                    CallAction::Finish(Err(CallError::NoAnswer))
                } else {
                    self.phase = CallPhase::Fetching { request, sent_at };
                    CallAction::Fetch(
                        Query {
                            kind: RESPONSE_KIND,
                            recipient: self.us.public_key(),
                            since: None,
                            request: Some(request),
                        },
                        FETCH_MILLIS,
                    )
                }
            },
            (CallPhase::Fetching { request, sent_at }, CallEvent::Fetched { replies }) => {
                if replies.len() == 0 {
                    self.phase = CallPhase::Checking { request, sent_at };
                    CallAction::ReadClock
                } else {
                    match seal::open(&self.us, &replies[0].author, replies[0].content.as_str()) {
                        Ok(plain) => {
                            self.phase = CallPhase::Closing { plain };
                            CallAction::Disconnect
                        },
                        Err(words) => CallAction::Finish(Err(CallError::NotOpened(words))),
                    }
                }
            },
            (CallPhase::Closing { plain }, CallEvent::Closed)
            | (CallPhase::Closing { plain }, CallEvent::Failed { .. }) => {
                match Json::parse(plain.as_str()) {
                    Ok(reply) => CallAction::Finish(Ok(reply)),
                    Err(words) => CallAction::Finish(Err(CallError::NotJson(words))),
                }
            },
            (CallPhase::Connecting, CallEvent::Failed { error })
            | (CallPhase::Subscribing, CallEvent::Failed { error })
            | (CallPhase::Sending { .. }, CallEvent::Failed { error })
            | (CallPhase::Fetching { .. }, CallEvent::Failed { error }) => CallAction::Finish(
                Err(CallError::Relay(error)),
            ),
            _ => CallAction::Finish(Err(CallError::OutOfTurn)),
        }
    }

    /// The request, signed.
    fn request(&self, sealed: String) -> (r: SignedEvent)
        ensures
            r.signs(request_draft(self.faucet@, sealed@), self.us.secret()),
    {
        let mut tags: Vec<Vec<String>> = Vec::new();
        tags.push(events::compose_recipient(&self.faucet.bytes));
        proof {
            assert(texts(tags@[0]@).len() == 2);
            assert(tag_texts(tags@) =~= request_draft(self.faucet@, sealed@).tags);
        }
        events::sign(&self.us, &Draft { kind: REQUEST_KIND, content: sealed, tags })
    }
}

/// A call of `method` with `params`, of the faucet with the public key `faucet`. What
/// is sent is `{"method": .., "params": ..}`; `serde_json` reads it back, unless
/// `params` nests too deep or holds a number that is no integer.
pub fn call(relay: &str, us: &Keys, faucet: &PublicKey, method: &str, params: Json) -> (r: Call)
    ensures
        r@.relay == relay@,
        r@.secret == us.secret(),
        r@.faucet == faucet@,
        r@.payload == json_text(request_tree(method@, params@)),
        r@.phase == CallPhaseView::Start,
        reads_back(request_tree(method@, params@), MAX_DEPTH as nat) ==> reads(
            r@.payload,
            request_tree(method@, params@),
        ),
{
    let ghost tree = request_tree(method@, params@);
    let mut entries: Vec<(String, Json)> = Vec::new();
    entries.push(("method".to_owned(), Json::Text(method.to_owned())));
    entries.push(("params".to_owned(), params));
    let request = Json::Object(entries);
    proof {
        lemma_two_members(entries@);
        assert(request@ == tree);
    }
    Call {
        relay: relay.to_owned(),
        us: *us,
        faucet: *faucet,
        payload: request.to_text(),
        phase: CallPhase::Start,
    }
}

/// An object of two entries.
proof fn lemma_two_members(entries: Seq<(String, Json)>)
    requires
        entries.len() == 2,
    ensures
        object_of(crate::json::entry_trees(entries)) == Map::<Seq<char>, JsonTree>::empty().insert(
            entries[0].0@,
            entries[0].1@,
        ).insert(entries[1].0@, entries[1].1@),
{
    let listed = crate::json::entry_trees(entries);
    reveal_with_fuel(object_of, 3);
    assert(listed.drop_last().drop_last() =~= Seq::empty());
}

/// Asks the faucet to pay an address.
pub fn ask(relay: &str, us: &Keys, faucet: &PublicKey, address: &str, amount_sats: u64) -> (r: Call)
    ensures
        r@.relay == relay@,
        r@.secret == us.secret(),
        r@.faucet == faucet@,
        r@.payload == json_text(request_tree("pay_onchain"@, ask_params(address@, amount_sats))),
        r@.phase == CallPhaseView::Start,
        reads(r@.payload, request_tree("pay_onchain"@, ask_params(address@, amount_sats))),
{
    let mut entries: Vec<(String, Json)> = Vec::new();
    entries.push(("address".to_owned(), Json::Text(address.to_owned())));
    entries.push(("amount_sats".to_owned(), Json::Unsigned(amount_sats)));
    let params = Json::Object(entries);
    proof {
        lemma_two_members(entries@);
        assert(params@ == ask_params(address@, amount_sats));
        lemma_ask_reads_back(address@, amount_sats);
    }
    call(relay, us, faucet, "pay_onchain", params)
}

proof fn lemma_ask_reads_back(address: Seq<char>, amount_sats: u64)
    ensures
        reads_back(
            request_tree("pay_onchain"@, ask_params(address, amount_sats)),
            MAX_DEPTH as nat,
        ),
{
    reveal_with_fuel(reads_back, 4);
}

/// What a reply says in refusal, if it is one: the text `error.message`.
pub open spec fn refusal_of(reply: JsonTree) -> Option<Seq<char>> {
    text_of(member_of_member(reply, "error"@, "message"@))
}

/// The text `error.code` of a reply, if it has one.
pub open spec fn code_of(reply: JsonTree) -> Option<Seq<char>> {
    text_of(member_of_member(reply, "error"@, "code"@))
}

/// The `error.message` of a response, if it is one.
pub fn refusal(v: &Json) -> (r: Option<String>)
    ensures
        r is Some <==> refusal_of(v@) is Some,
        r matches Some(message) ==> refusal_of(v@) == Some(message@),
{
    match v.get_in("error", "message") {
        Some(message) => message.as_text(),
        None => None,
    }
}

/// The `error.code` of a response, if it has one.
pub fn error_code(v: &Json) -> (r: Option<String>)
    ensures
        r is Some <==> code_of(v@) is Some,
        r matches Some(code) ==> code_of(v@) == Some(code@),
{
    match v.get_in("error", "code") {
        Some(code) => code.as_text(),
        None => None,
    }
}

/// What is said of a call that came to nothing.
pub open spec fn call_error_text(error: CallErrorView) -> Seq<char> {
    match error {
        CallErrorView::Relay(words) => words,
        CallErrorView::NotSealed(words) => words,
        CallErrorView::NoAnswer => "no answer from the faucet in 30s — a faucet that is down and a faucet that refused must not look the same, so this is a failure"@,
        CallErrorView::NotOpened(words) => words,
        CallErrorView::NotJson(words) => words,
        CallErrorView::OutOfTurn => "the call was told of something out of turn"@,
    }
}

impl CallError {
    /// The error in words.
    pub fn message(&self) -> (r: String)
        ensures
            r@ == call_error_text(self@),
    {
        match self {
            CallError::Relay(words) => words.clone(),
            CallError::NotSealed(words) => words.clone(),
            CallError::NoAnswer => "no answer from the faucet in 30s — a faucet that is down and a faucet that refused must not look the same, so this is a failure".to_owned(),
            CallError::NotOpened(words) => words.clone(),
            CallError::NotJson(words) => words.clone(),
            CallError::OutOfTurn => "the call was told of something out of turn".to_owned(),
        }
    }
}

/// A call stays what it is: no step changes the relay, the keys, the faucet or the
/// payload, nor, once the request is sent, which request a reply is looked for.
pub proof fn law_call_keeps_its_request(
    before: CallView,
    event: CallEvent,
    after: CallView,
    action: CallAction,
)
    requires
        call_step(before, event, after, action),
    ensures
        after == in_phase(before, after.phase),
        before.phase matches CallPhaseView::Sending { request } ==> (after.phase
            matches CallPhaseView::Checking { request: kept, .. } ==> kept == request),
        before.phase matches CallPhaseView::Checking { request, sent_at } ==> (after.phase
            matches CallPhaseView::Fetching { request: kept, sent_at: kept_at } ==> kept == request
            && kept_at == sent_at),
        before.phase matches CallPhaseView::Fetching { request, sent_at } ==> (after.phase
            matches CallPhaseView::Checking { request: kept, sent_at: kept_at } ==> kept == request
            && kept_at == sent_at),
{
}

/// The faucet reads the request: the holder of the faucet's secret key opens it,
/// with the public key that signed it, to the payload. Where `serde_json` reads the
/// payload back, that says the method and the params that were called.
pub proof fn law_faucet_reads_request(
    call: CallView,
    event: SignedEvent,
    faucet_secret: Seq<u8>,
    method: Seq<char>,
    params: JsonTree,
)
    requires
        is_request(call, event),
        is_secret(faucet_secret),
        public_key_of(faucet_secret) == call.faucet,
        reads(call.payload, request_tree(method, params)),
    ensures
        event.kind == REQUEST_KIND,
        event.author@ == public_key_of(call.secret),
        opens(faucet_secret, event.author@, event.content@, call.payload),
        json_read(call.payload) matches Ok(request) && member(request, "method"@) == Some(
            JsonTree::Text(method),
        ) && member(request, "params"@) == Some(params),
{
    reveal_strlit("method");
    reveal_strlit("params");
    assert("method"@[0] != "params"@[0]);
}

/// A call returns what the faucet wrote: a first reply that the faucet sealed for
/// the asker, and that is JSON, is what comes out, a refusal as well as any other, and
/// whether the connection then closes or the relay fails at it.
pub proof fn law_call_returns_reply(
    before: CallView,
    replies: Vec<Reply>,
    opened: CallView,
    closing: CallAction,
    closed: CallEvent,
    after: CallView,
    action: CallAction,
    faucet_secret: Seq<u8>,
    written: Seq<char>,
    tree: JsonTree,
)
    requires
        before.phase is Fetching,
        is_secret(before.secret),
        replies@.len() > 0,
        replies@[0].author@ == public_key_of(faucet_secret),
        seals(faucet_secret, public_key_of(before.secret), written, replies@[0].content@),
        reads(written, tree),
        call_step(before, CallEvent::Fetched { replies }, opened, closing),
        closed is Closed || closed is Failed,
        call_step(opened, closed, after, action),
    ensures
        closing == CallAction::Disconnect,
        action matches CallAction::Finish(Ok(reply)) && reply@ == tree && refusal_of(reply@)
            == refusal_of(tree),
{
}

/// A faucet that is down does not look like one that refused: a call ends for want
/// of an answer only when the whole wait has passed, and then on the clock, never
/// on a reply.
pub proof fn law_silence_is_no_refusal(
    before: CallView,
    event: CallEvent,
    after: CallView,
    action: CallAction,
)
    requires
        call_step(before, event, after, action),
        action matches CallAction::Finish(Err(error)) && error@ == CallErrorView::NoAnswer,
    ensures
        before.phase matches CallPhaseView::Checking { sent_at, .. } && (event
            matches CallEvent::Clock { at } && at - sent_at >= WAIT_NANOS),
{
}

/// The wait ends: at any time later than the wait allows, the call that looks at the
/// clock gives up.
pub proof fn law_wait_ends(
    before: CallView,
    request: Seq<u8>,
    sent_at: u64,
    at: u64,
    after: CallView,
    action: CallAction,
)
    requires
        before.phase == (CallPhaseView::Checking { request, sent_at }),
        at - sent_at >= WAIT_NANOS,
        call_step(before, CallEvent::Clock { at }, after, action),
    ensures
        ends(before, after, action, CallErrorView::NoAnswer),
{
}

/// One step of a call: what it was told, and what it did.
pub struct CallMoment {
    pub before: CallView,
    pub event: CallEvent,
    pub after: CallView,
    pub action: CallAction,
}

/// Whether these are the steps of one call, from its start on.
pub open spec fn is_call_run(run: Seq<CallMoment>) -> bool {
    &&& forall|i: int|
        0 <= i < run.len() ==> {
            let moment = #[trigger] run[i];
            call_step(moment.before, moment.event, moment.after, moment.action)
        }
    &&& forall|i: int, j: int|
        0 <= i && j == i + 1 && j < run.len() ==> (#[trigger] run[i]).after == (
        #[trigger] run[j]).before
    &&& run.len() > 0 ==> run[0].before.phase == CallPhaseView::Start
}

/// Whether this event is the request that a call sends, at step `i` of its run.
pub open spec fn sends(run: Seq<CallMoment>, i: int, id: Seq<u8>) -> bool {
    &&& 0 <= i < run.len()
    &&& run[i].action matches CallAction::Send(event)
    &&& event.id@ == id
    &&& is_request(run[0].before, event)
}

/// Whether, at step `i` of its run, a call that was waiting for what it had asked to be
/// fetched is told of a first reply.
pub open spec fn hears(run: Seq<CallMoment>, i: int, author: Seq<u8>, sealed: Seq<char>) -> bool {
    &&& 0 < i < run.len()
    &&& run[i - 1].action is Fetch
    &&& run[i].event matches CallEvent::Fetched { replies }
    &&& replies@.len() > 0
    &&& replies@[0].author@ == author
    &&& replies@[0].content@ == sealed
}

/// Whether no step before `i` was told of a reply.
pub open spec fn silent_until(run: Seq<CallMoment>, i: int) -> bool {
    forall|k: int|
        0 <= k < i ==> ((#[trigger] run[k]).event matches CallEvent::Fetched { replies }
            ==> replies@.len() == 0)
}

/// Whether the first `count` steps of a run sent at most one request, at step `at`, fetched
/// only what refers to it, and returned only the first reply to it.
spec fn ordered(run: Seq<CallMoment>, count: int, at: int) -> bool {
    &&& forall|i: int|
        0 <= i < count ==> ((#[trigger] run[i]).action is Send ==> i == at)
    &&& forall|i: int|
        0 <= i < count ==> ((#[trigger] run[i]).action matches CallAction::Fetch(query, _) ==> {
            &&& 0 <= at < i
            &&& query.request matches Some(id) && sends(run, at, id@)
            &&& query.is_fetch(public_key_of(run[0].before.secret), query.request->0@)
        })
    &&& forall|i: int|
        0 <= i < count ==> ((#[trigger] run[i]).action matches CallAction::Finish(Ok(reply)) ==> {
            &&& 0 < i
            &&& run[i - 1].event matches CallEvent::Fetched { replies }
            &&& hears(run, i - 1, replies@[0].author@, replies@[0].content@)
            &&& silent_until(run, i - 1)
            &&& nip44_open(
                run[0].before.secret,
                replies@[0].author@,
                replies@[0].content@,
            ) matches Ok(plain)
            &&& reads(plain, reply@)
        })
}

/// What holds of the phase that `count` steps of a run lead to.
spec fn stands(run: Seq<CallMoment>, count: int, at: int) -> bool {
    let last = run[count - 1];
    let phase = last.after.phase;
    &&& last.after == in_phase(run[0].before, phase)
    &&& match phase {
        CallPhaseView::Start => false,
        CallPhaseView::Connecting | CallPhaseView::Subscribing => at == -1 && silent_until(
            run,
            count,
        ),
        CallPhaseView::Sending { request } => at < count && sends(run, at, request)
            && silent_until(run, count),
        CallPhaseView::Checking { request, .. } => at < count && sends(run, at, request)
            && silent_until(run, count),
        CallPhaseView::Fetching { request, .. } => at < count && sends(run, at, request)
            && silent_until(run, count) && last.action is Fetch,
        CallPhaseView::Closing { plain } => {
            &&& 0 <= at < count
            &&& silent_until(run, count - 1)
            &&& last.event matches CallEvent::Fetched { replies }
            &&& hears(run, count - 1, replies@[0].author@, replies@[0].content@)
            &&& nip44_open(
                run[0].before.secret,
                replies@[0].author@,
                replies@[0].content@,
            ) matches Ok(opened)
            &&& opened == plain
        },
        CallPhaseView::Over => at < count,
    }
}

proof fn lemma_call_run(run: Seq<CallMoment>, count: int) -> (at: int)
    requires
        is_call_run(run),
        0 < count <= run.len(),
    ensures
        -1 <= at < count,
        ordered(run, count, at),
        stands(run, count, at),
    decreases count,
{
    let now = run[count - 1];
    assert(call_step(now.before, now.event, now.after, now.action));
    if count == 1 {
        -1
    } else {
        let before = lemma_call_run(run, count - 1);
        assert(run[count - 2].after == now.before);
        if now.action is Send {
            assert(sends(run, count - 1, now.action->Send_0.id@));
            count - 1
        } else {
            before
        }
    }
}

/// A call keeps to one request. In any run of it, from its start on, at most one request is
/// sent; whatever is fetched refers to that request, which was sent before; and a result
/// that comes out is what the first reply says that was fetched for it, opened with the
/// asker's keys.
pub proof fn law_call_keeps_to_one_request(run: Seq<CallMoment>)
    requires
        is_call_run(run),
    ensures
        forall|i: int, j: int|
            0 <= i < run.len() && 0 <= j < run.len() && (#[trigger] run[i]).action is Send && (
            #[trigger] run[j]).action is Send ==> i == j,
        forall|j: int|
            0 <= j < run.len() ==> ((#[trigger] run[j]).action matches CallAction::Fetch(query, _)
                ==> {
                &&& query.request matches Some(id)
                &&& query.is_fetch(public_key_of(run[0].before.secret), id@)
                &&& exists|i: int| 0 <= i < j && #[trigger] sends(run, i, id@)
            }),
        forall|k: int|
            0 <= k < run.len() ==> ((#[trigger] run[k]).action matches CallAction::Finish(Ok(reply))
                ==> {
                &&& 0 < k
                &&& run[k - 1].event matches CallEvent::Fetched { replies }
                &&& hears(run, k - 1, replies@[0].author@, replies@[0].content@)
                &&& silent_until(run, k - 1)
                &&& nip44_open(
                    run[0].before.secret,
                    replies@[0].author@,
                    replies@[0].content@,
                ) matches Ok(plain)
                &&& reads(plain, reply@)
            }),
{
    if run.len() > 0 {
        lemma_call_run(run, run.len() as int);
    }
}

/// Whether a reply is an object with a member `error` that is an object with the member
/// `key`, and that is this text.
pub open spec fn error_says(reply: JsonTree, key: Seq<char>, text: Seq<char>) -> bool {
    &&& reply matches JsonTree::Object(outer)
    &&& outer.dom().contains("error"@)
    &&& outer["error"@] matches JsonTree::Object(inner)
    &&& inner.dom().contains(key)
    &&& inner[key] == JsonTree::Text(text)
}

/// A refusal is the text `message` of the member `error`, whatever else the reply holds, its
/// code too; a reply without such a text is none.
pub proof fn law_refusal_is_the_error_message(reply: &Json, r: Option<String>, m: Seq<char>)
    requires
        call_ensures(refusal, (reply,), r),
    ensures
        (r matches Some(message) && message@ == m) <==> (reply@ matches JsonTree::Object(outer)
            && outer.dom().contains("error"@) && (outer["error"@] matches JsonTree::Object(inner)
            && inner.dom().contains("message"@) && inner["message"@] == JsonTree::Text(m))),
        refusal_of(reply@) == Some(m) <==> (reply@ matches JsonTree::Object(outer)
            && outer.dom().contains("error"@) && (outer["error"@] matches JsonTree::Object(inner)
            && inner.dom().contains("message"@) && inner["message"@] == JsonTree::Text(m))),
        refusal_of(reply@) == Some(m) <==> error_says(reply@, "message"@, m),
        r is None <==> forall|other: Seq<char>| !#[trigger] error_says(
            reply@,
            "message"@,
            other,
        ),
{
    if r is Some {
        assert(error_says(reply@, "message"@, r->0@));
    }
}

/// A code is the text `code` of the member `error`, whatever else the reply holds; a reply
/// without such a text has none.
pub proof fn law_code_is_the_error_code(reply: &Json, r: Option<String>, c: Seq<char>)
    requires
        call_ensures(error_code, (reply,), r),
    ensures
        (r matches Some(code) && code@ == c) <==> (reply@ matches JsonTree::Object(outer)
            && outer.dom().contains("error"@) && (outer["error"@] matches JsonTree::Object(inner)
            && inner.dom().contains("code"@) && inner["code"@] == JsonTree::Text(c))),
        code_of(reply@) == Some(c) <==> (reply@ matches JsonTree::Object(outer)
            && outer.dom().contains("error"@) && (outer["error"@] matches JsonTree::Object(inner)
            && inner.dom().contains("code"@) && inner["code"@] == JsonTree::Text(c))),
        code_of(reply@) == Some(c) <==> error_says(reply@, "code"@, c),
        r is None <==> forall|other: Seq<char>| !#[trigger] error_says(reply@, "code"@, other),
{
    if r is Some {
        assert(error_says(reply@, "code"@, r->0@));
    }
}

/// What is sent for a call says its method and its params, and nothing else.
pub proof fn law_request_says_method_and_params(
    relay: &str,
    us: &Keys,
    faucet: &PublicKey,
    method: &str,
    params: Json,
    r: Call,
)
    requires
        call_ensures(call, (relay, us, faucet, method, params), r),
        reads_back(params@, 126),
    ensures
        r@.relay == relay@,
        r@.secret == us.secret(),
        r@.faucet == faucet@,
        r@.phase == CallPhaseView::Start,
        json_read(r@.payload) matches Ok(JsonTree::Object(request)) && request.dom() == set![
            "method"@,
            "params"@,
        ] && request["method"@] == JsonTree::Text(method@) && request["params"@] == params@,
{
    reveal_strlit("method");
    reveal_strlit("params");
    assert("method"@[0] != "params"@[0]);
    let tree = request_tree(method@, params@);
    assert(reads_back(JsonTree::Text(method@), 126));
    assert(reads_back(tree, 127)) by {
        assert forall|key: Seq<char>| tree->Object_0.dom().contains(key) implies reads_back(
            #[trigger] tree->Object_0[key],
            126,
        ) by {}
    }
    assert(tree->Object_0.dom() =~= set!["method"@, "params"@]);
}

/// What the faucet reads is what was asked: the address and the amount that were given,
/// whatever they are, as the params of `pay_onchain`, and nothing else.
pub proof fn law_ask_says_address_and_amount(
    relay: &str,
    us: &Keys,
    faucet: &PublicKey,
    address: &str,
    amount_sats: u64,
    r: Call,
)
    requires
        call_ensures(ask, (relay, us, faucet, address, amount_sats), r),
    ensures
        r@.relay == relay@,
        r@.secret == us.secret(),
        r@.faucet == faucet@,
        r@.phase == CallPhaseView::Start,
        json_read(r@.payload) matches Ok(request) && asks_payment(request, address@, amount_sats),
{
    lemma_asks_payment(address@, amount_sats);
}

/// Whether a request asks for the payment of so many sats to this address, and for nothing
/// else.
pub open spec fn asks_payment(request: JsonTree, address: Seq<char>, sats: u64) -> bool {
    &&& request matches JsonTree::Object(members)
    &&& members.dom() == set!["method"@, "params"@]
    &&& members["method"@] == JsonTree::Text("pay_onchain"@)
    &&& members["params"@] matches JsonTree::Object(params)
    &&& params.dom() == set!["address"@, "amount_sats"@]
    &&& params["address"@] == JsonTree::Text(address)
    &&& params["amount_sats"@] == JsonTree::Unsigned(sats)
}

pub(crate) proof fn lemma_asks_payment(address: Seq<char>, sats: u64)
    ensures
        asks_payment(request_tree("pay_onchain"@, ask_params(address, sats)), address, sats),
{
    reveal_strlit("method");
    reveal_strlit("params");
    reveal_strlit("address");
    reveal_strlit("amount_sats");
    assert("method"@[0] != "params"@[0]);
    assert("address"@.len() != "amount_sats"@.len());
    let params = ask_params(address, sats);
    assert(params->Object_0.dom() =~= set!["address"@, "amount_sats"@]);
    assert(request_tree("pay_onchain"@, params)->Object_0.dom() =~= set!["method"@, "params"@]);
}

/// A request is an event of the asker's, of the kind of requests, and addressed to the faucet
/// alone, unless the faucet asks itself.
pub proof fn law_request_is_addressed_to_the_faucet(call: CallView, event: SignedEvent)
    requires
        is_request(call, event),
    ensures
        event.kind == 23194,
        event.author@ == public_key_of(call.secret),
        event.author@ != call.faucet ==> tag_texts(event.tags@) == seq![
            seq![seq!['p'], hex_text(call.faucet)],
        ],
        verifies(event.author@, event.id@, event.signature@),
        opens(call.secret, call.faucet, event.content@, call.payload),
{
    let author = public_key_of(call.secret);
    let tag = recipient_tag(call.faucet);
    if author != call.faucet {
        if addresses(tag, author) {
            law_hex_injective(call.faucet, author);
        }
        let keeps = |t: Seq<Seq<char>>| !addresses(t, author);
        reveal_with_fuel(Seq::filter, 2);
        assert(seq![tag].drop_last() =~= Seq::empty());
        assert(seq![tag].filter(keeps) =~= seq![tag]);
    }
}

/// A call goes its way: it connects to its relay, subscribes to the responses to the asker
/// from then on, sends its request if it can be sealed, and looks, two seconds at a time, for
/// the responses to the asker that refer to the request, until thirty seconds have passed.
pub proof fn law_call_goes_its_way(
    before: CallView,
    event: CallEvent,
    after: CallView,
    action: CallAction,
)
    requires
        call_step(before, event, after, action),
    ensures
        before.phase is Start && event is Begin ==> after.phase is Connecting && (action
            matches CallAction::Connect(relay) && relay@ == before.relay),
        before.phase is Connecting && event is Connected ==> after.phase is Subscribing && (action
            matches CallAction::Subscribe(query) && query.kind == 23195 && query.recipient@
            == public_key_of(before.secret) && query.since == Some(event->now)
            && query.request is None),
        before.phase is Subscribing && event is Subscribed && sealable(
            before.faucet,
            before.payload,
        ) ==> (action matches CallAction::Send(request) && is_request(before, request) && after.phase
            == (CallPhaseView::Sending { request: request.id@ })),
        before.phase is Subscribing && event is Subscribed && !sealable(
            before.faucet,
            before.payload,
        ) ==> after.phase is Over && (action matches CallAction::Finish(Err(error)) && error@
            is NotSealed),
        before.phase is Sending && event is Sent ==> after.phase == (CallPhaseView::Checking {
            request: before.phase->Sending_request,
            sent_at: event->Sent_at,
        }) && action is ReadClock,
        before.phase is Checking && event is Clock && event->Clock_at
            - before.phase->Checking_sent_at >= 30_000_000_000 ==> after.phase is Over && (action
            matches CallAction::Finish(Err(error)) && error@ is NoAnswer),
        before.phase is Checking && event is Clock && event->Clock_at
            - before.phase->Checking_sent_at < 30_000_000_000 ==> after.phase is Fetching && (action
            matches CallAction::Fetch(query, within) && within == 2000 && query.kind == 23195
            && query.recipient@ == public_key_of(before.secret) && query.since is None && (
        query.request matches Some(id) && id@ == before.phase->Checking_request)),
        before.phase is Fetching && event is Fetched && event->replies@.len() == 0
            ==> after.phase is Checking && action is ReadClock,
        before.phase is Fetching && event is Fetched && event->replies@.len() > 0 ==> (nip44_open(
            before.secret,
            event->replies@[0].author@,
            event->replies@[0].content@,
        ) matches Ok(plain) ==> after.phase == (CallPhaseView::Closing { plain }) && action
            is Disconnect),
        before.phase is Fetching && event is Fetched && event->replies@.len() > 0 ==> (nip44_open(
            before.secret,
            event->replies@[0].author@,
            event->replies@[0].content@,
        ) matches Err(words) ==> after.phase is Over && (action matches CallAction::Finish(
            Err(error),
        ) && error@ == CallErrorView::NotOpened(words))),
        before.phase is Closing && (event is Closed || event is Failed) ==> (json_read(
            before.phase->plain,
        ) matches Ok(tree) ==> (action matches CallAction::Finish(Ok(reply)) && reply@ == tree)),
        before.phase is Closing && (event is Closed || event is Failed) ==> (json_read(
            before.phase->plain,
        ) matches Err(words) ==> (action matches CallAction::Finish(Err(error)) && error@
            == CallErrorView::NotJson(words))),
        event is Failed && (before.phase is Connecting || before.phase is Subscribing
            || before.phase is Sending || before.phase is Fetching) ==> after.phase is Over && (
        action matches CallAction::Finish(Err(error)) && error@ == CallErrorView::Relay(
            event->Failed_error@,
        )),
        before.phase is Over ==> after == before && (action matches CallAction::Finish(Err(error))
            && error@ is OutOfTurn),
{
}

/// An error is told in the words that came with it.
pub proof fn law_call_error_in_its_own_words(error: CallError, words: String)
    requires
        call_ensures(CallError::message, (&error,), words),
    ensures
        error matches CallError::Relay(own) ==> words@ == own@,
        error matches CallError::NotSealed(own) ==> words@ == own@,
        error matches CallError::NotOpened(own) ==> words@ == own@,
        error matches CallError::NotJson(own) ==> words@ == own@,
        error is NoAnswer ==> words@
            == "no answer from the faucet in 30s — a faucet that is down and a faucet that refused must not look the same, so this is a failure"@,
        error is OutOfTurn ==> words@ == "the call was told of something out of turn"@,
{
}

/// A call is over when something comes out, and not before; and a call that is over stays so.
pub proof fn law_call_ends_with_a_result(
    before: CallView,
    event: CallEvent,
    after: CallView,
    action: CallAction,
)
    requires
        call_step(before, event, after, action),
    ensures
        after.phase is Over <==> action is Finish,
        before.phase is Over ==> after == before,
        action matches CallAction::Finish(Ok(_)) ==> before.phase is Closing,
{
}

/// A call shows whose it is.
pub proof fn law_call_shows_whose_it_is(call: &Call, us: Keys)
    requires
        call_ensures(Call::us, (call,), us),
    ensures
        us.secret() == call@.secret,
{
}

}
