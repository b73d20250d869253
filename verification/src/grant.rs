//! Grants: what a faucet's owner allows an asker, as Nostr events.
//!
//! A grant is an addressable event. Its identifier is made of the faucet and of
//! whom the grant is for, so a later grant from the same owner for the same two
//! takes the place of an earlier one.

use crate::events;
use crate::events::{
    addresses, identifier_tag, kept_tags, recipient_tag, tag_texts, Draft, DraftView,
    SignedEvent,
};
use crate::keys::{hex_digit, hex_text, law_hex_injective, Keys, PublicKey};
use crate::text;
use crate::text::{decimal, law_decimal_injective, texts};
use vstd::prelude::*;
use vstd::string::*;

verus! {

/// Milliseconds between connecting to the relay and publishing.
pub const REST_MILLIS: u64 = 200;

/// Milliseconds that are long enough for a relay round trip.
pub const SETTLE_MILLIS: u64 = 600;

/// Whom a grant is for: a key in hexadecimal, or the literal `OTHERS`, which
/// stands for any key with no grant of its own.
pub open spec fn grant_identifier(faucet: Seq<u8>, controller: Seq<char>) -> Seq<char> {
    hex_text(faucet) + ":"@ + controller
}

/// A grant, as an event to be signed by the owner.
pub open spec fn grant_draft(
    kind: u16,
    faucet: Seq<u8>,
    controller: Seq<char>,
    profile: Seq<char>,
) -> DraftView {
    DraftView {
        kind,
        content: profile,
        tags: seq![identifier_tag(grant_identifier(faucet, controller)), recipient_tag(faucet)],
    }
}

/// How far the publication of a grant has come: what is to be done next.
#[derive(Clone, Copy, Debug, PartialEq, Eq, Structural)]
pub enum PublicationPhase {
    Connect,
    Rest,
    Send,
    Settle,
    Close,
    Over,
    /// Nothing: something failed.
    Failed,
}

/// The publication of a grant.
pub struct Publication {
    relay: String,
    owner: Keys,
    draft: Draft,
    phase: PublicationPhase,
    error: String,
}

/// What a publication is about, and how far it has come.
pub struct PublicationView {
    pub relay: Seq<char>,
    pub secret: Seq<u8>,
    pub draft: DraftView,
    pub phase: PublicationPhase,
    /// What is said of what failed, where something did.
    pub error: Seq<char>,
}

/// What is to be done for a publication.
pub enum PublicationAction {
    /// Connect to this relay, with the owner's keys.
    Connect(String),
    /// Sleep for so many milliseconds.
    Sleep(u64),
    /// Publish this event.
    Send(SignedEvent),
    /// Close the connection.
    Shutdown,
    /// Nothing more: the grant is published.
    Finished,
    /// Nothing more: something failed, with these words.
    Failed(String),
}

/// The phase after `phase`.
pub open spec fn phase_after(phase: PublicationPhase) -> PublicationPhase {
    match phase {
        PublicationPhase::Connect => PublicationPhase::Rest,
        PublicationPhase::Rest => PublicationPhase::Send,
        PublicationPhase::Send => PublicationPhase::Settle,
        PublicationPhase::Settle => PublicationPhase::Close,
        PublicationPhase::Close => PublicationPhase::Over,
        PublicationPhase::Over => PublicationPhase::Over,
        PublicationPhase::Failed => PublicationPhase::Failed,
    }
}

/// The publication after something failed, with these words. One that is over stays as it
/// is.
pub open spec fn publication_failed(
    publication: PublicationView,
    error: Seq<char>,
) -> PublicationView {
    match publication.phase {
        PublicationPhase::Over | PublicationPhase::Failed => publication,
        _ => PublicationView { phase: PublicationPhase::Failed, error, ..publication },
    }
}

/// Whether `action` is what `publication` is to do in its phase.
pub open spec fn publication_does(
    publication: PublicationView,
    action: PublicationAction,
) -> bool {
    match publication.phase {
        PublicationPhase::Connect => action matches PublicationAction::Connect(relay) && relay@
            == publication.relay,
        PublicationPhase::Rest => action == PublicationAction::Sleep(REST_MILLIS),
        PublicationPhase::Send => action matches PublicationAction::Send(event) && event.signs(
            publication.draft,
            publication.secret,
        ),
        PublicationPhase::Settle => action == PublicationAction::Sleep(SETTLE_MILLIS),
        PublicationPhase::Close => action == PublicationAction::Shutdown,
        PublicationPhase::Over => action == PublicationAction::Finished,
        PublicationPhase::Failed => action matches PublicationAction::Failed(error) && error@
            == publication.error,
    }
}

impl Publication {
    /// What the publication is about, and how far it has come.
    pub closed spec fn view(&self) -> PublicationView {
        PublicationView {
            relay: self.relay@,
            secret: self.owner.secret(),
            draft: self.draft@,
            phase: self.phase,
            error: self.error@,
        }
    }

    #[verifier::type_invariant]
    spec fn well_formed(self) -> bool {
        forall|i: int|
            0 <= i < self.draft.tags@.len() ==> (#[trigger] self.draft.tags@[i])@.len() > 0
    }

    /// What to do next. The one who asks has done what was answered before.
    pub fn next(&mut self) -> (action: PublicationAction)
        ensures
            publication_does(old(self)@, action),
            final(self)@ == (PublicationView {
                phase: phase_after(old(self)@.phase),
                ..old(self)@
            }),
    {
        proof {
            use_type_invariant(&*self);
        }
        match self.phase {
            PublicationPhase::Connect => {
                self.phase = PublicationPhase::Rest;
                PublicationAction::Connect(self.relay.clone())
            },
            PublicationPhase::Rest => {
                self.phase = PublicationPhase::Send;
                PublicationAction::Sleep(REST_MILLIS)
            },
            PublicationPhase::Send => {
                self.phase = PublicationPhase::Settle;
                PublicationAction::Send(events::sign(&self.owner, &self.draft))
            },
            PublicationPhase::Settle => {
                self.phase = PublicationPhase::Close;
                PublicationAction::Sleep(SETTLE_MILLIS)
            },
            PublicationPhase::Close => {
                self.phase = PublicationPhase::Over;
                PublicationAction::Shutdown
            },
            PublicationPhase::Over => PublicationAction::Finished,
            PublicationPhase::Failed => PublicationAction::Failed(self.error.clone()),
        }
    }

    /// Tells the publication that what it was to do failed.
    pub fn fail(&mut self, error: String)
        ensures
            final(self)@ == publication_failed(old(self)@, error@),
    {
        proof {
            use_type_invariant(&*self);
        }
        match self.phase {
            PublicationPhase::Over | PublicationPhase::Failed => {},
            _ => {
                self.phase = PublicationPhase::Failed;
                self.error = error;
            },
        }
    }

    /// The keys that publish.
    pub fn owner(&self) -> (r: Keys)
        ensures
            r.secret() == self@.secret,
    {
        self.owner
    }
}

/// Publishes a grant for an asker, signed by the owner. `kind` is the event kind
/// of grants. An empty profile, `{}`, is a revocation.
pub fn publish_grant(
    kind: u16,
    owner: &Keys,
    faucet: &PublicKey,
    asker: &PublicKey,
    profile: &str,
    relay: &str,
) -> (r: Publication)
    ensures
        r@ == (PublicationView {
            relay: relay@,
            secret: owner.secret(),
            draft: grant_draft(kind, faucet@, hex_text(asker@), profile@),
            phase: PublicationPhase::Connect,
            error: Seq::empty(),
        }),
{
    let controller = asker.to_hex();
    publish_grant_for(kind, owner, faucet, controller.as_str(), profile, relay)
}

/// As [`publish_grant`], but for a controller that need not be a key.
///
/// The one that matters is the literal `OTHERS`, the grant that applies to any
/// key with no grant of its own: an open faucet, expressed as a grant.
pub fn publish_grant_for(
    kind: u16,
    owner: &Keys,
    faucet: &PublicKey,
    controller: &str,
    profile: &str,
    relay: &str,
) -> (r: Publication)
    ensures
        r@ == (PublicationView {
            relay: relay@,
            secret: owner.secret(),
            draft: grant_draft(kind, faucet@, controller@, profile@),
            phase: PublicationPhase::Connect,
            error: Seq::empty(),
        }),
{
    let identifier = faucet.to_hex().concat(":").concat(controller);
    let mut tags: Vec<Vec<String>> = Vec::new();
    tags.push(events::compose_identifier(identifier.as_str()));
    tags.push(events::compose_recipient(&faucet.bytes));
    proof {
        assert(texts(tags@[0]@).len() == 2);
        assert(texts(tags@[1]@).len() == 2);
        assert(tag_texts(tags@) =~= grant_draft(kind, faucet@, controller@, profile@).tags);
    }
    let draft = Draft { kind, content: profile.to_owned(), tags };
    Publication {
        relay: relay.to_owned(),
        owner: *owner,
        draft,
        phase: PublicationPhase::Connect,
        error: String::new(),
    }
}

/// How much may be had, in how many seconds; all of it may be had at once.
pub open spec fn allowance_text(amount: nat, per_secs: nat) -> Seq<char> {
    "{\"amount\":"@ + decimal(amount) + ",\"per_secs\":"@ + decimal(per_secs)
        + ",\"max_capacity\":"@ + decimal(amount) + "}"@
}

/// A profile that allows every method, and so many sats in so many seconds.
pub open spec fn open_profile_text(amount: nat, per_secs: nat) -> Seq<char> {
    "{\"methods\":{\"OTHERS\":{}},\"quota\":"@ + allowance_text(amount, per_secs) + "}"@
}

/// A profile that allows `pay_onchain` alone, so many times in so many seconds,
/// and so many sats in so many seconds.
pub open spec fn rated_profile_text(
    times: nat,
    rate_secs: nat,
    amount: nat,
    per_secs: nat,
) -> Seq<char> {
    "{\"methods\":{\"pay_onchain\":{\"rate\":"@ + allowance_text(times, rate_secs)
        + "}},\"quota\":"@ + allowance_text(amount, per_secs) + "}"@
}

fn allowance(amount: u64, per_secs: u64) -> (r: String)
    ensures
        r@ == allowance_text(amount as nat, per_secs as nat),
{
    let amount_numeral = text::number(amount);
    let secs_numeral = text::number(per_secs);
    "{\"amount\":".to_owned().concat(amount_numeral.as_str()).concat(",\"per_secs\":").concat(
        secs_numeral.as_str(),
    ).concat(",\"max_capacity\":").concat(amount_numeral.as_str()).concat("}")
}

/// A profile that allows every method, and `amount` sats in `per_secs` seconds.
pub fn open_profile(amount: u64, per_secs: u64) -> (r: String)
    ensures
        r@ == open_profile_text(amount as nat, per_secs as nat),
{
    let quota = allowance(amount, per_secs);
    "{\"methods\":{\"OTHERS\":{}},\"quota\":".to_owned().concat(quota.as_str()).concat("}")
}

/// A profile that allows `pay_onchain` alone, `times` times in `rate_secs`
/// seconds, and `amount` sats in `per_secs` seconds.
pub fn rated_profile(times: u64, rate_secs: u64, amount: u64, per_secs: u64) -> (r: String)
    ensures
        r@ == rated_profile_text(times as nat, rate_secs as nat, amount as nat, per_secs as nat),
{
    let rate = allowance(times, rate_secs);
    let quota = allowance(amount, per_secs);
    "{\"methods\":{\"pay_onchain\":{\"rate\":".to_owned().concat(rate.as_str()).concat(
        "}},\"quota\":",
    ).concat(quota.as_str()).concat("}")
}

/// Grants have the same identifier only where they are of the same faucet and for
/// the same controller: no grant takes the place of another one's.
pub proof fn law_identifier_tells_grants_apart(
    faucet: Seq<u8>,
    controller: Seq<char>,
    other_faucet: Seq<u8>,
    other_controller: Seq<char>,
)
    requires
        faucet.len() == 32,
        other_faucet.len() == 32,
        grant_identifier(faucet, controller) == grant_identifier(other_faucet, other_controller),
    ensures
        faucet == other_faucet,
        controller == other_controller,
{
    reveal_strlit(":");
    let a = grant_identifier(faucet, controller);
    let b = grant_identifier(other_faucet, other_controller);
    assert(a.subrange(0, 64) =~= hex_text(faucet));
    assert(b.subrange(0, 64) =~= hex_text(other_faucet));
    law_hex_injective(faucet, other_faucet);
    assert(a.subrange(65, a.len() as int) =~= controller);
    assert(b.subrange(65, b.len() as int) =~= other_controller);
}

/// No key reads `OTHERS`: the grant for everybody else is nobody's own grant.
pub proof fn law_others_is_no_key(key: Seq<u8>)
    ensures
        hex_text(key) != "OTHERS"@,
{
    reveal_strlit("OTHERS");
    if hex_text(key) == "OTHERS"@ {
        assert(hex_text(key).len() == 2 * key.len());
        assert(hex_text(key)[0] == 'O');
        assert(hex_text(key)[0] == hex_digit(key[0] as int / 16));
    }
}

proof fn lemma_kept_of_two(first: Seq<Seq<char>>, second: Seq<Seq<char>>, author: Seq<u8>)
    requires
        !addresses(first, author),
    ensures
        kept_tags(seq![first, second], author) == (if addresses(second, author) {
            seq![first]
        } else {
            seq![first, second]
        }),
{
    let keeps = |tag: Seq<Seq<char>>| !addresses(tag, author);
    let both = seq![first, second];
    assert(both.drop_last() =~= seq![first]);
    assert(seq![first].drop_last() =~= Seq::<Seq<Seq<char>>>::empty());
    reveal_with_fuel(Seq::filter, 3);
    assert(seq![first].filter(keeps) =~= seq![first]);
    assert(both.filter(keeps) =~= if addresses(second, author) {
        seq![first]
    } else {
        both
    });
}

/// A published grant is authored by its owner and carries its identifier. It is
/// addressed to the faucet, unless the faucet is its own owner.
pub proof fn law_published_grant(
    event: SignedEvent,
    secret: Seq<u8>,
    kind: u16,
    faucet: Seq<u8>,
    controller: Seq<char>,
    profile: Seq<char>,
)
    requires
        event.signs(grant_draft(kind, faucet, controller, profile), secret),
    ensures
        event.author@ == crate::keys::public_key_of(secret),
        event.kind == kind,
        event.content@ == profile,
        event.author@ != faucet ==> tag_texts(event.tags@) == seq![
            identifier_tag(grant_identifier(faucet, controller)),
            recipient_tag(faucet),
        ],
        event.author@ == faucet ==> tag_texts(event.tags@) == seq![
            identifier_tag(grant_identifier(faucet, controller)),
        ],
{
    let author = crate::keys::public_key_of(secret);
    let first = identifier_tag(grant_identifier(faucet, controller));
    let second = recipient_tag(faucet);
    assert(seq!['d'][0] != seq!['p'][0]);
    assert(!addresses(first, author));
    if addresses(second, author) {
        law_hex_injective(faucet, author);
    }
    lemma_kept_of_two(first, second, author);
}

/// A later grant takes the place of an earlier one: two grants of one owner, of
/// the same faucet and for the same controller, are one addressable event, with
/// the same author, kind and identifier, whatever the profiles. So an empty
/// profile revokes.
pub proof fn law_later_grant_replaces(
    earlier: SignedEvent,
    later: SignedEvent,
    secret: Seq<u8>,
    kind: u16,
    faucet: Seq<u8>,
    controller: Seq<char>,
    profile: Seq<char>,
    later_profile: Seq<char>,
)
    requires
        earlier.signs(grant_draft(kind, faucet, controller, profile), secret),
        later.signs(grant_draft(kind, faucet, controller, later_profile), secret),
    ensures
        earlier.author@ == later.author@,
        earlier.kind == later.kind,
        tag_texts(earlier.tags@).len() > 0,
        tag_texts(later.tags@).len() > 0,
        tag_texts(earlier.tags@)[0] == identifier_tag(grant_identifier(faucet, controller)),
        tag_texts(later.tags@)[0] == identifier_tag(grant_identifier(faucet, controller)),
{
    law_published_grant(earlier, secret, kind, faucet, controller, profile);
    law_published_grant(later, secret, kind, faucet, controller, later_profile);
}

/// The phase that so many steps lead to.
pub open spec fn phase_in(phase: PublicationPhase, steps: nat) -> PublicationPhase
    decreases steps,
{
    if steps == 0 {
        phase
    } else {
        phase_after(phase_in(phase, (steps - 1) as nat))
    }
}

/// A publication connects, rests, sends, lets it settle and closes, in this order; it sends
/// once, and after that it is over for good.
pub proof fn law_publication_runs_its_course(steps: nat)
    ensures
        phase_in(PublicationPhase::Connect, steps) == (if steps == 0 {
            PublicationPhase::Connect
        } else if steps == 1 {
            PublicationPhase::Rest
        } else if steps == 2 {
            PublicationPhase::Send
        } else if steps == 3 {
            PublicationPhase::Settle
        } else if steps == 4 {
            PublicationPhase::Close
        } else {
            PublicationPhase::Over
        }),
    decreases steps,
{
    if steps > 0 {
        law_publication_runs_its_course((steps - 1) as nat);
    }
}

/// A publication that failed is never a success: whatever is asked or told later, it does
/// nothing but say what failed.
pub proof fn law_failed_publication_stays_failed(
    publication: PublicationView,
    error: Seq<char>,
    other: Seq<char>,
    steps: nat,
    action: PublicationAction,
)
    requires
        publication.phase != PublicationPhase::Over,
        publication.phase != PublicationPhase::Failed,
        ({
            let failed = publication_failed(publication, error);
            publication_does(
                PublicationView { phase: phase_in(failed.phase, steps), ..failed },
                action,
            )
        }),
    ensures
        action matches PublicationAction::Failed(words) && words@ == error,
        publication_failed(publication_failed(publication, error), other) == publication_failed(
            publication,
            error,
        ),
{
    lemma_failed_stays(steps);
}

proof fn lemma_failed_stays(steps: nat)
    ensures
        phase_in(PublicationPhase::Failed, steps) == PublicationPhase::Failed,
    decreases steps,
{
    if steps > 0 {
        lemma_failed_stays((steps - 1) as nat);
    }
}

/// A profile that allows every method carries the amount and the window that it was given,
/// whatever they are, and is the same only where they are.
pub proof fn law_open_profile_carries_its_limits(
    amount: u64,
    per_secs: u64,
    r: String,
    other_amount: u64,
    other_secs: u64,
    other: String,
)
    requires
        call_ensures(open_profile, (amount, per_secs), r),
        call_ensures(open_profile, (other_amount, other_secs), other),
    ensures
        r@ == "{\"methods\":{\"OTHERS\":{}},\"quota\":{\"amount\":"@ + decimal(amount as nat)
            + ",\"per_secs\":"@ + decimal(per_secs as nat) + ",\"max_capacity\":"@ + decimal(
            amount as nat,
        ) + "}}"@,
        amount == other_amount && per_secs != other_secs ==> r@ != other@,
{
    lemma_open_profile(amount as nat, per_secs as nat);
    lemma_open_profile(other_amount as nat, other_secs as nat);
    if amount == other_amount && r@ == other@ {
        let head = "{\"methods\":{\"OTHERS\":{}},\"quota\":{\"amount\":"@ + decimal(amount as nat)
            + ",\"per_secs\":"@;
        let tail = ",\"max_capacity\":"@ + decimal(amount as nat) + "}}"@;
        let a = decimal(per_secs as nat);
        let b = decimal(other_secs as nat);
        assert(r@ =~= head + a + tail);
        assert(other@ =~= head + b + tail);
        assert(a.len() == b.len());
        assert((head + a + tail).subrange(head.len() as int, (head.len() + a.len()) as int) =~= a);
        assert((head + b + tail).subrange(head.len() as int, (head.len() + b.len()) as int) =~= b);
        law_decimal_injective(per_secs as nat, other_secs as nat);
    }
}

pub(crate) proof fn lemma_open_profile(amount: nat, per_secs: nat)
    ensures
        open_profile_text(amount, per_secs)
            == "{\"methods\":{\"OTHERS\":{}},\"quota\":{\"amount\":"@ + decimal(amount)
            + ",\"per_secs\":"@ + decimal(per_secs) + ",\"max_capacity\":"@ + decimal(amount)
            + "}}"@,
{
    reveal_strlit("{\"methods\":{\"OTHERS\":{}},\"quota\":{\"amount\":");
    reveal_strlit("{\"methods\":{\"OTHERS\":{}},\"quota\":");
    reveal_strlit("{\"amount\":");
    reveal_strlit("}}");
    reveal_strlit("}");
    assert("{\"methods\":{\"OTHERS\":{}},\"quota\":{\"amount\":"@
        =~= "{\"methods\":{\"OTHERS\":{}},\"quota\":"@ + "{\"amount\":"@);
    assert("}}"@ =~= "}"@ + "}"@);
    assert(open_profile_text(amount, per_secs)
        =~= "{\"methods\":{\"OTHERS\":{}},\"quota\":{\"amount\":"@ + decimal(amount)
        + ",\"per_secs\":"@ + decimal(per_secs) + ",\"max_capacity\":"@ + decimal(amount) + "}}"@);
}

/// A rated profile allows payment alone, and carries the rate and the limits that it was given.
pub proof fn law_rated_profile_carries_its_limits(
    times: u64,
    rate_secs: u64,
    amount: u64,
    per_secs: u64,
    r: String,
)
    requires
        call_ensures(rated_profile, (times, rate_secs, amount, per_secs), r),
    ensures
        r@ == "{\"methods\":{\"pay_onchain\":{\"rate\":{\"amount\":"@ + decimal(times as nat)
            + ",\"per_secs\":"@ + decimal(rate_secs as nat) + ",\"max_capacity\":"@ + decimal(
            times as nat,
        ) + "}}},\"quota\":{\"amount\":"@ + decimal(amount as nat) + ",\"per_secs\":"@ + decimal(
            per_secs as nat,
        ) + ",\"max_capacity\":"@ + decimal(amount as nat) + "}}"@,
{
    lemma_rated_profile(times as nat, rate_secs as nat, amount as nat, per_secs as nat);
}

pub(crate) proof fn lemma_rated_profile(times: nat, rate_secs: nat, amount: nat, per_secs: nat)
    ensures
        rated_profile_text(times, rate_secs, amount, per_secs)
            == "{\"methods\":{\"pay_onchain\":{\"rate\":{\"amount\":"@ + decimal(times)
            + ",\"per_secs\":"@ + decimal(rate_secs) + ",\"max_capacity\":"@ + decimal(times)
            + "}}},\"quota\":{\"amount\":"@ + decimal(amount) + ",\"per_secs\":"@ + decimal(per_secs)
            + ",\"max_capacity\":"@ + decimal(amount) + "}}"@,
{
    reveal_strlit("{\"methods\":{\"pay_onchain\":{\"rate\":{\"amount\":");
    reveal_strlit("{\"methods\":{\"pay_onchain\":{\"rate\":");
    reveal_strlit("}}},\"quota\":{\"amount\":");
    reveal_strlit("}},\"quota\":");
    reveal_strlit("{\"amount\":");
    reveal_strlit("}}");
    reveal_strlit("}");
    assert("{\"methods\":{\"pay_onchain\":{\"rate\":{\"amount\":"@
        =~= "{\"methods\":{\"pay_onchain\":{\"rate\":"@ + "{\"amount\":"@);
    assert("}}},\"quota\":{\"amount\":"@ =~= "}"@ + "}},\"quota\":"@ + "{\"amount\":"@);
    assert("}}"@ =~= "}"@ + "}"@);
    assert(rated_profile_text(times, rate_secs, amount, per_secs)
        =~= "{\"methods\":{\"pay_onchain\":{\"rate\":{\"amount\":"@ + decimal(times)
        + ",\"per_secs\":"@ + decimal(rate_secs) + ",\"max_capacity\":"@ + decimal(times)
        + "}}},\"quota\":{\"amount\":"@ + decimal(amount) + ",\"per_secs\":"@ + decimal(per_secs)
        + ",\"max_capacity\":"@ + decimal(amount) + "}}"@);
}

/// A grant says what it was given: it is of this kind, signed with the owner's keys, holds the
/// profile, names the faucet and whom it is for, and is addressed to the faucet; it goes to
/// this relay.
pub proof fn law_grant_says_whom_and_what(
    kind: u16,
    owner: &Keys,
    faucet: &PublicKey,
    controller: &str,
    profile: &str,
    relay: &str,
    r: Publication,
)
    requires
        call_ensures(publish_grant_for, (kind, owner, faucet, controller, profile, relay), r),
    ensures
        r@.relay == relay@,
        r@.secret == owner.secret(),
        r@.draft.kind == kind,
        r@.draft.content == profile@,
        r@.draft.tags == seq![
            seq![seq!['d'], hex_text(faucet@) + seq![':'] + controller@],
            seq![seq!['p'], hex_text(faucet@)],
        ],
        r@.phase == PublicationPhase::Connect,
{
    reveal_strlit(":");
    assert(":"@ =~= seq![':']);
}

/// A grant for an asker is a grant for the asker's key in hexadecimal.
pub proof fn law_grant_for_an_asker_names_their_key(
    kind: u16,
    owner: &Keys,
    faucet: &PublicKey,
    asker: &PublicKey,
    profile: &str,
    relay: &str,
    r: Publication,
)
    requires
        call_ensures(publish_grant, (kind, owner, faucet, asker, profile, relay), r),
    ensures
        r@.relay == relay@,
        r@.secret == owner.secret(),
        r@.draft.kind == kind,
        r@.draft.content == profile@,
        r@.draft.tags == seq![
            seq![seq!['d'], hex_text(faucet@) + seq![':'] + hex_text(asker@)],
            seq![seq!['p'], hex_text(faucet@)],
        ],
        r@.phase == PublicationPhase::Connect,
{
    reveal_strlit(":");
    assert(":"@ =~= seq![':']);
}

/// What a publication does in each phase: it connects to its relay, rests for a fifth of a
/// second, sends what it is about, signed, lets it settle for six tenths, and closes.
pub proof fn law_publication_does_its_part(p: PublicationView, action: PublicationAction)
    requires
        publication_does(p, action),
    ensures
        p.phase == PublicationPhase::Connect ==> (action matches PublicationAction::Connect(relay)
            && relay@ == p.relay),
        p.phase == PublicationPhase::Rest ==> action == PublicationAction::Sleep(200),
        p.phase == PublicationPhase::Send ==> (action matches PublicationAction::Send(event)
            && event.author@ == crate::keys::public_key_of(p.secret) && event.kind == p.draft.kind
            && event.content@ == p.draft.content),
        p.phase == PublicationPhase::Settle ==> action == PublicationAction::Sleep(600),
        p.phase == PublicationPhase::Close ==> action == PublicationAction::Shutdown,
        p.phase == PublicationPhase::Over ==> action == PublicationAction::Finished,
{
}

}
