//! Nostr events: what is to be said, and the same signed.

use crate::keys::{hex_text, is_secret, public_key_of, Keys, PublicKey};
use crate::text::texts;
use vstd::prelude::*;

verus! {

/// `nostr_sdk::event::builder::Error`, the reason why an event was not signed.
#[verifier::external_type_specification]
#[verifier::external_body]
pub struct ExBuilderError(nostr_sdk::event::builder::Error);

/// An event that is not signed yet.
pub struct Draft {
    pub kind: u16,
    pub content: String,
    pub tags: Vec<Vec<String>>,
}

/// A signed event.
pub struct SignedEvent {
    pub id: [u8; 32],
    pub author: PublicKey,
    /// Seconds since the Unix epoch.
    pub created_at: u64,
    pub kind: u16,
    pub tags: Vec<Vec<String>>,
    pub content: String,
    pub signature: [u8; 64],
}

/// The id that `nostr_sdk` computes for an event, `EventId::new`.
pub uninterp spec fn event_id(
    author: Seq<u8>,
    created_at: u64,
    kind: u16,
    tags: Seq<Seq<Seq<char>>>,
    content: Seq<char>,
) -> Seq<u8>;

/// Whether a signature of an id verifies for a public key, as `Event::verify_signature`
/// tells.
pub uninterp spec fn verifies(author: Seq<u8>, id: Seq<u8>, signature: Seq<u8>) -> bool;

/// The texts of each tag.
pub open spec fn tag_texts(tags: Seq<Vec<String>>) -> Seq<Seq<Seq<char>>> {
    Seq::new(tags.len(), |i: int| texts(tags[i]@))
}

/// The tag that names an addressable event.
pub open spec fn identifier_tag(identifier: Seq<char>) -> Seq<Seq<char>> {
    seq![seq!['d'], identifier]
}

/// The tag that addresses an event to a public key.
pub open spec fn recipient_tag(key: Seq<u8>) -> Seq<Seq<char>> {
    seq![seq!['p'], hex_text(key)]
}

/// Whether a tag addresses an event to the public key `key`.
pub open spec fn addresses(tag: Seq<Seq<char>>, key: Seq<u8>) -> bool {
    tag.len() >= 2 && tag[0] == seq!['p'] && tag[1] == hex_text(key)
}

/// The tags that an event keeps when `author` signs it: those that address it
/// to its own author are dropped.
pub open spec fn kept_tags(tags: Seq<Seq<Seq<char>>>, author: Seq<u8>) -> Seq<Seq<Seq<char>>> {
    tags.filter(|tag: Seq<Seq<char>>| !addresses(tag, author))
}

/// What a draft says.
pub struct DraftView {
    pub kind: u16,
    pub content: Seq<char>,
    pub tags: Seq<Seq<Seq<char>>>,
}

impl Draft {
    /// What the draft says.
    pub open spec fn view(&self) -> DraftView {
        DraftView { kind: self.kind, content: self.content@, tags: tag_texts(self.tags@) }
    }
}

impl SignedEvent {
    /// Whether this is what `draft` says, signed by the holder of `secret`, at
    /// whatever time.
    pub open spec fn signs(&self, draft: DraftView, secret: Seq<u8>) -> bool {
        let author = public_key_of(secret);
        &&& self.author@ == author
        &&& self.kind == draft.kind
        &&& self.content@ == draft.content
        &&& tag_texts(self.tags@) == kept_tags(draft.tags, author)
        &&& self.id@ == event_id(
            author,
            self.created_at,
            self.kind,
            tag_texts(self.tags@),
            self.content@,
        )
        &&& verifies(author, self.id@, self.signature@)
    }
}

/// `nostr_sdk::Tag::identifier`: the tag `d` with the identifier.
#[verifier::external_body]
pub(crate) fn compose_identifier(identifier: &str) -> (r: Vec<String>)
    ensures
        texts(r@) == identifier_tag(identifier@),
{
    nostr_sdk::Tag::identifier(identifier).to_vec()
}

/// `nostr_sdk::Tag::public_key`: the tag `p` with the key in hexadecimal.
#[verifier::external_body]
pub(crate) fn compose_recipient(key: &[u8; 32]) -> (r: Vec<String>)
    ensures
        texts(r@) == recipient_tag(key@),
{
    nostr_sdk::Tag::public_key(nostr_sdk::PublicKey::from_byte_array(*key)).to_vec()
}

/// `nostr_sdk::EventBuilder::sign_with_keys`. The builder stamps the event with the
/// present time, drops the tags that address it to its own author and computes
/// the id; the signature is drawn with randomness, and verifies whatever was drawn.
/// Signing fails only where the id that was just computed is not the event's own,
/// and computing it again gives the same, so it does not fail.
#[verifier::external_body]
fn build_and_sign(secret: &[u8; 32], draft: &Draft) -> (r: Result<
    SignedEvent,
    nostr_sdk::event::builder::Error,
>)
    requires
        is_secret(secret@),
        forall|i: int| 0 <= i < draft.tags@.len() ==> (#[trigger] draft.tags@[i])@.len() > 0,
    ensures
        r is Ok,
        r matches Ok(event) ==> event.author@ == public_key_of(secret@),
        r matches Ok(event) ==> event.kind == draft.kind && event.content@ == draft.content@,
        r matches Ok(event) ==> tag_texts(event.tags@) == kept_tags(
            tag_texts(draft.tags@),
            event.author@,
        ),
        r matches Ok(event) ==> event.id@ == event_id(
            event.author@,
            event.created_at,
            event.kind,
            tag_texts(event.tags@),
            event.content@,
        ),
        r matches Ok(event) ==> verifies(event.author@, event.id@, event.signature@),
{
    let keys = nostr_sdk::Keys::new(nostr_sdk::SecretKey::from_slice(secret).unwrap());
    let tags = draft.tags.iter().map(|tag| nostr_sdk::Tag::parse(tag.clone()).unwrap());
    nostr_sdk::EventBuilder::new(nostr_sdk::Kind::Custom(draft.kind), draft.content.clone())
        .tags(tags).sign_with_keys(&keys).map(|event| SignedEvent {
        id: event.id.to_bytes(),
        author: PublicKey { bytes: event.pubkey.to_bytes() },
        created_at: event.created_at.as_secs(),
        kind: event.kind.as_u16(),
        tags: event.tags.iter().map(|tag| tag.clone().to_vec()).collect(),
        content: event.content.clone(),
        signature: event.sig.serialize(),
    })
}

/// `nostr_sdk::Event::verify_signature`: whether it verifies depends on the author, the id
/// and the signature alone.
#[verifier::external_body]
fn check_signature(author: &[u8; 32], id: &[u8; 32], signature: &[u8; 64]) -> (r: bool)
    ensures
        r == verifies(author@, id@, signature@),
{
    nostr_sdk::Event::new(
        nostr_sdk::EventId::from_byte_array(*id),
        nostr_sdk::PublicKey::from_byte_array(*author),
        nostr_sdk::Timestamp::from(0),
        nostr_sdk::Kind::Custom(0),
        nostr_sdk::event::Tags::new(),
        String::new(),
        nostr_sdk::secp256k1::schnorr::Signature::from_slice(signature).unwrap(),
    ).verify_signature()
}

impl SignedEvent {
    /// Whether the signature is one of the author, of the event's id.
    pub fn verify_signature(&self) -> (r: bool)
        ensures
            r == verifies(self.author@, self.id@, self.signature@),
    {
        check_signature(&self.author.bytes, &self.id, &self.signature)
    }
}

/// Signs a draft.
pub(crate) fn sign(us: &Keys, draft: &Draft) -> (r: SignedEvent)
    requires
        forall|i: int| 0 <= i < draft.tags@.len() ==> (#[trigger] draft.tags@[i])@.len() > 0,
    ensures
        r.signs(draft@, us.secret()),
{
    let secret = us.secret_bytes();
    build_and_sign(&secret, draft).unwrap()
}

}
