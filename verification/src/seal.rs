//! Sealed messages: NIP-44, between one holder of keys and another.

use crate::keys::{is_secret, on_curve, public_key_of, Keys, PublicKey};
use vstd::prelude::*;

verus! {

/// The most bytes that a message to seal may have.
pub const MAX_MESSAGE: u64 = 65408;

/// What `nostr_sdk::nips::nip44::decrypt` makes of a sealed message, with a secret key and
/// the public key of the other side: the message, or what its error says where it does
/// not open.
pub uninterp spec fn nip44_open(secret: Seq<u8>, other: Seq<u8>, sealed: Seq<char>) -> Result<
    Seq<char>,
    Seq<char>,
>;

/// Whether a sealed message opens to this message, with a secret key and the public key of
/// the other side.
pub open spec fn opens(
    secret: Seq<u8>,
    other: Seq<u8>,
    sealed: Seq<char>,
    message: Seq<char>,
) -> bool {
    nip44_open(secret, other, sealed) matches Ok(opened) && opened == message
}

/// What is said of a message that cannot be sealed.
pub open spec fn seal_error_text(other: Seq<u8>, message: Seq<char>) -> Seq<char> {
    if !on_curve(other) {
        "malformed public key"@
    } else if vstd::utf8::encode_utf8(message).len() == 0 {
        "message empty"@
    } else {
        "message too long"@
    }
}

/// Whether a message can be sealed for a public key: the key is a point on the
/// curve, and the message is neither empty nor too long.
pub open spec fn sealable(other: Seq<u8>, message: Seq<char>) -> bool {
    &&& on_curve(other)
    &&& 1 <= vstd::utf8::encode_utf8(message).len() <= MAX_MESSAGE
}

/// Whether `sealed` is `message`, sealed by the holder of `secret` for the holder
/// of the public key `other`: it opens to the message on both sides.
pub open spec fn seals(
    secret: Seq<u8>,
    other: Seq<u8>,
    message: Seq<char>,
    sealed: Seq<char>,
) -> bool {
    &&& opens(secret, other, sealed, message)
    &&& forall|theirs: Seq<u8>|
        is_secret(theirs) && #[trigger] public_key_of(theirs) == other ==> opens(
            theirs,
            public_key_of(secret),
            sealed,
            message,
        )
}

/// `nostr_sdk::nips::nip44::encrypt`, version 2. It fails where the public key is no point on
/// the curve, or the message is empty or too long, and its error says which. The nonce
/// is drawn at random; whatever it is, `nostr_sdk::nips::nip44::decrypt` gives the message
/// back, to the holder of either secret key.
#[verifier::external_body]
fn encrypt(secret: &[u8; 32], other: &[u8; 32], message: &str) -> (r: Result<String, String>)
    requires
        is_secret(secret@),
    ensures
        r is Ok <==> sealable(other@, message@),
        r matches Ok(sealed) ==> seals(secret@, other@, message@, sealed@),
        r matches Err(error) ==> error@ == seal_error_text(other@, message@),
{
    nostr_sdk::nips::nip44::encrypt(
        &nostr_sdk::SecretKey::from_slice(secret).unwrap(),
        &nostr_sdk::PublicKey::from_byte_array(*other),
        message,
        nostr_sdk::nips::nip44::Version::V2,
    ).map_err(|error| error.to_string())
}

/// `nostr_sdk::nips::nip44::decrypt`: what comes out, or what its error says, depends on
/// the two keys and the sealed message alone.
#[verifier::external_body]
fn decrypt(secret: &[u8; 32], other: &[u8; 32], sealed: &str) -> (r: Result<String, String>)
    requires
        is_secret(secret@),
    ensures
        r is Ok <==> nip44_open(secret@, other@, sealed@) is Ok,
        r matches Ok(message) ==> message@ == nip44_open(secret@, other@, sealed@)->Ok_0,
        r matches Err(error) ==> error@ == nip44_open(secret@, other@, sealed@)->Err_0,
{
    nostr_sdk::nips::nip44::decrypt(
        &nostr_sdk::SecretKey::from_slice(secret).unwrap(),
        &nostr_sdk::PublicKey::from_byte_array(*other),
        sealed,
    ).map_err(|error| error.to_string())
}

/// Seals a message for the holder of the public key `other`, or says why it cannot be.
pub fn seal(us: &Keys, other: &PublicKey, message: &str) -> (r: Result<String, String>)
    ensures
        r is Ok <==> sealable(other@, message@),
        r matches Ok(sealed) ==> seals(us.secret(), other@, message@, sealed@),
        r matches Err(error) ==> error@ == seal_error_text(other@, message@),
{
    let secret = us.secret_bytes();
    encrypt(&secret, &other.bytes, message)
}

/// Opens a message that was sealed between us and the holder of `other`, or says why it
/// does not open.
pub fn open(us: &Keys, other: &PublicKey, sealed: &str) -> (r: Result<String, String>)
    ensures
        r is Ok <==> nip44_open(us.secret(), other@, sealed@) is Ok,
        r matches Ok(message) ==> opens(us.secret(), other@, sealed@, message@),
        r matches Err(error) ==> error@ == nip44_open(us.secret(), other@, sealed@)->Err_0,
{
    let secret = us.secret_bytes();
    decrypt(&secret, &other.bytes, sealed)
}

/// What one seals, the other opens, and so do they themselves: a message comes back as it was,
/// whatever it is.
pub proof fn law_sealed_message_comes_back(
    us: &Keys,
    our_key: &PublicKey,
    them: &Keys,
    their_key: &PublicKey,
    message: &str,
    sealed: String,
    carried: &str,
    theirs: Result<String, String>,
    ours: Result<String, String>,
)
    requires
        our_key@ == public_key_of(us.secret()),
        their_key@ == public_key_of(them.secret()),
        is_secret(them.secret()),
        call_ensures(seal, (us, their_key, message), Ok::<String, String>(sealed)),
        carried@ == sealed@,
        call_ensures(open, (them, our_key, carried), theirs),
        call_ensures(open, (us, their_key, carried), ours),
    ensures
        theirs matches Ok(opened) && opened@ == message@,
        ours matches Ok(opened) && opened@ == message@,
{
}

/// A message is sealed where the key is a point on the curve and the message has from one to
/// 65408 bytes, and what is wrong otherwise is told.
pub proof fn law_what_can_be_sealed(
    us: &Keys,
    other: &PublicKey,
    message: &str,
    r: Result<String, String>,
)
    requires
        call_ensures(seal, (us, other, message), r),
    ensures
        r is Ok <==> on_curve(other@) && 1 <= vstd::utf8::encode_utf8(message@).len() <= 65408,
        !on_curve(other@) ==> (r matches Err(words) && words@ == "malformed public key"@),
        on_curve(other@) && vstd::utf8::encode_utf8(message@).len() == 0 ==> (r matches Err(words)
            && words@ == "message empty"@),
        on_curve(other@) && vstd::utf8::encode_utf8(message@).len() > 65408 ==> (r matches Err(
            words,
        ) && words@ == "message too long"@),
{
}

}
