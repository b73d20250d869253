//! Nostr keys: a secret key and the public key that belongs to it.

use vstd::prelude::*;

verus! {

/// The number that bytes spell, the most significant first.
pub open spec fn big_endian(bytes: Seq<u8>) -> nat
    decreases bytes.len(),
{
    if bytes.len() == 0 {
        0
    } else {
        256 * big_endian(bytes.drop_last()) + bytes.last() as nat
    }
}

/// The order of the curve secp256k1.
pub open spec fn curve_order() -> nat {
    0xFFFFFFFF_FFFFFFFF_FFFFFFFF_FFFFFFFE_BAAEDCE6_AF48A03B_BFD25E8C_D0364141nat
}

/// The prime over which the curve secp256k1 is defined.
pub open spec fn curve_prime() -> nat {
    0xFFFFFFFF_FFFFFFFF_FFFFFFFF_FFFFFFFF_FFFFFFFF_FFFFFFFF_FFFFFFFE_FFFFFC2Fnat
}

/// Whether bytes are a secret key: a number from 1 up to the curve's order.
pub open spec fn is_secret(bytes: Seq<u8>) -> bool {
    bytes.len() == 32 && 0 < big_endian(bytes) < curve_order()
}

/// Whether bytes are the first coordinate of a point on the curve
/// `y^2 = x^3 + 7`.
pub open spec fn on_curve(bytes: Seq<u8>) -> bool {
    let x = big_endian(bytes);
    &&& bytes.len() == 32
    &&& x < curve_prime()
    &&& exists|y: nat| #[trigger] (y * y) % curve_prime() == (x * x * x + 7) % curve_prime()
}

/// The public key that `nostr_sdk` derives from a secret key.
pub uninterp spec fn public_key_of(secret: Seq<u8>) -> Seq<u8>;

/// What `nostr_sdk::PublicKey::parse` makes of a text: the key's bytes, or `None`
/// where the text is no key.
pub uninterp spec fn public_key_read(text: Seq<char>) -> Option<Seq<u8>>;

/// What is said of a text that is no public key.
pub open spec fn no_key_text() -> Seq<char> {
    "Invalid public key"@
}

/// The hexadecimal digit of `d`, in lower case.
pub open spec fn hex_digit(d: int) -> char {
    if d < 10 {
        (48 + d) as u8 as char
    } else {
        (87 + d) as u8 as char
    }
}

/// Bytes in hexadecimal, two digits each, in lower case.
pub open spec fn hex_text(bytes: Seq<u8>) -> Seq<char> {
    Seq::new(
        2 * bytes.len(),
        |i: int|
            if i % 2 == 0 {
                hex_digit(bytes[i / 2] as int / 16)
            } else {
                hex_digit(bytes[i / 2] as int % 16)
            },
    )
}

/// A public key.
#[derive(Clone, Copy)]
pub struct PublicKey {
    pub bytes: [u8; 32],
}

/// A secret key, with which its holder signs and seals.
#[derive(Clone, Copy)]
pub struct Keys {
    secret: [u8; 32],
}

/// Draws a secret key with `nostr_sdk::Keys::generate`, from the randomness of the
/// operating system: whatever is drawn is a secret key.
#[verifier::external_body]
fn draw_secret() -> (r: [u8; 32])
    ensures
        is_secret(r@),
{
    nostr_sdk::Keys::generate().secret_key().to_secret_bytes()
}

/// Derives the public key with `nostr_sdk::Keys::new`: it depends on the secret key
/// alone, and is a point on the curve.
#[verifier::external_body]
fn derive_public(secret: &[u8; 32]) -> (r: [u8; 32])
    requires
        is_secret(secret@),
    ensures
        r@ == public_key_of(secret@),
        on_curve(r@),
{
    nostr_sdk::Keys::new(nostr_sdk::SecretKey::from_slice(secret).unwrap()).public_key().to_bytes()
}

/// `nostr_sdk::PublicKey::to_hex`: the bytes in hexadecimal.
#[verifier::external_body]
fn public_hex(bytes: &[u8; 32]) -> (r: String)
    ensures
        r@ == hex_text(bytes@),
{
    nostr_sdk::PublicKey::from_byte_array(*bytes).to_hex()
}

/// `nostr_sdk::SecretKey::to_secret_hex`: the bytes in hexadecimal.
#[verifier::external_body]
fn secret_hex(bytes: &[u8; 32]) -> (r: String)
    requires
        is_secret(bytes@),
    ensures
        r@ == hex_text(bytes@),
{
    nostr_sdk::SecretKey::from_slice(bytes).unwrap().to_secret_hex()
}

/// `nostr_sdk::PublicKey::parse`: it reads a key from hexadecimal, bech32 or a
/// `nostr:` URI. Which key it is depends on the text alone; of a key in
/// hexadecimal it reads the bytes. Of what is no key its error always says the
/// same.
#[verifier::external_body]
fn read_public(text: &str) -> (r: Result<[u8; 32], String>)
    ensures
        r is Ok <==> public_key_read(text@) is Some,
        r matches Ok(bytes) ==> public_key_read(text@) == Some(bytes@),
        forall|key: Seq<u8>|
            key.len() == 32 && text@ == #[trigger] hex_text(key) ==> r is Ok && (r->Ok_0)@ == key,
        r matches Err(error) ==> error@ == no_key_text(),
{
    nostr_sdk::PublicKey::parse(text).map(|key| key.to_bytes()).map_err(|error| error.to_string())
}

impl PublicKey {
    /// The key's bytes.
    pub open spec fn view(&self) -> Seq<u8> {
        self.bytes@
    }

    /// Reads a key from hexadecimal, bech32 or a `nostr:` URI.
    pub fn parse(text: &str) -> (r: Result<PublicKey, String>)
        ensures
            r is Ok <==> public_key_read(text@) is Some,
            r matches Ok(key) ==> public_key_read(text@) == Some(key@),
            r matches Err(error) ==> error@ == no_key_text(),
            forall|key: Seq<u8>|
                #![trigger hex_text(key)]
                key.len() == 32 && text@ == hex_text(key) ==> r is Ok && r->Ok_0@ == key,
    {
        match read_public(text) {
            Ok(bytes) => Ok(PublicKey { bytes }),
            Err(error) => Err(error),
        }
    }

    /// The key in hexadecimal.
    pub fn to_hex(&self) -> (r: String)
        ensures
            r@ == hex_text(self@),
    {
        public_hex(&self.bytes)
    }
}

impl Keys {
    /// The secret key's bytes.
    pub closed spec fn secret(&self) -> Seq<u8> {
        self.secret@
    }

    /// The public key's bytes.
    pub open spec fn public(&self) -> Seq<u8> {
        public_key_of(self.secret())
    }

    #[verifier::type_invariant]
    spec fn well_formed(self) -> bool {
        is_secret(self.secret@)
    }

    /// Fresh keys. Which ones is a matter of chance.
    pub fn generate() -> (r: Keys)
        ensures
            is_secret(r.secret()),
    {
        Keys { secret: draw_secret() }
    }

    /// The public key.
    pub fn public_key(&self) -> (r: PublicKey)
        ensures
            r@ == self.public(),
            on_curve(r@),
    {
        proof {
            use_type_invariant(self);
        }
        PublicKey { bytes: derive_public(&self.secret) }
    }

    /// The secret key in hexadecimal.
    pub fn to_secret_hex(&self) -> (r: String)
        ensures
            r@ == hex_text(self.secret()),
    {
        proof {
            use_type_invariant(self);
        }
        secret_hex(&self.secret)
    }

    /// The same keys.
    pub(crate) fn same(&self) -> (r: Keys)
        ensures
            r == *self,
            is_secret(r.secret()),
    {
        proof {
            use_type_invariant(self);
        }
        *self
    }

    /// The secret key's bytes.
    pub(crate) fn secret_bytes(&self) -> (r: [u8; 32])
        ensures
            r@ == self.secret(),
            is_secret(r@),
    {
        proof {
            use_type_invariant(self);
        }
        self.secret
    }
}

/// Digits of different numbers are different characters.
proof fn lemma_hex_digit_injective(a: int, b: int)
    requires
        0 <= a < 16,
        0 <= b < 16,
        hex_digit(a) == hex_digit(b),
    ensures
        a == b,
{
}

/// Different keys have different hexadecimal texts.
pub proof fn law_hex_injective(a: Seq<u8>, b: Seq<u8>)
    requires
        hex_text(a) == hex_text(b),
    ensures
        a == b,
{
    assert(hex_text(a).len() == 2 * a.len());
    assert(hex_text(b).len() == 2 * b.len());
    assert forall|i: int| 0 <= i < a.len() implies a[i] == b[i] by {
        assert(hex_text(a)[2 * i] == hex_digit(a[i] as int / 16));
        assert(hex_text(b)[2 * i] == hex_digit(b[i] as int / 16));
        assert(hex_text(a)[2 * i + 1] == hex_digit(a[i] as int % 16));
        assert(hex_text(b)[2 * i + 1] == hex_digit(b[i] as int % 16));
        lemma_hex_digit_injective(a[i] as int / 16, b[i] as int / 16);
        lemma_hex_digit_injective(a[i] as int % 16, b[i] as int % 16);
    }
    assert(a =~= b);
}

/// The number that a hexadecimal digit in lower case stands for, or none.
pub open spec fn hex_value(c: char) -> Option<int> {
    if '0' <= c <= '9' {
        Some(c as int - '0' as int)
    } else if 'a' <= c <= 'f' {
        Some(c as int - 'a' as int + 10)
    } else {
        None
    }
}

/// Hexadecimal spells its bytes: two digits for each, the higher first, in lower case.
pub proof fn law_hex_spells_its_bytes(bytes: Seq<u8>)
    ensures
        hex_text(bytes).len() == 2 * bytes.len(),
        forall|i: int|
            0 <= i < bytes.len() ==> hex_value(hex_text(bytes)[2 * i]) is Some && hex_value(
                hex_text(bytes)[2 * i + 1],
            ) is Some && 16 * hex_value(hex_text(bytes)[2 * i])->0 + hex_value(
                hex_text(bytes)[2 * i + 1],
            )->0 == #[trigger] bytes[i],
{
    assert forall|i: int| 0 <= i < bytes.len() implies hex_value(hex_text(bytes)[2 * i]) is Some
        && hex_value(hex_text(bytes)[2 * i + 1]) is Some && 16 * hex_value(
        hex_text(bytes)[2 * i],
    )->0 + hex_value(hex_text(bytes)[2 * i + 1])->0 == #[trigger] bytes[i] by {
        let b = bytes[i] as int;
        assert(hex_text(bytes)[2 * i] == hex_digit(b / 16));
        assert(hex_text(bytes)[2 * i + 1] == hex_digit(b % 16));
        assert(hex_value(hex_digit(b / 16)) == Some(b / 16));
        assert(hex_value(hex_digit(b % 16)) == Some(b % 16));
    }
}

/// A key reads back from its hexadecimal text, and what is no key is told.
pub proof fn law_key_reads_back(
    public: PublicKey,
    hex: String,
    text: &str,
    r: Result<PublicKey, String>,
)
    requires
        call_ensures(PublicKey::to_hex, (&public,), hex),
        call_ensures(PublicKey::parse, (text,), r),
    ensures
        hex@ == hex_text(public@),
        text@ == hex@ ==> (r matches Ok(read) && read@ == public@),
        r matches Err(words) ==> words@ == "Invalid public key"@,
{
    assert(public@.len() == 32);
}

/// The public key, and the secret key in hexadecimal, are those of the keys.
pub proof fn law_keys_are_their_own(keys: Keys, public: PublicKey, secret: String)
    requires
        call_ensures(Keys::public_key, (&keys,), public),
        call_ensures(Keys::to_secret_hex, (&keys,), secret),
    ensures
        public@ == public_key_of(keys.secret()),
        on_curve(public@),
        secret@ == hex_text(keys.secret()),
{
}

}
