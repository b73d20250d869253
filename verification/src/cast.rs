//! Who takes part in a scenario.

use crate::keys::{is_secret, Keys};
use vstd::prelude::*;

verus! {

/// A part in a scenario.
#[derive(Clone, Copy, Debug, PartialEq, Eq, Structural)]
pub enum Role {
    /// The only key whose grants the faucets accept.
    Owner,
    /// The first asker to be paid out of the total cap.
    First,
    /// The second asker to be paid out of the total cap.
    Second,
    /// An asker with an untouched quota, when the total cap is exhausted.
    Fresh,
    /// An asker that only the impostor grants.
    Victim,
    /// A key that is no owner, and publishes a grant all the same.
    Impostor,
    /// An asker of the owner's own.
    Alice,
    /// An asker that nobody grants.
    Stranger,
    /// An asker that asks twice at once.
    Hasty,
}

/// The keys of everybody who takes part.
#[derive(Clone, Copy)]
pub struct Cast {
    pub owner: Keys,
    pub first: Keys,
    pub second: Keys,
    pub fresh: Keys,
    pub victim: Keys,
    pub impostor: Keys,
    pub alice: Keys,
    pub stranger: Keys,
    pub hasty: Keys,
}

impl Cast {
    /// The keys of a part.
    pub open spec fn spec_keys(self, role: Role) -> Keys {
        match role {
            Role::Owner => self.owner,
            Role::First => self.first,
            Role::Second => self.second,
            Role::Fresh => self.fresh,
            Role::Victim => self.victim,
            Role::Impostor => self.impostor,
            Role::Alice => self.alice,
            Role::Stranger => self.stranger,
            Role::Hasty => self.hasty,
        }
    }

    /// The secret key of a part.
    pub open spec fn secret(self, role: Role) -> Seq<u8> {
        self.spec_keys(role).secret()
    }

    /// The public key of a part.
    pub open spec fn public(self, role: Role) -> Seq<u8> {
        self.spec_keys(role).public()
    }

    /// Fresh keys for everybody. Which ones is a matter of chance.
    pub fn generate() -> (r: Cast)
        ensures
            forall|role: Role| is_secret(#[trigger] r.secret(role)),
    {
        Cast {
            owner: Keys::generate(),
            first: Keys::generate(),
            second: Keys::generate(),
            fresh: Keys::generate(),
            victim: Keys::generate(),
            impostor: Keys::generate(),
            alice: Keys::generate(),
            stranger: Keys::generate(),
            hasty: Keys::generate(),
        }
    }

    /// The keys of a part.
    pub fn keys(&self, role: Role) -> (r: Keys)
        ensures
            r == self.spec_keys(role),
    {
        match role {
            Role::Owner => self.owner,
            Role::First => self.first,
            Role::Second => self.second,
            Role::Fresh => self.fresh,
            Role::Victim => self.victim,
            Role::Impostor => self.impostor,
            Role::Alice => self.alice,
            Role::Stranger => self.stranger,
            Role::Hasty => self.hasty,
        }
    }
}

/// Everybody has their own keys: what a part is given is what the cast holds for it.
pub proof fn law_parts_have_their_own_keys(cast: Cast, role: Role, keys: Keys)
    requires
        call_ensures(Cast::keys, (&cast, role), keys),
    ensures
        role == Role::Owner ==> keys == cast.owner,
        role == Role::First ==> keys == cast.first,
        role == Role::Second ==> keys == cast.second,
        role == Role::Fresh ==> keys == cast.fresh,
        role == Role::Victim ==> keys == cast.victim,
        role == Role::Impostor ==> keys == cast.impostor,
        role == Role::Alice ==> keys == cast.alice,
        role == Role::Stranger ==> keys == cast.stranger,
        role == Role::Hasty ==> keys == cast.hasty,
        cast.secret(role) == keys.secret(),
        cast.public(role) == crate::keys::public_key_of(keys.secret()),
{
}

}
