//! Destinations of an output, typed by the kind of key that spends them.

use bitcoin::PublicKey;
use vstd::prelude::*;

verus! {

/// A Taproot destination that commits to a script tree: the internal key and
/// the Merkle root of the tree.
#[derive(Debug, Clone, Copy)]
pub struct TaprootScript {
    pub pubkey: PublicKey,
    pub merkle_root: [u8; 32],
}

/// A destination whose spending condition is described by a `T`.
#[derive(Debug, Clone)]
pub struct Recipient<T> {
    t: T,
}

impl<T> Recipient<T> {
    /// The spending condition.
    pub closed spec fn condition(&self) -> T {
        self.t
    }
}

impl Recipient<PublicKey> {
    /// A destination spent by a plain public key.
    pub fn from_public_key(key: PublicKey) -> (r: Self)
        ensures
            r.condition() == key,
    {
        Recipient { t: key }
    }

    /// The public key that spends this destination.
    pub fn public_key(&self) -> (r: &PublicKey)
        ensures
            *r == self.condition(),
    {
        &self.t
    }
}

impl Recipient<TaprootScript> {
    /// Binds a script tree's Merkle root to the key of a plain-key destination.
    pub fn from_pubkey_recipient(recipient: Recipient<PublicKey>, merkle_root: [u8; 32]) -> (r:
        Self)
        ensures
            r.condition().pubkey == recipient.condition(),
            r.condition().merkle_root == merkle_root,
    {
        Recipient { t: TaprootScript { pubkey: recipient.t, merkle_root } }
    }

    /// The internal key and Merkle root of this destination.
    pub fn taproot_script(&self) -> (r: &TaprootScript)
        ensures
            *r == self.condition(),
    {
        &self.t
    }
}

} // verus!
