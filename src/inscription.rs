//! An Ordinals inscription: the envelope script, its Taproot commitment and
//! the destination that commits to it.

use crate::recipient::{Recipient, TaprootScript};
use crate::script::{envelope, envelope_result, envelope_script, pushable, Error};
use crate::taproot::{single_leaf_spend_info, tap_leaf_root};
use bitcoin::taproot::TaprootSpendInfo;
use bitcoin::PublicKey;
use vstd::prelude::*;

verus! {

/// A script together with the Taproot spend information of the tree whose
/// only leaf it is.
#[derive(Debug, Clone)]
pub struct TaprootProgram {
    pub script: Vec<u8>,
    pub spend_info: TaprootSpendInfo,
    /// The Merkle root recorded in `spend_info`.
    pub merkle_root: [u8; 32],
}

impl TaprootProgram {
    /// The program commits to `script` under the single-leaf tree.
    pub open spec fn commits_to(&self, script: Seq<u8>) -> bool {
        &&& self.script@ == script
        &&& self.merkle_root@ == tap_leaf_root(script)
    }
}

/// Creates the envelope for `mime` and `data` and the spending information
/// that commits to it under `internal_key`.
///
/// At the commit stage `internal_key` is the recipient's key; at the reveal
/// stage it is the claimer's. The script, and so the Merkle root, is the same
/// in both: only the output key differs.
pub fn create_envelope(mime: &[u8], data: &[u8], internal_key: &PublicKey) -> (r: Result<
    TaprootProgram,
    Error,
>)
    ensures
        match r {
            Ok(p) => pushable(mime@) && pushable(data@) && p.commits_to(envelope(mime@, data@)),
            Err(e) => envelope_result(mime@, data@, Err(e)),
        },
{
    let script = envelope_script(mime, data)?;
    let (spend_info, merkle_root) = single_leaf_spend_info(&script, internal_key);
    Ok(TaprootProgram { script, spend_info, merkle_root })
}

/// One inscription of a MIME type and a payload, bound to a destination.
#[derive(Debug, Clone)]
pub struct OrdinalsInscription {
    envelope: TaprootProgram,
    recipient: Recipient<TaprootScript>,
}

impl OrdinalsInscription {
    /// The envelope script.
    pub closed spec fn script_bytes(&self) -> Seq<u8> {
        self.envelope.script@
    }

    /// The Merkle root of the script tree.
    pub closed spec fn root(&self) -> Seq<u8> {
        self.envelope.merkle_root@
    }

    /// The Taproot spend information.
    pub closed spec fn spend_info_spec(&self) -> TaprootSpendInfo {
        self.envelope.spend_info
    }

    /// The destination that commits to the script tree.
    pub closed spec fn destination(&self) -> TaprootScript {
        self.recipient.condition()
    }

    /// This is the inscription of `mime` and `data` for the destination keyed
    /// by `key`.
    pub open spec fn inscribes(&self, mime: Seq<u8>, data: Seq<u8>, key: PublicKey) -> bool {
        &&& self.script_bytes() == envelope(mime, data)
        &&& self.root() == tap_leaf_root(envelope(mime, data))
        &&& self.destination().pubkey == key
        &&& self.destination().merkle_root@ == self.root()
    }

    /// Creates the inscription of `mime` and `data` for a plain-key
    /// destination ("commit stage"). It fails exactly when `mime` or `data`
    /// cannot be one script push.
    pub fn new(mime: &[u8], data: &[u8], recipient: Recipient<PublicKey>) -> (r: Result<
        OrdinalsInscription,
        Error,
    >)
        ensures
            match r {
                Ok(ins) => pushable(mime@) && pushable(data@) && ins.inscribes(
                    mime@,
                    data@,
                    recipient.condition(),
                ),
                Err(e) => envelope_result(mime@, data@, Err(e)),
            },
    {
        let envelope = create_envelope(mime, data, recipient.public_key())?;
        let merkle_root = envelope.merkle_root;
        Ok(OrdinalsInscription {
            envelope,
            recipient: Recipient::<TaprootScript>::from_pubkey_recipient(recipient, merkle_root),
        })
    }

    /// The envelope script, placed in the witness at the reveal stage.
    pub fn taproot_program(&self) -> (r: &[u8])
        ensures
            r@ == self.script_bytes(),
    {
        self.envelope.script.as_slice()
    }

    /// The Taproot spend information of the single-leaf tree.
    pub fn spend_info(&self) -> (r: &TaprootSpendInfo)
        ensures
            *r == self.spend_info_spec(),
    {
        &self.envelope.spend_info
    }

    /// The Merkle root of the single-leaf tree.
    pub fn merkle_root(&self) -> (r: [u8; 32])
        ensures
            r@ == self.root(),
    {
        self.envelope.merkle_root
    }

    /// The destination that commits to the script tree.
    pub fn recipient(&self) -> (r: &Recipient<TaprootScript>)
        ensures
            r.condition() == self.destination(),
    {
        &self.recipient
    }
}

/// Building the inscription of the same MIME type and payload for the same
/// key twice gives the same script, the same Merkle root and the same
/// destination.
pub proof fn lemma_construction_is_deterministic(
    a: OrdinalsInscription,
    b: OrdinalsInscription,
    mime: Seq<u8>,
    data: Seq<u8>,
    key: PublicKey,
)
    requires
        a.inscribes(mime, data, key),
        b.inscribes(mime, data, key),
    ensures
        a.script_bytes() == b.script_bytes(),
        a.root() == b.root(),
        a.destination() == b.destination(),
{
    assert(a.destination().merkle_root =~= b.destination().merkle_root);
}

/// Changing the key leaves the envelope script and its Merkle root as they
/// are: only the key of the destination follows it.
pub proof fn lemma_key_changes_only_destination(
    a: OrdinalsInscription,
    b: OrdinalsInscription,
    mime: Seq<u8>,
    data: Seq<u8>,
    key_a: PublicKey,
    key_b: PublicKey,
)
    requires
        a.inscribes(mime, data, key_a),
        b.inscribes(mime, data, key_b),
    ensures
        a.script_bytes() == b.script_bytes(),
        a.root() == b.root(),
        a.destination().merkle_root == b.destination().merkle_root,
        a.destination().pubkey == key_a,
        b.destination().pubkey == key_b,
{
    assert(a.destination().merkle_root =~= b.destination().merkle_root);
}

} // verus!
