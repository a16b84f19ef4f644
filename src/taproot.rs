//! The single-leaf Taproot commitment to an envelope script.

use bitcoin::secp256k1::XOnlyPublicKey;
use bitcoin::taproot::{TaprootBuilder, TaprootSpendInfo};
use bitcoin::{PublicKey, ScriptBuf};
use vstd::prelude::*;

verus! {

#[verifier::external_type_specification]
#[verifier::external_body]
pub struct ExPublicKey(PublicKey);

#[verifier::external_type_specification]
#[verifier::external_body]
pub struct ExTaprootSpendInfo(TaprootSpendInfo);

/// Relies on the derived `Clone` of `TaprootSpendInfo`, so that programs and
/// inscriptions that hold one can be cloned.
pub assume_specification[ <TaprootSpendInfo as Clone>::clone ](info: &TaprootSpendInfo) -> TaprootSpendInfo;

/// The Merkle root of a Taproot script tree whose only leaf is `script` at
/// the default tapscript leaf version: the tagged leaf hash of the script.
pub uninterp spec fn tap_leaf_root(script: Seq<u8>) -> Seq<u8>;

/// Relies on `TaprootBuilder::add_leaf` at depth 0 and `TaprootBuilder::finalize`
/// with the x-only form of `internal_key`, then on `TaprootSpendInfo::merkle_root`.
/// A tree of one leaf at depth 0 is always accepted and complete, and `finalize`
/// then sets the root to that leaf's hash, whatever the key.
#[verifier::external_body]
pub(crate) fn single_leaf_spend_info(script: &Vec<u8>, internal_key: &PublicKey) -> (r: (
    TaprootSpendInfo,
    [u8; 32],
))
    ensures
        r.1@ == tap_leaf_root(script@),
{
    let info = TaprootBuilder::new()
        .add_leaf(0, ScriptBuf::from_bytes(script.clone()))
        .expect("one leaf at depth 0 always fits")
        .finalize(&secp256k1::Secp256k1::new(), XOnlyPublicKey::from(internal_key.inner))
        .expect("a tree of one leaf is complete");
    let root = info.merkle_root().expect("a script tree has a root");
    (info, bitcoin::hashes::Hash::to_byte_array(root))
}

} // verus!
