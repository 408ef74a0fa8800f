//! Keys, taproot outputs and addresses, as the bitcoin crate computes them.

use crate::script::OP_1;
use crate::types::Network;
use bitcoin::key::{Keypair, PrivateKey, XOnlyPublicKey};
use bitcoin::secp256k1::{All, Secp256k1};
use bitcoin::taproot::TaprootBuilder;
use bitcoin::{Address, ScriptBuf};
use vstd::prelude::*;

verus! {

/// The elliptic-curve context that every key operation runs in. It is built
/// once and shared; what it holds has no bearing on any result.
#[verifier::external_body]
#[derive(Debug)]
pub struct CurveContext {
    pub(crate) inner: Secp256k1<All>,
}

#[verifier::external_type_specification]
#[verifier::external_body]
pub struct ExKeyError(bitcoin::key::Error);

/// The secret key that a string in wallet import format holds, if it is one.
pub uninterp spec fn wif_secret_key(wif: Seq<char>) -> Option<Seq<u8>>;

/// The x-only public key of a secret key, if the 32 bytes are a secret key.
pub uninterp spec fn x_only_public_key(secret: Seq<u8>) -> Option<Seq<u8>>;

/// The output key of a taproot tree whose only leaf is `leaf_script`, over
/// the internal key `internal_key`, if the 32 bytes are a public key.
pub uninterp spec fn leaf_output_key(internal_key: Seq<u8>, leaf_script: Seq<u8>) -> Option<Seq<u8>>;

/// The output key of a taproot output that commits to no script, over the
/// internal key `internal_key`, if the 32 bytes are a public key.
pub uninterp spec fn key_spend_output_key(internal_key: Seq<u8>) -> Option<Seq<u8>>;

/// The address that pays to the taproot output key `output_key`.
pub uninterp spec fn p2tr_address(output_key: Seq<u8>, network: Network) -> Seq<char>;

/// The output script of witness version 1: `OP_1`, then the push of the
/// 32-byte output key.
pub open spec fn p2tr_script(output_key: Seq<u8>) -> Seq<u8> {
    seq![OP_1, 0x20u8] + output_key
}

/// `Secp256k1::new`: a context for signing and verifying.
#[verifier::external_body]
fn context_new() -> CurveContext {
    CurveContext { inner: Secp256k1::new() }
}

/// `Secp256k1::clone`: a second context, which computes what the first
/// does.
#[verifier::external_body]
fn context_clone(context: &CurveContext) -> CurveContext {
    CurveContext { inner: context.inner.clone() }
}

impl Clone for CurveContext {
    fn clone(&self) -> CurveContext {
        context_clone(self)
    }
}

impl CurveContext {
    /// A fresh context.
    pub fn new() -> CurveContext {
        context_new()
    }
}

/// `PrivateKey::from_wif`: decodes the string and hands out the 32 bytes of
/// the secret key it holds. Whether it succeeds, and the bytes, depend on
/// the string alone.
#[verifier::external_body]
pub(crate) fn decode_wif(wif: &str) -> (decoded: Result<[u8; 32], bitcoin::key::Error>)
    ensures
        decoded is Ok <==> wif_secret_key(wif@) is Some,
        decoded matches Ok(secret) ==> wif_secret_key(wif@) == Some(secret@),
{
    PrivateKey::from_wif(wif).map(|key| key.inner.secret_bytes())
}

/// `Keypair::from_seckey_slice`, then `XOnlyPublicKey::from_keypair`: the
/// serialized x-only public key of the secret key. It fails exactly when the
/// bytes are no secret key.
#[verifier::external_body]
pub(crate) fn derive_x_only_public_key(
    secp: &CurveContext,
    secret: &[u8; 32],
) -> (derived: Result<[u8; 32], bitcoin::secp256k1::Error>)
    ensures
        derived is Ok <==> x_only_public_key(secret@) is Some,
        derived matches Ok(key) ==> x_only_public_key(secret@) == Some(key@),
{
    Keypair::from_seckey_slice(&secp.inner, secret).map(|pair| XOnlyPublicKey::from_keypair(&pair).0.serialize())
}

/// `TaprootBuilder::add_leaf` at depth 0 and `TaprootBuilder::finalize`,
/// then `Address::p2tr_tweaked`: the address of the output and its script.
/// A builder with one leaf at depth 0 is always complete, so the only failure
/// is an internal key that is no public key. An output key is serialized in
/// 32 bytes. The tweak itself aborts only
/// if a tagged hash is no scalar, which the crate treats as unreachable.
#[verifier::external_body]
pub(crate) fn commit_address(
    secp: &CurveContext,
    internal_key: &[u8; 32],
    leaf_script: &[u8],
    network: Network,
) -> (found: Option<(String, Vec<u8>)>)
    ensures
        found is Some <==> leaf_output_key(internal_key@, leaf_script@) is Some,
        found matches Some((address, script)) ==> {
            let output_key = leaf_output_key(internal_key@, leaf_script@)->0;
            &&& output_key.len() == 32
            &&& address@ == p2tr_address(output_key, network)
            &&& script@ == p2tr_script(output_key)
        },
{
    let key = XOnlyPublicKey::from_slice(internal_key).ok()?;
    let leaf = ScriptBuf::from_bytes(leaf_script.to_vec());
    let info = TaprootBuilder::new().add_leaf(0, leaf).ok()?.finalize(&secp.inner, key).ok()?;
    let chain = match network {
        Network::Bitcoin => bitcoin::Network::Bitcoin,
        Network::Test => bitcoin::Network::Testnet,
    };
    let address = Address::p2tr_tweaked(info.output_key(), chain);
    Some((address.to_string(), address.script_pubkey().into_bytes()))
}

/// `Address::p2tr` with no script tree, then `Address::script_pubkey`: the
/// output script of the key alone. The script does not depend on the
/// network. The only failure is an internal key that is no public key. An
/// output key is serialized in 32 bytes.
#[verifier::external_body]
pub(crate) fn key_spend_script(
    secp: &CurveContext,
    internal_key: &[u8; 32],
    network: Network,
) -> (found: Option<Vec<u8>>)
    ensures
        found is Some <==> key_spend_output_key(internal_key@) is Some,
        found matches Some(script) ==> {
            let output_key = key_spend_output_key(internal_key@)->0;
            &&& output_key.len() == 32
            &&& script@ == p2tr_script(output_key)
        },
{
    let key = XOnlyPublicKey::from_slice(internal_key).ok()?;
    let chain = match network {
        Network::Bitcoin => bitcoin::Network::Bitcoin,
        Network::Test => bitcoin::Network::Testnet,
    };
    Some(Address::p2tr(&secp.inner, key, None, chain).script_pubkey().into_bytes())
}

} // verus!
