//! A transaction with a single input, and what the bitcoin crate computes
//! from it: the signature digest, the signature and the transaction id.

use crate::hextext::digit_value;
use crate::keys::{key_spend_output_key, x_only_public_key, CurveContext};
use bitcoin::absolute::LockTime;
use bitcoin::key::{Keypair, TapTweak};
use bitcoin::secp256k1::Message;
use bitcoin::sighash::{Prevouts, SighashCache};
use bitcoin::transaction::Version;
use bitcoin::{Amount, ScriptBuf, Sequence, TapSighashType, Txid, Witness};
use vstd::prelude::*;

verus! {

/// An output: an amount in satoshis and the script that locks it.
#[derive(Debug, Clone, PartialEq, Eq)]
pub struct TxOutput {
    pub value: u64,
    pub script_pubkey: Vec<u8>,
}

/// A reference to an output of an earlier transaction.
#[derive(Debug, Copy, Clone, PartialEq, Eq)]
pub struct OutPoint {
    pub txid: [u8; 32],
    pub vout: u32,
}

/// The one input of a transaction.
#[derive(Debug, Clone, PartialEq, Eq)]
pub struct TxInput {
    pub previous_output: OutPoint,
    pub script_sig: Vec<u8>,
    pub sequence: u32,
    pub witness: Vec<Vec<u8>>,
}

/// A transaction that spends one output.
#[derive(Debug, Clone, PartialEq, Eq)]
pub struct Tx {
    pub version: i32,
    pub lock_time: u32,
    pub input: TxInput,
    pub output: Vec<TxOutput>,
}

pub struct TxOutputView {
    pub value: u64,
    pub script_pubkey: Seq<u8>,
}

pub struct TxView {
    pub version: i32,
    pub lock_time: u32,
    pub txid: Seq<u8>,
    pub vout: u32,
    pub script_sig: Seq<u8>,
    pub sequence: u32,
    pub witness: Seq<Seq<u8>>,
    pub output: Seq<TxOutputView>,
}

impl View for TxOutput {
    type V = TxOutputView;

    open spec fn view(&self) -> TxOutputView {
        TxOutputView { value: self.value, script_pubkey: self.script_pubkey@ }
    }
}

impl DeepView for TxOutput {
    type V = TxOutputView;

    open spec fn deep_view(&self) -> TxOutputView {
        self@
    }
}

impl View for Tx {
    type V = TxView;

    open spec fn view(&self) -> TxView {
        TxView {
            version: self.version,
            lock_time: self.lock_time,
            txid: self.input.previous_output.txid@,
            vout: self.input.previous_output.vout,
            script_sig: self.input.script_sig@,
            sequence: self.input.sequence,
            witness: self.input.witness.deep_view(),
            output: self.output.deep_view(),
        }
    }
}

impl TxView {
    /// The transaction with its witness taken away: what its id is made of.
    pub open spec fn unsigned(self) -> TxView {
        TxView { witness: Seq::empty(), ..self }
    }
}

/// The taproot signature digest of the input for a spend by key, over the
/// spent output `prevout`, under the signature-hash type with the code
/// `hash_type`; `None` where the crate computes none.
pub uninterp spec fn key_spend_digest(tx: TxView, prevout: TxOutputView, hash_type: u8) -> Option<Seq<u8>>;

/// The id of a transaction, in the hexadecimal form in which it is displayed.
pub uninterp spec fn txid_of(tx: TxView) -> Seq<char>;

#[verifier::external_type_specification]
#[verifier::external_body]
pub struct ExTransaction(bitcoin::Transaction);

#[verifier::external_type_specification]
#[verifier::external_body]
pub struct ExTxOut(bitcoin::TxOut);

/// The same output as a value of the bitcoin crate, field by field.
#[verifier::external_body]
fn outside_output(output: &TxOutput) -> bitcoin::TxOut {
    bitcoin::TxOut {
        value: Amount::from_sat(output.value),
        script_pubkey: ScriptBuf::from_bytes(output.script_pubkey.clone()),
    }
}

/// The same transaction as a value of the bitcoin crate, field by field.
#[verifier::external_body]
fn outside_transaction(tx: &Tx) -> bitcoin::Transaction {
    let input = bitcoin::TxIn {
        previous_output: bitcoin::OutPoint {
            txid: bitcoin::hashes::Hash::from_byte_array(tx.input.previous_output.txid),
            vout: tx.input.previous_output.vout,
        },
        script_sig: ScriptBuf::from_bytes(tx.input.script_sig.clone()),
        sequence: Sequence(tx.input.sequence),
        witness: Witness::from_slice(&tx.input.witness),
    };
    let output = tx.output.iter().map(outside_output).collect();
    bitcoin::Transaction { version: Version(tx.version), lock_time: LockTime::from_consensus(tx.lock_time), input: vec![input], output }
}

/// `SighashCache::taproot_key_spend_signature_hash` for input 0, with the
/// spent output as the whole set of previous outputs. The digest depends on
/// the transaction, the spent output and the type alone. Under the default
/// type, whose code is 0, there always is one: the one spent output matches
/// the one input, and nothing else is asked of the transaction.
#[verifier::external_body]
pub(crate) fn taproot_key_spend_signature_hash(
    tx: &Tx,
    prevout: &TxOutput,
    hash_type: u8,
) -> (digest: Option<[u8; 32]>)
    ensures
        digest is Some <==> key_spend_digest(tx@, prevout@, hash_type) is Some,
        digest matches Some(bytes) ==> key_spend_digest(tx@, prevout@, hash_type) == Some(bytes@),
        hash_type == 0 ==> digest is Some,
{
    let kind = TapSighashType::from_consensus_u8(hash_type).ok()?;
    let outside = outside_transaction(tx);
    let spent = [outside_output(prevout)];
    let hash = SighashCache::new(&outside).taproot_key_spend_signature_hash(0, &Prevouts::All(&spent), kind).ok()?;
    Some(bitcoin::hashes::Hash::to_byte_array(hash))
}

/// `Transaction::txid`, displayed: the id is a hash of the version, the
/// input without its witness, the outputs and the lock time, so it is the
/// same whatever the witness holds.
#[verifier::external_body]
pub(crate) fn transaction_id(tx: &Tx) -> (id: String)
    ensures
        id@ == txid_of(tx@.unsigned()),
{
    outside_transaction(tx).txid().to_string()
}

#[verifier::external_type_specification]
#[verifier::external_body]
pub struct ExHexToArrayError(bitcoin::hex::HexToArrayError);

/// Whether a text is a transaction id: 64 hexadecimal digits.
pub open spec fn is_txid_text(text: Seq<char>) -> bool {
    &&& text.len() == 64
    &&& forall|at: int| 0 <= at < 64 ==> (#[trigger] digit_value(text[at])) is Some
}

/// The 32 bytes that a transaction id stands for. The text shows them last
/// byte first, each byte as two digits.
pub open spec fn txid_bytes(text: Seq<char>) -> Seq<u8> {
    Seq::new(
        32,
        |at: int|
            (16 * digit_value(text[62 - 2 * at])->0 + digit_value(text[63 - 2 * at])->0) as u8,
    )
}

/// `Txid::from_str`: reads 64 hexadecimal digits of either case into the 32
/// bytes of the id, in reverse order. Any other text is refused.
#[verifier::external_body]
pub(crate) fn parse_txid(text: &str) -> (parsed: Result<[u8; 32], bitcoin::hex::HexToArrayError>)
    ensures
        parsed is Ok <==> is_txid_text(text@),
        parsed matches Ok(bytes) ==> bytes@ == txid_bytes(text@),
{
    text.parse::<Txid>().map(|txid| bitcoin::hashes::Hash::to_byte_array(txid))
}

#[verifier::external_type_specification]
#[verifier::external_body]
pub struct ExSecpError(bitcoin::secp256k1::Error);

/// Whether the 64 bytes of `signature` are a Schnorr signature of the
/// 32-byte `digest` that verifies under the x-only public key `key`.
pub uninterp spec fn schnorr_verifies(signature: Seq<u8>, digest: Seq<u8>, key: Seq<u8>) -> bool;

/// The x-only public key of the key pair that a secret key gives once it is
/// tweaked for the taproot output that commits to `merkle_root`.
pub uninterp spec fn tweaked_public_key(secret: Seq<u8>, merkle_root: Option<Seq<u8>>) -> Seq<u8>;

/// The bytes of an optional merkle root.
pub open spec fn root_bytes(merkle_root: Option<[u8; 32]>) -> Option<Seq<u8>> {
    match merkle_root {
        Some(root) => Some(root@),
        None => None,
    }
}

/// `Keypair::from_seckey_slice`, `TapTweak::tap_tweak` with the merkle root
/// given, then `Secp256k1::sign_schnorr` over the digest.
///
/// It fails exactly when the 32 bytes are no secret key. The signature draws
/// on fresh randomness, so its bytes are not said; what is said is that it
/// is a signature: it verifies for the digest under the tweaked pair's
/// public key. The signing function makes no such test itself: that its
/// signatures verify is the signing scheme's own property. The tweak adds
/// the same tagged hash to the pair as `Address::p2tr` adds to the public
/// key, so with no merkle root the tweaked pair's public key is the output
/// key of the key alone. The tweak aborts only if a tagged hash is no
/// scalar, which the crate treats as unreachable.
#[verifier::external_body]
pub(crate) fn sign_by_key(
    secp: &CurveContext,
    secret: &[u8; 32],
    merkle_root: Option<[u8; 32]>,
    digest: &[u8; 32],
) -> (signed: Result<[u8; 64], bitcoin::secp256k1::Error>)
    ensures
        signed is Ok <==> x_only_public_key(secret@) is Some,
        signed matches Ok(signature) ==> schnorr_verifies(
            signature@,
            digest@,
            tweaked_public_key(secret@, root_bytes(merkle_root)),
        ),
        signed is Ok && merkle_root is None ==> key_spend_output_key(x_only_public_key(secret@)->0)
            == Some(tweaked_public_key(secret@, None)),
{
    let pair = Keypair::from_seckey_slice(&secp.inner, secret)?;
    let root = merkle_root.map(|root| bitcoin::hashes::Hash::from_byte_array(root));
    let tweaked = pair.tap_tweak(&secp.inner, root).to_inner();
    Ok(*secp.inner.sign_schnorr(&Message::from_digest(*digest), &tweaked).as_ref())
}

/// `Keypair::from_seckey_slice`, then `Secp256k1::sign_schnorr` over the
/// digest with the pair as it is.
///
/// It fails exactly when the 32 bytes are no secret key. The signature
/// verifies for the digest under the secret key's own public key.
#[verifier::external_body]
pub(crate) fn sign_by_script(
    secp: &CurveContext,
    secret: &[u8; 32],
    digest: &[u8; 32],
) -> (signed: Result<[u8; 64], bitcoin::secp256k1::Error>)
    ensures
        signed is Ok <==> x_only_public_key(secret@) is Some,
        signed matches Ok(signature) ==> schnorr_verifies(
            signature@,
            digest@,
            x_only_public_key(secret@)->0,
        ),
{
    let pair = Keypair::from_seckey_slice(&secp.inner, secret)?;
    Ok(*secp.inner.sign_schnorr(&Message::from_digest(*digest), &pair).as_ref())
}

} // verus!
