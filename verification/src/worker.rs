//! Signing one candidate and testing its transaction id.

use crate::error::SigningError;
use crate::keys::{key_spend_output_key, x_only_public_key};
use crate::psbt::{Psbt, PsbtInput, TapSighashType};
use crate::tx::{
    key_spend_digest, schnorr_verifies, taproot_key_spend_signature_hash, transaction_id,
    tweaked_public_key, txid_of, OutPoint, Tx, TxInput, TxOutput, TxOutputView, TxView,
};
use crate::types::{opt_text, Payload};
use crate::utils::sign_psbt_taproot;
use vstd::prelude::*;
use vstd::string::StrSliceExecFns;

verus! {

/// The largest sequence value a transaction input can carry.
pub const MAX_SEQUENCE: u32 = 0xFFFFFFFF;

/// The version of the commit transaction.
pub const TX_VERSION: i32 = 1;

/// The lock time of the commit transaction: none.
pub const TX_LOCK_TIME: u32 = 0;

/// The commit output: the value that the reveal transaction will spend,
/// locked by the script derived from the reveal script.
pub open spec fn commit_output(payload: Payload) -> TxOutputView {
    TxOutputView {
        value: payload.fixed_output_value,
        script_pubkey: payload.fixed_output_script_pubkey@,
    }
}

/// The placeholder that the template keeps after the commit output: no
/// value, no script.
pub open spec fn placeholder_output() -> TxOutputView {
    TxOutputView { value: 0, script_pubkey: Seq::empty() }
}

/// The change output: what is left over, back to the funding key.
pub open spec fn change_output(payload: Payload) -> TxOutputView {
    TxOutputView {
        value: payload.funding_value,
        script_pubkey: payload.funding_private_script_pubkey@,
    }
}

/// The output that the commit transaction spends.
pub open spec fn funding_output(payload: Payload) -> TxOutputView {
    TxOutputView {
        value: payload.funding_utxo_value,
        script_pubkey: payload.funding_private_script_pubkey@,
    }
}

/// The outputs of the template: the commit output, the placeholder, and
/// the change output where one is needed.
pub open spec fn template_outputs(payload: Payload) -> Seq<TxOutputView> {
    if payload.need_change_fee_output {
        seq![commit_output(payload), placeholder_output(), change_output(payload)]
    } else {
        seq![commit_output(payload), placeholder_output()]
    }
}

/// The unsigned transaction for a candidate: one input that spends the
/// funding output at the candidate's sequence value, without a witness.
pub open spec fn template(seq: u32, payload: Payload) -> TxView {
    TxView {
        version: TX_VERSION,
        lock_time: TX_LOCK_TIME,
        txid: payload.funding_utxo_id@,
        vout: payload.funding_utxo_vout,
        script_sig: Seq::empty(),
        sequence: seq,
        witness: Seq::empty(),
        output: template_outputs(payload),
    }
}

/// The digest that a candidate's signature is made over: that of the
/// template, for a spend by key of the funding output, under the default
/// signature-hash type.
pub open spec fn candidate_digest(seq: u32, payload: Payload) -> Option<Seq<u8>> {
    key_spend_digest(template(seq, payload), funding_output(payload), TapSighashType::Default.code())
}

/// What signing a candidate comes to. The digest may be refused and the
/// key may be no key; otherwise the candidate is signed.
pub open spec fn signing_outcome(seq: u32, payload: Payload) -> Result<(), SigningError> {
    if candidate_digest(seq, payload) is None {
        Err(SigningError::Digest)
    } else if x_only_public_key(payload.funding_private_key@) is None {
        Err(SigningError::Key)
    } else {
        Ok(())
    }
}

/// What testing a candidate comes to: where it can be signed, whether the
/// id of the signed transaction meets the bitwork requirement.
pub open spec fn candidate_outcome(seq: u32, payload: Payload) -> Result<bool, SigningError> {
    match signing_outcome(seq, payload) {
        Err(error) => Err(error),
        Ok(_) => Ok(
            bitwork_matches(
                txid_of(template(seq, payload)),
                opt_text(payload.valid_prefix),
                payload.valid_ext,
            ),
        ),
    }
}

/// A copy of a byte string.
fn copy_bytes(bytes: &Vec<u8>) -> (copy: Vec<u8>)
    ensures
        copy@ == bytes@,
{
    let copy = bytes.clone();
    assert(copy@ =~= bytes@);
    copy
}

/// Builds the template for a candidate: the unsigned transaction, and an
/// input of which the spent output and the internal key are known.
pub fn build_psbt(seq: u32, payload: &Payload) -> (psbt: Psbt)
    ensures
        psbt.unsigned_tx@ == template(seq, *payload),
        psbt.unsigned_tx.output@.len() == (if payload.need_change_fee_output { 3int } else { 2int }),
        psbt.input.is_fresh(),
        psbt.input.well_formed(),
        psbt.input.witness_utxo->0@ == funding_output(*payload),
        psbt.input.tap_internal_key == Some(payload.xonly_pub_key),
{
    let mut output: Vec<TxOutput> = Vec::new();
    output.push(
        TxOutput {
            value: payload.fixed_output_value,
            script_pubkey: copy_bytes(&payload.fixed_output_script_pubkey),
        },
    );
    output.push(TxOutput { value: 0, script_pubkey: Vec::new() });
    if payload.need_change_fee_output {
        output.push(
            TxOutput {
                value: payload.funding_value,
                script_pubkey: copy_bytes(&payload.funding_private_script_pubkey),
            },
        );
    }
    assert(output.deep_view() =~= template_outputs(*payload));
    let witness: Vec<Vec<u8>> = Vec::new();
    assert(witness.deep_view() =~= Seq::<Seq<u8>>::empty());
    Psbt {
        unsigned_tx: Tx {
            version: TX_VERSION,
            lock_time: TX_LOCK_TIME,
            input: TxInput {
                previous_output: OutPoint {
                    txid: payload.funding_utxo_id,
                    vout: payload.funding_utxo_vout,
                },
                script_sig: Vec::new(),
                sequence: seq,
                witness,
            },
            output,
        },
        input: PsbtInput {
            witness_utxo: Some(
                TxOutput {
                    value: payload.funding_utxo_value,
                    script_pubkey: copy_bytes(&payload.funding_private_script_pubkey),
                },
            ),
            partial_sigs: Vec::new(),
            sighash_type: None,
            redeem_script: None,
            witness_script: None,
            bip32_derivation: Vec::new(),
            final_script_witness: None,
            tap_key_sig: None,
            tap_script_sigs: Vec::new(),
            tap_internal_key: Some(payload.xonly_pub_key),
            tap_merkle_root: None,
        },
    }
}

/// Signs a candidate: builds its template, signs the input by key under the
/// default signature-hash type, finalizes the input and extracts the
/// transaction.
///
/// There always is a digest to sign, so signing succeeds exactly when the
/// context's secret key is a key. The signature in the witness differs from
/// call to call, and every time it verifies for the candidate's digest under
/// the tweaked key, which is the output key of the funding key alone;
/// everything else in the transaction is the template's.
pub fn sign_candidate(seq: u32, payload: &Payload) -> (signed: Result<Tx, SigningError>)
    ensures
        candidate_digest(seq, *payload) is Some,
        signed is Ok <==> x_only_public_key(payload.funding_private_key@) is Some,
        signed is Ok <==> signing_outcome(seq, *payload) is Ok,
        signed matches Err(error) ==> error == SigningError::Key && signing_outcome(seq, *payload)
            == Err::<(), SigningError>(error),
        signed matches Ok(tx) ==> {
            &&& tx@.unsigned() == template(seq, *payload)
            &&& tx@.witness.len() == 1
            &&& tx@.witness[0].len() == 64
            &&& schnorr_verifies(
                tx@.witness[0],
                candidate_digest(seq, *payload)->0,
                tweaked_public_key(payload.funding_private_key@, None),
            )
            &&& key_spend_output_key(x_only_public_key(payload.funding_private_key@)->0) == Some(
                tweaked_public_key(payload.funding_private_key@, None),
            )
        },
{
    let mut psbt = build_psbt(seq, payload);
    let input_txout = TxOutput {
        value: payload.funding_utxo_value,
        script_pubkey: copy_bytes(&payload.funding_private_script_pubkey),
    };
    let hash_ty = psbt.input.hash_type();
    let hash = match taproot_key_spend_signature_hash(&psbt.unsigned_tx, &input_txout, hash_ty.to_u8()) {
        Some(hash) => hash,
        None => {
            return Err(SigningError::Digest);
        },
    };
    let internal_key = match psbt.input.tap_internal_key {
        Some(key) => key,
        None => payload.xonly_pub_key,
    };
    match sign_psbt_taproot(
        &payload.funding_private_key,
        internal_key,
        None,
        &mut psbt.input,
        hash,
        hash_ty,
        &payload.secp,
    ) {
        Ok(_) => {},
        Err(error) => {
            return Err(error);
        },
    }
    psbt.input.finalize();
    let tx = psbt.extract_tx_unchecked_fee_rate();
    assert(tx@.unsigned() == template(seq, *payload));
    Ok(tx)
}

/// Whether `id` is what asking for a candidate's transaction id gives: the
/// id of the template where the candidate can be signed, else the reason
/// why it cannot.
pub open spec fn is_txid_answer(seq: u32, payload: Payload, id: Result<String, SigningError>) -> bool {
    match id {
        Ok(text) => signing_outcome(seq, payload) is Ok && text@ == txid_of(template(seq, payload)),
        Err(error) => signing_outcome(seq, payload) == Err::<(), SigningError>(error),
    }
}

/// The id of the signed transaction for a candidate.
pub fn candidate_txid(seq: u32, payload: &Payload) -> (id: Result<String, SigningError>)
    ensures
        is_txid_answer(seq, *payload, id),
        id is Ok <==> x_only_public_key(payload.funding_private_key@) is Some,
        id matches Err(error) ==> error == SigningError::Key,
{
    match sign_candidate(seq, payload) {
        Ok(tx) => Ok(transaction_id(&tx)),
        Err(error) => Err(error),
    }
}

/// Asking twice for the id of the same candidate in the same context gives
/// the same answer: the same id, or the same error. The signatures may
/// differ; the id does not depend on them.
pub proof fn lemma_txid_is_repeatable(
    seq: u32,
    payload: Payload,
    first: Result<String, SigningError>,
    second: Result<String, SigningError>,
)
    requires
        is_txid_answer(seq, payload, first),
        is_txid_answer(seq, payload, second),
    ensures
        first is Ok <==> second is Ok,
        first is Ok ==> first->Ok_0@ == second->Ok_0@,
        first is Err ==> first->Err_0 == second->Err_0,
{
}

/// The template has the commit output first and the placeholder second.
/// With a change output it has exactly three outputs, the change last;
/// without one it has exactly two.
pub proof fn lemma_template_outputs(seq: u32, payload: Payload)
    ensures
        template(seq, payload).output.len() == (if payload.need_change_fee_output {
            3int
        } else {
            2int
        }),
        template(seq, payload).output[0] == commit_output(payload),
        template(seq, payload).output[1] == placeholder_output(),
        payload.need_change_fee_output ==> template(seq, payload).output[2] == change_output(payload),
{
}

/// The commit output does not depend on the sequence value that is tried:
/// any two candidates share their outputs, their spent output and all of
/// the input but the sequence value.
pub proof fn lemma_candidates_differ_in_sequence_alone(first: u32, second: u32, payload: Payload)
    ensures
        template(first, payload) == (TxView { sequence: first, ..template(second, payload) }),
{
}

/// Tests a candidate: signs it and holds the id of the signed transaction
/// against the bitwork requirement.
pub fn predicate(seq: u32, payload: &Payload) -> (found: Result<bool, SigningError>)
    ensures
        found == candidate_outcome(seq, *payload),
        found is Ok <==> x_only_public_key(payload.funding_private_key@) is Some,
        found matches Err(error) ==> error == SigningError::Key,
{
    match candidate_txid(seq, payload) {
        Ok(id) => Ok(has_valid_bitwork(id.as_str(), &payload.valid_prefix, &payload.valid_ext)),
        Err(error) => Err(error),
    }
}

/// The value of a lower-case hexadecimal digit.
pub open spec fn hex_digit_value(digit: char) -> Option<u8> {
    if '0' <= digit <= '9' {
        Some((digit as u8 - '0' as u8) as u8)
    } else if 'a' <= digit <= 'f' {
        Some((digit as u8 - 'a' as u8 + 10) as u8)
    } else {
        None
    }
}

/// Whether a transaction id meets a bitwork requirement.
///
/// With no prefix required nothing matches. With a prefix alone, the id
/// must start with it. With a prefix and a threshold, the id must start with
/// the prefix, a hexadecimal digit must follow the prefix, and that digit
/// must be worth at least the threshold.
pub open spec fn bitwork_matches(txid: Seq<char>, prefix: Option<Seq<char>>, threshold: Option<u8>) -> bool {
    match prefix {
        None => false,
        Some(required) => required.is_prefix_of(txid) && match threshold {
            None => true,
            Some(least) => required.len() < txid.len()
                && hex_digit_value(txid[required.len() as int]) is Some
                && hex_digit_value(txid[required.len() as int])->0 >= least,
        },
    }
}

/// Reads one lower-case hexadecimal digit.
pub fn hex_digit(digit: char) -> (value: Option<u8>)
    ensures
        value == hex_digit_value(digit),
{
    match digit {
        '0' => Some(0),
        '1' => Some(1),
        '2' => Some(2),
        '3' => Some(3),
        '4' => Some(4),
        '5' => Some(5),
        '6' => Some(6),
        '7' => Some(7),
        '8' => Some(8),
        '9' => Some(9),
        'a' => Some(10),
        'b' => Some(11),
        'c' => Some(12),
        'd' => Some(13),
        'e' => Some(14),
        'f' => Some(15),
        _ => None,
    }
}

/// Tests a transaction id against the required prefix `bitwork` and the
/// least value `bitworkx` of the digit that follows it.
pub fn has_valid_bitwork(txid: &str, bitwork: &Option<String>, bitworkx: &Option<u8>) -> (matched: bool)
    ensures
        matched == bitwork_matches(txid@, opt_text(*bitwork), *bitworkx),
{
    match bitwork {
        None => false,
        Some(required) => {
            let prefix = required.as_str();
            let prefix_len: usize = prefix.unicode_len();
            let txid_len: usize = txid.unicode_len();
            if prefix_len > txid_len {
                return false;
            }
            let mut at: usize = 0;
            while at < prefix_len
                invariant
                    at <= prefix_len <= txid_len,
                    prefix_len == prefix@.len(),
                    txid_len == txid@.len(),
                    opt_text(*bitwork) == Some(prefix@),
                    forall|k: int| 0 <= k < at ==> txid@[k] == prefix@[k],
                decreases prefix_len - at,
            {
                if txid.get_char(at) != prefix.get_char(at) {
                    assert(prefix@[at as int] != txid@.subrange(0, prefix@.len() as int)[at as int]);
                    return false;
                }
                at += 1;
            }
            assert(prefix@ =~= txid@.subrange(0, prefix@.len() as int));
            match bitworkx {
                None => true,
                Some(least) => {
                    if prefix_len < txid_len {
                        match hex_digit(txid.get_char(prefix_len)) {
                            Some(value) => value >= *least,
                            None => false,
                        }
                    } else {
                        false
                    }
                },
            }
        },
    }
}

/// Without a required prefix no id matches.
pub proof fn lemma_no_prefix_never_matches(txid: Seq<char>, threshold: Option<u8>)
    ensures
        !bitwork_matches(txid, None, threshold),
{
}

/// With a prefix and no threshold, an id matches exactly when it starts with
/// the prefix.
pub proof fn lemma_prefix_alone(txid: Seq<char>, prefix: Seq<char>)
    ensures
        bitwork_matches(txid, Some(prefix), None) <==> prefix.is_prefix_of(txid),
{
}

/// With a prefix and a threshold, an id matches exactly when it starts with
/// the prefix, a digit follows the prefix, and the digit's value is at least
/// the threshold.
pub proof fn lemma_prefix_and_threshold(txid: Seq<char>, prefix: Seq<char>, threshold: u8)
    ensures
        bitwork_matches(txid, Some(prefix), Some(threshold)) <==> (prefix.is_prefix_of(txid)
            && txid.len() > prefix.len() && exists|value: u8|
            hex_digit_value(txid[prefix.len() as int]) == Some(value) && value >= threshold),
{
    if bitwork_matches(txid, Some(prefix), Some(threshold)) {
        let value = hex_digit_value(txid[prefix.len() as int])->0;
        assert(hex_digit_value(txid[prefix.len() as int]) == Some(value) && value >= threshold);
    }
}

/// An id with no character after the prefix never meets a threshold.
pub proof fn lemma_short_id_never_meets_threshold(txid: Seq<char>, prefix: Seq<char>, threshold: u8)
    requires
        txid.len() < prefix.len() + 1,
    ensures
        !bitwork_matches(txid, Some(prefix), Some(threshold)),
{
}

/// A digit is worth less than sixteen, so a threshold above fifteen
/// rejects every id.
pub proof fn lemma_digit_below_sixteen(digit: char)
    ensures
        hex_digit_value(digit) matches Some(value) ==> value < 16,
{
}

} // verus!
