//! Signing an input, and the reveal script with the addresses derived from
//! it.

use crate::error::{ConfigurationError, SigningError};
use crate::hextext;
use crate::hextext::hex_text;
use crate::keys::{
    commit_address, key_spend_output_key, key_spend_script, leaf_output_key, p2tr_address,
    p2tr_script, x_only_public_key, CurveContext,
};
use crate::psbt::{insert_script_sig, put_in, PsbtInput, TapScriptSig, TapSighashType, TapSignature};
use crate::script::{
    builder_new, into_bytes, push, push_opcode, push_slice, script_of, MAX_PUSH, OP_0, OP_CHECKSIG,
    OP_ENDIF, OP_IF, PUSH_LIMIT,
};
use crate::tx::{
    root_bytes, schnorr_verifies, sign_by_key, sign_by_script, tweaked_public_key,
};
use crate::types::{encoding, ArgsView, CopiedData, Fees, Network};
use vstd::prelude::*;
use vstd::slice::slice_subrange;
use vstd::string::StringExecFns;
use vstd::utf8::encode_utf8;

verus! {

/// What signing leaves untouched: every field but the two that hold taproot
/// signatures.
pub open spec fn differ_in_signatures_at_most(before: PsbtInput, after: PsbtInput) -> bool {
    after == (PsbtInput { tap_key_sig: after.tap_key_sig, tap_script_sigs: after.tap_script_sigs, ..before })
}

/// Signs the digest `hash` with the secret key and records the signature in
/// the input.
///
/// With no leaf hash the spend is by key: the key is tweaked with the
/// input's merkle root, and the signature becomes the input's key
/// signature. With a leaf hash the spend is by script: the key signs as it
/// is, and the signature is recorded for `pubkey` and the leaf. Either way
/// what is recorded verifies for the digest under the key that signed.
///
/// It fails, leaving the input as it was, exactly when the 32 bytes are no
/// secret key.
pub fn sign_psbt_taproot(
    secret_key: &[u8; 32],
    pubkey: [u8; 32],
    leaf_hash: Option<[u8; 32]>,
    psbt_input: &mut PsbtInput,
    hash: [u8; 32],
    hash_ty: TapSighashType,
    secp: &CurveContext,
) -> (signed: Result<(), SigningError>)
    ensures
        signed is Ok <==> x_only_public_key(secret_key@) is Some,
        signed matches Err(error) ==> error == SigningError::Key && *final(psbt_input) == *old(
            psbt_input,
        ),
        signed is Ok ==> differ_in_signatures_at_most(*old(psbt_input), *final(psbt_input)),
        signed is Ok && old(psbt_input).well_formed() ==> final(psbt_input).well_formed(),
        signed is Ok && leaf_hash is None ==> {
            &&& final(psbt_input).tap_key_sig is Some
            &&& final(psbt_input).tap_key_sig->0.hash_ty == hash_ty
            &&& final(psbt_input).tap_script_sigs == old(psbt_input).tap_script_sigs
            &&& schnorr_verifies(
                final(psbt_input).tap_key_sig->0.sig@,
                hash@,
                tweaked_public_key(secret_key@, root_bytes(old(psbt_input).tap_merkle_root)),
            )
            &&& old(psbt_input).tap_merkle_root is None ==> key_spend_output_key(
                x_only_public_key(secret_key@)->0,
            ) == Some(tweaked_public_key(secret_key@, None))
        },
        signed is Ok && leaf_hash is Some ==> {
            &&& final(psbt_input).tap_key_sig == old(psbt_input).tap_key_sig
            &&& exists|sig: [u8; 64]|
                {
                    &&& #[trigger] put_in(
                        old(psbt_input).tap_script_sigs@,
                        final(psbt_input).tap_script_sigs@,
                        TapScriptSig {
                            key: pubkey,
                            leaf_hash: leaf_hash->0,
                            signature: TapSignature { sig, hash_ty },
                        },
                    )
                    &&& schnorr_verifies(sig@, hash@, x_only_public_key(secret_key@)->0)
                }
        },
{
    let made = match leaf_hash {
        None => sign_by_key(secp, secret_key, psbt_input.tap_merkle_root, &hash),
        Some(_) => sign_by_script(secp, secret_key, &hash),
    };
    let sig = match made {
        Ok(sig) => sig,
        Err(_) => {
            return Err(SigningError::Key);
        },
    };
    let final_signature = TapSignature { sig, hash_ty };
    match leaf_hash {
        Some(lh) => {
            let entry = TapScriptSig { key: pubkey, leaf_hash: lh, signature: final_signature };
            insert_script_sig(&mut psbt_input.tap_script_sigs, entry);
            assert(put_in(old(psbt_input).tap_script_sigs@, psbt_input.tap_script_sigs@, entry)
                && schnorr_verifies(sig@, hash@, x_only_public_key(secret_key@)->0));
        },
        None => {
            psbt_input.tap_key_sig = Some(final_signature);
        },
    }
    Ok(())
}

/// Value of the commit output: what the reveal transaction will need.
pub fn get_output_value_for_commit(fees: Fees) -> (value: u64)
    ensures
        value == fees.reveal_fee_plus_outputs,
{
    fees.reveal_fee_plus_outputs
}

/// How many bytes the next chunk of `data` takes.
pub open spec fn chunk_len(data: Seq<u8>) -> int {
    if data.len() < MAX_PUSH {
        data.len() as int
    } else {
        MAX_PUSH as int
    }
}

/// The data cut into consecutive chunks of `MAX_PUSH` bytes, the last one
/// shorter where the length asks for it, each chunk pushed in turn.
pub open spec fn pushed_chunks(data: Seq<u8>) -> Seq<u8>
    decreases data.len(),
{
    if data.len() == 0 {
        Seq::empty()
    } else {
        push(data.take(chunk_len(data))) + pushed_chunks(data.skip(chunk_len(data)))
    }
}

/// No chunk is empty, none is longer than `MAX_PUSH` bytes, and a chunk is
/// shorter only where it is the last one.
pub proof fn lemma_chunks_are_bounded(data: Seq<u8>)
    requires
        data.len() > 0,
    ensures
        0 < chunk_len(data) <= MAX_PUSH,
        chunk_len(data) <= data.len(),
        chunk_len(data) < MAX_PUSH ==> data.skip(chunk_len(data)).len() == 0,
        data.take(chunk_len(data)) + data.skip(chunk_len(data)) == data,
{
    assert(data.take(chunk_len(data)) + data.skip(chunk_len(data)) =~= data);
}

/// The reveal script: the key and a signature check, then an envelope that
/// is never entered and holds the marker `atom`, the operation type and the
/// encoded arguments.
pub open spec fn reveal_script(key: Seq<u8>, op_type: Seq<char>, args: ArgsView) -> Seq<u8> {
    push(key) + seq![OP_CHECKSIG, OP_0, OP_IF] + push(encode_utf8("atom"@)) + push(
        encode_utf8(op_type),
    ) + pushed_chunks(encoding(args)) + seq![OP_ENDIF]
}

/// Whether an operation type is short enough to be pushed in a script.
pub fn op_type_fits(op_type: &String) -> (fits: bool)
    ensures
        fits == (encode_utf8(op_type@).len() < PUSH_LIMIT),
{
    (op_type.as_str().as_bytes().len() as u64) < PUSH_LIMIT
}

/// Builds the reveal script for a key, an operation type and the mint
/// arguments.
pub fn append_mint_update_reveal_script_by_builder(
    xonly_public_key: &[u8; 32],
    payload: &CopiedData,
    optype: &String,
) -> (script: Vec<u8>)
    requires
        encode_utf8(optype@).len() < PUSH_LIMIT,
    ensures
        script@ == reveal_script(xonly_public_key@, optype@, payload@),
{
    let atomicals_protocol_envelope_id = "atom";
    let mut ops = builder_new();
    ops = push_slice(ops, xonly_public_key.as_slice());
    ops = push_opcode(ops, OP_CHECKSIG);
    ops = push_opcode(ops, OP_0);
    ops = push_opcode(ops, OP_IF);
    proof {
        reveal_strlit("atom");
        vstd::utf8::is_ascii_chars_encode_utf8("atom"@);
    }
    ops = push_slice(ops, atomicals_protocol_envelope_id.as_bytes());
    ops = push_slice(ops, optype.as_str().as_bytes());
    let cbor = payload.encode();
    let ghost opening = script_of(ops);
    assert(opening =~= push(xonly_public_key@) + seq![OP_CHECKSIG, OP_0, OP_IF] + push(
        encode_utf8("atom"@),
    ) + push(encode_utf8(optype@)));
    assert(cbor@.skip(0) =~= cbor@);
    let mut start: usize = 0;
    while start < cbor.len()
        invariant
            start <= cbor.len(),
            script_of(ops) + pushed_chunks(cbor@.skip(start as int)) == opening + pushed_chunks(
                cbor@,
            ),
        decreases cbor.len() - start,
    {
        let end: usize = if cbor.len() - start > MAX_PUSH {
            start + MAX_PUSH
        } else {
            cbor.len()
        };
        let chunk = slice_subrange(cbor.as_slice(), start, end);
        let ghost before = script_of(ops);
        ops = push_slice(ops, chunk);
        proof {
            let rest = cbor@.skip(start as int);
            assert(rest.take(chunk_len(rest)) =~= cbor@.subrange(start as int, end as int));
            assert(rest.skip(chunk_len(rest)) =~= cbor@.skip(end as int));
            assert(before + (push(chunk@) + pushed_chunks(cbor@.skip(end as int))) =~= (before
                + push(chunk@)) + pushed_chunks(cbor@.skip(end as int)));
        }
        start = end;
    }
    assert(pushed_chunks(cbor@.skip(start as int)) =~= Seq::<u8>::empty());
    let ghost body = script_of(ops);
    ops = push_opcode(ops, OP_ENDIF);
    assert(script_of(ops) =~= opening + pushed_chunks(cbor@) + seq![OP_ENDIF]) by {
        assert(body =~= opening + pushed_chunks(cbor@));
    }
    into_bytes(ops)
}

/// The chunks of `data` as text: each chunk's hexadecimal digits after a
/// blank.
pub open spec fn chunk_texts(data: Seq<u8>) -> Seq<char>
    decreases data.len(),
{
    if data.len() == 0 {
        Seq::empty()
    } else {
        " "@ + hex_text(data.take(chunk_len(data))) + chunk_texts(data.skip(chunk_len(data)))
    }
}

/// The reveal script written out for a reader: opcodes by name, pushed data
/// in hexadecimal, one blank between any two.
pub open spec fn reveal_script_text(key: Seq<u8>, op_type: Seq<char>, args: ArgsView) -> Seq<char> {
    hex_text(key) + " OP_CHECKSIG OP_0 OP_IF "@ + hex_text(encode_utf8("atom"@)) + " "@ + hex_text(
        encode_utf8(op_type),
    ) + chunk_texts(encoding(args)) + " OP_ENDIF"@
}

/// Writes the reveal script out for a reader. Nothing is derived from this
/// text; it serves to show what the script holds.
pub fn append_mint_update_reveal_script(
    keypair: &[u8; 32],
    payload: &CopiedData,
    op_type: &String,
) -> (ops: String)
    ensures
        ops@ == reveal_script_text(keypair@, op_type@, payload@),
{
    let atomicals_protocol_envelope_id = "atom";
    let mut ops = hextext::encode(keypair.as_slice());
    ops.append(" OP_CHECKSIG OP_0 OP_IF ");
    let envelope = hextext::encode(atomicals_protocol_envelope_id.as_bytes());
    ops.append(envelope.as_str());
    ops.append(" ");
    let operation = hextext::encode(op_type.as_str().as_bytes());
    ops.append(operation.as_str());
    let cbor = payload.encode();
    let ghost opening = ops@;
    assert(cbor@.skip(0) =~= cbor@);
    let mut start: usize = 0;
    while start < cbor.len()
        invariant
            start <= cbor.len(),
            ops@ + chunk_texts(cbor@.skip(start as int)) == opening + chunk_texts(cbor@),
        decreases cbor.len() - start,
    {
        let end: usize = if cbor.len() - start > MAX_PUSH {
            start + MAX_PUSH
        } else {
            cbor.len()
        };
        let chunk = hextext::encode(slice_subrange(cbor.as_slice(), start, end));
        let ghost before = ops@;
        ops.append(" ");
        ops.append(chunk.as_str());
        proof {
            let rest = cbor@.skip(start as int);
            assert(rest.take(chunk_len(rest)) =~= cbor@.subrange(start as int, end as int));
            assert(rest.skip(chunk_len(rest)) =~= cbor@.skip(end as int));
            assert(before + (" "@ + chunk@ + chunk_texts(cbor@.skip(end as int))) =~= (before + " "@
                + chunk@) + chunk_texts(cbor@.skip(end as int)));
        }
        start = end;
    }
    assert(chunk_texts(cbor@.skip(start as int)) =~= Seq::<char>::empty());
    assert(ops@ =~= opening + chunk_texts(cbor@));
    ops.append(" OP_ENDIF");
    ops
}

/// Derives the commit address and its output script: the reveal script is
/// the only leaf of a taproot tree over the key.
///
/// It fails exactly when the 32 bytes are no public key.
pub fn get_address_by_copied_data(
    secp: &CurveContext,
    xonly_public_key: &[u8; 32],
    copied_data: &CopiedData,
    op_type: &String,
    network: Network,
) -> (derived: Result<(String, Vec<u8>), ConfigurationError>)
    requires
        encode_utf8(op_type@).len() < PUSH_LIMIT,
    ensures
        match derived {
            Ok((address, script)) => {
                let output_key = leaf_output_key(
                    xonly_public_key@,
                    reveal_script(xonly_public_key@, op_type@, copied_data@),
                );
                &&& output_key is Some
                &&& address@ == p2tr_address(output_key->0, network)
                &&& script@ == p2tr_script(output_key->0)
                &&& script@.len() == 34
            },
            Err(error) => {
                &&& error == ConfigurationError::MalformedKey
                &&& leaf_output_key(
                    xonly_public_key@,
                    reveal_script(xonly_public_key@, op_type@, copied_data@),
                ) is None
            },
        },
{
    let script = append_mint_update_reveal_script_by_builder(xonly_public_key, copied_data, op_type);
    match commit_address(secp, xonly_public_key, script.as_slice(), network) {
        Some(found) => Ok(found),
        None => Err(ConfigurationError::MalformedKey),
    }
}

/// Derives the output script of the funding key alone: a taproot output
/// that commits to no script.
///
/// It fails exactly when the 32 bytes are no public key.
pub fn get_funding_script(
    secp: &CurveContext,
    xonly_public_key: &[u8; 32],
    network: Network,
) -> (derived: Result<Vec<u8>, ConfigurationError>)
    ensures
        match derived {
            Ok(script) => {
                &&& key_spend_output_key(xonly_public_key@) is Some
                &&& script@ == p2tr_script(key_spend_output_key(xonly_public_key@)->0)
                &&& script@.len() == 34
            },
            Err(error) => {
                &&& error == ConfigurationError::MalformedKey
                &&& key_spend_output_key(xonly_public_key@) is None
            },
        },
{
    match key_spend_script(secp, xonly_public_key, network) {
        Some(script) => Ok(script),
        None => Err(ConfigurationError::MalformedKey),
    }
}

} // verus!
