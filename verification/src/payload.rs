//! Assembling the signing context of a run from its configuration.

use crate::error::{AssemblyError, ConfigurationError};
use crate::keys::{
    decode_wif, derive_x_only_public_key, key_spend_output_key, leaf_output_key,
    p2tr_script, wif_secret_key, x_only_public_key, CurveContext,
};
use crate::sampling::{now, sample_below, since_unix_epoch, whole_seconds};
use crate::script::PUSH_LIMIT;
use crate::tx::{is_txid_text, parse_txid, schnorr_verifies, tweaked_public_key, txid_bytes};
use crate::types::{opt_text, ArgsView, Fees, Payload, Root};
use crate::utils::{
    get_address_by_copied_data, get_funding_script, get_output_value_for_commit, op_type_fits,
    reveal_script,
};
use crate::worker::template;
use vstd::prelude::*;
use vstd::utf8::encode_utf8;

verus! {

/// The size that one more output adds to the commit transaction, in bytes.
pub const OUTPUT_BYTES_BASE: u64 = 43;

/// An output below this value is not worth creating.
pub const DUST_AMOUNT: u64 = 546;

/// A sampled nonce lies below this bound.
pub const NONCE_BOUND: u64 = 10_000_000;

/// What the funding output holds beyond the commit output.
pub open spec fn calculated_fee(funding: u64, fees: Fees) -> int {
    funding - fees.reveal_fee_plus_outputs
}

/// The fee that the commit transaction is meant to pay if it carries a
/// change output.
pub open spec fn expected_fee(fees: Fees, satsbyte: u64) -> int {
    fees.commit_fee_only + satsbyte * OUTPUT_BYTES_BASE
}

/// What would be left for a change output.
pub open spec fn fee_slack(funding: u64, fees: Fees, satsbyte: u64) -> int {
    calculated_fee(funding, fees) - expected_fee(fees, satsbyte)
}

/// A change output is added when there is a fee at all and the slack over
/// the expected fee is positive and not dust.
pub open spec fn change_needed(funding: u64, fees: Fees, satsbyte: u64) -> bool {
    &&& calculated_fee(funding, fees) > 0
    &&& fee_slack(funding, fees, satsbyte) > 0
    &&& fee_slack(funding, fees, satsbyte) >= DUST_AMOUNT
}

/// The value of the change output: the slack, or nothing where no change
/// output is added.
pub open spec fn change_value(funding: u64, fees: Fees, satsbyte: u64) -> int {
    if change_needed(funding, fees, satsbyte) {
        fee_slack(funding, fees, satsbyte)
    } else {
        0
    }
}

/// The fee that the commit transaction pays: the expected fee beside a
/// change output, else all that the funding output holds beyond the commit
/// output.
pub open spec fn computed_fee(funding: u64, fees: Fees, satsbyte: u64) -> int {
    if change_needed(funding, fees, satsbyte) {
        expected_fee(fees, satsbyte)
    } else {
        calculated_fee(funding, fees)
    }
}

/// Whether the commit transaction gets a change output, and its value.
#[derive(Debug, Copy, Clone, PartialEq, Eq, Structural)]
pub struct ChangePlan {
    pub need_change_fee_output: bool,
    pub funding_value: u64,
}

/// Decides on the change output from the funding value, the fee totals and
/// the fee rate.
pub fn plan_change(funding: u64, fees: Fees, satsbyte: u64) -> (plan: ChangePlan)
    ensures
        plan.need_change_fee_output == change_needed(funding, fees, satsbyte),
        plan.funding_value == change_value(funding, fees, satsbyte),
{
    let total_inputs_value: u128 = funding as u128;
    let total_outputs_value: u128 = get_output_value_for_commit(fees) as u128;
    let expected_fee: u128 = fees.commit_fee_only as u128 + satsbyte as u128 * (OUTPUT_BYTES_BASE as u128);
    if total_inputs_value > total_outputs_value && total_inputs_value - total_outputs_value
        >= expected_fee + DUST_AMOUNT as u128 {
        let difference: u128 = total_inputs_value - total_outputs_value - expected_fee;
        ChangePlan { need_change_fee_output: true, funding_value: difference as u64 }
    } else {
        ChangePlan { need_change_fee_output: false, funding_value: 0 }
    }
}

/// The change output is there exactly when the calculated fee is positive
/// and the calculated fee less the expected fee is positive and at least
/// the dust amount.
pub proof fn lemma_change_output_rule(funding: u64, fees: Fees, satsbyte: u64)
    ensures
        change_needed(funding, fees, satsbyte) <==> (funding - fees.reveal_fee_plus_outputs > 0 && (
        funding - fees.reveal_fee_plus_outputs) - (fees.commit_fee_only + satsbyte * 43) > 0 && (
        funding - fees.reveal_fee_plus_outputs) - (fees.commit_fee_only + satsbyte * 43) >= 546),
{
}

/// Nothing is lost: the funding value is the commit output's value, the fee
/// and the change. Beside a change output the fee is the expected one;
/// without one the slack goes to the fee.
pub proof fn lemma_value_is_conserved(funding: u64, fees: Fees, satsbyte: u64)
    ensures
        funding == fees.reveal_fee_plus_outputs + computed_fee(funding, fees, satsbyte) + change_value(
            funding,
            fees,
            satsbyte,
        ),
        change_needed(funding, fees, satsbyte) ==> change_value(funding, fees, satsbyte) >= DUST_AMOUNT,
        !change_needed(funding, fees, satsbyte) ==> computed_fee(funding, fees, satsbyte)
            == expected_fee(fees, satsbyte) + fee_slack(funding, fees, satsbyte),
{
}

/// The mint arguments of a run: those of the configuration, with the time
/// and the nonce of the run.
pub open spec fn run_args(msg: Root, time: u64, nonce: u64) -> ArgsView {
    ArgsView { time, nonce, ..msg.copied_data@ }
}

/// The reveal script of a run, for the public key `key`.
pub open spec fn run_script(msg: Root, time: u64, nonce: u64, key: Seq<u8>) -> Seq<u8> {
    reveal_script(key, msg.worker_options.op_type@, run_args(msg, time, nonce))
}

/// What keeps a configuration from being assembled, if anything does. The
/// key is looked at before the funding transaction's id.
pub open spec fn configuration_error(msg: Root, time: u64, nonce: u64) -> Option<ConfigurationError> {
    let secret = wif_secret_key(msg.funding_wif@);
    if secret is None {
        Some(ConfigurationError::MalformedKey)
    } else {
        let key = x_only_public_key(secret->0);
        if key is None {
            Some(ConfigurationError::MalformedKey)
        } else if leaf_output_key(key->0, run_script(msg, time, nonce, key->0)) is None {
            Some(ConfigurationError::MalformedKey)
        } else if key_spend_output_key(key->0) is None {
            Some(ConfigurationError::MalformedKey)
        } else if !is_txid_text(msg.funding_utxo.txid@) {
            Some(ConfigurationError::MalformedTxid)
        } else {
            None
        }
    }
}

/// Whether `payload` is the signing context of the configuration `msg` for
/// a run with the given time and nonce.
pub open spec fn assembled(payload: Payload, msg: Root, time: u64, nonce: u64) -> bool {
    let key = payload.xonly_pub_key@;
    &&& payload.copied_data@ == run_args(msg, time, nonce)
    &&& wif_secret_key(msg.funding_wif@) == Some(payload.funding_private_key@)
    &&& x_only_public_key(payload.funding_private_key@) == Some(key)
    &&& leaf_output_key(key, run_script(msg, time, nonce, key)) is Some
    &&& payload.fixed_output_script_pubkey@ == p2tr_script(
        leaf_output_key(key, run_script(msg, time, nonce, key))->0,
    )
    &&& payload.fixed_output_script_pubkey@.len() == 34
    &&& payload.fixed_output_value == msg.fees.reveal_fee_plus_outputs
    &&& key_spend_output_key(key) is Some
    &&& payload.funding_private_script_pubkey@ == p2tr_script(key_spend_output_key(key)->0)
    &&& payload.funding_private_script_pubkey@.len() == 34
    &&& is_txid_text(msg.funding_utxo.txid@)
    &&& payload.funding_utxo_id@ == txid_bytes(msg.funding_utxo.txid@)
    &&& payload.funding_utxo_index == msg.funding_utxo.index
    &&& payload.funding_utxo_vout == msg.funding_utxo.vout
    &&& payload.funding_utxo_value == msg.funding_utxo.value
    &&& payload.need_change_fee_output == change_needed(
        msg.funding_utxo.value,
        msg.fees,
        msg.worker_options.satsbyte,
    )
    &&& payload.funding_value == change_value(
        msg.funding_utxo.value,
        msg.fees,
        msg.worker_options.satsbyte,
    )
    &&& opt_text(payload.valid_prefix) == opt_text(msg.worker_bitwork_info_commit.prefix)
    &&& payload.valid_ext == msg.worker_bitwork_info_commit.ext
}

/// Assembles the signing context of a run with the given time and nonce.
pub fn assemble_payload(msg: Root, time: u64, nonce: u64) -> (assembly: Result<Payload, ConfigurationError>)
    requires
        encode_utf8(msg.worker_options.op_type@).len() < PUSH_LIMIT,
    ensures
        match assembly {
            Ok(payload) => configuration_error(msg, time, nonce) is None && assembled(
                payload,
                msg,
                time,
                nonce,
            ),
            Err(error) => configuration_error(msg, time, nonce) == Some(error),
        },
{
    let Root {
        copied_data,
        worker_options,
        funding_wif,
        funding_utxo,
        fees,
        perform_bitwork_for_commit_tx: _,
        worker_bitwork_info_commit,
        concurrency: _,
        network,
    } = msg;
    let mut copied_data = copied_data;
    copied_data.args.time = time;
    copied_data.args.nonce = nonce;
    let private_key = match decode_wif(funding_wif.as_str()) {
        Ok(secret) => secret,
        Err(_) => {
            return Err(ConfigurationError::MalformedKey);
        },
    };
    let secp = CurveContext::new();
    let xonly_pubkey = match derive_x_only_public_key(&secp, &private_key) {
        Ok(key) => key,
        Err(_) => {
            return Err(ConfigurationError::MalformedKey);
        },
    };
    let fixed_output_script_pubkey = match get_address_by_copied_data(
        &secp,
        &xonly_pubkey,
        &copied_data,
        &worker_options.op_type,
        network,
    ) {
        Ok((_address, script)) => script,
        Err(error) => {
            return Err(error);
        },
    };
    let funding_private_script_pubkey = match get_funding_script(&secp, &xonly_pubkey, network) {
        Ok(script) => script,
        Err(error) => {
            return Err(error);
        },
    };
    let plan = plan_change(funding_utxo.value, fees, worker_options.satsbyte);
    let funding_utxo_id = match parse_txid(funding_utxo.txid.as_str()) {
        Ok(id) => id,
        Err(_) => {
            return Err(ConfigurationError::MalformedTxid);
        },
    };
    Ok(
        Payload {
            secp,
            copied_data,
            funding_utxo_id,
            funding_utxo_index: funding_utxo.index,
            funding_utxo_vout: funding_utxo.vout,
            funding_utxo_value: funding_utxo.value,
            xonly_pub_key: xonly_pubkey,
            funding_private_key: private_key,
            funding_private_script_pubkey,
            funding_value: plan.funding_value,
            fixed_output_script_pubkey,
            fixed_output_value: get_output_value_for_commit(fees),
            need_change_fee_output: plan.need_change_fee_output,
            valid_prefix: worker_bitwork_info_commit.prefix,
            valid_ext: worker_bitwork_info_commit.ext,
        },
    )
}

/// Whether a run may have the given time and nonce: an override is taken
/// as it is, and a sampled nonce lies below `NONCE_BOUND`.
pub open spec fn may_run_with(
    test_time: Option<u64>,
    test_nonce: Option<u64>,
    time: u64,
    nonce: u64,
) -> bool {
    &&& test_time matches Some(fixed) ==> time == fixed
    &&& test_nonce matches Some(fixed) ==> nonce == fixed
    &&& test_nonce is None ==> nonce < NONCE_BOUND
}

/// Whether `assembly` is what assembling a run from `msg` with the given
/// overrides may give: a context assembled for a time and a nonce that the
/// overrides allow, or what keeps the configuration from being assembled
/// at such a time and nonce, or the clock's failure where the clock is
/// read.
pub open spec fn is_assembly(
    msg: Root,
    test_time: Option<u64>,
    test_nonce: Option<u64>,
    assembly: Result<Payload, AssemblyError>,
) -> bool {
    match assembly {
        Ok(payload) => {
            let time = payload.copied_data.args.time;
            let nonce = payload.copied_data.args.nonce;
            &&& may_run_with(test_time, test_nonce, time, nonce)
            &&& configuration_error(msg, time, nonce) is None
            &&& assembled(payload, msg, time, nonce)
        },
        Err(AssemblyError::Clock) => test_time is None,
        Err(AssemblyError::Configuration(error)) => exists|time: u64, nonce: u64|
            #[trigger] may_run_with(test_time, test_nonce, time, nonce) && configuration_error(
                msg,
                time,
                nonce,
            ) == Some(error),
    }
}

/// Assembles the signing context of a run.
///
/// The run's time is `test_time` where that is given, else the clock's
/// seconds since 1970; its nonce is `test_nonce` where that is given, else
/// a number drawn from those below `NONCE_BOUND`. The clock is read only
/// when no time is given, and only then can the clock fail.
pub fn get_payload(
    msg: Root,
    test_time: Option<u64>,
    test_nonce: Option<u64>,
) -> (assembly: Result<Payload, AssemblyError>)
    requires
        encode_utf8(msg.worker_options.op_type@).len() < PUSH_LIMIT,
    ensures
        is_assembly(msg, test_time, test_nonce, assembly),
        assembly matches Ok(payload) ==> payload.need_change_fee_output == (msg.funding_utxo.value
            - msg.fees.reveal_fee_plus_outputs > 0 && (msg.funding_utxo.value
            - msg.fees.reveal_fee_plus_outputs) - (msg.fees.commit_fee_only
            + msg.worker_options.satsbyte * 43) > 0 && (msg.funding_utxo.value
            - msg.fees.reveal_fee_plus_outputs) - (msg.fees.commit_fee_only
            + msg.worker_options.satsbyte * 43) >= 546),
{
    let nonce: u64 = match test_nonce {
        Some(fixed) => fixed,
        None => sample_below(NONCE_BOUND),
    };
    let time: u64 = match test_time {
        Some(fixed) => fixed,
        None => {
            let read = now();
            match since_unix_epoch(&read) {
                Ok(elapsed) => whole_seconds(&elapsed),
                Err(_) => {
                    return Err(AssemblyError::Clock);
                },
            }
        },
    };
    assert(may_run_with(test_time, test_nonce, time, nonce));
    match assemble_payload(msg, time, nonce) {
        Ok(payload) => Ok(payload),
        Err(error) => Err(AssemblyError::Configuration(error)),
    }
}

/// Assembles the signing context of a run from any configuration: one
/// whose operation type is too long for a script is turned down with
/// `None`, and every other is handed to `get_payload`.
pub fn get_payload_checked(
    msg: Root,
    test_time: Option<u64>,
    test_nonce: Option<u64>,
) -> (checked: Option<Result<Payload, AssemblyError>>)
    ensures
        checked is Some <==> encode_utf8(msg.worker_options.op_type@).len() < PUSH_LIMIT,
        checked matches Some(assembly) ==> is_assembly(msg, test_time, test_nonce, assembly),
        checked matches Some(Ok(payload)) ==> payload.need_change_fee_output == (
        msg.funding_utxo.value - msg.fees.reveal_fee_plus_outputs > 0 && (msg.funding_utxo.value
            - msg.fees.reveal_fee_plus_outputs) - (msg.fees.commit_fee_only
            + msg.worker_options.satsbyte * 43) > 0 && (msg.funding_utxo.value
            - msg.fees.reveal_fee_plus_outputs) - (msg.fees.commit_fee_only
            + msg.worker_options.satsbyte * 43) >= 546),
{
    if op_type_fits(&msg.worker_options.op_type) {
        Some(get_payload(msg, test_time, test_nonce))
    } else {
        None
    }
}

/// In an assembled context the change flag is set exactly when the
/// calculated fee is positive and the calculated fee less the expected fee
/// is positive and at least 546.
pub proof fn lemma_assembled_change_flag(payload: Payload, msg: Root, time: u64, nonce: u64)
    requires
        assembled(payload, msg, time, nonce),
    ensures
        payload.need_change_fee_output == (msg.funding_utxo.value - msg.fees.reveal_fee_plus_outputs
            > 0 && (msg.funding_utxo.value - msg.fees.reveal_fee_plus_outputs) - (
        msg.fees.commit_fee_only + msg.worker_options.satsbyte * 43) > 0 && (msg.funding_utxo.value
            - msg.fees.reveal_fee_plus_outputs) - (msg.fees.commit_fee_only
            + msg.worker_options.satsbyte * 43) >= 546),
{
}

/// In an assembled context the secret key is a key, so every candidate can
/// be signed; and a signature that verifies under the tweaked key verifies
/// under the key that the funding output's script holds, where the tweaked
/// key is the output key of the funding key alone.
pub proof fn lemma_signature_spends_the_funding_output(
    payload: Payload,
    msg: Root,
    time: u64,
    nonce: u64,
    signature: Seq<u8>,
    digest: Seq<u8>,
)
    requires
        assembled(payload, msg, time, nonce),
        schnorr_verifies(signature, digest, tweaked_public_key(payload.funding_private_key@, None)),
        key_spend_output_key(x_only_public_key(payload.funding_private_key@)->0) == Some(
            tweaked_public_key(payload.funding_private_key@, None),
        ),
    ensures
        x_only_public_key(payload.funding_private_key@) is Some,
        payload.funding_private_script_pubkey@ == p2tr_script(
            tweaked_public_key(payload.funding_private_key@, None),
        ),
        schnorr_verifies(signature, digest, payload.funding_private_script_pubkey@.skip(2)),
{
    let key = tweaked_public_key(payload.funding_private_key@, None);
    assert(p2tr_script(key).skip(2) =~= key);
}

/// In an assembled context the template of every candidate has three
/// outputs exactly when the calculated fee is positive and exceeds the
/// expected fee by a positive amount of at least the dust amount, and two
/// outputs otherwise.
pub proof fn lemma_change_output_in_template(payload: Payload, msg: Root, time: u64, nonce: u64, seq: u32)
    requires
        assembled(payload, msg, time, nonce),
    ensures
        change_needed(msg.funding_utxo.value, msg.fees, msg.worker_options.satsbyte) ==> template(
            seq,
            payload,
        ).output.len() == 3,
        !change_needed(msg.funding_utxo.value, msg.fees, msg.worker_options.satsbyte) ==> template(
            seq,
            payload,
        ).output.len() == 2,
        msg.funding_utxo.value == payload.fixed_output_value + computed_fee(
            msg.funding_utxo.value,
            msg.fees,
            msg.worker_options.satsbyte,
        ) + payload.funding_value,
{
}

} // verus!
