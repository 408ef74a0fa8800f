use std::str::FromStr;
use std::time::{SystemTime, UNIX_EPOCH};

use bitcoin::key::Keypair;
use bitcoin::secp256k1::Secp256k1;
use bitcoin::{Address, PrivateKey, Txid, XOnlyPublicKey};
use bitwork_miner::error::{AssemblyError, ConfigurationError, SigningError};
use bitwork_miner::payload::{assemble_payload, get_payload, get_payload_checked, NONCE_BOUND};
use bitwork_miner::types::{
    Args, CopiedData, Fees, FundingUtxo, Network, Root, WorkerBitworkInfoCommit, WorkerOptions,
};
use bitwork_miner::utils::get_address_by_copied_data;

const WIF: &str = "cVt4o7BGAig1UXywgGSmARhxMdzP5qvQsxKkSsc1XEkw3tDTQFpy";
const FUNDING_TXID: &str = "5e2f1c3a7b9d4e6f8091a2b3c4d5e6f708192a3b4c5d6e7f8090a1b2c3d4e5f6";

fn config() -> Root {
    Root {
        copied_data: CopiedData {
            args: Args {
                time: 11,
                nonce: 22,
                bitworkc: Some("0000".to_string()),
                bitworkr: None,
                mint_ticker: "ttts".to_string(),
            },
        },
        worker_options: WorkerOptions {
            satsbyte: 2,
            op_type: "dmt".to_string(),
            ..Default::default()
        },
        funding_wif: WIF.to_string(),
        funding_utxo: FundingUtxo {
            txid: FUNDING_TXID.to_string(),
            tx_id: FUNDING_TXID.to_string(),
            output_index: 1,
            index: 1,
            vout: 1,
            value: 10_000,
        },
        fees: Fees {
            commit_and_reveal_fee: 700,
            commit_and_reveal_fee_plus_outputs: 1_700,
            reveal_fee_plus_outputs: 1_000,
            commit_fee_only: 300,
            reveal_fee_only: 400,
        },
        perform_bitwork_for_commit_tx: true,
        worker_bitwork_info_commit: WorkerBitworkInfoCommit {
            input_bitwork: "0000.5".to_string(),
            hex_bitwork: "0000".to_string(),
            prefix: Some("0000".to_string()),
            ext: Some(5),
        },
        concurrency: 4,
        network: Network::Test,
    }
}

#[test]
fn payload_takes_the_overrides_for_time_and_nonce() {
    let payload = get_payload(config(), Some(1704688101), Some(7588557)).unwrap();
    assert_eq!(payload.copied_data.args.time, 1704688101);
    assert_eq!(payload.copied_data.args.nonce, 7588557);
    assert_eq!(payload.copied_data.args.bitworkc, Some("0000".to_string()));
    assert_eq!(payload.copied_data.args.bitworkr, None);
    assert_eq!(payload.copied_data.args.mint_ticker, "ttts");
}

#[test]
fn payload_samples_what_is_not_overridden() {
    let before = SystemTime::now().duration_since(UNIX_EPOCH).unwrap().as_secs();
    let payload = get_payload(config(), None, None).unwrap();
    let after = SystemTime::now().duration_since(UNIX_EPOCH).unwrap().as_secs();
    assert!(before <= payload.copied_data.args.time && payload.copied_data.args.time <= after);
    assert!(payload.copied_data.args.nonce < NONCE_BOUND);
    for _ in 0..50 {
        let payload = get_payload(config(), Some(5), None).unwrap();
        assert_eq!(payload.copied_data.args.time, 5);
        assert!(payload.copied_data.args.nonce < 10_000_000);
    }
    let payload = get_payload(config(), None, Some(10_000_000)).unwrap();
    assert_eq!(payload.copied_data.args.nonce, 10_000_000);
    assert!(payload.copied_data.args.time >= before);
}

#[test]
fn payload_holds_the_keys_of_the_configured_wif() {
    let secp = Secp256k1::new();
    let key = PrivateKey::from_wif(WIF).unwrap();
    let (xonly, _parity) = XOnlyPublicKey::from_keypair(&Keypair::from_secret_key(&secp, &key.inner));
    let payload = get_payload(config(), Some(1), Some(2)).unwrap();
    assert_eq!(payload.funding_private_key, key.inner.secret_bytes());
    assert_eq!(payload.xonly_pub_key, xonly.serialize());
    assert_ne!(payload.xonly_pub_key, payload.funding_private_key);
}

#[test]
fn payload_holds_the_funding_output() {
    let payload = get_payload(config(), Some(1), Some(2)).unwrap();
    assert_eq!(payload.funding_utxo_id, bitcoin::hashes::Hash::to_byte_array(Txid::from_str(FUNDING_TXID).unwrap()));
    assert_eq!(payload.funding_utxo_id[0], 0xf6);
    assert_eq!(payload.funding_utxo_id[31], 0x5e);
    assert_eq!(payload.funding_utxo_index, 1);
    assert_eq!(payload.funding_utxo_vout, 1);
    assert_eq!(payload.funding_utxo_value, 10_000);
}

#[test]
fn payload_holds_the_script_of_the_funding_key() {
    let secp = Secp256k1::new();
    let key = PrivateKey::from_wif(WIF).unwrap();
    let (xonly, _parity) = XOnlyPublicKey::from_keypair(&Keypair::from_secret_key(&secp, &key.inner));
    let expected = Address::p2tr(&secp, xonly, None, bitcoin::Network::Testnet).script_pubkey();
    let payload = get_payload(config(), Some(1), Some(2)).unwrap();
    assert_eq!(payload.funding_private_script_pubkey, expected.into_bytes());
}

#[test]
fn payload_holds_the_commit_script_of_the_run() {
    let payload = get_payload(config(), Some(1704688101), Some(7588557)).unwrap();
    let (_address, script) = get_address_by_copied_data(
        &payload.secp,
        &payload.xonly_pub_key,
        &payload.copied_data,
        &"dmt".to_string(),
        Network::Test,
    )
    .unwrap();
    assert_eq!(payload.fixed_output_script_pubkey, script);
    assert_eq!(payload.fixed_output_value, 1_000);
    let other = get_payload(config(), Some(1704688101), Some(7588558)).unwrap();
    assert_ne!(payload.fixed_output_script_pubkey, other.fixed_output_script_pubkey);
    assert_eq!(payload.funding_private_script_pubkey, other.funding_private_script_pubkey);
}

#[test]
fn payload_plans_the_change_output() {
    // calculated fee 9000, expected fee 300 + 2 * 43 = 386.
    let payload = get_payload(config(), Some(1), Some(2)).unwrap();
    assert!(payload.need_change_fee_output);
    assert_eq!(payload.funding_value, 8_614);
    let mut tight = config();
    tight.funding_utxo.value = 1_000 + 386 + 545;
    let payload = get_payload(tight, Some(1), Some(2)).unwrap();
    assert!(!payload.need_change_fee_output);
    assert_eq!(payload.funding_value, 0);
    let mut short = config();
    short.funding_utxo.value = 10;
    let payload = get_payload(short, Some(1), Some(2)).unwrap();
    assert!(!payload.need_change_fee_output);
    assert_eq!(payload.funding_value, 0);
}

#[test]
fn payload_holds_the_bitwork_requirement() {
    let payload = get_payload(config(), Some(1), Some(2)).unwrap();
    assert_eq!(payload.valid_prefix, Some("0000".to_string()));
    assert_eq!(payload.valid_ext, Some(5));
    let mut free = config();
    free.worker_bitwork_info_commit.prefix = None;
    free.worker_bitwork_info_commit.ext = None;
    let payload = get_payload(free, Some(1), Some(2)).unwrap();
    assert_eq!(payload.valid_prefix, None);
    assert_eq!(payload.valid_ext, None);
}

#[test]
fn assembling_is_get_payload_with_both_overrides() {
    let direct = assemble_payload(config(), 7, 8).unwrap();
    let through = get_payload(config(), Some(7), Some(8)).unwrap();
    assert_eq!(direct.copied_data, through.copied_data);
    assert_eq!(direct.fixed_output_script_pubkey, through.fixed_output_script_pubkey);
    assert_eq!(direct.funding_private_script_pubkey, through.funding_private_script_pubkey);
    assert_eq!(direct.funding_utxo_id, through.funding_utxo_id);
    assert_eq!(direct.xonly_pub_key, through.xonly_pub_key);
}

#[test]
fn malformed_private_key_is_a_configuration_error() {
    for wif in ["", "not a key", "cVt4o7BGAig1UXywgGSmARhxMdzP5qvQsxKkSsc1XEkw3tDTQFpz", FUNDING_TXID] {
        let mut msg = config();
        msg.funding_wif = wif.to_string();
        let error = get_payload(msg, Some(1), Some(2)).err();
        assert_eq!(error, Some(AssemblyError::Configuration(ConfigurationError::MalformedKey)));
    }
}

#[test]
fn malformed_funding_txid_is_a_configuration_error() {
    let short = &FUNDING_TXID[..63];
    let long = format!("{}0", FUNDING_TXID);
    let bad_digit = format!("{}g", &FUNDING_TXID[..63]);
    for txid in ["", "zz", short, long.as_str(), bad_digit.as_str()] {
        let mut msg = config();
        msg.funding_utxo.txid = txid.to_string();
        let error = get_payload(msg, Some(1), Some(2)).err();
        assert_eq!(error, Some(AssemblyError::Configuration(ConfigurationError::MalformedTxid)));
    }
}

#[test]
fn funding_txid_may_be_written_in_upper_case() {
    let mut msg = config();
    msg.funding_utxo.txid = FUNDING_TXID.to_uppercase();
    let payload = get_payload(msg, Some(1), Some(2)).unwrap();
    assert_eq!(payload.funding_utxo_id, get_payload(config(), Some(1), Some(2)).unwrap().funding_utxo_id);
}

#[test]
fn the_key_is_looked_at_before_the_txid() {
    let mut msg = config();
    msg.funding_wif = "bad".to_string();
    msg.funding_utxo.txid = "bad".to_string();
    let error = assemble_payload(msg, 1, 2).err();
    assert_eq!(error, Some(ConfigurationError::MalformedKey));
}

#[test]
fn unknown_network_selector_is_a_configuration_error() {
    assert_eq!(Network::from_repr(0), Ok(Network::Bitcoin));
    assert_eq!(Network::from_repr(1), Ok(Network::Test));
    assert_eq!(Network::from_repr(2), Err(ConfigurationError::UnknownNetwork));
    assert_eq!(Network::from_repr(255), Err(ConfigurationError::UnknownNetwork));
    assert_eq!(Network::Bitcoin.to_repr(), 0);
    assert_eq!(Network::Test.to_repr(), 1);
    assert_eq!(Network::default(), Network::Bitcoin);
}

#[test]
fn every_error_says_what_went_wrong() {
    let messages = [
        ConfigurationError::MalformedKey.message(),
        ConfigurationError::MalformedTxid.message(),
        ConfigurationError::UnknownNetwork.message(),
        AssemblyError::Clock.message(),
        SigningError::Digest.message(),
        SigningError::Key.message(),
    ];
    for (index, message) in messages.iter().enumerate() {
        assert!(!message.is_empty());
        for other in &messages[index + 1..] {
            assert_ne!(message, other);
        }
    }
    assert_eq!(
        AssemblyError::Configuration(ConfigurationError::MalformedTxid).message(),
        "the funding transaction id is not 64 hexadecimal digits"
    );
}

#[test]
fn checked_assembly_is_assembly_where_the_operation_type_fits() {
    let checked = get_payload_checked(config(), Some(7), Some(8)).unwrap().unwrap();
    let direct = get_payload(config(), Some(7), Some(8)).unwrap();
    assert_eq!(checked.copied_data, direct.copied_data);
    assert_eq!(checked.fixed_output_script_pubkey, direct.fixed_output_script_pubkey);
    assert_eq!(checked.need_change_fee_output, direct.need_change_fee_output);
    assert_eq!(checked.funding_value, direct.funding_value);
    let mut bad = config();
    bad.funding_wif = "bad".to_string();
    assert_eq!(
        get_payload_checked(bad, Some(7), Some(8)).map(|assembly| assembly.err()),
        Some(Some(AssemblyError::Configuration(ConfigurationError::MalformedKey)))
    );
}

#[test]
fn scripts_of_an_assembled_context_have_34_bytes() {
    let payload = get_payload(config(), Some(1), Some(2)).unwrap();
    assert_eq!(payload.fixed_output_script_pubkey.len(), 34);
    assert_eq!(payload.funding_private_script_pubkey.len(), 34);
}
