use std::sync::atomic::{AtomicBool, Ordering};

use bitwork_miner::keys::CurveContext;
use bitwork_miner::payload::get_payload;
use bitwork_miner::search::{
    look, mine, mine_partition, partition, result_for, scan, sweep, Evaluator, NonceSearch,
    Partition, ScanOutcome, SearchOutcome, SequenceSearch, SweepOutcome, SEQUENCE_SPACE,
};
use bitwork_miner::signal::{is_raised, raise};
use bitwork_miner::types::{
    Args, CopiedData, Fees, FundingUtxo, Network, Payload, Root, WorkerBitworkInfoCommit, WorkerOptions,
};
use bitwork_miner::utils::get_address_by_copied_data;
use bitwork_miner::worker::{candidate_txid, predicate};

const WIF: &str = "cVt4o7BGAig1UXywgGSmARhxMdzP5qvQsxKkSsc1XEkw3tDTQFpy";
const FUNDING_TXID: &str = "5e2f1c3a7b9d4e6f8091a2b3c4d5e6f708192a3b4c5d6e7f8090a1b2c3d4e5f6";

fn payload_with(prefix: Option<&str>, ext: Option<u8>) -> Payload {
    let msg = Root {
        copied_data: CopiedData {
            args: Args {
                time: 0,
                nonce: 0,
                bitworkc: Some("0".to_string()),
                bitworkr: None,
                mint_ticker: "ttts".to_string(),
            },
        },
        worker_options: WorkerOptions { satsbyte: 2, op_type: "dmt".to_string(), ..Default::default() },
        funding_wif: WIF.to_string(),
        funding_utxo: FundingUtxo { txid: FUNDING_TXID.to_string(), vout: 0, value: 10_000, ..Default::default() },
        fees: Fees { reveal_fee_plus_outputs: 1_000, commit_fee_only: 300, ..Default::default() },
        perform_bitwork_for_commit_tx: true,
        worker_bitwork_info_commit: WorkerBitworkInfoCommit {
            prefix: prefix.map(|text| text.to_string()),
            ext,
            ..Default::default()
        },
        concurrency: 1,
        network: Network::Bitcoin,
    };
    get_payload(msg, Some(1704688101), Some(7588557)).unwrap()
}

#[test]
fn search_for_a_single_digit_ends_with_a_matching_sequence() {
    for digit in ["0", "7", "f"] {
        let payload = payload_with(Some(digit), None);
        let stop = AtomicBool::new(false);
        let outcome = mine_partition(&payload, partition(SEQUENCE_SPACE, 1, 0), &stop);
        let sequence = match outcome {
            ScanOutcome::Found(sequence) => sequence,
            other => panic!("nothing found: {:?}", other),
        };
        let id = candidate_txid(sequence as u32, &payload).unwrap();
        assert!(id.starts_with(digit));
        // Signing the same sequence again gives the same id.
        assert_eq!(candidate_txid(sequence as u32, &payload).unwrap(), id);
        assert_eq!(predicate(sequence as u32, &payload), Ok(true));
        // Nothing before it matched.
        for earlier in 0..sequence {
            assert!(!candidate_txid(earlier as u32, &payload).unwrap().starts_with(digit));
        }
        assert!(stop.load(Ordering::SeqCst));
    }
}

#[test]
fn search_over_all_workers_ends_with_a_matching_sequence() {
    let payload = payload_with(Some("0"), Some(4));
    let stop = AtomicBool::new(false);
    let found = match mine(&payload, 4, &stop) {
        SearchOutcome::Found(found) => found,
        other => panic!("nothing found: {:?}", other),
    };
    assert_eq!(found.nonce, 7588557);
    assert_eq!(found.time, 1704688101);
    assert!(found.sequence < SEQUENCE_SPACE / 4);
    let id = candidate_txid(found.sequence as u32, &payload).unwrap();
    assert!(id.starts_with('0'));
    assert!(id.as_bytes()[1] >= b'4');
}

#[test]
fn search_with_no_workers_scans_nothing() {
    let payload = payload_with(Some("0"), None);
    let stop = AtomicBool::new(false);
    assert_eq!(mine(&payload, 0, &stop), SearchOutcome::Exhausted);
    assert!(!stop.load(Ordering::SeqCst));
}

#[test]
fn search_stops_at_a_raised_signal() {
    let payload = payload_with(Some("0"), None);
    let stop = AtomicBool::new(true);
    assert_eq!(
        mine_partition(&payload, Partition { start: 5, end: 1_000 }, &stop),
        ScanOutcome::Cancelled(5)
    );
    assert_eq!(mine(&payload, 3, &stop), SearchOutcome::Cancelled(0));
    // With no share the signal is not looked at.
    assert_eq!(mine(&payload, 0, &stop), SearchOutcome::Exhausted);
}

#[test]
fn share_without_a_match_is_exhausted() {
    let payload = payload_with(Some("not hex"), None);
    let stop = AtomicBool::new(false);
    assert_eq!(
        mine_partition(&payload, Partition { start: 0, end: 40 }, &stop),
        ScanOutcome::Exhausted
    );
    assert_eq!(
        mine_partition(&payload, Partition { start: 9, end: 9 }, &stop),
        ScanOutcome::Exhausted
    );
    assert_eq!(
        mine_partition(&payload, Partition { start: 9, end: 3 }, &stop),
        ScanOutcome::Exhausted
    );
    assert!(!stop.load(Ordering::SeqCst));
}

#[test]
fn candidate_that_cannot_be_signed_counts_as_no_match() {
    let mut payload = payload_with(Some(""), None);
    let stop = AtomicBool::new(false);
    assert_eq!(mine_partition(&payload, Partition { start: 0, end: 3 }, &stop), ScanOutcome::Found(0));
    payload.funding_private_key = [0u8; 32];
    let stop = AtomicBool::new(false);
    assert_eq!(mine_partition(&payload, Partition { start: 0, end: 3 }, &stop), ScanOutcome::Exhausted);
}

#[test]
fn sequence_search_accepts_only_sequence_values() {
    let payload = payload_with(Some(""), None);
    let search = SequenceSearch { payload: &payload };
    assert!(search.evaluate(0));
    assert!(search.evaluate(u32::MAX as u64));
    assert!(!search.evaluate(SEQUENCE_SPACE));
    assert!(!search.evaluate(u64::MAX));
}

#[test]
fn scan_goes_through_a_share_in_order() {
    let payload = payload_with(Some("0"), None);
    let search = SequenceSearch { payload: &payload };
    let stop = AtomicBool::new(false);
    let first = match scan(&search, Partition { start: 0, end: 10_000 }, &stop) {
        ScanOutcome::Found(first) => first,
        other => panic!("nothing found: {:?}", other),
    };
    let stop = AtomicBool::new(false);
    let next = match scan(&search, Partition { start: first + 1, end: 10_000 }, &stop) {
        ScanOutcome::Found(next) => next,
        other => panic!("nothing found: {:?}", other),
    };
    assert!(first < next);
    let stop = AtomicBool::new(false);
    assert_eq!(scan(&search, Partition { start: first + 1, end: next }, &stop), ScanOutcome::Exhausted);
}

#[test]
fn result_carries_the_time_and_the_nonce_of_the_run() {
    let payload = payload_with(Some("0"), None);
    let result = result_for(&payload, 77);
    assert_eq!((result.sequence, result.nonce, result.time), (77, 7588557, 1704688101));
}

#[test]
fn signal_is_raised_once_and_stays_raised() {
    let stop = AtomicBool::new(false);
    assert!(!is_raised(&stop));
    raise(&stop);
    assert!(is_raised(&stop));
    raise(&stop);
    assert!(is_raised(&stop));
}

fn template() -> CopiedData {
    CopiedData {
        args: Args {
            time: 999,
            nonce: 999,
            bitworkc: Some("000000".to_string()),
            bitworkr: Some("6238".to_string()),
            mint_ticker: "sophon".to_string(),
        },
    }
}

fn address_at(context: &CurveContext, key: &[u8; 32], time: u64, nonce: u64) -> String {
    let mut data = template();
    data.args.time = time;
    data.args.nonce = nonce;
    get_address_by_copied_data(context, key, &data, &"dmt".to_string(), Network::Bitcoin).unwrap().0
}

#[test]
fn nonce_search_finds_the_nonce_of_a_wanted_address() {
    let payload = payload_with(Some("0"), None);
    let context = CurveContext::new();
    let key = payload.xonly_pub_key;
    let wanted = address_at(&context, &key, 1704172809, 6);
    let data = template();
    let op_type = "dmt".to_string();
    let search = NonceSearch {
        secp: &context,
        xonly_public_key: &key,
        copied_data: &data,
        time: 1704172809,
        op_type: &op_type,
        network: Network::Bitcoin,
        wanted: &wanted,
    };
    assert!(search.evaluate(6));
    assert!(!search.evaluate(5));
    assert!(!search.evaluate(999));
    let stop = AtomicBool::new(false);
    assert_eq!(scan(&search, Partition { start: 0, end: 11 }, &stop), ScanOutcome::Found(6));
    let stop = AtomicBool::new(false);
    assert_eq!(scan(&search, Partition { start: 0, end: 6 }, &stop), ScanOutcome::Exhausted);
}

#[test]
fn sweep_steps_back_in_time_when_the_nonces_are_exhausted() {
    let payload = payload_with(Some("0"), None);
    let context = CurveContext::new();
    let key = payload.xonly_pub_key;
    let wanted = address_at(&context, &key, 98, 3);
    let data = template();
    let op_type = "dmt".to_string();
    let search = NonceSearch {
        secp: &context,
        xonly_public_key: &key,
        copied_data: &data,
        time: 100,
        op_type: &op_type,
        network: Network::Bitcoin,
        wanted: &wanted,
    };
    let stop = AtomicBool::new(false);
    let outcome = sweep(search, Partition { start: 0, end: 5 }, &stop);
    assert_eq!(outcome, SweepOutcome::Found { time: 98, nonce: 3 });
    assert!(stop.load(Ordering::SeqCst));
}

#[test]
fn sweep_ends_at_time_one() {
    let payload = payload_with(Some("0"), None);
    let context = CurveContext::new();
    let key = payload.xonly_pub_key;
    let data = template();
    let op_type = "dmt".to_string();
    let at_zero = address_at(&context, &key, 0, 1);
    let search = NonceSearch {
        secp: &context,
        xonly_public_key: &key,
        copied_data: &data,
        time: 3,
        op_type: &op_type,
        network: Network::Bitcoin,
        wanted: &at_zero,
    };
    let stop = AtomicBool::new(false);
    assert_eq!(sweep(search, Partition { start: 0, end: 3 }, &stop), SweepOutcome::Exhausted);
    let raised = AtomicBool::new(true);
    let search = NonceSearch {
        secp: &context,
        xonly_public_key: &key,
        copied_data: &data,
        time: 3,
        op_type: &op_type,
        network: Network::Bitcoin,
        wanted: &at_zero,
    };
    assert_eq!(
        sweep(search, Partition { start: 1, end: 3 }, &raised),
        SweepOutcome::Cancelled { time: 3, nonce: 1 }
    );
}

#[test]
fn sweep_with_nothing_to_try_is_exhausted_whatever_the_signal() {
    let payload = payload_with(Some("0"), None);
    let context = CurveContext::new();
    let key = payload.xonly_pub_key;
    let data = template();
    let op_type = "dmt".to_string();
    let wanted = address_at(&context, &key, 3, 1);
    let raised = AtomicBool::new(true);
    for (time, nonces) in [(0, Partition { start: 0, end: 5 }), (3, Partition { start: 2, end: 2 })] {
        let search = NonceSearch {
            secp: &context,
            xonly_public_key: &key,
            copied_data: &data,
            time,
            op_type: &op_type,
            network: Network::Bitcoin,
            wanted: &wanted,
        };
        assert_eq!(sweep(search, nonces, &raised), SweepOutcome::Exhausted);
    }
}

#[test]
fn cancelled_search_tells_where_it_stopped() {
    let payload = payload_with(Some("not hex"), None);
    let search = SequenceSearch { payload: &payload };
    let stop = AtomicBool::new(false);
    assert_eq!(scan(&search, Partition { start: 3, end: 6 }, &stop), ScanOutcome::Exhausted);
    raise(&stop);
    assert_eq!(scan(&search, Partition { start: 3, end: 6 }, &stop), ScanOutcome::Cancelled(3));
    assert_eq!(mine(&payload, 2, &stop), SearchOutcome::Cancelled(0));
}

#[test]
fn one_look_at_a_candidate() {
    let payload = payload_with(Some(""), None);
    let search = SequenceSearch { payload: &payload };
    assert_eq!(look(&search, 4, true), Some(ScanOutcome::Cancelled(4)));
    assert_eq!(look(&search, 4, false), Some(ScanOutcome::Found(4)));
    let never = payload_with(None, None);
    let search = SequenceSearch { payload: &never };
    assert_eq!(look(&search, 4, false), None);
    assert_eq!(look(&search, 4, true), Some(ScanOutcome::Cancelled(4)));
}
