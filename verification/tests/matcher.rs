use bitwork_miner::worker::{has_valid_bitwork, hex_digit, MAX_SEQUENCE};

const TXID: &str = "0000a3f1c2d4e5f60718293a4b5c6d7e8f90a1b2c3d4e5f60718293a4b5c6d7e";

fn prefix(text: &str) -> Option<String> {
    Some(text.to_string())
}

#[test]
fn no_prefix_never_matches() {
    assert!(!has_valid_bitwork(TXID, &None, &None));
    assert!(!has_valid_bitwork(TXID, &None, &Some(0)));
    assert!(!has_valid_bitwork("", &None, &None));
}

#[test]
fn prefix_alone_matches_ids_that_start_with_it() {
    assert!(has_valid_bitwork(TXID, &prefix("0000"), &None));
    assert!(has_valid_bitwork(TXID, &prefix("0000a3"), &None));
    assert!(has_valid_bitwork(TXID, &prefix(""), &None));
    assert!(has_valid_bitwork(TXID, &prefix(TXID), &None));
    assert!(!has_valid_bitwork(TXID, &prefix("0001"), &None));
    assert!(!has_valid_bitwork(TXID, &prefix("a"), &None));
    assert!(!has_valid_bitwork(TXID, &prefix("00000"), &None));
}

#[test]
fn prefix_longer_than_the_id_does_not_match() {
    assert!(!has_valid_bitwork("00", &prefix("000"), &None));
    assert!(!has_valid_bitwork("", &prefix("0"), &None));
}

#[test]
fn threshold_is_held_against_the_digit_after_the_prefix() {
    // The digit after "0000" is 'a', worth ten.
    assert!(has_valid_bitwork(TXID, &prefix("0000"), &Some(0)));
    assert!(has_valid_bitwork(TXID, &prefix("0000"), &Some(9)));
    assert!(has_valid_bitwork(TXID, &prefix("0000"), &Some(10)));
    assert!(!has_valid_bitwork(TXID, &prefix("0000"), &Some(11)));
    assert!(!has_valid_bitwork(TXID, &prefix("0000"), &Some(15)));
    // The digit after "000" is '0'.
    assert!(has_valid_bitwork(TXID, &prefix("000"), &Some(0)));
    assert!(!has_valid_bitwork(TXID, &prefix("000"), &Some(1)));
}

#[test]
fn threshold_needs_the_prefix_too() {
    assert!(!has_valid_bitwork(TXID, &prefix("0001"), &Some(0)));
}

#[test]
fn id_that_ends_with_the_prefix_never_meets_a_threshold() {
    assert!(has_valid_bitwork("0000", &prefix("0000"), &None));
    assert!(!has_valid_bitwork("0000", &prefix("0000"), &Some(0)));
    assert!(!has_valid_bitwork("", &prefix(""), &Some(0)));
}

#[test]
fn threshold_above_fifteen_rejects_every_id() {
    assert!(has_valid_bitwork("0000f", &prefix("0000"), &Some(15)));
    assert!(!has_valid_bitwork("0000f", &prefix("0000"), &Some(16)));
    assert!(!has_valid_bitwork("0000f", &prefix("0000"), &Some(255)));
}

#[test]
fn only_lower_case_digits_count_after_the_prefix() {
    assert!(!has_valid_bitwork("0000A", &prefix("0000"), &Some(0)));
    assert!(!has_valid_bitwork("0000g", &prefix("0000"), &Some(0)));
    assert!(!has_valid_bitwork("0000 ", &prefix("0000"), &Some(0)));
}

#[test]
fn hex_digit_reads_the_sixteen_digits() {
    let digits = "0123456789abcdef";
    for (value, digit) in digits.chars().enumerate() {
        assert_eq!(hex_digit(digit), Some(value as u8));
    }
    assert_eq!(hex_digit('A'), None);
    assert_eq!(hex_digit('g'), None);
    assert_eq!(hex_digit('/'), None);
    assert_eq!(hex_digit(':'), None);
    assert_eq!(hex_digit('`'), None);
}

#[test]
fn max_sequence_is_the_largest_value_of_the_field() {
    assert_eq!(MAX_SEQUENCE, u32::MAX);
}
