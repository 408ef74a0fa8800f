use bitwork_miner::search::{partition, partitions, Partition, SEQUENCE_SPACE};

#[test]
fn ten_candidates_among_three_workers() {
    assert_eq!(partition(10, 3, 0), Partition { start: 0, end: 3 });
    assert_eq!(partition(10, 3, 1), Partition { start: 3, end: 6 });
    assert_eq!(partition(10, 3, 2), Partition { start: 6, end: 10 });
}

#[test]
fn the_sequence_space_among_three_workers() {
    let each = 0x1_0000_0000u64 / 3;
    assert_eq!(each, 1431655765);
    assert_eq!(partition(SEQUENCE_SPACE, 3, 0), Partition { start: 0, end: 1431655765 });
    assert_eq!(partition(SEQUENCE_SPACE, 3, 1), Partition { start: 1431655765, end: 2863311530 });
    assert_eq!(partition(SEQUENCE_SPACE, 3, 2), Partition { start: 2863311530, end: 4294967296 });
}

#[test]
fn one_worker_takes_the_whole_space() {
    assert_eq!(partition(SEQUENCE_SPACE, 1, 0), Partition { start: 0, end: 0x1_0000_0000 });
}

#[test]
fn shares_are_disjoint_and_cover_the_space() {
    for space in [0u64, 1, 7, 10, 64, 1000] {
        for workers in 1u32..=12 {
            let parts = partitions(space, workers);
            assert_eq!(parts.len(), workers as usize);
            assert_eq!(parts[0].start, 0);
            assert_eq!(parts[parts.len() - 1].end, space);
            for pair in parts.windows(2) {
                assert_eq!(pair[0].end, pair[1].start);
            }
            for (index, part) in parts.iter().enumerate() {
                assert!(part.start <= part.end);
                if index + 1 < parts.len() {
                    assert_eq!(part.end - part.start, space / workers as u64);
                } else {
                    assert_eq!(part.end - part.start, space / workers as u64 + space % workers as u64);
                }
                if workers as u64 <= space {
                    assert!(part.start < part.end);
                }
            }
        }
    }
}

#[test]
fn more_workers_than_candidates_leaves_all_to_the_last() {
    let parts = partitions(2, 5);
    for part in &parts[..4] {
        assert_eq!(part.start, part.end);
    }
    assert_eq!(parts[4], Partition { start: 0, end: 2 });
}

#[test]
fn no_workers_no_shares() {
    assert!(partitions(100, 0).is_empty());
}

#[test]
fn partitions_agree_with_partition() {
    let parts = partitions(SEQUENCE_SPACE, 7);
    for index in 0..7u32 {
        assert_eq!(parts[index as usize], partition(SEQUENCE_SPACE, 7, index));
    }
}
