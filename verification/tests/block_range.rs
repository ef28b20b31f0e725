use cli::block_range::{resolve_block_numbers, resolve_negative_block_number, BlockRange};

#[test]
fn test_resolve_block_numbers() {
    // Valid parameters
    assert_eq!((90, 100), resolve_block_numbers(100, -11, -1));
    assert_eq!((70, 80), resolve_block_numbers(100, 70, 80));
    assert_eq!((90, 95), resolve_block_numbers(100, -11, -6));
    assert_eq!((90, 95), resolve_block_numbers(100, 90, -6));
    assert_eq!((90, 95), resolve_block_numbers(100, -11, 95));

    // Best interpretation of parameters outside of block range
    assert_eq!((81, 81), resolve_block_numbers(100, -10, -20));
    assert_eq!((0, 0), resolve_block_numbers(100, -200, -150));
    assert_eq!((0, 100), resolve_block_numbers(100, -200, -1));
    assert_eq!((100, 100), resolve_block_numbers(100, 200, 300));
    assert_eq!((10, 10), resolve_block_numbers(100, 50, 10));
}

#[test]
fn negative_markers_count_back_from_the_head() {
    assert_eq!(100, resolve_negative_block_number(100, -1));
    assert_eq!(90, resolve_negative_block_number(100, -11));
    assert_eq!(0, resolve_negative_block_number(100, -101));
    assert_eq!(0, resolve_negative_block_number(100, -102));
    assert_eq!(0, resolve_negative_block_number(100, i64::MIN));
    assert_eq!(7, resolve_negative_block_number(100, 7));
    assert_eq!(700, resolve_negative_block_number(100, 700));
    assert_eq!(u64::MAX, resolve_negative_block_number(u64::MAX, -1));
    assert_eq!(u64::MAX - 9, resolve_negative_block_number(u64::MAX, -10));
    assert_eq!(i64::MAX as u64, resolve_negative_block_number(3, i64::MAX));
}

#[test]
fn the_head_itself_is_the_last_marker() {
    assert_eq!(BlockRange { start: 100, end: 100 }, BlockRange::resolve(100, -1, -1));
    assert_eq!(BlockRange { start: 90, end: 100 }, BlockRange::resolve(100, -11, -1));
    assert_eq!(BlockRange { start: 0, end: 100 }, BlockRange::resolve(100, -1000, -1));
    assert_eq!(BlockRange { start: 0, end: 0 }, BlockRange::resolve(0, -1, -1));
}

#[test]
fn markers_beyond_the_head_are_held_at_the_head() {
    assert_eq!(BlockRange { start: 100, end: 100 }, BlockRange::resolve(100, 200, 300));
    assert_eq!(BlockRange { start: 10, end: 10 }, BlockRange::resolve(100, 50, 10));
    assert_eq!(BlockRange { start: 0, end: 0 }, BlockRange::resolve(0, 5, 9));
}

#[test]
fn every_window_is_ordered_and_within_the_head() {
    let markers: [i64; 9] = [i64::MIN, -1000, -101, -2, -1, 0, 1, 100, i64::MAX];
    let heads: [u64; 5] = [0, 1, 100, 1 << 40, u64::MAX];
    for head in heads {
        for start in markers {
            for end in markers {
                let range = BlockRange::resolve(head, start, end);
                assert!(range.start <= range.end);
                assert!(range.end <= head);
                assert_eq!((range.start, range.end), resolve_block_numbers(head, start, end));
            }
        }
    }
}
