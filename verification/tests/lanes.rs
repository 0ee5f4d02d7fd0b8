use meth::vec::lanes::{nearest_lane, REGISTER_BYTES};

#[test]
fn register_width_is_32_bytes() {
    assert_eq!(REGISTER_BYTES, 32);
}

#[test]
fn lane_count_for_five_four_byte_elements_is_four() {
    // One whole chunk of four elements and a one-element remainder.
    let lanes = nearest_lane(4, 5);
    assert_eq!(lanes, 4);
    assert_eq!(5 / lanes, 1);
    assert_eq!(5 % lanes, 1);
}

#[test]
fn lane_count_for_three_four_byte_elements_is_two() {
    assert_eq!(nearest_lane(4, 3), 2);
}

#[test]
fn lane_count_for_eighteen_four_byte_elements_is_eight() {
    assert_eq!(nearest_lane(4, 18), 8);
}

#[test]
fn lane_count_values() {
    assert_eq!(nearest_lane(4, 0), 0);
    assert_eq!(nearest_lane(4, 1), 0);
    assert_eq!(nearest_lane(4, 2), 2);
    assert_eq!(nearest_lane(4, 4), 4);
    assert_eq!(nearest_lane(4, 8), 8);
    assert_eq!(nearest_lane(4, 9), 8);
    assert_eq!(nearest_lane(4, 1024), 8);
    assert_eq!(nearest_lane(2, 1024), 16);
    assert_eq!(nearest_lane(1, 1024), 32);
    assert_eq!(nearest_lane(1, 33), 32);
    assert_eq!(nearest_lane(2, 2), 2);
}

#[test]
fn lane_count_is_legal_for_every_small_length() {
    for size in [1usize, 2, 4] {
        for n in 0usize..200 {
            let lanes = nearest_lane(size, n);
            assert!(
                lanes == 0
                    || [1usize, 2, 4, 8, 16, 32, 64].contains(&lanes),
                "illegal lane count {lanes} for size {size} length {n}"
            );
            if lanes > 0 {
                assert!(lanes * size <= 32);
            }
        }
    }
}

#[test]
fn lane_count_is_idempotent() {
    for size in [1usize, 2, 4] {
        for n in 0usize..200 {
            let lanes = nearest_lane(size, n);
            assert_eq!(nearest_lane(size, lanes), lanes);
        }
    }
}

#[test]
fn partition_is_exact_for_every_small_length() {
    for size in [1usize, 2, 4] {
        for n in 0usize..200 {
            let lanes = nearest_lane(size, n);
            let (vectors, remainder) = if lanes == 0 { (0, n) } else { (n / lanes, n % lanes) };
            assert_eq!(vectors * lanes + remainder, n);
            if lanes > 0 {
                assert!(remainder < lanes);
            }
        }
    }
}
