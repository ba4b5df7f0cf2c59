use purchase_core::rounding::round_huf;

#[test]
fn rounds_to_nearest_multiple_of_five() {
    assert_eq!(round_huf(0), 0);
    assert_eq!(round_huf(1), 0);
    assert_eq!(round_huf(2), 0);
    assert_eq!(round_huf(3), 5);
    assert_eq!(round_huf(4), 5);
    assert_eq!(round_huf(5), 5);
    assert_eq!(round_huf(6), 5);
    assert_eq!(round_huf(7), 5);
    assert_eq!(round_huf(8), 10);
    assert_eq!(round_huf(9), 10);
    assert_eq!(round_huf(10), 10);
    assert_eq!(round_huf(12), 10);
    assert_eq!(round_huf(13), 15);
    assert_eq!(round_huf(2286), 2285);
    assert_eq!(round_huf(2540), 2540);
}

#[test]
fn negative_amounts_round_by_magnitude() {
    assert_eq!(round_huf(-1), 0);
    assert_eq!(round_huf(-3), -5);
    assert_eq!(round_huf(-12), -10);
    assert_eq!(round_huf(-13), -15);
    assert_eq!(round_huf(-2286), -2285);
}

#[test]
fn rounding_is_idempotent() {
    for n in [-2286, -13, -1, 0, 1, 2, 3, 7, 12, 13, 999, 2286, 2540] {
        let once = round_huf(n);
        assert_eq!(round_huf(once), once);
    }
}

#[test]
fn rounding_is_sign_symmetric() {
    for n in [0, 1, 2, 3, 7, 12, 13, 999, 2286, 2540] {
        assert_eq!(round_huf(-n), -round_huf(n));
    }
}
