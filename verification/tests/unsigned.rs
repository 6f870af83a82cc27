use fixed128::U128;

#[test]
fn unsigned_new_get_round_trip() {
    let v: u128 = 123_456_789_012_345_678_901_234_567_890;
    assert_eq!(U128::new(v).get(), v);
    assert_eq!(U128::new(0).get(), 0);
    assert_eq!(U128::new(u128::MAX).get(), u128::MAX);
}

#[test]
fn unsigned_zero_is_zero() {
    assert!(U128::zero().is_zero());
    assert_eq!(U128::zero().get(), 0);
    assert!(U128::new(0).is_zero());
}

#[test]
fn unsigned_nonzero_is_not_zero() {
    assert!(!U128::new(1).is_zero());
    assert!(!U128::new(7).is_zero());
    assert!(!U128::new(u128::MAX).is_zero());
}

#[test]
fn unsigned_add_exact_when_in_range() {
    assert_eq!(U128::new(2).saturating_add(U128::new(3)).get(), 5);
    assert_eq!(U128::new(0).saturating_add(U128::new(0)).get(), 0);
    assert_eq!(
        U128::new(u128::MAX - 5).saturating_add(U128::new(5)).get(),
        u128::MAX
    );
}

#[test]
fn unsigned_add_clamps_at_max() {
    let r = U128::new(u128::MAX).saturating_add(U128::new(5));
    assert_eq!(r.get(), u128::MAX);
    let s = U128::new(u128::MAX - 2).saturating_add(U128::new(10));
    assert_eq!(s.get(), u128::MAX);
}

#[test]
fn unsigned_add_u128_matches_add() {
    let a = U128::new(40);
    let b = U128::new(2);
    assert_eq!(a.saturating_add_u128(b).get(), 42);
    assert_eq!(
        U128::new(u128::MAX).saturating_add_u128(U128::new(1)).get(),
        u128::MAX
    );
    assert_eq!(
        a.saturating_add_u128(b).get(),
        a.saturating_add(b).get()
    );
}

#[test]
fn unsigned_sub_exact_when_in_range() {
    assert_eq!(U128::new(10).saturating_sub(U128::new(3)).get(), 7);
    assert_eq!(U128::new(10).saturating_sub(U128::new(10)).get(), 0);
    assert_eq!(U128::new(u128::MAX).saturating_sub(U128::new(1)).get(), u128::MAX - 1);
}

#[test]
fn unsigned_sub_clamps_at_zero() {
    let r = U128::new(3).saturating_sub(U128::new(10));
    assert_eq!(r.get(), 0);
    assert_eq!(U128::new(0).saturating_sub(U128::new(u128::MAX)).get(), 0);
}

#[test]
fn unsigned_values_compare_by_value() {
    assert_eq!(U128::new(5), U128::new(5));
    assert_ne!(U128::new(5), U128::new(6));
    let a = U128::new(9);
    let b = a;
    assert_eq!(a, b);
}
