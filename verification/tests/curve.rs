use amm_core::curve::{delta_x_from_y_swap_amount, delta_y_from_x_swap_amount};
use amm_core::errors::AmmError;

#[test]
fn quote_basic_pool() {
    // 10_000 - floor(10_000 * 10_000 / 11_000) = 10_000 - 9_090 = 910
    assert_eq!(delta_y_from_x_swap_amount(10_000, 10_000, 1_000), Ok(910));
}

#[test]
fn reverse_quote_basic_pool() {
    // The pool is symmetric, so the reverse direction quotes the same amount.
    assert_eq!(delta_x_from_y_swap_amount(10_000, 10_000, 1_000), Ok(910));
}

#[test]
fn quote_tiny_input_reserve_no_drain() {
    // 1_000_000 - floor(1_000_000 / 2) = 500_000, strictly below the reserve.
    let out = delta_y_from_x_swap_amount(1, 1_000_000, 1).unwrap();
    assert_eq!(out, 500_000);
    assert!(out < 1_000_000);
}

#[test]
fn quote_zero_reserve_x() {
    assert_eq!(
        delta_y_from_x_swap_amount(0, 1_000, 10),
        Err(AmmError::InvalidReserves)
    );
}

#[test]
fn quote_zero_reserve_y() {
    assert_eq!(
        delta_y_from_x_swap_amount(1_000, 0, 10),
        Err(AmmError::InvalidReserves)
    );
}

#[test]
fn reverse_quote_zero_reserve() {
    assert_eq!(
        delta_x_from_y_swap_amount(0, 0, 10),
        Err(AmmError::InvalidReserves)
    );
}

#[test]
fn quote_zero_amount() {
    assert_eq!(
        delta_y_from_x_swap_amount(1_000, 1_000, 0),
        Err(AmmError::InvalidAmount)
    );
    assert_eq!(
        delta_x_from_y_swap_amount(1_000, 1_000, 0),
        Err(AmmError::InvalidAmount)
    );
}

#[test]
fn quote_deterministic() {
    // Identical arguments always yield identical results, errors included.
    assert_eq!(
        delta_y_from_x_swap_amount(12_345, 67_890, 999),
        delta_y_from_x_swap_amount(12_345, 67_890, 999)
    );
    assert_eq!(
        delta_x_from_y_swap_amount(12_345, 67_890, 999),
        delta_x_from_y_swap_amount(12_345, 67_890, 999)
    );
    assert_eq!(
        delta_y_from_x_swap_amount(0, 5, 1),
        delta_y_from_x_swap_amount(0, 5, 1)
    );
}

#[test]
fn round_trip_never_exceeds_deposit() {
    // Quoting back the released amount yields at most the original deposit.
    let dy = delta_y_from_x_swap_amount(10_000, 10_000, 1_000).unwrap();
    assert_eq!(dy, 910);
    let dx_back = delta_x_from_y_swap_amount(10_000, 10_000, dy).unwrap();
    // 10_000 - floor(10_000 * 10_000 / 10_910) = 10_000 - 9_165 = 835
    assert_eq!(dx_back, 835);
    assert!(dx_back <= 1_000);
}

#[test]
fn full_drain_boundary() {
    // When x * y < x + delta_x the quotient truncates to zero and the whole
    // counter-reserve is released.
    assert_eq!(delta_y_from_x_swap_amount(1, 1, 1), Ok(1));
}

#[test]
fn max_reserves_no_overflow() {
    // The 128-bit intermediate holds the largest possible product:
    // MAX^2 = (MAX + 1) * (MAX - 1) + 1, so the quotient is MAX - 1.
    assert_eq!(delta_y_from_x_swap_amount(u64::MAX, u64::MAX, 1), Ok(1));
    assert_eq!(delta_x_from_y_swap_amount(u64::MAX, u64::MAX, 1), Ok(1));
}

#[test]
fn invariant_shrinks_by_less_than_one_quotient_unit() {
    // (10, 10), deposit 1: released 10 - floor(100 / 11) = 1.
    // New product 11 * 9 = 99: at most the old product 100, and strictly
    // above 100 - 11.
    let dy = delta_y_from_x_swap_amount(10, 10, 1).unwrap();
    assert_eq!(dy, 1);
    let new_product = (10u128 + 1) * (10u128 - dy as u128);
    assert!(new_product <= 100);
    assert!(new_product > 100 - 11);
}

#[test]
fn invariant_preserved_when_division_exact() {
    // (4, 9), deposit 2: 4 * 9 = 36 is divisible by 6; released
    // 9 - 36 / 6 = 3 and the product is preserved exactly: 6 * 6 = 36.
    let dy = delta_y_from_x_swap_amount(4, 9, 2).unwrap();
    assert_eq!(dy, 3);
    assert_eq!((4u128 + 2) * (9u128 - dy as u128), 36);
}
