use remitflow_contract::normalize::{
    checked_add_amount, checked_increment, checked_sub_amount, clamp_amount,
    normalize_stellar_address, saturating_add_with_cap, saturating_increment_u64,
    validate_expiry,
};

#[test]
fn saturating_increment_adds_one_and_stops_at_max() {
    assert_eq!(saturating_increment_u64(0), 1);
    assert_eq!(saturating_increment_u64(41), 42);
    assert_eq!(saturating_increment_u64(u64::MAX), u64::MAX);
}

#[test]
fn saturating_add_with_cap_clamps_to_cap_and_max() {
    assert_eq!(saturating_add_with_cap(1, 2, 10), 3);
    assert_eq!(saturating_add_with_cap(8, 5, 10), 10);
    assert_eq!(saturating_add_with_cap(u64::MAX - 1, 5, u64::MAX), u64::MAX);
    assert_eq!(saturating_add_with_cap(u64::MAX, 1, 7), 7);
}

#[test]
fn clamp_amount_keeps_values_in_range() {
    assert_eq!(clamp_amount(-5, 100), 0);
    assert_eq!(clamp_amount(50, 100), 50);
    assert_eq!(clamp_amount(150, 100), 100);
    assert_eq!(clamp_amount(5, -1), -1);
}

#[test]
fn stellar_addresses_are_trimmed_and_must_start_with_g() {
    assert_eq!(normalize_stellar_address("  GABC  "), Some("GABC"));
    assert_eq!(normalize_stellar_address("GXYZ"), Some("GXYZ"));
    assert_eq!(normalize_stellar_address("\t\nG1\u{a0}"), Some("G1"));
    assert_eq!(normalize_stellar_address("\u{3000}Gé\u{2028}"), Some("Gé"));
    assert_eq!(normalize_stellar_address("CABC"), None);
    assert_eq!(normalize_stellar_address("   "), None);
    assert_eq!(normalize_stellar_address(""), None);
    assert_eq!(normalize_stellar_address("gabc"), None);
}

#[test]
fn expiry_must_be_future_and_within_window() {
    assert_eq!(validate_expiry(100, 100, 50), Err("Expiry must be in the future"));
    assert_eq!(validate_expiry(100, 99, 50), Err("Expiry must be in the future"));
    assert_eq!(validate_expiry(100, 151, 50), Err("Expiry too far in the future"));
    assert_eq!(validate_expiry(100, 150, 50), Ok(150));
    assert_eq!(validate_expiry(100, 101, 50), Ok(101));
}

#[test]
fn checked_helpers_report_overflow() {
    assert_eq!(checked_increment(7), Some(8));
    assert_eq!(checked_increment(u64::MAX), None);
    assert_eq!(checked_add_amount(2, 3), Some(5));
    assert_eq!(checked_add_amount(i128::MAX, 1), None);
    assert_eq!(checked_sub_amount(2, 3), Some(-1));
    assert_eq!(checked_sub_amount(i128::MIN, 1), None);
}
