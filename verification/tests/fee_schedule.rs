use token_contract::{compute_fee, ErrorCode, BASE_FEE, REVOKE_DISCOUNT};

#[test]
fn fee_all_eight_combinations() {
    let mut results: Vec<u64> = Vec::new();
    for &m in &[false, true] {
        for &f in &[false, true] {
            for &u in &[false, true] {
                let count = (m as u64) + (f as u64) + (u as u64);
                let expected = BASE_FEE - count * REVOKE_DISCOUNT;
                let got = compute_fee(BASE_FEE, REVOKE_DISCOUNT, m, f, u).unwrap();
                assert_eq!(got, expected);
                results.push(got);
            }
        }
    }
    assert_eq!(results.len(), 8);
}

#[test]
fn fee_no_flags_is_base_fee() {
    assert_eq!(
        compute_fee(BASE_FEE, REVOKE_DISCOUNT, false, false, false),
        Ok(200_000_000)
    );
}

#[test]
fn fee_all_flags_is_base_minus_three_discounts() {
    assert_eq!(
        compute_fee(BASE_FEE, REVOKE_DISCOUNT, true, true, true),
        Ok(50_000_000)
    );
}

#[test]
fn fee_monotonically_non_increasing_in_flags() {
    let none = compute_fee(BASE_FEE, REVOKE_DISCOUNT, false, false, false).unwrap();
    let one = compute_fee(BASE_FEE, REVOKE_DISCOUNT, true, false, false).unwrap();
    let two = compute_fee(BASE_FEE, REVOKE_DISCOUNT, true, true, false).unwrap();
    let three = compute_fee(BASE_FEE, REVOKE_DISCOUNT, true, true, true).unwrap();
    assert!(none >= one && one >= two && two >= three);
}

#[test]
fn fee_underflow_is_a_hard_error() {
    assert_eq!(
        compute_fee(100_000_000, 60_000_000, true, true, false),
        Err(ErrorCode::InvalidFeeCalculation)
    );
    assert_eq!(compute_fee(100_000_000, 60_000_000, true, false, false), Ok(40_000_000));
}
