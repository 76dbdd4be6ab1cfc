use crypto_borrow_vault::loan::Loan;
use crypto_borrow_vault::loan::borrowed_amount_from;

#[test]
fn borrowed_amount_examples() {
    assert_eq!(borrowed_amount_from(1000), Some(700));
    assert_eq!(borrowed_amount_from(100), Some(70));
    assert_eq!(borrowed_amount_from(99), Some(69));
    assert_eq!(borrowed_amount_from(1), Some(0));
    assert_eq!(borrowed_amount_from(0), Some(0));
    assert_eq!(borrowed_amount_from(-99), Some(-69));
}

#[test]
fn borrowed_amount_overflow_bounds() {
    assert_eq!(borrowed_amount_from(i128::MAX), None);
    assert_eq!(borrowed_amount_from(i128::MIN), None);
    let largest: i128 = i128::MAX / 70;
    assert_eq!(borrowed_amount_from(largest), Some((largest * 70) / 100));
    assert_eq!(borrowed_amount_from(largest + 1), None);
    assert_eq!(borrowed_amount_from(-largest), Some(-((largest * 70) / 100)));
    assert_eq!(borrowed_amount_from(-largest - 1), None);
}

#[test]
fn default_record_is_inactive_and_zeroed() {
    let l = Loan::default_for(11);
    assert_eq!(l.borrower, 11);
    assert_eq!(l.collateral_amount, 0);
    assert_eq!(l.borrowed_amount, 0);
    assert!(!l.is_active);
    assert_eq!(l.timestamp, 0);
}
