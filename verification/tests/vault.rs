use crypto_borrow_vault::loan::Loan;
use crypto_borrow_vault::vault::CryptoBorrowVault;
use crypto_borrow_vault::vault::VaultError;

#[test]
fn borrow_returns_seventy_percent() {
    let mut v = CryptoBorrowVault::new();
    assert_eq!(v.borrow(1, 1000, 10, true), Ok(700));
    assert_eq!(v.borrow(2, 100, 10, true), Ok(70));
    assert_eq!(v.borrow(3, 99, 10, true), Ok(69));
    assert_eq!(v.borrow(4, 0, 10, true), Ok(0));
    assert_eq!(v.borrow(5, 1, 10, true), Ok(0));
}

#[test]
fn borrow_truncates_toward_zero_on_negative() {
    let mut v = CryptoBorrowVault::new();
    // (-99 * 70) / 100 truncates to -69, not the floor -70.
    assert_eq!(v.borrow(1, -99, 10, true), Ok(-69));
    assert_eq!(v.borrow(2, -100, 10, true), Ok(-70));
}

#[test]
fn borrow_records_loan_and_updates_stats() {
    let mut v = CryptoBorrowVault::new();
    assert_eq!(v.view_vault_stats(), (0, 0));
    assert_eq!(v.borrow(7, 1000, 42, true), Ok(700));
    let l = v.view_loan(7);
    assert!(l.is_active);
    assert_eq!(l.borrower, 7);
    assert_eq!(l.collateral_amount, 1000);
    assert_eq!(l.borrowed_amount, 700);
    assert_eq!(l.timestamp, 42);
    assert_eq!(v.view_vault_stats(), (1, 1000));
}

#[test]
fn second_borrow_while_active_rejected() {
    let mut v = CryptoBorrowVault::new();
    assert_eq!(v.borrow(7, 1000, 42, true), Ok(700));
    let before = v.view_loan(7);
    assert_eq!(v.borrow(7, 500, 43, true), Err(VaultError::ActiveLoanExists));
    assert_eq!(v.view_loan(7), before);
    assert_eq!(v.view_vault_stats(), (1, 1000));
}

#[test]
fn repay_deactivates_and_releases_collateral() {
    let mut v = CryptoBorrowVault::new();
    assert_eq!(v.borrow(7, 1000, 42, true), Ok(700));
    assert_eq!(v.repay(7, true), Ok(()));
    let l = v.view_loan(7);
    assert!(!l.is_active);
    // The amounts and the timestamp stay behind as stale history.
    assert_eq!(l.collateral_amount, 1000);
    assert_eq!(l.borrowed_amount, 700);
    assert_eq!(l.timestamp, 42);
    // total_loans is never decremented; the collateral is released.
    assert_eq!(v.view_vault_stats(), (1, 0));
}

#[test]
fn repay_without_active_loan_rejected() {
    let mut v = CryptoBorrowVault::new();
    assert_eq!(v.repay(7, true), Err(VaultError::NoActiveLoan));
    assert_eq!(v.view_vault_stats(), (0, 0));
    assert_eq!(v.borrow(7, 1000, 42, true), Ok(700));
    assert_eq!(v.repay(7, true), Ok(()));
    // A second repayment finds no active loan and changes nothing.
    assert_eq!(v.repay(7, true), Err(VaultError::NoActiveLoan));
    assert_eq!(v.view_vault_stats(), (1, 0));
}

#[test]
fn borrow_after_repay_succeeds() {
    let mut v = CryptoBorrowVault::new();
    assert_eq!(v.borrow(7, 1000, 42, true), Ok(700));
    assert_eq!(v.repay(7, true), Ok(()));
    assert_eq!(v.borrow(7, 500, 99, true), Ok(350));
    let l = v.view_loan(7);
    assert!(l.is_active);
    assert_eq!(l.collateral_amount, 500);
    assert_eq!(l.borrowed_amount, 350);
    assert_eq!(l.timestamp, 99);
    assert_eq!(v.view_vault_stats(), (2, 500));
}

#[test]
fn views_are_pure_reads() {
    let mut v = CryptoBorrowVault::new();
    assert_eq!(v.borrow(7, 1000, 42, true), Ok(700));
    // The views take no authorization verdict and may be called freely
    // without disturbing any state.
    for _ in 0..3 {
        assert_eq!(v.view_loan(7).collateral_amount, 1000);
        assert_eq!(v.view_loan(8), Loan::default_for(8));
        assert_eq!(v.view_vault_stats(), (1, 1000));
    }
    assert_eq!(v.ttl_extension_count(), 1);
}

#[test]
fn view_loan_default_for_unknown_borrower() {
    let v = CryptoBorrowVault::new();
    let l = v.view_loan(9);
    assert_eq!(l.borrower, 9);
    assert_eq!(l.collateral_amount, 0);
    assert_eq!(l.borrowed_amount, 0);
    assert!(!l.is_active);
    assert_eq!(l.timestamp, 0);
}

#[test]
fn unauthorized_calls_rejected() {
    let mut v = CryptoBorrowVault::new();
    assert_eq!(v.borrow(7, 1000, 42, false), Err(VaultError::AuthorizationError));
    assert_eq!(v.view_vault_stats(), (0, 0));
    assert!(!v.view_loan(7).is_active);
    assert_eq!(v.borrow(7, 1000, 42, true), Ok(700));
    assert_eq!(v.repay(7, false), Err(VaultError::AuthorizationError));
    assert!(v.view_loan(7).is_active);
    assert_eq!(v.view_vault_stats(), (1, 1000));
    assert_eq!(v.ttl_extension_count(), 1);
}

#[test]
fn borrow_overflow_rejected() {
    let mut v = CryptoBorrowVault::new();
    // i128::MAX * 70 leaves 128-bit range.
    assert_eq!(v.borrow(1, i128::MAX, 10, true), Err(VaultError::ArithmeticOverflow));
    assert_eq!(v.borrow(2, i128::MIN, 10, true), Err(VaultError::ArithmeticOverflow));
    assert_eq!(v.view_vault_stats(), (0, 0));
    assert_eq!(v.ttl_extension_count(), 0);
}

#[test]
fn total_collateral_overflow_rejected() {
    let mut v = CryptoBorrowVault::new();
    let big: i128 = i128::MAX / 70;
    assert_eq!(v.borrow(0, big, 10, true), Ok((big * 70) / 100));
    let mut overflowed = false;
    let mut b: u64 = 1;
    while b < 200 {
        match v.borrow(b, big, 10, true) {
            Ok(_) => {}
            Err(e) => {
                assert_eq!(e, VaultError::ArithmeticOverflow);
                overflowed = true;
                break;
            }
        }
        b += 1;
    }
    // Accumulating the deposits must eventually leave 128-bit range.
    assert!(overflowed);
}

#[test]
fn lease_extended_once_per_successful_write() {
    let mut v = CryptoBorrowVault::new();
    assert_eq!(v.ttl_extension_count(), 0);
    assert_eq!(v.lease_remaining(), 0);
    assert_eq!(v.borrow(7, 1000, 42, true), Ok(700));
    assert_eq!(v.ttl_extension_count(), 1);
    assert_eq!(v.lease_remaining(), 5000);
    assert_eq!(v.borrow(7, 500, 43, true), Err(VaultError::ActiveLoanExists));
    assert_eq!(v.ttl_extension_count(), 1);
    assert_eq!(v.repay(7, true), Ok(()));
    assert_eq!(v.ttl_extension_count(), 2);
    assert_eq!(v.repay(7, true), Err(VaultError::NoActiveLoan));
    assert_eq!(v.ttl_extension_count(), 2);
}

#[test]
fn full_lifecycle_scenario() {
    let mut v = CryptoBorrowVault::new();
    assert_eq!(v.borrow(1, 1000, 42, true), Ok(700));
    assert_eq!(v.view_vault_stats(), (1, 1000));
    assert_eq!(v.repay(1, true), Ok(()));
    assert!(!v.view_loan(1).is_active);
    assert_eq!(v.view_vault_stats(), (1, 0));
    assert_eq!(v.borrow(1, 500, 43, true), Ok(350));
    assert_eq!(v.view_vault_stats(), (2, 500));
}

#[test]
fn independent_borrowers_kept_apart() {
    let mut v = CryptoBorrowVault::new();
    assert_eq!(v.borrow(1, 1000, 42, true), Ok(700));
    assert_eq!(v.borrow(2, 200, 43, true), Ok(140));
    assert_eq!(v.view_vault_stats(), (2, 1200));
    assert_eq!(v.repay(1, true), Ok(()));
    let l2 = v.view_loan(2);
    assert!(l2.is_active);
    assert_eq!(l2.collateral_amount, 200);
    assert_eq!(v.view_vault_stats(), (2, 200));
}
