//! The vault: per-borrower loan ledger plus vault-wide accounting.
//!
//! `CryptoBorrowVault` is the explicit store context that every operation
//! runs against: the loan records keyed by borrower identity, the two
//! vault-wide counters, and the lease that the host grants the stored
//! entries. Each mutating operation takes the host's authorization verdict
//! and the current ledger time as arguments, rejects bad calls with an
//! error value and no state change, and on success applies the matching
//! transition and extends the store lease exactly once.

use vstd::prelude::*;
use std::collections::HashMap;
use crate::loan::Loan;
use crate::loan::LoanBook;
use crate::loan::spec_borrowed_amount;
use crate::loan::borrowed_amount_from;

verus! {

broadcast use vstd::std_specs::hash::group_hash_axioms;

/// Why a call was rejected. Every rejection is total: the vault is left
/// exactly as it was.
#[derive(Clone, Copy, PartialEq, Eq, Structural, Debug)]
pub enum VaultError {
    /// The caller did not prove control over the claimed borrower identity.
    AuthorizationError,
    /// A borrow was attempted while an earlier loan of the same borrower is
    /// still active.
    ActiveLoanExists,
    /// A repayment was attempted with no active loan on record.
    NoActiveLoan,
    /// A counter update or the borrowed-amount computation would leave
    /// 128-bit range; treated as fatal rather than wrapping silently.
    ArithmeticOverflow,
}

/// A store entry whose remaining lease is below this many ledger units is
/// extended.
pub const TTL_THRESHOLD: u32 = 5000;

/// The lease an extension raises a store entry to.
pub const TTL_EXTEND_TO: u32 = 5000;

/// Mathematical model of the vault: the loan records by borrower identity,
/// the two vault-wide counters, and the state of the store lease.
#[verifier::ext_equal]
pub ghost struct VaultModel {
    /// Stored loan records, keyed by the borrower identity.
    pub loans: Map<u64, Loan>,
    /// Count of borrow calls ever executed; never decremented.
    pub total_loans: int,
    /// Running sum of currently escrowed collateral.
    pub total_collateral: int,
    /// How many times the store lease has been extended: exactly once per
    /// successful mutation, never on a rejected call.
    pub ttl_extensions: int,
    /// Lower bound, in ledger units, on how long the stored entries remain
    /// available.
    pub lease: int,
}

/// The record the ledger reports for a borrower: the stored one, or the
/// all-zero inactive default if none was ever stored.
pub open spec fn loan_or_default(loans: Map<u64, Loan>, borrower: u64) -> Loan {
    if loans.contains_key(borrower) {
        loans[borrower]
    } else {
        Loan::spec_default_for(borrower)
    }
}

/// The lease after one extension: raised to `TTL_EXTEND_TO` when it has
/// fallen below `TTL_THRESHOLD`, untouched otherwise.
pub open spec fn lease_after_extension(lease: int) -> int {
    if lease < TTL_THRESHOLD { TTL_EXTEND_TO as int } else { lease }
}

/// Arithmetic room for a successful borrow: the borrowed-amount
/// computation and every counter update stay in range.
pub open spec fn borrow_fits(v: VaultModel, collateral_amount: i128) -> bool {
    &&& i128::MIN <= collateral_amount * 70 <= i128::MAX
    &&& v.total_loans + 1 <= i128::MAX
    &&& i128::MIN <= v.total_collateral + collateral_amount <= i128::MAX
    &&& v.ttl_extensions + 1 <= u64::MAX
}

/// Arithmetic room for a successful repayment of the borrower's stored
/// loan.
pub open spec fn repay_fits(v: VaultModel, borrower: u64) -> bool {
    &&& i128::MIN <= v.total_collateral - loan_or_default(v.loans, borrower).collateral_amount
        <= i128::MAX
    &&& v.ttl_extensions + 1 <= u64::MAX
}

/// The vault after a successful `borrow`: a fresh active record replaces
/// whatever was stored for the borrower, both counters grow, and the store
/// lease is extended once.
pub open spec fn borrow_transition(
    v: VaultModel,
    borrower: u64,
    collateral_amount: i128,
    now: u64,
) -> VaultModel {
    VaultModel {
        loans: v.loans.insert(
            borrower,
            (Loan {
                borrower,
                collateral_amount,
                borrowed_amount: spec_borrowed_amount(collateral_amount as int) as i128,
                is_active: true,
                timestamp: now,
            }),
        ),
        total_loans: v.total_loans + 1,
        total_collateral: v.total_collateral + collateral_amount,
        ttl_extensions: v.ttl_extensions + 1,
        lease: lease_after_extension(v.lease),
    }
}

/// The vault after a successful `repay`: the stored record is kept with
/// `is_active` cleared and every other field stale, the escrowed collateral
/// shrinks by that record's amount, `total_loans` stays, and the store
/// lease is extended once.
pub open spec fn repay_transition(v: VaultModel, borrower: u64) -> VaultModel {
    let loan = loan_or_default(v.loans, borrower);
    VaultModel {
        loans: v.loans.insert(borrower, (Loan { is_active: false, ..loan })),
        total_loans: v.total_loans,
        total_collateral: v.total_collateral - loan.collateral_amount,
        ttl_extensions: v.ttl_extensions + 1,
        lease: lease_after_extension(v.lease),
    }
}

/// What a successful borrow leaves behind: the borrower's record is the
/// fresh active one with the given deposit, borrowed amount and timestamp,
/// every other borrower's record is untouched, `total_collateral` grows by
/// exactly the deposit, `total_loans` by exactly one, and the store lease
/// is extended exactly once.
pub proof fn lemma_borrow_effect(v: VaultModel, borrower: u64, collateral_amount: i128, now: u64)
    ensures
        ({
            let post = borrow_transition(v, borrower, collateral_amount, now);
            &&& loan_or_default(post.loans, borrower) == (Loan {
                borrower,
                collateral_amount,
                borrowed_amount: spec_borrowed_amount(collateral_amount as int) as i128,
                is_active: true,
                timestamp: now,
            })
            &&& forall|b: u64|
                b != borrower ==> #[trigger] loan_or_default(post.loans, b) == loan_or_default(
                    v.loans,
                    b,
                )
            &&& post.total_collateral == v.total_collateral + collateral_amount
            &&& post.total_loans == v.total_loans + 1
            &&& post.ttl_extensions == v.ttl_extensions + 1
        }),
{
}

/// What a successful repayment leaves behind: the borrower's record is
/// kept with `is_active` cleared and its amounts and timestamp stale,
/// every other borrower's record is untouched, `total_collateral` shrinks
/// by exactly that record's collateral, `total_loans` stays, and the store
/// lease is extended exactly once.
pub proof fn lemma_repay_effect(v: VaultModel, borrower: u64)
    ensures
        ({
            let loan = loan_or_default(v.loans, borrower);
            let post = repay_transition(v, borrower);
            &&& loan_or_default(post.loans, borrower) == (Loan { is_active: false, ..loan })
            &&& forall|b: u64|
                b != borrower ==> #[trigger] loan_or_default(post.loans, b) == loan_or_default(
                    v.loans,
                    b,
                )
            &&& post.total_collateral == v.total_collateral - loan.collateral_amount
            &&& post.total_loans == v.total_loans
            &&& post.ttl_extensions == v.ttl_extensions + 1
        }),
{
}

/// Repaying returns the borrower to the borrow-eligible state: after the
/// repayment no active loan blocks them, and a later borrow that has
/// arithmetic room succeeds and overwrites the stale record with the fresh
/// deposit, borrowed amount and timestamp.
pub proof fn lemma_repay_enables_borrow(
    v: VaultModel,
    borrower: u64,
    collateral_amount: i128,
    now: u64,
)
    ensures
        ({
            let mid = repay_transition(v, borrower);
            &&& !loan_or_default(mid.loans, borrower).is_active
            &&& loan_or_default(
                borrow_transition(mid, borrower, collateral_amount, now).loans,
                borrower,
            ) == (Loan {
                borrower,
                collateral_amount,
                borrowed_amount: spec_borrowed_amount(collateral_amount as int) as i128,
                is_active: true,
                timestamp: now,
            })
        }),
{
}

/// The collateralized-lending vault: loan records, vault-wide counters,
/// and the lease state of the backing store.
pub struct CryptoBorrowVault {
    loans: HashMap<u64, Loan>,
    total_loans: i128,
    total_collateral: i128,
    ttl_extensions: u64,
    lease: u32,
}

impl View for CryptoBorrowVault {
    type V = VaultModel;

    closed spec fn view(&self) -> VaultModel {
        VaultModel {
            loans: self.loans@,
            total_loans: self.total_loans as int,
            total_collateral: self.total_collateral as int,
            ttl_extensions: self.ttl_extensions as int,
            lease: self.lease as int,
        }
    }
}

impl CryptoBorrowVault {
    /// A fresh vault: no loan records, both counters zero, no lease yet.
    pub fn new() -> (v: CryptoBorrowVault)
        ensures
            v@.loans == Map::<u64, Loan>::empty(),
            v@.total_loans == 0,
            v@.total_collateral == 0,
            v@.ttl_extensions == 0,
            v@.lease == 0,
    {
        CryptoBorrowVault::restore(0, 0)
    }

    /// Rebuilds a vault context around counters handed back by a
    /// persistent store, with no loan records loaded yet and a fresh
    /// lease history.
    pub fn restore(total_loans: i128, total_collateral: i128) -> (v: CryptoBorrowVault)
        ensures
            v@.loans == Map::<u64, Loan>::empty(),
            v@.total_loans == total_loans,
            v@.total_collateral == total_collateral,
            v@.ttl_extensions == 0,
            v@.lease == 0,
    {
        CryptoBorrowVault {
            loans: HashMap::new(),
            total_loans,
            total_collateral,
            ttl_extensions: 0,
            lease: 0,
        }
    }

    /// Loads a loan record handed back by a persistent store into the
    /// vault context, under the borrower identity it carries. Counters and
    /// lease state are untouched.
    pub fn load_loan(&mut self, loan: Loan)
        ensures
            final(self)@ == (VaultModel {
                loans: old(self)@.loans.insert(loan.borrower, loan),
                ..old(self)@
            }),
    {
        self.loans.insert(loan.borrower, loan);
        proof {
            assert(self@ =~= (VaultModel {
                loans: old(self)@.loans.insert(loan.borrower, loan),
                ..old(self)@
            }));
        }
    }

    /// Looks a loan record up under its storage key.
    fn lookup(&self, key: &LoanBook) -> (r: Option<&Loan>)
        ensures
            match r {
                Some(l) => self@.loans.contains_key(key.spec_borrower()) && *l
                    == self@.loans[key.spec_borrower()],
                None => !self@.loans.contains_key(key.spec_borrower()),
            },
    {
        match key {
            LoanBook::Loan(borrower) => self.loans.get(borrower),
        }
    }

    /// Extends the store lease: raises it to `extend_to` when it has fallen
    /// below `threshold`. Called exactly once per successful mutation.
    fn extend_ttl(&mut self, threshold: u32, extend_to: u32)
        requires
            old(self).ttl_extensions < u64::MAX,
        ensures
            final(self)@ == (VaultModel {
                ttl_extensions: old(self)@.ttl_extensions + 1,
                lease: if old(self)@.lease < threshold { extend_to as int } else { old(self)@.lease },
                ..old(self)@
            }),
    {
        if self.lease < threshold {
            self.lease = extend_to;
        }
        self.ttl_extensions = self.ttl_extensions + 1;
    }

    /// Deposits collateral and opens a loan of 70% of its value, truncated
    /// toward zero.
    ///
    /// `authorized` is the host's verdict on whether the caller proved
    /// control over `borrower`; `now` is the current ledger time. The call
    /// is rejected, leaving the vault untouched, when the caller is not
    /// authorized, when the borrower still has an active loan, or when a
    /// 128-bit counter or the borrowed-amount computation would overflow.
    /// On success the new record replaces any stale one, `total_loans`
    /// grows by one, `total_collateral` by the deposit, and the store lease
    /// is extended exactly once.
    pub fn borrow(
        &mut self,
        borrower: u64,
        collateral_amount: i128,
        now: u64,
        authorized: bool,
    ) -> (r: Result<i128, VaultError>)
        ensures
            !authorized ==> r == Err::<i128, VaultError>(VaultError::AuthorizationError),
            authorized && loan_or_default(old(self)@.loans, borrower).is_active ==> r
                == Err::<i128, VaultError>(VaultError::ActiveLoanExists),
            authorized && !loan_or_default(old(self)@.loans, borrower).is_active && !borrow_fits(
                old(self)@,
                collateral_amount,
            ) ==> r == Err::<i128, VaultError>(VaultError::ArithmeticOverflow),
            r is Err ==> final(self)@ == old(self)@,
            r is Ok <==> authorized && !loan_or_default(old(self)@.loans, borrower).is_active
                && borrow_fits(old(self)@, collateral_amount),
            r is Ok ==> r == Ok::<i128, VaultError>(
                (spec_borrowed_amount(collateral_amount as int)) as i128,
            ),
            r is Ok ==> final(self)@ == borrow_transition(
                old(self)@,
                borrower,
                collateral_amount,
                now,
            ),
    {
        if !authorized {
            return Err(VaultError::AuthorizationError);
        }
        let existing_loan = self.view_loan(borrower);
        if existing_loan.is_active {
            return Err(VaultError::ActiveLoanExists);
        }
        let borrowed_amount: i128 = match borrowed_amount_from(collateral_amount) {
            Some(b) => b,
            None => {
                return Err(VaultError::ArithmeticOverflow);
            },
        };
        let total_loans: i128 = match self.total_loans.checked_add(1) {
            Some(t) => t,
            None => {
                return Err(VaultError::ArithmeticOverflow);
            },
        };
        let total_collateral: i128 = match self.total_collateral.checked_add(collateral_amount) {
            Some(t) => t,
            None => {
                return Err(VaultError::ArithmeticOverflow);
            },
        };
        if self.ttl_extensions == u64::MAX {
            return Err(VaultError::ArithmeticOverflow);
        }
        let loan = Loan {
            borrower,
            collateral_amount,
            borrowed_amount,
            is_active: true,
            timestamp: now,
        };
        self.total_loans = total_loans;
        self.total_collateral = total_collateral;
        self.loans.insert(borrower, loan);
        self.extend_ttl(TTL_THRESHOLD, TTL_EXTEND_TO);
        proof {
            assert(self@ =~= borrow_transition(old(self)@, borrower, collateral_amount, now));
        }
        Ok(borrowed_amount)
    }

    /// Repays the borrower's active loan and releases its collateral.
    ///
    /// `authorized` is the host's verdict on whether the caller proved
    /// control over `borrower`. The call is rejected, leaving the vault
    /// untouched, when the caller is not authorized, when no active loan is
    /// on record, or when the collateral counter update would overflow. On
    /// success the record is kept with `is_active` cleared and its other
    /// fields stale, `total_collateral` shrinks by that record's collateral,
    /// `total_loans` stays, and the store lease is extended exactly once.
    pub fn repay(&mut self, borrower: u64, authorized: bool) -> (r: Result<(), VaultError>)
        ensures
            !authorized ==> r == Err::<(), VaultError>(VaultError::AuthorizationError),
            authorized && !loan_or_default(old(self)@.loans, borrower).is_active ==> r == Err::<
                (),
                VaultError,
            >(VaultError::NoActiveLoan),
            authorized && loan_or_default(old(self)@.loans, borrower).is_active && !repay_fits(
                old(self)@,
                borrower,
            ) ==> r == Err::<(), VaultError>(VaultError::ArithmeticOverflow),
            r is Err ==> final(self)@ == old(self)@,
            r is Ok <==> authorized && loan_or_default(old(self)@.loans, borrower).is_active
                && repay_fits(old(self)@, borrower),
            r is Ok ==> final(self)@ == repay_transition(old(self)@, borrower),
    {
        if !authorized {
            return Err(VaultError::AuthorizationError);
        }
        let mut loan = self.view_loan(borrower);
        if !loan.is_active {
            return Err(VaultError::NoActiveLoan);
        }
        let total_collateral: i128 = match self.total_collateral.checked_sub(
            loan.collateral_amount,
        ) {
            Some(t) => t,
            None => {
                return Err(VaultError::ArithmeticOverflow);
            },
        };
        if self.ttl_extensions == u64::MAX {
            return Err(VaultError::ArithmeticOverflow);
        }
        loan.is_active = false;
        self.total_collateral = total_collateral;
        self.loans.insert(borrower, loan);
        self.extend_ttl(TTL_THRESHOLD, TTL_EXTEND_TO);
        proof {
            assert(self@ =~= repay_transition(old(self)@, borrower));
        }
        Ok(())
    }

    /// Reports the borrower's loan record, or the all-zero inactive default
    /// if none was ever stored. A pure read: it takes the vault by shared
    /// reference and asks for no authorization.
    pub fn view_loan(&self, borrower: u64) -> (l: Loan)
        ensures
            l == loan_or_default(self@.loans, borrower),
    {
        let key = LoanBook::Loan(borrower);
        match self.lookup(&key) {
            Some(l) => *l,
            None => Loan::default_for(borrower),
        }
    }

    /// Reports the two vault-wide counters: loans ever issued and
    /// collateral currently held. A pure read: it takes the vault by shared
    /// reference and asks for no authorization.
    pub fn view_vault_stats(&self) -> (r: (i128, i128))
        ensures
            r.0 == self@.total_loans,
            r.1 == self@.total_collateral,
    {
        (self.total_loans, self.total_collateral)
    }

    /// How many times the store lease has been extended: exactly once per
    /// successful mutation, never by a rejected call.
    pub fn ttl_extension_count(&self) -> (n: u64)
        ensures
            n == self@.ttl_extensions,
    {
        self.ttl_extensions
    }

    /// Lower bound, in ledger units, on how long the stored entries remain
    /// available.
    pub fn lease_remaining(&self) -> (n: u32)
        ensures
            n == self@.lease,
    {
        self.lease
    }
}

} // verus!
