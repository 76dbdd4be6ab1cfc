//! Loan records and the borrowable-amount computation.

use vstd::prelude::*;

verus! {

/// One loan record per borrower identity. A record is overwritten, never
/// appended: the borrower identity acts as its key. After repayment the
/// record stays behind with `is_active == false` and its amounts and
/// timestamp untouched, so a repaid record differs from a never-borrowed
/// one only in those stale fields.
#[derive(Clone, Copy, PartialEq, Eq, Structural, Debug)]
pub struct Loan {
    /// Identity of the borrower this record belongs to.
    pub borrower: u64,
    /// Amount deposited as collateral when the loan was opened.
    pub collateral_amount: i128,
    /// Amount lent out: 70% of the collateral, truncated toward zero.
    pub borrowed_amount: i128,
    /// True from creation until repayment.
    pub is_active: bool,
    /// Ledger time at which the loan was created; not updated on repay.
    pub timestamp: u64,
}

/// Storage key for a borrower's loan record: a namespace tag wrapping the
/// borrower identity, so that loan records live apart from the vault-wide
/// counters in the same store.
#[derive(Clone, Copy, PartialEq, Eq, Structural, Debug)]
pub enum LoanBook {
    Loan(u64),
}

impl LoanBook {
    /// The borrower identity this key addresses.
    pub open spec fn spec_borrower(self) -> u64 {
        match self {
            LoanBook::Loan(b) => b,
        }
    }
}

impl Loan {
    /// The record reported for a borrower with no stored loan: inactive,
    /// all amounts and the timestamp zero.
    pub open spec fn spec_default_for(borrower: u64) -> Loan {
        Loan {
            borrower,
            collateral_amount: 0,
            borrowed_amount: 0,
            is_active: false,
            timestamp: 0,
        }
    }

    /// Builds the default record for a borrower with no stored loan.
    pub fn default_for(borrower: u64) -> (l: Loan)
        ensures
            l == Loan::spec_default_for(borrower),
    {
        Loan {
            borrower,
            collateral_amount: 0,
            borrowed_amount: 0,
            is_active: false,
            timestamp: 0,
        }
    }
}

/// 70% of the collateral, with both the multiplication and the division
/// truncating exactly as 128-bit integer arithmetic does: the quotient is
/// rounded toward zero. For `c >= 0` this is plain `(c * 70) / 100`.
pub open spec fn spec_borrowed_amount(c: int) -> int {
    let x = c * 70;
    if x >= 0 {
        x / 100
    } else {
        ((x * -1) / 100) * -1
    }
}

/// For every non-negative deposit the borrowed amount is exactly
/// `(c * 70) / 100`: truncating and floor division agree there, so 100
/// units of collateral yield 70 and 99 yield 69.
pub proof fn lemma_borrowed_amount_formula(c: int)
    requires
        c >= 0,
    ensures
        spec_borrowed_amount(c) == (c * 70) / 100,
{
}

/// Computes the borrowable amount for a deposit: `(c * 70) / 100` with
/// truncating division. Returns `None` exactly when `c * 70` leaves the
/// 128-bit range, the one step of the formula that can overflow.
pub fn borrowed_amount_from(collateral_amount: i128) -> (r: Option<i128>)
    ensures
        r is Some <==> i128::MIN <= collateral_amount * 70 <= i128::MAX,
        r is Some ==> r == Some((spec_borrowed_amount(collateral_amount as int)) as i128),
{
    match collateral_amount.checked_mul(70) {
        None => None,
        Some(p) => {
            proof {
                lemma_truncating_div_by_100_in_range(p as int);
            }
            match p.checked_div(100) {
                None => None,
                Some(q) => Some(q),
            }
        },
    }
}

/// The quotient of a 128-bit value by 100, rounded toward zero, stays in
/// 128-bit range: its magnitude never exceeds the dividend's.
proof fn lemma_truncating_div_by_100_in_range(x: int)
    requires
        i128::MIN <= x <= i128::MAX,
    ensures
        x > 0 ==> 0 <= x / 100 <= x,
        x < 0 ==> x <= ((x * -1) / 100) * -1 <= 0,
{
    if x > 0 {
        lemma_div_by_100_shrinks(x);
    }
    if x < 0 {
        lemma_div_by_100_shrinks(x * -1);
    }
}

/// For a non-negative value, floor division by 100 neither turns it
/// negative nor grows it.
proof fn lemma_div_by_100_shrinks(y: int)
    requires
        y >= 0,
    ensures
        0 <= y / 100 <= y,
{
    assert(y == 100 * (y / 100) + y % 100);
    assert(0 <= y % 100 < 100);
}

} // verus!
