//! A minimal collateralized-lending ledger.
//!
//! A borrower deposits collateral and receives a loan of 70% of its value,
//! truncated toward zero; repaying releases the record and shrinks the
//! vault's tracked collateral. The vault keeps one loan record per borrower
//! and two vault-wide counters (loans ever issued, collateral currently
//! held), mutated only by `borrow` and `repay` under a strict
//! one-active-loan-per-borrower rule.
//!
//! The host environment that dispatches calls, proves that a caller controls
//! a borrower identity, and supplies the ledger time stands outside this
//! crate: operations take the authorization verdict and the current ledger
//! timestamp as plain arguments and return every rejection as a value.

pub mod loan;
pub mod vault;
