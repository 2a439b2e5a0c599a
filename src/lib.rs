//! Interest projection for the wallets of a credit line: classifies a
//! wallet's payment situation, allocates its payments oldest purchase first
//! and accrues the interest that its unpaid purchases would carry.
pub mod amount;
pub mod case;
pub mod ledger;
pub mod error;
pub mod interest;
pub mod ordering;
pub mod statement;
pub mod laws;
pub mod codes;
pub mod accounts;
