//! A conditional-token pool: collateral is locked in exchange for equal PASS and
//! FAIL outcome tokens, a decider resolves the outcome once inside a slot window,
//! and the winning side is redeemed one for one afterwards.
//!
//! The library decides every instruction: it checks the accounts handed to it,
//! computes the new pool record, and lists the token-ledger operations that the
//! host must perform on the pool's behalf.

pub mod authority;
pub mod error;
pub mod instruction;
pub mod key;
pub mod laws;
pub mod ledger;
pub mod processor;
pub mod state;
pub mod token;
