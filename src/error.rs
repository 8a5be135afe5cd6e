//! Errors reported by the pool's instructions.

use vstd::prelude::*;

verus! {

/// Why an instruction was refused.
#[derive(Clone, Copy, Debug, PartialEq, Eq, Structural)]
pub enum PoolError {
    /// The pool account already holds an initialized record.
    AlreadyInUse,
    /// The pool account does not hold enough lamports to be rent exempt.
    NotRentExempt,
    /// The collateral mint is not owned by the token program or is not an
    /// initialized mint, or a mint handed in is not one of the pool's outcome
    /// mints.
    InvalidTokenMint,
    /// The bump seed does not give an address off the curve.
    InvalidAuthorityData,
    /// The authority account handed in is not the pool's derived authority.
    InvalidAuthorityAccount,
    /// The collateral account is already initialized.
    DepositAccountInUse,
    /// An outcome mint is already initialized.
    TokenMintInUse,
    /// The instruction bytes do not decode.
    InstructionUnpackError,
    /// A deposit of zero.
    InvalidInstructionAmount,
    /// The signer is not the pool's decider.
    InvalidDecider,
    /// The pool's outcome has already been decided.
    AlreadyDecided,
    /// The slot lies outside the window in which a decision may be made, or
    /// the window itself is empty.
    DecisionWindowViolation,
    /// Redemption needs a decision that has not been made yet.
    DecisionPending,
    /// An account of the pool (collateral account, token program) handed in
    /// is not the one the pool records.
    InvalidPoolAccount,
    /// Fewer accounts were handed in than the instruction needs.
    NotEnoughAccountKeys,
    /// An account's data does not unpack.
    InvalidAccountData,
    /// An account that must be initialized is not.
    UninitializedAccount,
}

} // verus!
