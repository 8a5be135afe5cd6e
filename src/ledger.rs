//! Operations on the token ledger that the pool asks the host to perform.

use crate::key::Key;
use vstd::prelude::*;

verus! {

/// One call into the token program. `authority` is the key that signs for the
/// call; where it is the pool's derived authority, the host signs with the
/// pool's seeds.
#[derive(Clone, Copy, Debug, PartialEq, Eq)]
pub enum LedgerOp {
    /// Initializes `account` as a token account of `mint` owned by `owner`.
    InitializeAccount { account: Key, mint: Key, owner: Key },
    /// Initializes `mint` with mint authority `authority`, no freeze authority.
    InitializeMint { mint: Key, authority: Key, decimals: u8 },
    /// Moves `amount` tokens from `source` to `destination`.
    Transfer { source: Key, destination: Key, authority: Key, amount: u64 },
    /// Mints `amount` new tokens of `mint` into `destination`.
    MintTo { mint: Key, destination: Key, authority: Key, amount: u64 },
    /// Burns `amount` tokens of `mint` held in `account`.
    Burn { account: Key, mint: Key, authority: Key, amount: u64 },
}

/// Token balances and mint supplies, keyed by address.
pub struct LedgerState {
    pub balances: Map<Seq<u8>, nat>,
    pub supplies: Map<Seq<u8>, nat>,
}

/// The ledger after one operation, or `None` where the ledger refuses it: an
/// unknown account or mint, a second initialization, or too few tokens.
pub open spec fn apply_op(l: LedgerState, op: LedgerOp) -> Option<LedgerState> {
    match op {
        LedgerOp::InitializeAccount { account, .. } => if l.balances.contains_key(account@) {
            None
        } else {
            Some(LedgerState { balances: l.balances.insert(account@, 0), ..l })
        },
        LedgerOp::InitializeMint { mint, .. } => if l.supplies.contains_key(mint@) {
            None
        } else {
            Some(LedgerState { supplies: l.supplies.insert(mint@, 0), ..l })
        },
        LedgerOp::Transfer { source, destination, amount, .. } => if l.balances.contains_key(
            source@,
        ) && l.balances.contains_key(destination@) && l.balances[source@] >= amount {
            let taken = l.balances.insert(source@, (l.balances[source@] - amount) as nat);
            Some(
                LedgerState {
                    balances: taken.insert(destination@, (taken[destination@] + amount) as nat),
                    ..l
                },
            )
        } else {
            None
        },
        LedgerOp::MintTo { mint, destination, amount, .. } => if l.supplies.contains_key(mint@)
            && l.balances.contains_key(destination@) {
            Some(
                LedgerState {
                    balances: l.balances.insert(destination@, (l.balances[destination@] + amount) as nat),
                    supplies: l.supplies.insert(mint@, (l.supplies[mint@] + amount) as nat),
                },
            )
        } else {
            None
        },
        LedgerOp::Burn { account, mint, amount, .. } => if l.supplies.contains_key(mint@)
            && l.balances.contains_key(account@) && l.balances[account@] >= amount
            && l.supplies[mint@] >= amount {
            Some(
                LedgerState {
                    balances: l.balances.insert(account@, (l.balances[account@] - amount) as nat),
                    supplies: l.supplies.insert(mint@, (l.supplies[mint@] - amount) as nat),
                },
            )
        } else {
            None
        },
    }
}

/// The ledger after the operations `ops`, in order, all or nothing.
pub open spec fn apply_ops(l: LedgerState, ops: Seq<LedgerOp>) -> Option<LedgerState>
    decreases ops.len(),
{
    if ops.len() == 0 {
        Some(l)
    } else {
        match apply_op(l, ops[0]) {
            Some(next) => apply_ops(next, ops.drop_first()),
            None => None,
        }
    }
}

} // verus!
