//! Laws of the pool that relate its instructions to each other and to the
//! token ledger.

use crate::authority::program_address;
use crate::error::PoolError;
use crate::instruction::InitArgs;
use crate::ledger::{apply_op, apply_ops, LedgerOp, LedgerState};
use crate::processor::{
    decide_spec, deposit_spec, in_decide_window, init_spec, pool_check, withdraw_spec, AccountInfo, Effect,
    DECIDE_ACCOUNTS, DEPOSIT_ACCOUNTS, INIT_ACCOUNTS, WITHDRAW_ACCOUNTS,
};
use crate::token::mint_state;
use crate::state::{pool_unpacks, pool_view_of, well_formed, PoolView, POOL_VERSION};
use vstd::prelude::*;

verus! {

proof fn lemma_apply_three(l: LedgerState, ops: Seq<LedgerOp>)
    requires
        ops.len() == 3,
    ensures
        apply_ops(l, ops) == match apply_op(l, ops[0]) {
            Some(l1) => match apply_op(l1, ops[1]) {
                Some(l2) => apply_op(l2, ops[2]),
                None => None,
            },
            None => None,
        },
{
    reveal_with_fuel(apply_ops, 4);
    assert(ops.drop_first()[0] == ops[1]);
    assert(ops.drop_first().drop_first()[0] == ops[2]);
    assert(ops.drop_first().drop_first().drop_first().len() == 0);
}

proof fn lemma_apply_two(l: LedgerState, ops: Seq<LedgerOp>)
    requires
        ops.len() == 2,
    ensures
        apply_ops(l, ops) == match apply_op(l, ops[0]) {
            Some(l1) => apply_op(l1, ops[1]),
            None => None,
        },
{
    reveal_with_fuel(apply_ops, 3);
    assert(ops.drop_first()[0] == ops[1]);
    assert(ops.drop_first().drop_first().len() == 0);
}

/// A deposit keeps the PASS and FAIL supplies equal: whatever ledger it is
/// applied to, if both supplies were equal before, they are equal after. Where
/// the two mints differ, each supply grows by the amount.
pub proof fn lemma_deposit_conserves(
    program_id: Seq<u8>,
    a: Seq<AccountInfo>,
    amount: u64,
    l: LedgerState,
)
    requires
        deposit_spec(program_id, a, amount) is Ok,
        apply_ops(l, deposit_spec(program_id, a, amount)->Ok_0.ops) is Some,
    ensures
        ({
            let after = apply_ops(l, deposit_spec(program_id, a, amount)->Ok_0.ops)->Some_0;
            &&& l.supplies[a[5].key@] == l.supplies[a[6].key@] ==> after.supplies[a[5].key@]
                == after.supplies[a[6].key@]
            &&& a[5].key@ != a[6].key@ ==> after.supplies[a[5].key@] == l.supplies[a[5].key@]
                + amount && after.supplies[a[6].key@] == l.supplies[a[6].key@] + amount
        }),
{
    let ops = deposit_spec(program_id, a, amount)->Ok_0.ops;
    lemma_apply_three(l, ops);
}

/// A withdrawal before the mint-end slot keeps the PASS and FAIL supplies
/// equal: whatever ledger it is applied to, if both supplies were equal
/// before, they are equal after. Where the two mints differ, each supply falls
/// by the amount.
pub proof fn lemma_reversal_conserves(
    program_id: Seq<u8>,
    a: Seq<AccountInfo>,
    slot: u64,
    amount: u64,
    l: LedgerState,
)
    requires
        withdraw_spec(program_id, a, slot, amount) is Ok,
        slot < pool_view_of(a[0].data@).mint_end_slot,
        apply_ops(l, withdraw_spec(program_id, a, slot, amount)->Ok_0.ops) is Some,
    ensures
        ({
            let after = apply_ops(l, withdraw_spec(program_id, a, slot, amount)->Ok_0.ops)->Some_0;
            &&& l.supplies[a[5].key@] == l.supplies[a[6].key@] ==> after.supplies[a[5].key@]
                == after.supplies[a[6].key@]
            &&& a[5].key@ != a[6].key@ ==> after.supplies[a[5].key@] == l.supplies[a[5].key@]
                - amount && after.supplies[a[6].key@] == l.supplies[a[6].key@] - amount
        }),
{
    let ops = withdraw_spec(program_id, a, slot, amount)->Ok_0.ops;
    lemma_apply_three(l, ops);
}

/// A deposit or a withdrawal, as handed to the pool.
pub struct Call {
    pub accounts: Seq<AccountInfo>,
    pub slot: u64,
    pub amount: u64,
    pub deposit: bool,
}

/// What the pool answers to a call.
pub open spec fn call_result(program_id: Seq<u8>, c: Call) -> Result<Effect, PoolError> {
    if c.deposit {
        deposit_spec(program_id, c.accounts, c.amount)
    } else {
        withdraw_spec(program_id, c.accounts, c.slot, c.amount)
    }
}

/// The ledger after the calls in turn. A refused call, or one whose ledger
/// operations the ledger refuses, aborts whole and leaves the ledger as it was.
pub open spec fn run_calls(program_id: Seq<u8>, l: LedgerState, calls: Seq<Call>) -> LedgerState
    decreases calls.len(),
{
    if calls.len() == 0 {
        l
    } else {
        let next = match call_result(program_id, calls[0]) {
            Ok(e) => match apply_ops(l, e.ops) {
                Some(after) => after,
                None => l,
            },
            Err(_) => l,
        };
        run_calls(program_id, next, calls.drop_first())
    }
}

/// Over any sequence of deposits and withdrawals before the mint-end slot on a
/// pool with outcome mints `pass` and `fail`, the two supplies stay equal
/// after every call.
pub proof fn lemma_conservation(
    program_id: Seq<u8>,
    l: LedgerState,
    calls: Seq<Call>,
    pass: Seq<u8>,
    fail: Seq<u8>,
)
    requires
        l.supplies[pass] == l.supplies[fail],
        forall|i: int|
            0 <= i < calls.len() ==> {
                &&& (#[trigger] calls[i]).accounts.len() >= DEPOSIT_ACCOUNTS
                &&& calls[i].accounts[5].key@ == pass
                &&& calls[i].accounts[6].key@ == fail
                &&& !calls[i].deposit ==> calls[i].slot < pool_view_of(
                    calls[i].accounts[0].data@,
                ).mint_end_slot
            },
    ensures
        run_calls(program_id, l, calls).supplies[pass] == run_calls(program_id, l, calls).supplies[fail],
    decreases calls.len(),
{
    if calls.len() > 0 {
        let c = calls[0];
        assert(calls[0] == c);
        let next = match call_result(program_id, c) {
            Ok(e) => match apply_ops(l, e.ops) {
                Some(after) => after,
                None => l,
            },
            Err(_) => l,
        };
        if call_result(program_id, c) is Ok {
            if apply_ops(l, call_result(program_id, c)->Ok_0.ops) is Some {
                if c.deposit {
                    lemma_deposit_conserves(program_id, c.accounts, c.amount, l);
                } else {
                    lemma_reversal_conserves(program_id, c.accounts, c.slot, c.amount, l);
                }
            }
        }
        let rest = calls.drop_first();
        assert forall|i: int| 0 <= i < rest.len() implies rest[i] == calls[i + 1] by {}
        lemma_conservation(program_id, next, rest, pass, fail);
    }
}

/// Initialization writes a well-formed, undecided record.
pub proof fn lemma_init_well_formed(program_id: Seq<u8>, a: Seq<AccountInfo>, args: InitArgs)
    requires
        init_spec(program_id, a, args) is Ok,
    ensures
        init_spec(program_id, a, args)->Ok_0.pool is Some,
        well_formed(init_spec(program_id, a, args)->Ok_0.pool->Some_0),
        init_spec(program_id, a, args)->Ok_0.pool->Some_0.decision is None,
{
}

/// A decision keeps a well-formed record well-formed, and changes nothing in
/// it but the decision, which goes from unset to the outcome given.
pub proof fn lemma_decide_keeps_record(a: Seq<AccountInfo>, slot: u64, outcome: bool)
    requires
        decide_spec(a, slot, outcome) is Ok,
        well_formed(pool_view_of(a[0].data@)),
    ensures
        decide_spec(a, slot, outcome)->Ok_0.pool is Some,
        well_formed(decide_spec(a, slot, outcome)->Ok_0.pool->Some_0),
        pool_view_of(a[0].data@).decision is None,
        decide_spec(a, slot, outcome)->Ok_0.pool->Some_0 == (PoolView {
            decision: Some(outcome),
            ..pool_view_of(a[0].data@)
        }),
{
}

/// Once a decision has been recorded, every later decision on the written
/// record fails with `AlreadyDecided`, whatever the accounts, slot or outcome.
pub proof fn lemma_decide_once(
    a: Seq<AccountInfo>,
    slot: u64,
    outcome: bool,
    written: Seq<u8>,
    b: Seq<AccountInfo>,
    later_slot: u64,
    later_outcome: bool,
)
    requires
        decide_spec(a, slot, outcome) is Ok,
        decide_spec(a, slot, outcome)->Ok_0.pool == Some(pool_view_of(written)),
        pool_unpacks(written),
        b.len() >= DECIDE_ACCOUNTS,
        b[0].data@ == written,
    ensures
        decide_spec(b, later_slot, later_outcome) == Err::<Effect, PoolError>(
            PoolError::AlreadyDecided,
        ),
{
}

/// A decision succeeds only inside the window: after the mint-end slot and
/// no later than the decide-end slot.
pub proof fn lemma_decide_only_in_window(a: Seq<AccountInfo>, slot: u64, outcome: bool)
    requires
        decide_spec(a, slot, outcome) is Ok,
    ensures
        in_decide_window(pool_view_of(a[0].data@), slot),
{
}

/// A decision by the pool's decider on an undecided pool, at a slot no later
/// than the mint-end slot or past the decide-end slot, fails with
/// `DecisionWindowViolation`.
pub proof fn lemma_decide_window_violation(a: Seq<AccountInfo>, slot: u64, outcome: bool)
    requires
        a.len() >= DECIDE_ACCOUNTS,
        pool_unpacks(a[0].data@),
        pool_view_of(a[0].data@).version == POOL_VERSION,
        pool_view_of(a[0].data@).decision is None,
        a[1].is_signer,
        a[1].key@ == pool_view_of(a[0].data@).decider,
        slot <= pool_view_of(a[0].data@).mint_end_slot || slot > pool_view_of(
            a[0].data@,
        ).decide_end_slot,
    ensures
        decide_spec(a, slot, outcome) == Err::<Effect, PoolError>(
            PoolError::DecisionWindowViolation,
        ),
{
}

/// How a successful withdrawal changes the ledger: before the mint-end slot
/// both the PASS and FAIL supplies and sources fall by the amount; after it
/// only the winning side's supply and source fall, and the other side is left
/// as it was. Either way the pool's collateral falls by the amount and the
/// destination gains it. An undecided pool pays nothing after the mint-end slot.
pub proof fn lemma_withdraw_phases(
    program_id: Seq<u8>,
    a: Seq<AccountInfo>,
    slot: u64,
    amount: u64,
    l: LedgerState,
)
    requires
        withdraw_spec(program_id, a, slot, amount) is Ok,
        apply_ops(l, withdraw_spec(program_id, a, slot, amount)->Ok_0.ops) is Some,
        a[5].key@ != a[6].key@,
        a[3].key@ != a[4].key@,
        a[3].key@ != a[7].key@,
        a[3].key@ != a[8].key@,
        a[4].key@ != a[7].key@,
        a[4].key@ != a[8].key@,
        a[7].key@ != a[8].key@,
    ensures
        ({
            let v = pool_view_of(a[0].data@);
            let after = apply_ops(l, withdraw_spec(program_id, a, slot, amount)->Ok_0.ops)->Some_0;
            let pass = a[5].key@;
            let fail = a[6].key@;
            let pass_src = a[3].key@;
            let fail_src = a[4].key@;
            &&& slot < v.mint_end_slot ==> after.supplies[pass] == l.supplies[pass] - amount
                && after.supplies[fail] == l.supplies[fail] - amount && after.balances[pass_src]
                == l.balances[pass_src] - amount && after.balances[fail_src]
                == l.balances[fail_src] - amount
            &&& slot >= v.mint_end_slot && v.decision == Some(true) ==> after.supplies[pass]
                == l.supplies[pass] - amount && after.supplies[fail] == l.supplies[fail]
                && after.balances[pass_src] == l.balances[pass_src] - amount
                && after.balances[fail_src] == l.balances[fail_src]
            &&& slot >= v.mint_end_slot && v.decision == Some(false) ==> after.supplies[fail]
                == l.supplies[fail] - amount && after.supplies[pass] == l.supplies[pass]
                && after.balances[fail_src] == l.balances[fail_src] - amount
                && after.balances[pass_src] == l.balances[pass_src]
            &&& after.balances[a[7].key@] == l.balances[a[7].key@] - amount
            &&& after.balances[a[8].key@] == l.balances[a[8].key@] + amount
            &&& v.decision is None ==> slot < v.mint_end_slot
        }),
{
    let ops = withdraw_spec(program_id, a, slot, amount)->Ok_0.ops;
    if ops.len() == 3 {
        lemma_apply_three(l, ops);
    } else {
        lemma_apply_two(l, ops);
    }
}

/// A withdrawal at or after the mint-end slot on an undecided pool, with
/// every account in order and a nonzero amount, fails with `DecisionPending`.
pub proof fn lemma_withdraw_pending(
    program_id: Seq<u8>,
    a: Seq<AccountInfo>,
    slot: u64,
    amount: u64,
)
    requires
        a.len() >= WITHDRAW_ACCOUNTS,
        amount > 0,
        pool_check(program_id, a) is Ok,
        a[9].key@ == pool_view_of(a[0].data@).token_program_id,
        a[7].key@ == pool_view_of(a[0].data@).deposit_account,
        a[5].key@ == pool_view_of(a[0].data@).token_pass_mint,
        a[6].key@ == pool_view_of(a[0].data@).token_fail_mint,
        pool_view_of(a[0].data@).decision is None,
        slot >= pool_view_of(a[0].data@).mint_end_slot,
    ensures
        withdraw_spec(program_id, a, slot, amount) == Err::<Effect, PoolError>(
            PoolError::DecisionPending,
        ),
{
}

/// A deposit followed by a withdrawal of the same amount before the mint-end
/// slot, through the same user accounts: the ledger accepts the withdrawal
/// whenever it accepted the deposit, and afterwards every balance and supply
/// is as it was before the deposit.
pub proof fn lemma_round_trip(
    program_id: Seq<u8>,
    d: Seq<AccountInfo>,
    w: Seq<AccountInfo>,
    slot: u64,
    amount: u64,
    l: LedgerState,
)
    requires
        deposit_spec(program_id, d, amount) is Ok,
        withdraw_spec(program_id, w, slot, amount) is Ok,
        slot < pool_view_of(w[0].data@).mint_end_slot,
        w[3].key@ == d[7].key@,
        w[4].key@ == d[8].key@,
        w[5].key@ == d[5].key@,
        w[6].key@ == d[6].key@,
        w[7].key@ == d[4].key@,
        w[8].key@ == d[3].key@,
        apply_ops(l, deposit_spec(program_id, d, amount)->Ok_0.ops) is Some,
    ensures
        ({
            let mid = apply_ops(l, deposit_spec(program_id, d, amount)->Ok_0.ops)->Some_0;
            let end = apply_ops(mid, withdraw_spec(program_id, w, slot, amount)->Ok_0.ops);
            &&& end is Some
            &&& end->Some_0.balances == l.balances
            &&& end->Some_0.supplies == l.supplies
        }),
{
    let dops = deposit_spec(program_id, d, amount)->Ok_0.ops;
    let wops = withdraw_spec(program_id, w, slot, amount)->Ok_0.ops;
    lemma_apply_three(l, dops);
    let mid = apply_ops(l, dops)->Some_0;
    lemma_apply_three(mid, wops);
    let end = apply_ops(mid, wops)->Some_0;
    assert(end.balances =~= l.balances);
    assert(end.supplies =~= l.supplies);
}

/// A deposit or withdrawal whose authority account is not the address derived
/// from the pool's key and stored bump seed fails with
/// `InvalidAuthorityAccount`, once the accounts, the deposit amount and the
/// pool record are in order.
pub proof fn lemma_authority_gates(
    program_id: Seq<u8>,
    a: Seq<AccountInfo>,
    slot: u64,
    amount: u64,
)
    requires
        a.len() >= DEPOSIT_ACCOUNTS,
        pool_unpacks(a[0].data@),
        pool_view_of(a[0].data@).version == POOL_VERSION,
        program_address(a[0].key@, pool_view_of(a[0].data@).bump_seed, program_id) is Some,
        program_address(a[0].key@, pool_view_of(a[0].data@).bump_seed, program_id)->Some_0
            != a[1].key@,
    ensures
        amount > 0 ==> deposit_spec(program_id, a, amount) == Err::<Effect, PoolError>(
            PoolError::InvalidAuthorityAccount,
        ),
        a.len() >= WITHDRAW_ACCOUNTS ==> withdraw_spec(program_id, a, slot, amount) == Err::<
            Effect,
            PoolError,
        >(PoolError::InvalidAuthorityAccount),
{
}

/// Initialization with an authority account that is not the address derived
/// from the pool's key and the bump seed given fails with
/// `InvalidAuthorityAccount`, once the pool account and the collateral mint
/// are in order.
pub proof fn lemma_init_authority_gates(program_id: Seq<u8>, a: Seq<AccountInfo>, args: InitArgs)
    requires
        a.len() >= INIT_ACCOUNTS,
        pool_unpacks(a[0].data@),
        pool_view_of(a[0].data@).version != POOL_VERSION,
        a[0].rent_exempt,
        a[3].owner@ == a[8].key@,
        mint_state(a[3].data@) == Some(true),
        program_address(a[0].key@, args.bump_seed, program_id) is Some,
        program_address(a[0].key@, args.bump_seed, program_id)->Some_0 != a[1].key@,
    ensures
        init_spec(program_id, a, args) == Err::<Effect, PoolError>(
            PoolError::InvalidAuthorityAccount,
        ),
{
}

} // verus!
