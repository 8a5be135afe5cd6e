//! The pool's instruction handlers. Each one checks the accounts it is handed,
//! then answers with the pool record to write back, if any, and the token-ledger
//! operations the host must perform, in order. Every check comes before any
//! operation, so a refused instruction asks for nothing.

use crate::authority::{authority_check, authority_result, check_authority, derive_authority};
use crate::error::PoolError;
use crate::instruction::{instruction_of, InitArgs, Instruction};
use crate::key::Key;
use crate::ledger::LedgerOp;
use crate::state::{
    pack_pool, pool_unpacks, pool_view_of, unpack_pool, Pool, PoolView, POOL_VERSION,
    TOKEN_FAIL_DECIMALS, TOKEN_PASS_DECIMALS,
};
use crate::token::{mint_state, read_mint, read_token_account, token_account_state};
use vstd::prelude::*;

verus! {

/// An account handed to an instruction, as the host holds it.
#[derive(Clone, Debug)]
pub struct AccountInfo {
    /// The account's address.
    pub key: Key,
    /// The program that owns the account.
    pub owner: Key,
    /// Whether the transaction is signed for this account.
    pub is_signer: bool,
    /// Whether the account holds enough lamports to be exempt from rent.
    pub rent_exempt: bool,
    /// The account's data.
    pub data: Vec<u8>,
}

/// What a successful instruction asks of the host.
#[derive(Clone, Debug)]
pub struct Outcome {
    /// The pool record to write into the pool account, if it changes.
    pub pool_data: Option<Vec<u8>>,
    /// The token-ledger operations to perform, in order.
    pub ops: Vec<LedgerOp>,
}

/// What a successful instruction asks of the host, as mathematical values.
pub struct Effect {
    pub pool: Option<PoolView>,
    pub ops: Seq<LedgerOp>,
}

/// Whether the outcome `o` is the effect `e`.
pub open spec fn outcome_is(o: Outcome, e: Effect) -> bool {
    &&& o.ops@ == e.ops
    &&& match (o.pool_data, e.pool) {
        (None, None) => true,
        (Some(d), Some(v)) => pool_unpacks(d@) && pool_view_of(d@) == v,
        _ => false,
    }
}

/// Whether the result `r` is the specified result `s`.
pub open spec fn result_is(r: Result<Outcome, PoolError>, s: Result<Effect, PoolError>) -> bool {
    match (r, s) {
        (Ok(o), Ok(e)) => outcome_is(o, e),
        (Err(a), Err(b)) => a == b,
        _ => false,
    }
}

/// Accounts of pool initialization: pool, authority, decider, collateral mint,
/// collateral account, PASS mint, FAIL mint, rent sysvar, token program.
pub const INIT_ACCOUNTS: usize = 9;

/// Accounts of a deposit: pool, authority, user transfer authority, collateral
/// source, the pool's collateral account, PASS mint, FAIL mint, PASS
/// destination, FAIL destination, token program.
pub const DEPOSIT_ACCOUNTS: usize = 10;

/// Accounts of a withdrawal: pool, authority, user transfer authority, PASS
/// source, FAIL source, PASS mint, FAIL mint, the pool's collateral account,
/// collateral destination, token program, clock sysvar.
pub const WITHDRAW_ACCOUNTS: usize = 11;

/// Accounts of a decision: pool, decider, clock sysvar.
pub const DECIDE_ACCOUNTS: usize = 3;

/// The record that initialization writes.
pub open spec fn initial_pool(a: Seq<AccountInfo>, args: InitArgs) -> PoolView {
    PoolView {
        version: POOL_VERSION,
        bump_seed: args.bump_seed,
        token_program_id: a[8].key@,
        deposit_account: a[4].key@,
        token_pass_mint: a[5].key@,
        token_fail_mint: a[6].key@,
        decider: a[2].key@,
        mint_end_slot: args.mint_end_slot,
        decide_end_slot: args.decide_end_slot,
        decision: None,
    }
}

/// The ledger calls of initialization: the collateral account and both outcome
/// mints, all under the derived authority.
pub open spec fn init_ops(a: Seq<AccountInfo>) -> Seq<LedgerOp> {
    seq![
        LedgerOp::InitializeAccount { account: a[4].key, mint: a[3].key, owner: a[1].key },
        LedgerOp::InitializeMint { mint: a[5].key, authority: a[1].key, decimals: TOKEN_PASS_DECIMALS },
        LedgerOp::InitializeMint { mint: a[6].key, authority: a[1].key, decimals: TOKEN_FAIL_DECIMALS },
    ]
}

/// Pool initialization, check by check.
pub open spec fn init_spec(program_id: Seq<u8>, a: Seq<AccountInfo>, args: InitArgs) -> Result<
    Effect,
    PoolError,
> {
    if a.len() < INIT_ACCOUNTS {
        Err(PoolError::NotEnoughAccountKeys)
    } else if !pool_unpacks(a[0].data@) {
        Err(PoolError::InvalidAccountData)
    } else if pool_view_of(a[0].data@).version == POOL_VERSION {
        Err(PoolError::AlreadyInUse)
    } else if !a[0].rent_exempt {
        Err(PoolError::NotRentExempt)
    } else if a[3].owner@ != a[8].key@ {
        Err(PoolError::InvalidTokenMint)
    } else if mint_state(a[3].data@) != Some(true) {
        Err(PoolError::InvalidTokenMint)
    } else if authority_check(program_id, a[0].key@, args.bump_seed, a[1].key@) is Err {
        Err(authority_check(program_id, a[0].key@, args.bump_seed, a[1].key@)->Err_0)
    } else if token_account_state(a[4].data@) is None {
        Err(PoolError::InvalidAccountData)
    } else if token_account_state(a[4].data@) == Some(true) {
        Err(PoolError::DepositAccountInUse)
    } else if mint_state(a[5].data@) is None {
        Err(PoolError::InvalidAccountData)
    } else if mint_state(a[5].data@) == Some(true) {
        Err(PoolError::TokenMintInUse)
    } else if mint_state(a[6].data@) is None {
        Err(PoolError::InvalidAccountData)
    } else if mint_state(a[6].data@) == Some(true) {
        Err(PoolError::TokenMintInUse)
    } else if args.mint_end_slot >= args.decide_end_slot {
        Err(PoolError::DecisionWindowViolation)
    } else {
        Ok(Effect { pool: Some(initial_pool(a, args)), ops: init_ops(a) })
    }
}

/// The checks that deposits and withdrawals share: the pool record is
/// initialized and the authority account is the pool's.
pub open spec fn pool_check(program_id: Seq<u8>, a: Seq<AccountInfo>) -> Result<(), PoolError> {
    if !pool_unpacks(a[0].data@) {
        Err(PoolError::InvalidAccountData)
    } else if pool_view_of(a[0].data@).version != POOL_VERSION {
        Err(PoolError::UninitializedAccount)
    } else {
        authority_check(program_id, a[0].key@, pool_view_of(a[0].data@).bump_seed, a[1].key@)
    }
}

/// The ledger calls of a deposit of `amount`.
pub open spec fn deposit_ops(a: Seq<AccountInfo>, amount: u64) -> Seq<LedgerOp> {
    seq![
        LedgerOp::Transfer { source: a[3].key, destination: a[4].key, authority: a[2].key, amount },
        LedgerOp::MintTo { mint: a[5].key, destination: a[7].key, authority: a[1].key, amount },
        LedgerOp::MintTo { mint: a[6].key, destination: a[8].key, authority: a[1].key, amount },
    ]
}

/// A deposit, check by check.
pub open spec fn deposit_spec(program_id: Seq<u8>, a: Seq<AccountInfo>, amount: u64) -> Result<
    Effect,
    PoolError,
> {
    if a.len() < DEPOSIT_ACCOUNTS {
        Err(PoolError::NotEnoughAccountKeys)
    } else if amount == 0 {
        Err(PoolError::InvalidInstructionAmount)
    } else if pool_check(program_id, a) is Err {
        Err(pool_check(program_id, a)->Err_0)
    } else if a[9].key@ != pool_view_of(a[0].data@).token_program_id || a[4].key@
        != pool_view_of(a[0].data@).deposit_account {
        Err(PoolError::InvalidPoolAccount)
    } else if a[5].key@ != pool_view_of(a[0].data@).token_pass_mint || a[6].key@
        != pool_view_of(a[0].data@).token_fail_mint {
        Err(PoolError::InvalidTokenMint)
    } else {
        Ok(Effect { pool: None, ops: deposit_ops(a, amount) })
    }
}

/// The ledger calls of a withdrawal of `amount` at `slot` from pool `v`, if
/// the phase allows one.
pub open spec fn withdraw_ops(a: Seq<AccountInfo>, v: PoolView, slot: u64, amount: u64) -> Option<
    Seq<LedgerOp>,
> {
    let burn_pass = LedgerOp::Burn {
        account: a[3].key,
        mint: a[5].key,
        authority: a[2].key,
        amount,
    };
    let burn_fail = LedgerOp::Burn {
        account: a[4].key,
        mint: a[6].key,
        authority: a[2].key,
        amount,
    };
    let pay = LedgerOp::Transfer {
        source: a[7].key,
        destination: a[8].key,
        authority: a[1].key,
        amount,
    };
    if slot < v.mint_end_slot {
        Some(seq![burn_pass, burn_fail, pay])
    } else {
        match v.decision {
            Some(true) => Some(seq![burn_pass, pay]),
            Some(false) => Some(seq![burn_fail, pay]),
            None => None,
        }
    }
}

/// A withdrawal, check by check.
pub open spec fn withdraw_spec(
    program_id: Seq<u8>,
    a: Seq<AccountInfo>,
    slot: u64,
    amount: u64,
) -> Result<Effect, PoolError> {
    if a.len() < WITHDRAW_ACCOUNTS {
        Err(PoolError::NotEnoughAccountKeys)
    } else if pool_check(program_id, a) is Err {
        Err(pool_check(program_id, a)->Err_0)
    } else if a[9].key@ != pool_view_of(a[0].data@).token_program_id || a[7].key@
        != pool_view_of(a[0].data@).deposit_account {
        Err(PoolError::InvalidPoolAccount)
    } else if a[5].key@ != pool_view_of(a[0].data@).token_pass_mint || a[6].key@
        != pool_view_of(a[0].data@).token_fail_mint {
        Err(PoolError::InvalidTokenMint)
    } else {
        match withdraw_ops(a, pool_view_of(a[0].data@), slot, amount) {
            Some(ops) => Ok(Effect { pool: None, ops }),
            None => Err(PoolError::DecisionPending),
        }
    }
}

/// Whether a decision may be recorded at `slot` in pool `v`.
pub open spec fn in_decide_window(v: PoolView, slot: u64) -> bool {
    v.mint_end_slot < slot && slot <= v.decide_end_slot
}

/// The record `v` with its outcome set.
pub open spec fn decided(v: PoolView, outcome: bool) -> PoolView {
    PoolView { decision: Some(outcome), ..v }
}

/// A decision, check by check.
pub open spec fn decide_spec(a: Seq<AccountInfo>, slot: u64, outcome: bool) -> Result<
    Effect,
    PoolError,
> {
    if a.len() < DECIDE_ACCOUNTS {
        Err(PoolError::NotEnoughAccountKeys)
    } else if !pool_unpacks(a[0].data@) {
        Err(PoolError::InvalidAccountData)
    } else if pool_view_of(a[0].data@).version != POOL_VERSION {
        Err(PoolError::UninitializedAccount)
    } else if pool_view_of(a[0].data@).decision is Some {
        Err(PoolError::AlreadyDecided)
    } else if !a[1].is_signer || a[1].key@ != pool_view_of(a[0].data@).decider {
        Err(PoolError::InvalidDecider)
    } else if !in_decide_window(pool_view_of(a[0].data@), slot) {
        Err(PoolError::DecisionWindowViolation)
    } else {
        Ok(Effect { pool: Some(decided(pool_view_of(a[0].data@), outcome)), ops: seq![] })
    }
}

/// An instruction given as bytes.
pub open spec fn instruction_spec(
    program_id: Seq<u8>,
    a: Seq<AccountInfo>,
    input: Seq<u8>,
    slot: u64,
) -> Result<Effect, PoolError> {
    match instruction_of(input) {
        None => Err(PoolError::InstructionUnpackError),
        Some(Instruction::InitPool(args)) => init_spec(program_id, a, args),
        Some(Instruction::Deposit(n)) => deposit_spec(program_id, a, n),
        Some(Instruction::Withdraw(n)) => withdraw_spec(program_id, a, slot, n),
        Some(Instruction::Decide(b)) => decide_spec(a, slot, b),
    }
}

/// Program state handler.
pub struct Processor {}

impl Processor {
    /// Calculates the authority id by generating a program address.
    pub fn authority_id(program_id: &Key, my_info: &Key, bump_seed: u8) -> (r: Result<
        Key,
        PoolError,
    >)
        ensures
            match r {
                Ok(k) => authority_result(program_id@, my_info@, bump_seed) == Ok::<
                    Seq<u8>,
                    PoolError,
                >(k@),
                Err(e) => authority_result(program_id@, my_info@, bump_seed) == Err::<
                    Seq<u8>,
                    PoolError,
                >(e),
            },
    {
        derive_authority(program_id, my_info, bump_seed)
    }

    /// Reads the pool record of a deposit or withdrawal and checks the
    /// authority account against it.
    fn checked_pool(program_id: &Key, accounts: &[AccountInfo]) -> (r: Result<Pool, PoolError>)
        requires
            accounts@.len() >= 2,
        ensures
            match r {
                Ok(p) => pool_check(program_id@, accounts@) is Ok && pool_unpacks(
                    accounts@[0].data@,
                ) && p@ == pool_view_of(accounts@[0].data@),
                Err(e) => pool_check(program_id@, accounts@) == Err::<(), PoolError>(e),
            },
    {
        let pool = unpack_pool(accounts[0].data.as_slice())?;
        if !pool.is_initialized() {
            return Err(PoolError::UninitializedAccount);
        }
        check_authority(program_id, &accounts[0].key, pool.bump_seed, &accounts[1].key)?;
        Ok(pool)
    }

    /// Initialize the pool.
    pub fn process_init_pool(
        program_id: &Key,
        accounts: &[AccountInfo],
        mint_end_slot: u64,
        decide_end_slot: u64,
        bump_seed: u8,
    ) -> (r: Result<Outcome, PoolError>)
        ensures
            result_is(
                r,
                init_spec(
                    program_id@,
                    accounts@,
                    InitArgs { mint_end_slot, decide_end_slot, bump_seed },
                ),
            ),
    {
        if accounts.len() < INIT_ACCOUNTS {
            return Err(PoolError::NotEnoughAccountKeys);
        }
        let pool_info = &accounts[0];
        let authority_info = &accounts[1];
        let decider_info = &accounts[2];
        let deposit_mint_info = &accounts[3];
        let deposit_account_info = &accounts[4];
        let pass_mint_info = &accounts[5];
        let fail_mint_info = &accounts[6];
        let token_program_info = &accounts[8];

        let old = unpack_pool(pool_info.data.as_slice())?;
        if old.is_initialized() {
            return Err(PoolError::AlreadyInUse);
        }
        if !pool_info.rent_exempt {
            return Err(PoolError::NotRentExempt);
        }
        if !deposit_mint_info.owner.same(&token_program_info.key) {
            return Err(PoolError::InvalidTokenMint);
        }
        match read_mint(deposit_mint_info.data.as_slice()) {
            Some(true) => {},
            _ => return Err(PoolError::InvalidTokenMint),
        }
        check_authority(program_id, &pool_info.key, bump_seed, &authority_info.key)?;
        match read_token_account(deposit_account_info.data.as_slice()) {
            None => return Err(PoolError::InvalidAccountData),
            Some(true) => return Err(PoolError::DepositAccountInUse),
            Some(false) => {},
        }
        match read_mint(pass_mint_info.data.as_slice()) {
            None => return Err(PoolError::InvalidAccountData),
            Some(true) => return Err(PoolError::TokenMintInUse),
            Some(false) => {},
        }
        match read_mint(fail_mint_info.data.as_slice()) {
            None => return Err(PoolError::InvalidAccountData),
            Some(true) => return Err(PoolError::TokenMintInUse),
            Some(false) => {},
        }
        if mint_end_slot >= decide_end_slot {
            return Err(PoolError::DecisionWindowViolation);
        }

        let mut ops: Vec<LedgerOp> = Vec::new();
        ops.push(
            LedgerOp::InitializeAccount {
                account: deposit_account_info.key,
                mint: deposit_mint_info.key,
                owner: authority_info.key,
            },
        );
        ops.push(
            LedgerOp::InitializeMint {
                mint: pass_mint_info.key,
                authority: authority_info.key,
                decimals: TOKEN_PASS_DECIMALS,
            },
        );
        ops.push(
            LedgerOp::InitializeMint {
                mint: fail_mint_info.key,
                authority: authority_info.key,
                decimals: TOKEN_FAIL_DECIMALS,
            },
        );
        let pool = Pool {
            version: POOL_VERSION,
            bump_seed,
            token_program_id: token_program_info.key,
            deposit_account: deposit_account_info.key,
            token_pass_mint: pass_mint_info.key,
            token_fail_mint: fail_mint_info.key,
            decider: decider_info.key,
            mint_end_slot,
            decide_end_slot,
            decision: None,
        };
        let data = pack_pool(&pool);
        assert(ops@ =~= init_ops(accounts@));
        Ok(Outcome { pool_data: Some(data), ops })
    }

    /// Lock `amount` of collateral and mint as many PASS and FAIL tokens.
    pub fn process_deposit(program_id: &Key, accounts: &[AccountInfo], amount: u64) -> (r: Result<
        Outcome,
        PoolError,
    >)
        ensures
            result_is(r, deposit_spec(program_id@, accounts@, amount)),
    {
        if accounts.len() < DEPOSIT_ACCOUNTS {
            return Err(PoolError::NotEnoughAccountKeys);
        }
        if amount == 0 {
            return Err(PoolError::InvalidInstructionAmount);
        }
        let pool = Self::checked_pool(program_id, accounts)?;
        if !accounts[9].key.same(&pool.token_program_id) || !accounts[4].key.same(
            &pool.deposit_account,
        ) {
            return Err(PoolError::InvalidPoolAccount);
        }
        if !accounts[5].key.same(&pool.token_pass_mint) || !accounts[6].key.same(
            &pool.token_fail_mint,
        ) {
            return Err(PoolError::InvalidTokenMint);
        }
        let mut ops: Vec<LedgerOp> = Vec::new();
        ops.push(
            LedgerOp::Transfer {
                source: accounts[3].key,
                destination: accounts[4].key,
                authority: accounts[2].key,
                amount,
            },
        );
        ops.push(
            LedgerOp::MintTo {
                mint: accounts[5].key,
                destination: accounts[7].key,
                authority: accounts[1].key,
                amount,
            },
        );
        ops.push(
            LedgerOp::MintTo {
                mint: accounts[6].key,
                destination: accounts[8].key,
                authority: accounts[1].key,
                amount,
            },
        );
        assert(ops@ =~= deposit_ops(accounts@, amount));
        Ok(Outcome { pool_data: None, ops })
    }

    /// Burn outcome tokens and release as much collateral, as the phase at
    /// `slot` allows.
    pub fn process_withdraw(
        program_id: &Key,
        accounts: &[AccountInfo],
        slot: u64,
        amount: u64,
    ) -> (r: Result<Outcome, PoolError>)
        ensures
            result_is(r, withdraw_spec(program_id@, accounts@, slot, amount)),
    {
        if accounts.len() < WITHDRAW_ACCOUNTS {
            return Err(PoolError::NotEnoughAccountKeys);
        }
        let pool = Self::checked_pool(program_id, accounts)?;
        if !accounts[9].key.same(&pool.token_program_id) || !accounts[7].key.same(
            &pool.deposit_account,
        ) {
            return Err(PoolError::InvalidPoolAccount);
        }
        if !accounts[5].key.same(&pool.token_pass_mint) || !accounts[6].key.same(
            &pool.token_fail_mint,
        ) {
            return Err(PoolError::InvalidTokenMint);
        }
        let burn_pass = LedgerOp::Burn {
            account: accounts[3].key,
            mint: accounts[5].key,
            authority: accounts[2].key,
            amount,
        };
        let burn_fail = LedgerOp::Burn {
            account: accounts[4].key,
            mint: accounts[6].key,
            authority: accounts[2].key,
            amount,
        };
        let pay = LedgerOp::Transfer {
            source: accounts[7].key,
            destination: accounts[8].key,
            authority: accounts[1].key,
            amount,
        };
        let mut ops: Vec<LedgerOp> = Vec::new();
        if slot < pool.mint_end_slot {
            ops.push(burn_pass);
            ops.push(burn_fail);
        } else {
            match pool.decision {
                Some(true) => ops.push(burn_pass),
                Some(false) => ops.push(burn_fail),
                None => return Err(PoolError::DecisionPending),
            }
        }
        ops.push(pay);
        proof {
            let w = withdraw_ops(accounts@, pool_view_of(accounts@[0].data@), slot, amount);
            assert(w is Some && ops@ =~= w->Some_0);
        }
        Ok(Outcome { pool_data: None, ops })
    }

    /// Record the outcome, once, inside the decision window.
    pub fn process_decide(accounts: &[AccountInfo], slot: u64, outcome: bool) -> (r: Result<
        Outcome,
        PoolError,
    >)
        ensures
            result_is(r, decide_spec(accounts@, slot, outcome)),
    {
        if accounts.len() < DECIDE_ACCOUNTS {
            return Err(PoolError::NotEnoughAccountKeys);
        }
        let mut pool = unpack_pool(accounts[0].data.as_slice())?;
        if !pool.is_initialized() {
            return Err(PoolError::UninitializedAccount);
        }
        if pool.decision.is_some() {
            return Err(PoolError::AlreadyDecided);
        }
        if !accounts[1].is_signer || !accounts[1].key.same(&pool.decider) {
            return Err(PoolError::InvalidDecider);
        }
        if !(pool.mint_end_slot < slot && slot <= pool.decide_end_slot) {
            return Err(PoolError::DecisionWindowViolation);
        }
        pool.decision = Some(outcome);
        let data = pack_pool(&pool);
        Ok(Outcome { pool_data: Some(data), ops: Vec::new() })
    }

    /// Processes an instruction given as bytes, at the host's current `slot`.
    pub fn process_instruction(
        program_id: &Key,
        accounts: &[AccountInfo],
        input: &[u8],
        slot: u64,
    ) -> (r: Result<Outcome, PoolError>)
        ensures
            result_is(r, instruction_spec(program_id@, accounts@, input@, slot)),
    {
        let instruction = Instruction::unpack(input)?;
        match instruction {
            Instruction::InitPool(args) => Self::process_init_pool(
                program_id,
                accounts,
                args.mint_end_slot,
                args.decide_end_slot,
                args.bump_seed,
            ),
            Instruction::Deposit(amount) => Self::process_deposit(program_id, accounts, amount),
            Instruction::Withdraw(amount) => Self::process_withdraw(
                program_id,
                accounts,
                slot,
                amount,
            ),
            Instruction::Decide(outcome) => Self::process_decide(accounts, slot, outcome),
        }
    }
}

} // verus!
