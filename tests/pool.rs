use binary_oracle_pair::error::PoolError;
use binary_oracle_pair::instruction::{InitArgs, Instruction};
use binary_oracle_pair::key::Key;
use binary_oracle_pair::ledger::LedgerOp;
use binary_oracle_pair::processor::{AccountInfo, Outcome, Processor};
use binary_oracle_pair::state::{pack_pool, unpack_pool, Pool, POOL_LEN, POOL_VERSION};
use solana_program::program_option::COption;
use solana_program::program_pack::Pack;
use solana_program::pubkey::Pubkey;
use spl_token::state::Mint;
use std::collections::HashMap;

const PROGRAM: u8 = 200;
const POOL: u8 = 1;
const DECIDER: u8 = 3;
const COLLATERAL_MINT: u8 = 4;
const COLLATERAL: u8 = 5;
const PASS_MINT: u8 = 6;
const FAIL_MINT: u8 = 7;
const RENT: u8 = 8;
const USER: u8 = 10;
const USER_COLLATERAL: u8 = 11;
const USER_PASS: u8 = 12;
const USER_FAIL: u8 = 13;
const CLOCK: u8 = 14;

fn key(n: u8) -> Key {
    Key::new([n; 32])
}

fn token_program() -> Key {
    Key::new(spl_token::id().to_bytes())
}

fn authority_and_bump(pool: Key) -> (Key, u8) {
    let program = Pubkey::new_from_array(key(PROGRAM).bytes);
    let (a, bump) = Pubkey::find_program_address(&[&pool.bytes[..]], &program);
    (Key::new(a.to_bytes()), bump)
}

fn account(k: Key, data: Vec<u8>) -> AccountInfo {
    AccountInfo { key: k, owner: key(0), is_signer: false, rent_exempt: true, data }
}

fn initialized_mint() -> Vec<u8> {
    let m = Mint {
        mint_authority: COption::None,
        supply: 0,
        decimals: 0,
        is_initialized: true,
        freeze_authority: COption::None,
    };
    let mut data = vec![0u8; Mint::LEN];
    Mint::pack(m, &mut data).unwrap();
    data
}

/// Balances and supplies of a token ledger kept in memory; a list of operations
/// is applied all or nothing.
#[derive(Clone)]
struct Ledger {
    balances: HashMap<[u8; 32], u64>,
    supplies: HashMap<[u8; 32], u64>,
}

impl Ledger {
    fn new() -> Ledger {
        Ledger { balances: HashMap::new(), supplies: HashMap::new() }
    }

    fn balance(&self, k: u8) -> u64 {
        self.balances[&[k; 32]]
    }

    fn supply(&self, k: u8) -> u64 {
        self.supplies[&[k; 32]]
    }

    fn apply(&mut self, ops: &[LedgerOp]) -> Result<(), ()> {
        let mut next = self.clone();
        for op in ops {
            match *op {
                LedgerOp::InitializeAccount { account, .. } => {
                    if next.balances.insert(account.bytes, 0).is_some() {
                        return Err(());
                    }
                }
                LedgerOp::InitializeMint { mint, .. } => {
                    if next.supplies.insert(mint.bytes, 0).is_some() {
                        return Err(());
                    }
                }
                LedgerOp::Transfer { source, destination, amount, .. } => {
                    let s = next.balances.get_mut(&source.bytes).ok_or(())?;
                    *s = s.checked_sub(amount).ok_or(())?;
                    *next.balances.get_mut(&destination.bytes).ok_or(())? += amount;
                }
                LedgerOp::MintTo { mint, destination, amount, .. } => {
                    *next.supplies.get_mut(&mint.bytes).ok_or(())? += amount;
                    *next.balances.get_mut(&destination.bytes).ok_or(())? += amount;
                }
                LedgerOp::Burn { account, mint, amount, .. } => {
                    let b = next.balances.get_mut(&account.bytes).ok_or(())?;
                    *b = b.checked_sub(amount).ok_or(())?;
                    let s = next.supplies.get_mut(&mint.bytes).ok_or(())?;
                    *s = s.checked_sub(amount).ok_or(())?;
                }
            }
        }
        *self = next;
        Ok(())
    }
}

/// A pool account, the ledger, and the user's accounts.
struct Bench {
    pool_data: Vec<u8>,
    ledger: Ledger,
    authority: Key,
    bump: u8,
}

impl Bench {
    fn new() -> Bench {
        let (authority, bump) = authority_and_bump(key(POOL));
        Bench { pool_data: vec![0u8; POOL_LEN], ledger: Ledger::new(), authority, bump }
    }

    fn init_accounts(&self) -> Vec<AccountInfo> {
        let mut collateral_mint = account(key(COLLATERAL_MINT), initialized_mint());
        collateral_mint.owner = token_program();
        vec![
            account(key(POOL), self.pool_data.clone()),
            account(self.authority, vec![]),
            account(key(DECIDER), vec![]),
            collateral_mint,
            account(key(COLLATERAL), vec![0u8; 165]),
            account(key(PASS_MINT), vec![0u8; 82]),
            account(key(FAIL_MINT), vec![0u8; 82]),
            account(key(RENT), vec![]),
            account(token_program(), vec![]),
        ]
    }

    fn deposit_accounts(&self) -> Vec<AccountInfo> {
        vec![
            account(key(POOL), self.pool_data.clone()),
            account(self.authority, vec![]),
            account(key(USER), vec![]),
            account(key(USER_COLLATERAL), vec![]),
            account(key(COLLATERAL), vec![]),
            account(key(PASS_MINT), vec![]),
            account(key(FAIL_MINT), vec![]),
            account(key(USER_PASS), vec![]),
            account(key(USER_FAIL), vec![]),
            account(token_program(), vec![]),
        ]
    }

    fn withdraw_accounts(&self) -> Vec<AccountInfo> {
        vec![
            account(key(POOL), self.pool_data.clone()),
            account(self.authority, vec![]),
            account(key(USER), vec![]),
            account(key(USER_PASS), vec![]),
            account(key(USER_FAIL), vec![]),
            account(key(PASS_MINT), vec![]),
            account(key(FAIL_MINT), vec![]),
            account(key(COLLATERAL), vec![]),
            account(key(USER_COLLATERAL), vec![]),
            account(token_program(), vec![]),
            account(key(CLOCK), vec![]),
        ]
    }

    fn decide_accounts(&self, signer: bool) -> Vec<AccountInfo> {
        let mut decider = account(key(DECIDER), vec![]);
        decider.is_signer = signer;
        vec![account(key(POOL), self.pool_data.clone()), decider, account(key(CLOCK), vec![])]
    }

    fn commit(&mut self, r: Result<Outcome, PoolError>) -> Result<(), PoolError> {
        let o = r?;
        self.ledger.apply(&o.ops).expect("the ledger refused an operation");
        if let Some(d) = o.pool_data {
            self.pool_data = d;
        }
        Ok(())
    }

    fn init(&mut self) -> Result<(), PoolError> {
        let accounts = self.init_accounts();
        let r = Processor::process_init_pool(&key(PROGRAM), &accounts, 1000, 2000, self.bump);
        self.commit(r)
    }

    /// Initializes the pool and gives the user `amount` of collateral and empty
    /// PASS and FAIL accounts.
    fn ready(amount: u64) -> Bench {
        let mut b = Bench::new();
        b.init().unwrap();
        b.ledger.balances.insert([USER_COLLATERAL; 32], amount);
        b.ledger.balances.insert([USER_PASS; 32], 0);
        b.ledger.balances.insert([USER_FAIL; 32], 0);
        b
    }

    fn deposit(&mut self, amount: u64) -> Result<(), PoolError> {
        let accounts = self.deposit_accounts();
        let r = Processor::process_deposit(&key(PROGRAM), &accounts, amount);
        self.commit(r)
    }

    fn withdraw(&mut self, slot: u64, amount: u64) -> Result<(), PoolError> {
        let accounts = self.withdraw_accounts();
        let r = Processor::process_withdraw(&key(PROGRAM), &accounts, slot, amount);
        self.commit(r)
    }

    fn decide(&mut self, slot: u64, outcome: bool) -> Result<(), PoolError> {
        let accounts = self.decide_accounts(true);
        let r = Processor::process_decide(&accounts, slot, outcome);
        self.commit(r)
    }

    fn pool(&self) -> Pool {
        unpack_pool(&self.pool_data).unwrap()
    }
}

#[test]
fn test_init_pool() {
    let mut b = Bench::new();
    b.init().unwrap();
    assert_eq!(b.pool_data.len(), POOL_LEN);
    let pool = b.pool();
    assert!(pool.is_initialized());
    assert_eq!(pool.version, POOL_VERSION);
    assert_eq!(pool.bump_seed, b.bump);
    assert_eq!(pool.decider, key(DECIDER));
    assert_eq!(pool.deposit_account, key(COLLATERAL));
    assert_eq!(pool.token_pass_mint, key(PASS_MINT));
    assert_eq!(pool.token_fail_mint, key(FAIL_MINT));
    assert_eq!(pool.token_program_id, token_program());
    assert_eq!(pool.mint_end_slot, 1000);
    assert_eq!(pool.decide_end_slot, 2000);
    assert_eq!(pool.decision, None);
    assert_eq!(b.ledger.balance(COLLATERAL), 0);
    assert_eq!(b.ledger.supply(PASS_MINT), 0);
    assert_eq!(b.ledger.supply(FAIL_MINT), 0);
}

#[test]
fn test_deposit() {
    let deposit_amount = 100;
    let mut b = Bench::ready(deposit_amount);
    assert_eq!(b.ledger.balance(USER_COLLATERAL), deposit_amount);
    b.deposit(deposit_amount).unwrap();
    assert_eq!(b.ledger.balance(USER_COLLATERAL), 0);
    assert_eq!(b.ledger.balance(COLLATERAL), deposit_amount);
    assert_eq!(b.ledger.balance(USER_PASS), deposit_amount);
    assert_eq!(b.ledger.balance(USER_FAIL), deposit_amount);
}

#[test]
fn test_withdraw() {
    let deposit_amount = 100;
    let mut b = Bench::ready(deposit_amount);
    b.deposit(deposit_amount).unwrap();
    assert_eq!(b.ledger.balance(USER_COLLATERAL), 0);
    assert_eq!(b.ledger.balance(COLLATERAL), deposit_amount);
    assert_eq!(b.ledger.balance(USER_PASS), deposit_amount);
    assert_eq!(b.ledger.balance(USER_FAIL), deposit_amount);
    b.withdraw(0, deposit_amount).unwrap();
    assert_eq!(b.ledger.balance(USER_COLLATERAL), deposit_amount);
    assert_eq!(b.ledger.balance(COLLATERAL), 0);
    assert_eq!(b.ledger.balance(USER_PASS), 0);
    assert_eq!(b.ledger.balance(USER_FAIL), 0);
}

#[test]
fn init_twice_is_already_in_use() {
    let mut b = Bench::new();
    assert_eq!(b.init(), Ok(()));
    assert_eq!(b.init(), Err(PoolError::AlreadyInUse));
}

#[test]
fn deposit_mints_equal_outcome_tokens() {
    let mut b = Bench::ready(100);
    b.deposit(100).unwrap();
    assert_eq!(b.ledger.balance(COLLATERAL), 100);
    assert_eq!(b.ledger.balance(USER_PASS), 100);
    assert_eq!(b.ledger.balance(USER_FAIL), 100);
    assert_eq!(b.ledger.supply(PASS_MINT), b.ledger.supply(FAIL_MINT));
}

#[test]
fn decide_then_decide_again() {
    let mut b = Bench::ready(100);
    b.deposit(100).unwrap();
    assert_eq!(b.decide(1500, true), Ok(()));
    assert_eq!(b.pool().decision, Some(true));
    assert_eq!(b.decide(1600, false), Err(PoolError::AlreadyDecided));
    assert_eq!(b.pool().decision, Some(true));
}

#[test]
fn redeem_pass_after_decision() {
    let mut b = Bench::ready(100);
    b.deposit(100).unwrap();
    b.decide(1500, true).unwrap();
    b.withdraw(1600, 100).unwrap();
    assert_eq!(b.ledger.balance(USER_COLLATERAL), 100);
    assert_eq!(b.ledger.balance(USER_PASS), 0);
    assert_eq!(b.ledger.balance(USER_FAIL), 100);
    assert_eq!(b.ledger.balance(COLLATERAL), 0);
}

#[test]
fn redeem_fail_after_decision() {
    let mut b = Bench::ready(100);
    b.deposit(100).unwrap();
    b.decide(1001, false).unwrap();
    b.withdraw(1000, 40).unwrap();
    assert_eq!(b.ledger.balance(USER_COLLATERAL), 40);
    assert_eq!(b.ledger.balance(USER_PASS), 100);
    assert_eq!(b.ledger.balance(USER_FAIL), 60);
    assert_eq!(b.ledger.supply(PASS_MINT), 100);
    assert_eq!(b.ledger.supply(FAIL_MINT), 60);
}

#[test]
fn withdraw_after_mint_end_without_decision_is_pending() {
    let mut b = Bench::ready(100);
    b.deposit(100).unwrap();
    assert_eq!(b.withdraw(1000, 100), Err(PoolError::DecisionPending));
    assert_eq!(b.withdraw(5000, 1), Err(PoolError::DecisionPending));
    assert_eq!(b.ledger.balance(USER_PASS), 100);
}

#[test]
fn reversal_before_mint_end_ignores_decision() {
    let mut b = Bench::ready(100);
    b.deposit(100).unwrap();
    b.withdraw(999, 30).unwrap();
    assert_eq!(b.ledger.balance(USER_PASS), 70);
    assert_eq!(b.ledger.balance(USER_FAIL), 70);
    assert_eq!(b.ledger.supply(PASS_MINT), b.ledger.supply(FAIL_MINT));
}

#[test]
fn round_trip_restores_balances() {
    let mut b = Bench::ready(250);
    let before = b.ledger.balances.clone();
    b.deposit(250).unwrap();
    b.withdraw(10, 250).unwrap();
    assert_eq!(b.ledger.balances, before);
    assert_eq!(b.ledger.supply(PASS_MINT), 0);
    assert_eq!(b.ledger.supply(FAIL_MINT), 0);
}

#[test]
fn conservation_over_deposits_and_reversals() {
    let mut b = Bench::ready(1000);
    for (dep, amount) in [(true, 300), (true, 200), (false, 150), (true, 1), (false, 351)] {
        if dep {
            b.deposit(amount).unwrap();
        } else {
            b.withdraw(500, amount).unwrap();
        }
        assert_eq!(b.ledger.supply(PASS_MINT), b.ledger.supply(FAIL_MINT));
    }
    assert_eq!(b.ledger.supply(PASS_MINT), 0);
    assert_eq!(b.ledger.balance(USER_COLLATERAL), 1000);
}

#[test]
fn decide_outside_window_is_refused() {
    let mut b = Bench::ready(0);
    assert_eq!(b.decide(1000, true), Err(PoolError::DecisionWindowViolation));
    assert_eq!(b.decide(2001, true), Err(PoolError::DecisionWindowViolation));
    assert_eq!(b.decide(0, false), Err(PoolError::DecisionWindowViolation));
    assert_eq!(b.pool().decision, None);
    assert_eq!(b.decide(2000, false), Ok(()));
    assert_eq!(b.pool().decision, Some(false));
}

#[test]
fn decide_needs_the_decider_signature() {
    let b = Bench::ready(0);
    let accounts = b.decide_accounts(false);
    assert_eq!(Processor::process_decide(&accounts, 1500, true).err(), Some(PoolError::InvalidDecider));
    let mut accounts = b.decide_accounts(true);
    accounts[1].key = key(99);
    assert_eq!(Processor::process_decide(&accounts, 1500, true).err(), Some(PoolError::InvalidDecider));
}

#[test]
fn zero_deposit_is_refused() {
    let mut b = Bench::ready(10);
    assert_eq!(b.deposit(0), Err(PoolError::InvalidInstructionAmount));
    assert_eq!(b.ledger.balance(USER_COLLATERAL), 10);
}

#[test]
fn zero_withdrawal_follows_the_phase() {
    let mut b = Bench::ready(10);
    assert_eq!(b.withdraw(0, 0), Ok(()));
    assert_eq!(b.ledger.balance(USER_COLLATERAL), 10);
    assert_eq!(b.withdraw(1000, 0), Err(PoolError::DecisionPending));
}

#[test]
fn wrong_authority_is_refused() {
    let mut b = Bench::ready(10);
    b.authority = key(77);
    assert_eq!(b.deposit(10), Err(PoolError::InvalidAuthorityAccount));
    assert_eq!(b.withdraw(0, 10), Err(PoolError::InvalidAuthorityAccount));
}

#[test]
fn authority_depends_on_pool_and_seed() {
    let (a, bump) = authority_and_bump(key(POOL));
    assert_eq!(Processor::authority_id(&key(PROGRAM), &key(POOL), bump), Ok(a));
    assert_eq!(Processor::authority_id(&key(PROGRAM), &key(POOL), bump), Ok(a));
    let (other, other_bump) = authority_and_bump(key(2));
    assert_ne!(a, other);
    match Processor::authority_id(&key(PROGRAM), &key(2), other_bump) {
        Ok(k) => assert_ne!(k, a),
        Err(e) => panic!("{:?}", e),
    }
    for seed in 0..=255u8 {
        if seed != bump {
            match Processor::authority_id(&key(PROGRAM), &key(POOL), seed) {
                Ok(k) => assert_ne!(k, a),
                Err(e) => assert_eq!(e, PoolError::InvalidAuthorityData),
            }
        }
    }
}

#[test]
fn seed_on_the_curve_is_invalid_authority_data() {
    let mut refused = 0;
    for seed in 0..=255u8 {
        if Processor::authority_id(&key(PROGRAM), &key(POOL), seed) == Err(PoolError::InvalidAuthorityData) {
            refused += 1;
        }
    }
    assert!(refused > 0);
}

#[test]
fn init_with_wrong_bump_is_refused() {
    let mut b = Bench::new();
    b.bump = b.bump.wrapping_sub(1);
    let r = b.init();
    assert!(r == Err(PoolError::InvalidAuthorityAccount) || r == Err(PoolError::InvalidAuthorityData));
}

#[test]
fn init_checks_accounts() {
    let b = Bench::new();
    let mut accounts = b.init_accounts();
    accounts[0].rent_exempt = false;
    let r = Processor::process_init_pool(&key(PROGRAM), &accounts, 1000, 2000, b.bump);
    assert_eq!(r.err(), Some(PoolError::NotRentExempt));

    let mut accounts = b.init_accounts();
    accounts[3].owner = key(42);
    let r = Processor::process_init_pool(&key(PROGRAM), &accounts, 1000, 2000, b.bump);
    assert_eq!(r.err(), Some(PoolError::InvalidTokenMint));

    let mut accounts = b.init_accounts();
    accounts[3].data = vec![0u8; 82];
    let r = Processor::process_init_pool(&key(PROGRAM), &accounts, 1000, 2000, b.bump);
    assert_eq!(r.err(), Some(PoolError::InvalidTokenMint));

    let mut accounts = b.init_accounts();
    accounts[3].data = vec![1u8; 82];
    let r = Processor::process_init_pool(&key(PROGRAM), &accounts, 1000, 2000, b.bump);
    assert_eq!(r.err(), Some(PoolError::InvalidTokenMint));

    let mut accounts = b.init_accounts();
    accounts[6].data[46] = 2;
    let r = Processor::process_init_pool(&key(PROGRAM), &accounts, 1000, 2000, b.bump);
    assert_eq!(r.err(), Some(PoolError::InvalidAccountData));

    let mut accounts = b.init_accounts();
    accounts[4].data[108] = 3;
    let r = Processor::process_init_pool(&key(PROGRAM), &accounts, 1000, 2000, b.bump);
    assert_eq!(r.err(), Some(PoolError::InvalidAccountData));

    let mut accounts = b.init_accounts();
    accounts[5].data = initialized_mint();
    let r = Processor::process_init_pool(&key(PROGRAM), &accounts, 1000, 2000, b.bump);
    assert_eq!(r.err(), Some(PoolError::TokenMintInUse));

    let mut accounts = b.init_accounts();
    accounts[6].data = initialized_mint();
    let r = Processor::process_init_pool(&key(PROGRAM), &accounts, 1000, 2000, b.bump);
    assert_eq!(r.err(), Some(PoolError::TokenMintInUse));

    let mut accounts = b.init_accounts();
    accounts[4].data[108] = 1;
    let r = Processor::process_init_pool(&key(PROGRAM), &accounts, 1000, 2000, b.bump);
    assert_eq!(r.err(), Some(PoolError::DepositAccountInUse));

    let mut accounts = b.init_accounts();
    accounts[5].data = vec![0u8; 10];
    let r = Processor::process_init_pool(&key(PROGRAM), &accounts, 1000, 2000, b.bump);
    assert_eq!(r.err(), Some(PoolError::InvalidAccountData));

    let accounts = b.init_accounts();
    let r = Processor::process_init_pool(&key(PROGRAM), &accounts, 2000, 2000, b.bump);
    assert_eq!(r.err(), Some(PoolError::DecisionWindowViolation));

    let mut accounts = b.init_accounts();
    accounts[0].rent_exempt = false;
    let r = Processor::process_init_pool(&key(PROGRAM), &accounts, 2000, 2000, b.bump);
    assert_eq!(r.err(), Some(PoolError::NotRentExempt));

    let mut accounts = b.init_accounts();
    accounts[4].data[108] = 1;
    let r = Processor::process_init_pool(&key(PROGRAM), &accounts, 3000, 2000, b.bump);
    assert_eq!(r.err(), Some(PoolError::DepositAccountInUse));

    let accounts = b.init_accounts();
    let r = Processor::process_init_pool(&key(PROGRAM), &accounts[..8], 1000, 2000, b.bump);
    assert_eq!(r.err(), Some(PoolError::NotEnoughAccountKeys));
}

#[test]
fn init_asks_for_three_ledger_calls() {
    let b = Bench::new();
    let accounts = b.init_accounts();
    let o = Processor::process_init_pool(&key(PROGRAM), &accounts, 1000, 2000, b.bump).unwrap();
    assert_eq!(
        o.ops,
        vec![
            LedgerOp::InitializeAccount { account: key(COLLATERAL), mint: key(COLLATERAL_MINT), owner: b.authority },
            LedgerOp::InitializeMint { mint: key(PASS_MINT), authority: b.authority, decimals: 9 },
            LedgerOp::InitializeMint { mint: key(FAIL_MINT), authority: b.authority, decimals: 9 },
        ]
    );
}

#[test]
fn deposit_checks_pool_accounts() {
    let b = Bench::ready(10);
    let mut accounts = b.deposit_accounts();
    accounts[4].key = key(50);
    let r = Processor::process_deposit(&key(PROGRAM), &accounts, 5);
    assert_eq!(r.err(), Some(PoolError::InvalidPoolAccount));
    let mut accounts = b.deposit_accounts();
    accounts[5].key = key(FAIL_MINT);
    let r = Processor::process_deposit(&key(PROGRAM), &accounts, 5);
    assert_eq!(r.err(), Some(PoolError::InvalidTokenMint));
    let accounts = Bench::new().deposit_accounts();
    let r = Processor::process_deposit(&key(PROGRAM), &accounts, 5);
    assert_eq!(r.err(), Some(PoolError::UninitializedAccount));
    let mut accounts = b.deposit_accounts();
    accounts[0].data.pop();
    let r = Processor::process_deposit(&key(PROGRAM), &accounts, 5);
    assert_eq!(r.err(), Some(PoolError::InvalidAccountData));
}

#[test]
fn pool_record_round_trip() {
    let p = Pool {
        version: POOL_VERSION,
        bump_seed: 254,
        token_program_id: key(1),
        deposit_account: key(2),
        token_pass_mint: key(3),
        token_fail_mint: key(4),
        decider: key(5),
        mint_end_slot: 0x0102030405060708,
        decide_end_slot: u64::MAX,
        decision: Some(false),
    };
    let bytes = pack_pool(&p);
    assert_eq!(bytes.len(), POOL_LEN);
    assert_eq!(&bytes[162..170], &[8, 7, 6, 5, 4, 3, 2, 1]);
    assert_eq!(bytes[178], 2);
    assert_eq!(unpack_pool(&bytes), Ok(p));
    let mut bad = bytes.clone();
    bad[178] = 3;
    assert_eq!(unpack_pool(&bad), Err(PoolError::InvalidAccountData));
}

#[test]
fn instruction_bytes() {
    let i = Instruction::InitPool(InitArgs { mint_end_slot: 1000, decide_end_slot: 2000, bump_seed: 7 });
    let bytes = i.pack();
    assert_eq!(bytes, vec![0, 0xe8, 3, 0, 0, 0, 0, 0, 0, 0xd0, 7, 0, 0, 0, 0, 0, 0, 7]);
    assert_eq!(Instruction::unpack(&bytes), Ok(i));
    assert_eq!(Instruction::unpack(&[1, 100, 0, 0, 0, 0, 0, 0, 0]), Ok(Instruction::Deposit(100)));
    assert_eq!(Instruction::unpack(&[2, 1, 1, 0, 0, 0, 0, 0, 0]), Ok(Instruction::Withdraw(257)));
    assert_eq!(Instruction::unpack(&[3, 1]), Ok(Instruction::Decide(true)));
    assert_eq!(Instruction::unpack(&[3, 2]), Err(PoolError::InstructionUnpackError));
    assert_eq!(Instruction::unpack(&[1, 100, 0, 0]), Err(PoolError::InstructionUnpackError));
    assert_eq!(Instruction::unpack(&[4]), Err(PoolError::InstructionUnpackError));
    assert_eq!(Instruction::unpack(&[]), Err(PoolError::InstructionUnpackError));
}

#[test]
fn process_instruction_dispatches() {
    let mut b = Bench::ready(100);
    let accounts = b.deposit_accounts();
    let input = Instruction::Deposit(100).pack();
    let r = Processor::process_instruction(&key(PROGRAM), &accounts, &input, 0);
    b.commit(r).unwrap();
    assert_eq!(b.ledger.balance(USER_PASS), 100);
    let accounts = b.decide_accounts(true);
    let r = Processor::process_instruction(&key(PROGRAM), &accounts, &[3, 0], 1500);
    b.commit(r).unwrap();
    assert_eq!(b.pool().decision, Some(false));
    let r = Processor::process_instruction(&key(PROGRAM), &accounts, &[9, 0], 1500);
    assert_eq!(r.err(), Some(PoolError::InstructionUnpackError));
}
