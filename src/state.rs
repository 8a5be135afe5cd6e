//! The pool record and its fixed-size byte layout.

use crate::error::PoolError;
use crate::key::Key;
use vstd::bytes::{spec_u64_from_le_bytes, spec_u64_to_le_bytes, u64_from_le_bytes, u64_to_le_bytes};
use vstd::prelude::*;
use vstd::slice::slice_subrange;

verus! {

/// The layout version written by this library.
pub const POOL_VERSION: u8 = 1;

/// Decimals of the PASS mint.
pub const TOKEN_PASS_DECIMALS: u8 = 9;

/// Decimals of the FAIL mint.
pub const TOKEN_FAIL_DECIMALS: u8 = 9;

/// Size of a packed pool record: version, bump seed, five keys, two slots and
/// the decision byte.
pub const POOL_LEN: usize = 179;

/// One binary-outcome pool.
#[derive(Clone, Copy, Debug, PartialEq, Eq)]
pub struct Pool {
    /// Layout version; zero for an account that was never initialized.
    pub version: u8,
    /// Seed that makes the derived authority fall off the curve.
    pub bump_seed: u8,
    /// The token program the pool delegates to.
    pub token_program_id: Key,
    /// The account holding the pooled collateral.
    pub deposit_account: Key,
    /// The PASS outcome mint.
    pub token_pass_mint: Key,
    /// The FAIL outcome mint.
    pub token_fail_mint: Key,
    /// Who may decide the outcome.
    pub decider: Key,
    /// Slot from which deposits can no longer be reversed.
    pub mint_end_slot: u64,
    /// Last slot at which a decision may be recorded.
    pub decide_end_slot: u64,
    /// The outcome, once decided: `true` for PASS.
    pub decision: Option<bool>,
}

impl Pool {
    /// Whether the record was written by pool initialization.
    pub fn is_initialized(&self) -> (r: bool)
        ensures
            r == (self@.version == POOL_VERSION),
    {
        self.version == POOL_VERSION
    }
}

/// The byte that stands for a decision.
pub open spec fn decision_byte(d: Option<bool>) -> u8 {
    match d {
        None => 0,
        Some(true) => 1,
        Some(false) => 2,
    }
}

/// The packed form of a pool record.
pub open spec fn pool_bytes(p: Pool) -> Seq<u8> {
    seq![p.version, p.bump_seed] + p.token_program_id@ + p.deposit_account@ + p.token_pass_mint@
        + p.token_fail_mint@ + p.decider@ + spec_u64_to_le_bytes(p.mint_end_slot)
        + spec_u64_to_le_bytes(p.decide_end_slot) + seq![decision_byte(p.decision)]
}

/// The decision a byte stands for, if any.
pub open spec fn byte_decision(b: u8) -> Option<Option<bool>> {
    if b == 0 {
        Some(None)
    } else if b == 1 {
        Some(Some(true))
    } else if b == 2 {
        Some(Some(false))
    } else {
        None
    }
}

/// The key stored at `off` in a packed record.
pub open spec fn key_at(s: Seq<u8>, off: int) -> Seq<u8> {
    s.subrange(off, off + 32)
}

/// A pool record as mathematical values.
pub struct PoolView {
    pub version: u8,
    pub bump_seed: u8,
    pub token_program_id: Seq<u8>,
    pub deposit_account: Seq<u8>,
    pub token_pass_mint: Seq<u8>,
    pub token_fail_mint: Seq<u8>,
    pub decider: Seq<u8>,
    pub mint_end_slot: u64,
    pub decide_end_slot: u64,
    pub decision: Option<bool>,
}

impl View for Pool {
    type V = PoolView;

    open spec fn view(&self) -> PoolView {
        PoolView {
            version: self.version,
            bump_seed: self.bump_seed,
            token_program_id: self.token_program_id@,
            deposit_account: self.deposit_account@,
            token_pass_mint: self.token_pass_mint@,
            token_fail_mint: self.token_fail_mint@,
            decider: self.decider@,
            mint_end_slot: self.mint_end_slot,
            decide_end_slot: self.decide_end_slot,
            decision: self.decision,
        }
    }
}

/// What every initialized pool record satisfies: it was written by
/// initialization and its decision window is not empty.
pub open spec fn well_formed(v: PoolView) -> bool {
    v.version == POOL_VERSION && v.mint_end_slot < v.decide_end_slot
}

/// Whether the bytes `s` unpack as a pool record.
pub open spec fn pool_unpacks(s: Seq<u8>) -> bool {
    s.len() == POOL_LEN && byte_decision(s[178]) is Some
}

/// The pool record that the bytes `s` hold, where they unpack.
pub open spec fn pool_view_of(s: Seq<u8>) -> PoolView {
    PoolView {
        version: s[0],
        bump_seed: s[1],
        token_program_id: key_at(s, 2),
        deposit_account: key_at(s, 34),
        token_pass_mint: key_at(s, 66),
        token_fail_mint: key_at(s, 98),
        decider: key_at(s, 130),
        mint_end_slot: spec_u64_from_le_bytes(s.subrange(162, 170)),
        decide_end_slot: spec_u64_from_le_bytes(s.subrange(170, 178)),
        decision: byte_decision(s[178]).unwrap(),
    }
}

fn read_key(data: &[u8], off: usize) -> (r: Key)
    requires
        off + 32 <= data@.len() <= POOL_LEN,
    ensures
        r@ == data@.subrange(off as int, off + 32),
{
    let mut bytes = [0u8; 32];
    let mut i: usize = 0;
    while i < 32
        invariant
            0 <= i <= 32,
            off + 32 <= data@.len() <= POOL_LEN,
            bytes@.len() == 32,
            forall|j: int| 0 <= j < i ==> bytes@[j] == data@[off + j],
        decreases 32 - i,
    {
        bytes[i] = data[off + i];
        i = i + 1;
    }
    let r = Key { bytes };
    assert(r@ =~= data@.subrange(off as int, off + 32));
    r
}

fn push_key(out: &mut Vec<u8>, k: &Key)
    ensures
        final(out)@ == old(out)@ + k@,
{
    let mut i: usize = 0;
    while i < 32
        invariant
            0 <= i <= 32,
            k@.len() == 32,
            out@ == old(out)@ + k@.subrange(0, i as int),
        decreases 32 - i,
    {
        out.push(k.bytes[i]);
        i = i + 1;
        assert(out@ =~= old(out)@ + k@.subrange(0, i as int));
    }
    assert(k@.subrange(0, 32) =~= k@);
}

fn push_all(out: &mut Vec<u8>, s: &Vec<u8>)
    ensures
        final(out)@ == old(out)@ + s@,
{
    let mut i: usize = 0;
    while i < s.len()
        invariant
            0 <= i <= s@.len(),
            out@ == old(out)@ + s@.subrange(0, i as int),
        decreases s@.len() - i,
    {
        out.push(s[i]);
        i = i + 1;
        assert(out@ =~= old(out)@ + s@.subrange(0, i as int));
    }
    assert(s@.subrange(0, s@.len() as int) =~= s@);
}

/// Reads a pool record from account data. Any length other than the record's
/// size, or an unknown decision byte, is `InvalidAccountData`.
pub fn unpack_pool(data: &[u8]) -> (r: Result<Pool, PoolError>)
    ensures
        match r {
            Ok(p) => pool_unpacks(data@) && p@ == pool_view_of(data@),
            Err(e) => !pool_unpacks(data@) && e == PoolError::InvalidAccountData,
        },
{
    if data.len() != POOL_LEN {
        return Err(PoolError::InvalidAccountData);
    }
    let decision = if data[178] == 0 {
        None
    } else if data[178] == 1 {
        Some(true)
    } else if data[178] == 2 {
        Some(false)
    } else {
        return Err(PoolError::InvalidAccountData);
    };
    let mint_end = slice_subrange(data, 162, 170);
    let decide_end = slice_subrange(data, 170, 178);
    Ok(
        Pool {
            version: data[0],
            bump_seed: data[1],
            token_program_id: read_key(data, 2),
            deposit_account: read_key(data, 34),
            token_pass_mint: read_key(data, 66),
            token_fail_mint: read_key(data, 98),
            decider: read_key(data, 130),
            mint_end_slot: u64_from_le_bytes(mint_end),
            decide_end_slot: u64_from_le_bytes(decide_end),
            decision,
        },
    )
}

/// Writes a pool record in its packed form.
pub fn pack_pool(p: &Pool) -> (r: Vec<u8>)
    ensures
        r@ == pool_bytes(*p),
        r@.len() == POOL_LEN,
        pool_unpacks(r@),
        pool_view_of(r@) == p@,
{
    let mut out: Vec<u8> = Vec::new();
    out.push(p.version);
    out.push(p.bump_seed);
    push_key(&mut out, &p.token_program_id);
    push_key(&mut out, &p.deposit_account);
    push_key(&mut out, &p.token_pass_mint);
    push_key(&mut out, &p.token_fail_mint);
    push_key(&mut out, &p.decider);
    let a = u64_to_le_bytes(p.mint_end_slot);
    push_all(&mut out, &a);
    let b = u64_to_le_bytes(p.decide_end_slot);
    push_all(&mut out, &b);
    let d: u8 = match p.decision {
        None => 0,
        Some(true) => 1,
        Some(false) => 2,
    };
    out.push(d);
    proof {
        let s = out@;
        assert(s =~= pool_bytes(*p));
        vstd::bytes::lemma_auto_spec_u64_to_from_le_bytes();
        assert(s.subrange(162, 170) =~= spec_u64_to_le_bytes(p.mint_end_slot));
        assert(s.subrange(170, 178) =~= spec_u64_to_le_bytes(p.decide_end_slot));
        assert(key_at(s, 2) =~= p.token_program_id@);
        assert(key_at(s, 34) =~= p.deposit_account@);
        assert(key_at(s, 66) =~= p.token_pass_mint@);
        assert(key_at(s, 98) =~= p.token_fail_mint@);
        assert(key_at(s, 130) =~= p.decider@);
    }
    out
}

} // verus!
