//! Instructions of the pool and their byte form: one tag byte, then the
//! variant's fields, integers little-endian, with nothing after them.

use crate::error::PoolError;
use crate::key::Key;
use vstd::bytes::{spec_u64_from_le_bytes, spec_u64_to_le_bytes, u64_from_le_bytes, u64_to_le_bytes};
use vstd::prelude::*;
use vstd::slice::slice_subrange;

verus! {

/// Arguments of pool initialization.
#[derive(Clone, Copy, Debug, PartialEq, Eq, Structural)]
pub struct InitArgs {
    /// Slot from which deposits can no longer be reversed.
    pub mint_end_slot: u64,
    /// Last slot at which a decision may be recorded.
    pub decide_end_slot: u64,
    /// Seed of the pool's derived authority.
    pub bump_seed: u8,
}

/// An instruction of the pool.
#[derive(Clone, Copy, Debug, PartialEq, Eq, Structural)]
pub enum Instruction {
    /// Creates a pool, its collateral account and its two outcome mints.
    InitPool(InitArgs),
    /// Locks collateral and mints as many PASS and FAIL tokens.
    Deposit(u64),
    /// Burns outcome tokens and releases collateral, as the phase allows.
    Withdraw(u64),
    /// Records the outcome: `true` for PASS.
    Decide(bool),
}

/// Instructions of the oracle-pair variant of the pool, which names its decider
/// in the instruction rather than among the accounts.
#[derive(Clone, Copy, Debug, PartialEq, Eq)]
pub enum OraclePairInstruction {
    /// Initializes a new oracle pair.
    InitOraclePair {
        /// Who decides the outcome.
        decider: Key,
        /// Slot from which deposits can no longer be reversed.
        mint_end_slot: u64,
        /// Last slot at which a decision may be recorded.
        decide_end_slot: u64,
        /// Seed of the pool's derived authority.
        nonce: u8,
    },
    /// Deposit in the pool.
    Deposit(u64),
    /// Withdraw from the pool.
    Withdraw(u64),
    /// Trigger the decision.
    Decide(bool),
}

/// The bytes of an instruction.
pub open spec fn instruction_bytes(i: Instruction) -> Seq<u8> {
    match i {
        Instruction::InitPool(a) => seq![0u8] + spec_u64_to_le_bytes(a.mint_end_slot)
            + spec_u64_to_le_bytes(a.decide_end_slot) + seq![a.bump_seed],
        Instruction::Deposit(n) => seq![1u8] + spec_u64_to_le_bytes(n),
        Instruction::Withdraw(n) => seq![2u8] + spec_u64_to_le_bytes(n),
        Instruction::Decide(b) => seq![3u8, if b { 1u8 } else { 0u8 }],
    }
}

/// The instruction that the bytes `s` hold, if any.
pub open spec fn instruction_of(s: Seq<u8>) -> Option<Instruction> {
    if s.len() == 0 {
        None
    } else if s[0] == 0 && s.len() == 18 {
        Some(
            Instruction::InitPool(
                InitArgs {
                    mint_end_slot: spec_u64_from_le_bytes(s.subrange(1, 9)),
                    decide_end_slot: spec_u64_from_le_bytes(s.subrange(9, 17)),
                    bump_seed: s[17],
                },
            ),
        )
    } else if s[0] == 1 && s.len() == 9 {
        Some(Instruction::Deposit(spec_u64_from_le_bytes(s.subrange(1, 9))))
    } else if s[0] == 2 && s.len() == 9 {
        Some(Instruction::Withdraw(spec_u64_from_le_bytes(s.subrange(1, 9))))
    } else if s[0] == 3 && s.len() == 2 && (s[1] == 0 || s[1] == 1) {
        Some(Instruction::Decide(s[1] == 1))
    } else {
        None
    }
}

impl Instruction {
    /// Decodes an instruction; bytes that hold none are `InstructionUnpackError`.
    pub fn unpack(input: &[u8]) -> (r: Result<Instruction, PoolError>)
        ensures
            match r {
                Ok(i) => instruction_of(input@) == Some(i),
                Err(e) => instruction_of(input@) is None && e == PoolError::InstructionUnpackError,
            },
    {
        let n = input.len();
        if n == 0 {
            return Err(PoolError::InstructionUnpackError);
        }
        let tag = input[0];
        if tag == 0 && n == 18 {
            let a = u64_from_le_bytes(slice_subrange(input, 1, 9));
            let b = u64_from_le_bytes(slice_subrange(input, 9, 17));
            Ok(Instruction::InitPool(InitArgs { mint_end_slot: a, decide_end_slot: b, bump_seed: input[17] }))
        } else if tag == 1 && n == 9 {
            Ok(Instruction::Deposit(u64_from_le_bytes(slice_subrange(input, 1, 9))))
        } else if tag == 2 && n == 9 {
            Ok(Instruction::Withdraw(u64_from_le_bytes(slice_subrange(input, 1, 9))))
        } else if tag == 3 && n == 2 && (input[1] == 0 || input[1] == 1) {
            Ok(Instruction::Decide(input[1] == 1))
        } else {
            Err(PoolError::InstructionUnpackError)
        }
    }

    /// Encodes an instruction.
    pub fn pack(&self) -> (r: Vec<u8>)
        ensures
            r@ == instruction_bytes(*self),
    {
        let mut out: Vec<u8> = Vec::new();
        match self {
            Instruction::InitPool(a) => {
                out.push(0u8);
                let mut x = u64_to_le_bytes(a.mint_end_slot);
                out.append(&mut x);
                let mut y = u64_to_le_bytes(a.decide_end_slot);
                out.append(&mut y);
                out.push(a.bump_seed);
            },
            Instruction::Deposit(n) => {
                out.push(1u8);
                let mut x = u64_to_le_bytes(*n);
                out.append(&mut x);
            },
            Instruction::Withdraw(n) => {
                out.push(2u8);
                let mut x = u64_to_le_bytes(*n);
                out.append(&mut x);
            },
            Instruction::Decide(b) => {
                out.push(3u8);
                out.push(if *b { 1u8 } else { 0u8 });
            },
        }
        assert(out@ =~= instruction_bytes(*self));
        out
    }
}

/// Decoding the encoding of an instruction gives the instruction back.
pub proof fn lemma_instruction_round_trip(i: Instruction)
    ensures
        instruction_of(instruction_bytes(i)) == Some(i),
{
    vstd::bytes::lemma_auto_spec_u64_to_from_le_bytes();
    let s = instruction_bytes(i);
    match i {
        Instruction::InitPool(a) => {
            assert(s.subrange(1, 9) =~= spec_u64_to_le_bytes(a.mint_end_slot));
            assert(s.subrange(9, 17) =~= spec_u64_to_le_bytes(a.decide_end_slot));
        },
        Instruction::Deposit(n) => {
            assert(s.subrange(1, 9) =~= spec_u64_to_le_bytes(n));
        },
        Instruction::Withdraw(n) => {
            assert(s.subrange(1, 9) =~= spec_u64_to_le_bytes(n));
        },
        Instruction::Decide(b) => {},
    }
}

} // verus!
