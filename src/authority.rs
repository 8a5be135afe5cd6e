//! The pool's derived authority: an address computed from the pool's identity
//! and a bump seed, off the signing curve, that only the pool program can sign
//! for.

use crate::error::PoolError;
use crate::key::Key;
use solana_program::pubkey::Pubkey;
use vstd::prelude::*;

verus! {

/// The program address derived from the seeds `[pool, [bump]]` under
/// `program_id`, or `None` where the hash of the seeds lies on the curve.
pub uninterp spec fn program_address(pool: Seq<u8>, bump: u8, program_id: Seq<u8>) -> Option<
    Seq<u8>,
>;

/// Relies on `Pubkey::create_program_address` with the two seeds `pool` and
/// `[bump]`: both are within the seed limits, so the call fails only when the
/// hashed address lies on the curve. Its result depends on the three inputs alone.
#[verifier::external_body]
fn create_program_address(pool: &Key, bump: u8, program_id: &Key) -> (r: Option<Key>)
    ensures
        match r {
            Some(k) => program_address(pool@, bump, program_id@) == Some(k@),
            None => program_address(pool@, bump, program_id@) is None,
        },
{
    let program = Pubkey::new_from_array(program_id.bytes);
    Pubkey::create_program_address(&[&pool.bytes[..], &[bump]], &program).ok().map(
        |k| Key { bytes: k.to_bytes() },
    )
}

/// The authority of the pool `pool` with seed `bump`, as a result.
pub open spec fn authority_result(program_id: Seq<u8>, pool: Seq<u8>, bump: u8) -> Result<
    Seq<u8>,
    PoolError,
> {
    match program_address(pool, bump, program_id) {
        Some(k) => Ok(k),
        None => Err(PoolError::InvalidAuthorityData),
    }
}

/// Derives the authority of a pool from its key and bump seed.
pub fn derive_authority(program_id: &Key, pool: &Key, bump_seed: u8) -> (r: Result<
    Key,
    PoolError,
>)
    ensures
        match r {
            Ok(k) => authority_result(program_id@, pool@, bump_seed) == Ok::<Seq<u8>, PoolError>(
                k@,
            ),
            Err(e) => authority_result(program_id@, pool@, bump_seed) == Err::<Seq<u8>, PoolError>(
                e,
            ),
        },
{
    match create_program_address(pool, bump_seed, program_id) {
        Some(k) => Ok(k),
        None => Err(PoolError::InvalidAuthorityData),
    }
}

/// The check every token-moving instruction makes: the account handed in as the
/// authority must be the one derived from the pool's key and stored bump seed.
pub open spec fn authority_check(program_id: Seq<u8>, pool: Seq<u8>, bump: u8, given: Seq<u8>) -> Result<
    (),
    PoolError,
> {
    match program_address(pool, bump, program_id) {
        None => Err(PoolError::InvalidAuthorityData),
        Some(k) => if k == given {
            Ok(())
        } else {
            Err(PoolError::InvalidAuthorityAccount)
        },
    }
}

/// Checks that `given` is the authority derived from `pool` and `bump_seed`.
pub fn check_authority(program_id: &Key, pool: &Key, bump_seed: u8, given: &Key) -> (r: Result<
    (),
    PoolError,
>)
    ensures
        r == authority_check(program_id@, pool@, bump_seed, given@),
{
    let k = derive_authority(program_id, pool, bump_seed)?;
    if k.same(given) {
        Ok(())
    } else {
        Err(PoolError::InvalidAuthorityAccount)
    }
}

} // verus!
