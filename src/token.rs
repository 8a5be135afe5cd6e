//! What the pool reads of the token program's account records.

use solana_program::program_pack::{IsInitialized, Pack};
use spl_token::state::{Account, Mint};
use vstd::prelude::*;

verus! {

/// Whether the four bytes at `off` are a valid option tag: `[0, 0, 0, 0]`
/// for none or `[1, 0, 0, 0]` for some.
pub open spec fn option_tag_ok(data: Seq<u8>, off: int) -> bool {
    &&& data[off] == 0 || data[off] == 1
    &&& data[off + 1] == 0
    &&& data[off + 2] == 0
    &&& data[off + 3] == 0
}

/// Whether the mint record `data` is initialized, or `None` where it does not
/// unpack as a mint: the record is 82 bytes, the mint-authority tag at 0 and
/// the freeze-authority tag at 46 are valid, and the initialized flag at 45
/// is 0 or 1.
pub open spec fn mint_state(data: Seq<u8>) -> Option<bool> {
    if data.len() == MINT_LEN && option_tag_ok(data, 0) && option_tag_ok(data, 46) && (data[45]
        == 0 || data[45] == 1) {
        Some(data[45] == 1)
    } else {
        None
    }
}

/// Whether the token-account record `data` is initialized, or `None` where it
/// does not unpack as a token account: the record is 165 bytes, the delegate
/// tag at 72, the native-amount tag at 109 and the close-authority tag at 129
/// are valid, and the state byte at 108 is at most 2. It is initialized when
/// its state is not 0.
pub open spec fn token_account_state(data: Seq<u8>) -> Option<bool> {
    if data.len() == TOKEN_ACCOUNT_LEN && option_tag_ok(data, 72) && data[108] <= 2
        && option_tag_ok(data, 109) && option_tag_ok(data, 129) {
        Some(data[108] != 0)
    } else {
        None
    }
}

/// The size of a mint record.
pub const MINT_LEN: usize = 82;

/// The size of a token-account record.
pub const TOKEN_ACCOUNT_LEN: usize = 165;

/// Relies on `spl_token::state::Mint::unpack_unchecked`: it refuses a record
/// of another length or with an invalid option tag or flag, and otherwise
/// reads the initialized flag.
#[verifier::external_body]
pub(crate) fn read_mint(data: &[u8]) -> (r: Option<bool>)
    ensures
        r == mint_state(data@),
{
    Mint::unpack_unchecked(data).ok().map(|m| m.is_initialized)
}

/// Relies on `spl_token::state::Account::unpack_unchecked`: it refuses a record
/// of another length, with an invalid option tag or with an unknown state, and
/// otherwise reads whether the account's state is other than uninitialized.
#[verifier::external_body]
pub(crate) fn read_token_account(data: &[u8]) -> (r: Option<bool>)
    ensures
        r == token_account_state(data@),
{
    Account::unpack_unchecked(data).ok().map(|a| a.is_initialized())
}

} // verus!
