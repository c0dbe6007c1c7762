use vstd::prelude::*;

use crate::error::ErrorCode;

verus! {

/// The size in bytes of a token account's base state.
pub const TOKEN_ACCOUNT_LEN: usize = 165;

/// The size in bytes of a multisig account, which is never a token account.
pub const MULTISIG_LEN: usize = 355;

/// solana-program's `ProgramError`, the error the token-account parser returns.
#[verifier::external_type_specification]
#[verifier::external_body]
pub struct ExProgramError(anchor_lang::solana_program::program_error::ProgramError);

/// The unsigned integer whose little-endian bytes are `b[0..8]`.
pub open spec fn le_u64(b: Seq<u8>) -> int {
    b[0] as int + 256 * (b[1] as int + 256 * (b[2] as int + 256 * (b[3] as int + 256 * (
    b[4] as int + 256 * (b[5] as int + 256 * (b[6] as int + 256 * b[7] as int))))))
}

/// Whether four bytes at `at` are an option tag: `[0,0,0,0]` or `[1,0,0,0]`.
pub open spec fn option_tag_ok(data: Seq<u8>, at: int) -> bool {
    (data[at] == 0 || data[at] == 1) && data[at + 1] == 0 && data[at + 2] == 0 && data[at + 3] == 0
}

/// Whether `data` holds an initialised token account: at least the base
/// state and not the size of a multisig, an initialised or frozen state
/// byte, well-formed option tags for the delegate, the native amount and
/// the close authority, and, where extensions follow, the account-type
/// marker and at least one byte after it.
pub open spec fn token_account_unpacks(data: Seq<u8>) -> bool {
    &&& data.len() >= TOKEN_ACCOUNT_LEN
    &&& data.len() != MULTISIG_LEN
    &&& (data[108] == 1 || data[108] == 2)
    &&& option_tag_ok(data, 72)
    &&& option_tag_ok(data, 109)
    &&& option_tag_ok(data, 129)
    &&& (data.len() > TOKEN_ACCOUNT_LEN ==> data.len() > TOKEN_ACCOUNT_LEN + 1 && data[165] == 2)
}

/// The balance recorded in a token account's data.
pub open spec fn token_account_amount(data: Seq<u8>) -> int {
    le_u64(data.subrange(64, 72))
}

/// Relies on spl-token-2022's `StateWithExtensions::<Account>::unpack`: it
/// succeeds exactly on data that holds an initialised token account, and
/// reads the balance as the little-endian `u64` at bytes 64..72.
#[verifier::external_body]
fn unpack_token_account_amount(data: &[u8]) -> (r: Result<
    u64,
    anchor_lang::solana_program::program_error::ProgramError,
>)
    ensures
        r is Ok <==> token_account_unpacks(data@),
        r is Ok ==> r->Ok_0 == token_account_amount(data@),
{
    anchor_spl::token_2022::spl_token_2022::extension::StateWithExtensions::<
        anchor_spl::token_2022::spl_token_2022::state::Account,
    >::unpack(data).map(|s| s.base.amount)
}

/// The balance held in a vault, read from the vault account's raw data;
/// data that is not an initialised token account is refused.
pub fn vault_balance(data: &[u8]) -> (r: Result<u64, ErrorCode>)
    ensures
        token_account_unpacks(data@) ==> r == Ok::<u64, ErrorCode>(
            token_account_amount(data@) as u64,
        ),
        !token_account_unpacks(data@) ==> r == Err::<u64, ErrorCode>(
            ErrorCode::InvalidAccountData,
        ),
{
    match unpack_token_account_amount(data) {
        Ok(amount) => Ok(amount),
        Err(_) => Err(ErrorCode::InvalidAccountData),
    }
}

} // verus!
