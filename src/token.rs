use vstd::prelude::*;
use crate::address::Address;
use spl_token::solana_program::program_error::ProgramError;
use spl_token::solana_program::program_pack::Pack;

verus! {

#[verifier::external_type_specification]
#[verifier::external_body]
pub struct ExProgramError(ProgramError);

/// Bytes of a packed token account.
pub const TOKEN_ACCOUNT_LEN: usize = 165;

/// Bytes of a packed mint.
pub const MINT_LEN: usize = 82;

/// The four-byte tag of an optional field is 0 (absent) or 1 (present).
pub open spec fn option_tag_ok(d: Seq<u8>, at: int) -> bool {
    &&& (d[at] == 0 || d[at] == 1)
    &&& d[at + 1] == 0
    &&& d[at + 2] == 0
    &&& d[at + 3] == 0
}

/// Packed token account: mint, owner, amount, delegate, state,
/// native reserve, delegated amount, close authority.
pub open spec fn token_account_valid(d: Seq<u8>) -> bool {
    &&& d.len() >= 165
    &&& option_tag_ok(d, 72)
    &&& d[108] <= 2
    &&& option_tag_ok(d, 109)
    &&& option_tag_ok(d, 129)
}

/// Packed mint: mint authority, supply, decimals, initialised flag,
/// freeze authority.
pub open spec fn mint_valid(d: Seq<u8>) -> bool {
    &&& d.len() >= 82
    &&& option_tag_ok(d, 0)
    &&& d[45] <= 1
    &&& option_tag_ok(d, 46)
}

/// The mint a packed token account names.
pub open spec fn token_mint(d: Seq<u8>) -> Seq<u8> {
    d.subrange(0, 32)
}

/// The owner a packed token account names.
pub open spec fn token_owner(d: Seq<u8>) -> Seq<u8> {
    d.subrange(32, 64)
}

/// What the vault reads of a token account.
#[derive(Clone, Copy, Debug)]
pub struct TokenAccount {
    pub mint: Address,
    pub owner: Address,
}

/// Relies on spl_token's `Account::unpack_from_slice`: it reads the first 165
/// bytes, takes mint and owner from the first two 32-byte fields, and fails
/// exactly when an option tag or the state byte is out of range.
#[verifier::external_body]
fn unpack_token_account(data: &Vec<u8>) -> (r: Result<TokenAccount, ProgramError>)
    requires
        data@.len() >= 165,
    ensures
        r is Ok <==> token_account_valid(data@),
        r matches Ok(a) ==> a.mint@ == token_mint(data@) && a.owner@ == token_owner(data@),
{
    match spl_token::state::Account::unpack_from_slice(data.as_slice()) {
        Ok(a) => Ok(TokenAccount {
            mint: Address { bytes: a.mint.to_bytes() },
            owner: Address { bytes: a.owner.to_bytes() },
        }),
        Err(e) => Err(e),
    }
}

/// Relies on spl_token's `Mint::unpack_from_slice`: it reads the first 82
/// bytes and fails exactly when an option tag or the initialised flag is out
/// of range.
#[verifier::external_body]
fn unpack_mint(data: &Vec<u8>) -> (r: Result<(), ProgramError>)
    requires
        data@.len() >= 82,
    ensures
        r is Ok <==> mint_valid(data@),
{
    match spl_token::state::Mint::unpack_from_slice(data.as_slice()) {
        Ok(_) => Ok(()),
        Err(e) => Err(e),
    }
}

/// Decodes a token account, mapping every decoding failure to
/// `InvalidAccountData`.
pub fn read_token_account(data: &Vec<u8>) -> (r: Result<TokenAccount, crate::error::MonkError>)
    ensures
        r is Ok <==> token_account_valid(data@),
        r matches Err(e) ==> e == crate::error::MonkError::InvalidAccountData,
        r matches Ok(a) ==> a.mint@ == token_mint(data@) && a.owner@ == token_owner(data@),
{
    if data.len() < TOKEN_ACCOUNT_LEN {
        return Err(crate::error::MonkError::InvalidAccountData);
    }
    match unpack_token_account(data) {
        Ok(a) => Ok(a),
        Err(_) => Err(crate::error::MonkError::InvalidAccountData),
    }
}

/// Checks that a mint account decodes.
pub fn check_mint(data: &Vec<u8>) -> (r: Result<(), crate::error::MonkError>)
    ensures
        r is Ok <==> mint_valid(data@),
        r matches Err(e) ==> e == crate::error::MonkError::InvalidAccountData,
{
    if data.len() < MINT_LEN {
        return Err(crate::error::MonkError::InvalidAccountData);
    }
    match unpack_mint(data) {
        Ok(()) => Ok(()),
        Err(_) => Err(crate::error::MonkError::InvalidAccountData),
    }
}

} // verus!
