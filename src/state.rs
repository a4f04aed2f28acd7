use vstd::prelude::*;
use crate::address::Address;

verus! {

/// Stored bytes of a vault configuration after its 8-byte type tag.
pub const MONKPAY_SIZE: usize = 32 + 32 + 32 + 32 + 8 + 1;

/// Stored bytes of a user account after its 8-byte type tag.
pub const ACCOUNT_DATA: usize = 32 + 32 + 8 + 8;

/// The vault's singleton configuration.
#[derive(Clone, Copy, Debug, PartialEq, Eq)]
pub struct IMonkpayData {
    /// The administrator: the identity that initialised the vault.
    pub owner: Address,
    /// The companion durable-nonce account.
    pub nonce_account: Address,
    /// The nonce that, with the fixed seed, derives the vault authority.
    pub bump: u8,
    /// The vault's token holding account.
    pub usdt_account: Address,
    /// The token the vault holds.
    pub usdt_mint: Address,
    /// How many user accounts were created.
    pub total_accounts: u64,
}

/// One user's ledger entry in the vault.
#[derive(Clone, Copy, Debug, PartialEq, Eq)]
pub struct IAccountData {
    /// The identity permitted to operate this account.
    pub owner: Address,
    pub sol_amount: u64,
    /// The owner's accounted share of the vault's tokens.
    pub usdt_amount: u64,
    /// The vault configuration this account belongs to.
    pub monkpay_data: Address,
}

/// `a` with `amount` more tokens.
pub open spec fn credited(a: IAccountData, amount: u64) -> IAccountData {
    IAccountData {
        owner: a.owner,
        sol_amount: a.sol_amount,
        usdt_amount: (a.usdt_amount + amount) as u64,
        monkpay_data: a.monkpay_data,
    }
}

/// `a` with `amount` fewer tokens.
pub open spec fn debited(a: IAccountData, amount: u64) -> IAccountData {
    IAccountData {
        owner: a.owner,
        sol_amount: a.sol_amount,
        usdt_amount: (a.usdt_amount - amount) as u64,
        monkpay_data: a.monkpay_data,
    }
}

/// A fresh account of `owner` in the vault configuration `vault`.
pub open spec fn fresh_account(owner: Address, vault: Address) -> IAccountData {
    IAccountData { owner, sol_amount: 0, usdt_amount: 0, monkpay_data: vault }
}

/// `c` after one more account was registered.
pub open spec fn counted(c: IMonkpayData) -> IMonkpayData {
    IMonkpayData { total_accounts: (c.total_accounts + 1) as u64, ..c }
}

} // verus!
