use vstd::prelude::*;
use crate::address::Address;
use crate::authority::{resolve_authority, vault_authority};
use crate::error::MonkError;
use crate::state::{IAccountData, IMonkpayData, credited, debited, fresh_account, counted};
use crate::token::{check_mint, read_token_account, mint_valid, token_account_valid, token_mint, token_owner};

verus! {

/// An account as the runtime presents it: its address and its raw data.
#[derive(Clone, Debug)]
pub struct AccountRef {
    pub key: Address,
    pub data: Vec<u8>,
}

/// A token movement the host must perform through the token program, in the
/// same unit as the record update that came with it.
#[derive(Clone, Copy, Debug, PartialEq, Eq)]
pub struct TokenTransfer {
    pub source: Address,
    pub destination: Address,
    /// The identity that signs: the caller, or the vault authority.
    pub authority: Address,
    /// The nonce to sign with when the vault authority signs.
    pub signer_bump: Option<u8>,
    pub amount: u64,
}

/// The accounts of a withdrawal.
#[derive(Clone, Debug)]
pub struct WithdrawUSDT {
    /// The signing caller.
    pub owner: Address,
    pub monkpay_data: IMonkpayData,
    /// This program's own address, under which the vault authority is derived.
    pub program_id: Address,
    pub usdt_mint: AccountRef,
    pub source_account: AccountRef,
    pub destination_account: AccountRef,
}

/// The checks of a withdrawal on the caller and the accounts involved, first
/// failure first.
pub open spec fn withdraw_accounts_check(ctx: WithdrawUSDT, account: IAccountData) -> Result<(), MonkError> {
    if account.owner@ != ctx.owner@ {
        Err(MonkError::InvalidOwner)
    } else if !mint_valid(ctx.usdt_mint.data@) || !token_account_valid(ctx.source_account.data@)
        || !token_account_valid(ctx.destination_account.data@) {
        Err(MonkError::InvalidAccountData)
    } else if ctx.monkpay_data.usdt_account@ != ctx.source_account.key@ {
        Err(MonkError::InvalidSourceAccount)
    } else if token_owner(ctx.destination_account.data@) != ctx.owner@ {
        Err(MonkError::InvalidOwner)
    } else {
        Ok(())
    }
}

/// The outcome of all checks of a withdrawal, first failure first.
pub open spec fn withdraw_check(ctx: WithdrawUSDT, account: IAccountData, amount: u64) -> Result<(), MonkError> {
    if withdraw_accounts_check(ctx, account) is Err {
        withdraw_accounts_check(ctx, account)
    } else if amount > account.usdt_amount {
        Err(MonkError::InvalidAmount)
    } else if vault_authority(ctx.program_id@, ctx.monkpay_data.bump) is None {
        Err(MonkError::DerivationExhausted)
    } else {
        Ok(())
    }
}

/// Takes `amount` out of the caller's account and orders it moved from the
/// vault's holding account to the caller's token account, signed by the
/// vault authority. On any failure the account is left as it was.
pub fn withdraw_usdt(ctx: &WithdrawUSDT, account_data: &mut IAccountData, amount: u64) -> (r: Result<TokenTransfer, MonkError>)
    ensures
        match withdraw_check(*ctx, *old(account_data), amount) {
            Ok(()) => {
                &&& *final(account_data) == debited(*old(account_data), amount)
                &&& r matches Ok(t) && {
                    &&& t.source == ctx.source_account.key
                    &&& t.destination == ctx.destination_account.key
                    &&& vault_authority(ctx.program_id@, ctx.monkpay_data.bump) == Some(t.authority@)
                    &&& t.signer_bump == Some(ctx.monkpay_data.bump)
                    &&& t.amount == amount
                }
            },
            Err(e) => r == Err::<TokenTransfer, MonkError>(e) && *final(account_data) == *old(account_data),
        },
{
    if !account_data.owner.same(&ctx.owner) {
        return Err(MonkError::InvalidOwner);
    }
    check_mint(&ctx.usdt_mint.data)?;
    let _source = read_token_account(&ctx.source_account.data)?;
    let destination = read_token_account(&ctx.destination_account.data)?;
    if !ctx.monkpay_data.usdt_account.same(&ctx.source_account.key) {
        return Err(MonkError::InvalidSourceAccount);
    }
    if !destination.owner.same(&ctx.owner) {
        return Err(MonkError::InvalidOwner);
    }
    if amount > account_data.usdt_amount {
        return Err(MonkError::InvalidAmount);
    }
    let authority = match resolve_authority(&ctx.program_id, ctx.monkpay_data.bump) {
        Some(a) => a,
        None => return Err(MonkError::DerivationExhausted),
    };
    account_data.usdt_amount = account_data.usdt_amount - amount;
    Ok(TokenTransfer {
        source: ctx.source_account.key,
        destination: ctx.destination_account.key,
        authority,
        signer_bump: Some(ctx.monkpay_data.bump),
        amount,
    })
}

/// The accounts of a deposit.
#[derive(Clone, Debug)]
pub struct DepositUSDT {
    /// The signing caller.
    pub owner: Address,
    pub monkpay_data: IMonkpayData,
    pub usdt_mint: AccountRef,
    pub source_account: AccountRef,
    pub destination_account: AccountRef,
}

/// The outcome of the checks of a deposit, first failure first.
pub open spec fn deposit_check(ctx: DepositUSDT, account: IAccountData, amount: u64) -> Result<(), MonkError> {
    if account.owner@ != ctx.owner@ {
        Err(MonkError::InvalidOwner)
    } else if !mint_valid(ctx.usdt_mint.data@) || !token_account_valid(ctx.source_account.data@)
        || !token_account_valid(ctx.destination_account.data@) {
        Err(MonkError::InvalidAccountData)
    } else if token_mint(ctx.source_account.data@) != ctx.monkpay_data.usdt_mint@ {
        Err(MonkError::InvalidMint)
    } else if token_owner(ctx.source_account.data@) != ctx.owner@ {
        Err(MonkError::InvalidOwner)
    } else if ctx.monkpay_data.usdt_account@ != ctx.destination_account.key@ {
        Err(MonkError::InvalidDestinationAccount)
    } else if account.usdt_amount + amount > u64::MAX {
        Err(MonkError::BalanceOverflow)
    } else {
        Ok(())
    }
}

/// The token movement of a deposit: from the caller's token account to the
/// vault's, signed by the caller.
pub open spec fn deposit_order(ctx: DepositUSDT, amount: u64) -> TokenTransfer {
    TokenTransfer {
        source: ctx.source_account.key,
        destination: ctx.destination_account.key,
        authority: ctx.owner,
        signer_bump: None,
        amount,
    }
}

/// Adds `amount` to the caller's account and orders it moved from the
/// caller's token account into the vault's. On any failure the account is
/// left as it was.
pub fn deposit_usdt(ctx: &DepositUSDT, account_data: &mut IAccountData, amount: u64) -> (r: Result<TokenTransfer, MonkError>)
    ensures
        match deposit_check(*ctx, *old(account_data), amount) {
            Ok(()) => r == Ok::<TokenTransfer, MonkError>(deposit_order(*ctx, amount))
                && *final(account_data) == credited(*old(account_data), amount),
            Err(e) => r == Err::<TokenTransfer, MonkError>(e) && *final(account_data) == *old(account_data),
        },
{
    if !account_data.owner.same(&ctx.owner) {
        return Err(MonkError::InvalidOwner);
    }
    check_mint(&ctx.usdt_mint.data)?;
    let source = read_token_account(&ctx.source_account.data)?;
    let _destination = read_token_account(&ctx.destination_account.data)?;
    if !source.mint.same(&ctx.monkpay_data.usdt_mint) {
        return Err(MonkError::InvalidMint);
    }
    if !source.owner.same(&ctx.owner) {
        return Err(MonkError::InvalidOwner);
    }
    if !ctx.monkpay_data.usdt_account.same(&ctx.destination_account.key) {
        return Err(MonkError::InvalidDestinationAccount);
    }
    if amount > u64::MAX - account_data.usdt_amount {
        return Err(MonkError::BalanceOverflow);
    }
    account_data.usdt_amount = account_data.usdt_amount + amount;
    Ok(TokenTransfer {
        source: ctx.source_account.key,
        destination: ctx.destination_account.key,
        authority: ctx.owner,
        signer_bump: None,
        amount,
    })
}

/// The accounts of a refund.
#[derive(Clone, Debug)]
pub struct RefundUSDT {
    /// The signing caller.
    pub owner: Address,
    pub monkpay_data: IMonkpayData,
    /// This program's own address, under which the vault authority is derived.
    pub program_id: Address,
    pub source_account: AccountRef,
    pub destination_account: AccountRef,
}

/// The outcome of the checks of a refund, first failure first.
pub open spec fn refund_check(ctx: RefundUSDT) -> Result<(), MonkError> {
    if ctx.monkpay_data.owner@ != ctx.owner@ {
        Err(MonkError::InvalidOwner)
    } else if !token_account_valid(ctx.source_account.data@) || !token_account_valid(ctx.destination_account.data@) {
        Err(MonkError::InvalidAccountData)
    } else if ctx.monkpay_data.usdt_account@ != ctx.source_account.key@ {
        Err(MonkError::InvalidSourceAccount)
    } else if token_owner(ctx.destination_account.data@) != ctx.owner@ {
        Err(MonkError::InvalidOwner)
    } else if vault_authority(ctx.program_id@, ctx.monkpay_data.bump) is None {
        Err(MonkError::DerivationExhausted)
    } else {
        Ok(())
    }
}

/// Orders `amount` moved from the vault's holding account to a token account
/// of the administrator, signed by the vault authority. This is an
/// administrative sweep: no user account is debited, so afterwards the sum of
/// the accounts may exceed what the vault holds.
pub fn refund_usdt(ctx: &RefundUSDT, amount: u64) -> (r: Result<TokenTransfer, MonkError>)
    ensures
        match refund_check(*ctx) {
            Ok(()) => r matches Ok(t) && {
                &&& t.source == ctx.source_account.key
                &&& t.destination == ctx.destination_account.key
                &&& vault_authority(ctx.program_id@, ctx.monkpay_data.bump) == Some(t.authority@)
                &&& t.signer_bump == Some(ctx.monkpay_data.bump)
                &&& t.amount == amount
            },
            Err(e) => r == Err::<TokenTransfer, MonkError>(e),
        },
{
    if !ctx.monkpay_data.owner.same(&ctx.owner) {
        return Err(MonkError::InvalidOwner);
    }
    let _source = read_token_account(&ctx.source_account.data)?;
    let destination = read_token_account(&ctx.destination_account.data)?;
    if !ctx.monkpay_data.usdt_account.same(&ctx.source_account.key) {
        return Err(MonkError::InvalidSourceAccount);
    }
    if !destination.owner.same(&ctx.owner) {
        return Err(MonkError::InvalidOwner);
    }
    let authority = match resolve_authority(&ctx.program_id, ctx.monkpay_data.bump) {
        Some(a) => a,
        None => return Err(MonkError::DerivationExhausted),
    };
    Ok(TokenTransfer {
        source: ctx.source_account.key,
        destination: ctx.destination_account.key,
        authority,
        signer_bump: Some(ctx.monkpay_data.bump),
        amount,
    })
}

/// The accounts of an internal transfer.
#[derive(Clone, Copy, Debug)]
pub struct TransferUSDT {
    /// The signing caller.
    pub owner: Address,
    /// The address of the account debited.
    pub source_account_data: Address,
    /// The address of the account credited.
    pub destination_account_data: Address,
}

/// The outcome of the checks of an internal transfer, first failure first.
pub open spec fn transfer_check(
    ctx: TransferUSDT,
    source: IAccountData,
    destination: IAccountData,
    amount: u64,
) -> Result<(), MonkError> {
    if ctx.owner@ != source.owner@ {
        Err(MonkError::InvalidOwner)
    } else if amount > source.usdt_amount {
        Err(MonkError::InvalidAmount)
    } else if ctx.source_account_data@ == ctx.destination_account_data@ {
        Err(MonkError::InvalidDestinationAccount)
    } else if destination.usdt_amount + amount > u64::MAX {
        Err(MonkError::BalanceOverflow)
    } else {
        Ok(())
    }
}

/// Moves `amount` from one user account to another, with no token movement.
/// An account cannot pay itself. On failure neither account changes.
pub fn transfer_usdt(
    ctx: &TransferUSDT,
    source_account_data: &mut IAccountData,
    destination_account_data: &mut IAccountData,
    amount: u64,
) -> (r: Result<(), MonkError>)
    ensures
        match transfer_check(*ctx, *old(source_account_data), *old(destination_account_data), amount) {
            Ok(()) => {
                &&& r is Ok
                &&& *final(source_account_data) == debited(*old(source_account_data), amount)
                &&& *final(destination_account_data) == credited(*old(destination_account_data), amount)
            },
            Err(e) => {
                &&& r == Err::<(), MonkError>(e)
                &&& *final(source_account_data) == *old(source_account_data)
                &&& *final(destination_account_data) == *old(destination_account_data)
            },
        },
{
    if !ctx.owner.same(&source_account_data.owner) {
        return Err(MonkError::InvalidOwner);
    }
    if amount > source_account_data.usdt_amount {
        return Err(MonkError::InvalidAmount);
    }
    if ctx.source_account_data.same(&ctx.destination_account_data) {
        return Err(MonkError::InvalidDestinationAccount);
    }
    if amount > u64::MAX - destination_account_data.usdt_amount {
        return Err(MonkError::BalanceOverflow);
    }
    source_account_data.usdt_amount = source_account_data.usdt_amount - amount;
    destination_account_data.usdt_amount = destination_account_data.usdt_amount + amount;
    Ok(())
}

/// The accounts of a vault initialisation.
#[derive(Clone, Debug)]
pub struct InitMonkpay {
    /// The signing caller, who becomes the administrator.
    pub signer: Address,
    /// Whether the configuration record already holds a configuration.
    pub monkpay_data_in_use: bool,
    pub nonce_account: Address,
    /// The vault's token holding account.
    pub usdt_account: AccountRef,
    pub usdt_mint: Address,
    /// The vault authority the caller claims for the nonce.
    pub vault: Address,
    /// This program's own address, under which the vault authority is derived.
    pub program_id: Address,
}

/// The outcome of a vault initialisation with nonce `bump`.
pub open spec fn init_result(ctx: InitMonkpay, bump: u8) -> Result<IMonkpayData, MonkError> {
    if ctx.monkpay_data_in_use {
        Err(MonkError::AlreadyInitialized)
    } else if !token_account_valid(ctx.usdt_account.data@) {
        Err(MonkError::InvalidAccountData)
    } else if token_mint(ctx.usdt_account.data@) != ctx.usdt_mint@ {
        Err(MonkError::InvalidMint)
    } else if vault_authority(ctx.program_id@, bump) is None {
        Err(MonkError::DerivationExhausted)
    } else if vault_authority(ctx.program_id@, bump) != Some(ctx.vault@) {
        Err(MonkError::InvalidAuthority)
    } else {
        Ok(IMonkpayData {
            owner: ctx.signer,
            nonce_account: ctx.nonce_account,
            bump,
            usdt_account: ctx.usdt_account.key,
            usdt_mint: ctx.usdt_mint,
            total_accounts: 0,
        })
    }
}

/// Creates the vault configuration, with the caller as administrator and no
/// accounts registered.
pub fn init_monkpay(ctx: &InitMonkpay, bump: u8) -> (r: Result<IMonkpayData, MonkError>)
    ensures
        r == init_result(*ctx, bump),
{
    if ctx.monkpay_data_in_use {
        return Err(MonkError::AlreadyInitialized);
    }
    let holding = read_token_account(&ctx.usdt_account.data)?;
    if !holding.mint.same(&ctx.usdt_mint) {
        return Err(MonkError::InvalidMint);
    }
    match resolve_authority(&ctx.program_id, bump) {
        None => return Err(MonkError::DerivationExhausted),
        Some(a) => {
            if !a.same(&ctx.vault) {
                return Err(MonkError::InvalidAuthority);
            }
        },
    }
    Ok(IMonkpayData {
        owner: ctx.signer,
        nonce_account: ctx.nonce_account,
        bump,
        usdt_account: ctx.usdt_account.key,
        usdt_mint: ctx.usdt_mint,
        total_accounts: 0,
    })
}

/// The accounts of an account creation.
#[derive(Clone, Copy, Debug)]
pub struct CreateAccount {
    /// The signing caller, who owns the new account.
    pub owner: Address,
    /// The address of the vault configuration.
    pub monkpay_data: Address,
}

/// Registers a new empty account of the caller and counts it in the
/// configuration; refused, with the configuration unchanged, once the counter
/// is at its largest value.
pub fn create_account(ctx: &CreateAccount, monkpay_data: &mut IMonkpayData) -> (r: Result<IAccountData, MonkError>)
    ensures
        old(monkpay_data).total_accounts < u64::MAX ==> {
            &&& r == Ok::<IAccountData, MonkError>(fresh_account(ctx.owner, ctx.monkpay_data))
            &&& *final(monkpay_data) == counted(*old(monkpay_data))
        },
        old(monkpay_data).total_accounts == u64::MAX ==> {
            &&& r == Err::<IAccountData, MonkError>(MonkError::AccountCounterFull)
            &&& *final(monkpay_data) == *old(monkpay_data)
        },
{
    if monkpay_data.total_accounts == u64::MAX {
        return Err(MonkError::AccountCounterFull);
    }
    monkpay_data.total_accounts = monkpay_data.total_accounts + 1;
    Ok(IAccountData { owner: ctx.owner, sol_amount: 0, usdt_amount: 0, monkpay_data: ctx.monkpay_data })
}

} // verus!
