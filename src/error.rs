use vstd::prelude::*;

verus! {

/// Every way an operation on the vault can be refused.
#[derive(Clone, Copy, Debug, PartialEq, Eq, Structural)]
pub enum MonkError {
    /// The caller is not the identity the record or token account names.
    InvalidOwner,
    /// A token account holds another token than the vault's.
    InvalidMint,
    /// The destination is not the vault's holding account.
    InvalidDestinationAccount,
    /// The source is not the vault's holding account.
    InvalidSourceAccount,
    /// The amount exceeds the balance it is taken from.
    InvalidAmount,
    /// The token program refused to mint.
    TokenMintToFailed,
    /// The token program refused to change an authority.
    TokenSetAuthorityFailed,
    /// The token program refused to move the tokens.
    TokenTransferFailed,
    /// A token or mint account's data does not decode.
    InvalidAccountData,
    /// The vault configuration exists already.
    AlreadyInitialized,
    /// The vault account is not the address derived from the seed and nonce.
    InvalidAuthority,
    /// The nonce gives no derived address.
    DerivationExhausted,
    /// The new balance would not fit in 64 bits.
    BalanceOverflow,
    /// The account counter is at its largest value.
    AccountCounterFull,
}

} // verus!
