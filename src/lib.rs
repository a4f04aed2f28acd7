//! Custody and accounting for one fungible token held in a pooled vault on
//! behalf of registered users.
pub mod address;
pub mod error;
pub mod token;
pub mod authority;
pub mod state;
pub mod instructions;
pub mod laws;

pub use address::Address;
pub use error::MonkError;
pub use instructions::{
    AccountRef, CreateAccount, DepositUSDT, InitMonkpay, RefundUSDT, TokenTransfer, TransferUSDT, WithdrawUSDT,
    create_account, deposit_usdt, init_monkpay, refund_usdt, transfer_usdt, withdraw_usdt,
};
pub use state::{IAccountData, IMonkpayData, ACCOUNT_DATA, MONKPAY_SIZE};
