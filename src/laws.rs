use vstd::prelude::*;
use crate::error::MonkError;
use crate::instructions::{DepositUSDT, TransferUSDT, WithdrawUSDT, deposit_check, transfer_check, withdraw_accounts_check, withdraw_check};
use crate::authority::vault_authority;
use crate::state::{IAccountData, credited, debited};

verus! {

/// A change to one account's balance, as the operations apply it.
pub enum BalanceOp {
    Deposit(u64),
    Withdraw(u64),
    TransferOut(u64),
    TransferIn(u64),
}

/// The balance after `op`: a debit larger than the balance is refused
/// (`InvalidAmount`) and leaves it as it was.
pub open spec fn apply_op(balance: int, op: BalanceOp) -> int {
    match op {
        BalanceOp::Deposit(x) => balance + x,
        BalanceOp::TransferIn(x) => balance + x,
        BalanceOp::Withdraw(x) => if x <= balance { balance - x } else { balance },
        BalanceOp::TransferOut(x) => if x <= balance { balance - x } else { balance },
    }
}

/// The balance after the operations `ops`, in order.
pub open spec fn replay(balance: int, ops: Seq<BalanceOp>) -> int
    decreases ops.len(),
{
    if ops.len() == 0 {
        balance
    } else {
        replay(apply_op(balance, ops[0]), ops.subrange(1, ops.len() as int))
    }
}

/// The balances the operations give agree with `apply_op`: a credit adds the
/// amount, a debit within the balance subtracts it.
pub proof fn lemma_records_follow_apply_op(a: IAccountData, amount: u64)
    ensures
        a.usdt_amount + amount <= u64::MAX ==> credited(a, amount).usdt_amount == apply_op(
            a.usdt_amount as int,
            BalanceOp::Deposit(amount),
        ),
        amount <= a.usdt_amount ==> debited(a, amount).usdt_amount == apply_op(
            a.usdt_amount as int,
            BalanceOp::Withdraw(amount),
        ),
{
}

/// No sequence of deposits, withdrawals and transfers takes a balance below
/// zero.
pub proof fn lemma_balance_never_negative(balance: int, ops: Seq<BalanceOp>)
    requires
        balance >= 0,
    ensures
        replay(balance, ops) >= 0,
    decreases ops.len(),
{
    if ops.len() > 0 {
        lemma_balance_never_negative(apply_op(balance, ops[0]), ops.subrange(1, ops.len() as int));
    }
}

/// A withdrawal followed by a deposit of the same amount leaves the account
/// as it was.
pub proof fn lemma_withdraw_then_deposit(
    withdraw: WithdrawUSDT,
    deposit: DepositUSDT,
    a: IAccountData,
    amount: u64,
)
    requires
        withdraw_check(withdraw, a, amount) is Ok,
        deposit_check(deposit, debited(a, amount), amount) is Ok,
    ensures
        credited(debited(a, amount), amount) == a,
{
}

/// An internal transfer that succeeds keeps the sum of the two balances; one
/// that fails changes neither (see `transfer_usdt`).
pub proof fn lemma_transfer_conserves(ctx: TransferUSDT, source: IAccountData, destination: IAccountData, amount: u64)
    ensures
        transfer_check(ctx, source, destination, amount) is Ok ==> debited(source, amount).usdt_amount + credited(
            destination,
            amount,
        ).usdt_amount == source.usdt_amount + destination.usdt_amount,
{
}

/// A caller that does not own the account is refused with `InvalidOwner` by
/// deposit, withdrawal and transfer, before any other check; the operations
/// leave every record unchanged on a refusal.
pub proof fn lemma_foreign_caller_refused(
    deposit: DepositUSDT,
    withdraw: WithdrawUSDT,
    transfer: TransferUSDT,
    a: IAccountData,
    other: IAccountData,
    amount: u64,
)
    ensures
        deposit.owner@ != a.owner@ ==> deposit_check(deposit, a, amount) == Err::<(), MonkError>(MonkError::InvalidOwner),
        withdraw.owner@ != a.owner@ ==> withdraw_check(withdraw, a, amount) == Err::<(), MonkError>(
            MonkError::InvalidOwner,
        ),
        transfer.owner@ != a.owner@ ==> transfer_check(transfer, a, other, amount) == Err::<(), MonkError>(
            MonkError::InvalidOwner,
        ),
{
}

/// Once the earlier checks of a withdrawal pass, it is refused with
/// `InvalidAmount` exactly when the amount exceeds the balance; withdrawing
/// the whole balance succeeds and leaves zero.
pub proof fn lemma_withdraw_amount_bound(ctx: WithdrawUSDT, a: IAccountData, amount: u64)
    requires
        withdraw_accounts_check(ctx, a) is Ok,
        vault_authority(ctx.program_id@, ctx.monkpay_data.bump) is Some,
    ensures
        amount > a.usdt_amount ==> withdraw_check(ctx, a, amount) == Err::<(), MonkError>(MonkError::InvalidAmount),
        amount <= a.usdt_amount ==> withdraw_check(ctx, a, amount) is Ok,
        amount == a.usdt_amount ==> debited(a, amount).usdt_amount == 0,
{
}

} // verus!
