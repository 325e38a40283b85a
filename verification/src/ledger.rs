//! What is asked of the remote ledger, and what it answers.
//!
//! The calls themselves are made elsewhere: this module builds the requests
//! and interprets the replies.

use vstd::prelude::*;
use crate::error::{Error, LedgerError, TransportFailure};
use crate::identity::AccountIdentifier;
use crate::quantity::Quantity;

verus! {

/// An address on the remote ledger. No subaccount means the owner's default
/// subaccount.
#[derive(Debug, Clone, PartialEq, Eq)]
pub struct Account {
    pub owner: AccountIdentifier,
    pub subaccount: Option<Vec<u8>>,
}

/// What the caller decides about a transfer besides recipient and amount.
/// The memo is the caller's idempotency key: together with the creation time
/// it lets the ledger recognise a repeated submission.
#[derive(Debug, Clone, PartialEq, Eq)]
pub struct TransferOptions {
    pub fee: Option<u64>,
    pub memo: Vec<u8>,
    pub created_at_time: Option<u64>,
}

/// The arguments of one transfer, as the ledger takes them.
#[derive(Debug, Clone, PartialEq, Eq)]
pub struct TransferRequest {
    pub to: Account,
    pub amount: Quantity,
    pub fee: Option<Quantity>,
    pub memo: Option<Vec<u8>>,
    pub from_subaccount: Option<Vec<u8>>,
    pub created_at_time: Option<u64>,
}

/// How a transfer call ended.
#[derive(Debug, Clone, PartialEq, Eq)]
pub enum TransferReply {
    /// The ledger made the transfer and recorded it in this block.
    Committed { block_index: Quantity },
    /// The ledger answered and declined.
    Declined { error: LedgerError },
    /// The call ended without an answer from the ledger.
    Failed { failure: TransportFailure },
}

/// How a balance query ended.
#[derive(Debug, Clone, PartialEq, Eq)]
pub enum BalanceReply {
    Balance { amount: Quantity },
    Failed { failure: TransportFailure },
}

/// The owner's default account.
pub open spec fn default_account(owner: AccountIdentifier) -> Account {
    Account { owner, subaccount: None }
}

/// Whether `request` asks to move `amount` to `to` out of the ledger's
/// default source account, under `options`.
pub open spec fn is_transfer_of(
    request: TransferRequest,
    to: Account,
    amount: u64,
    options: TransferOptions,
) -> bool {
    &&& request.to == to
    &&& request.amount@ == amount
    &&& match options.fee {
        Some(fee) => request.fee matches Some(asked) && asked@ == fee,
        None => request.fee is None,
    }
    &&& request.memo == Some(options.memo)
    &&& request.from_subaccount is None
    &&& request.created_at_time == options.created_at_time
}

/// What a balance reply means to the caller.
pub open spec fn balance_result(reply: BalanceReply) -> Result<u64, Error> {
    match reply {
        BalanceReply::Balance { amount } => if amount@ <= u64::MAX {
            Ok(amount@ as u64)
        } else {
            Err(Error::InvalidAmount)
        },
        BalanceReply::Failed { failure } => Err(Error::RemoteIndeterminate(failure)),
    }
}

/// The account to ask the ledger about: the owner's default account.
pub fn query_balance(owner: AccountIdentifier) -> (account: Account)
    ensures
        account == default_account(owner),
{
    Account { owner, subaccount: None }
}

/// Builds the transfer of `amount` to `to`. The memo is always sent.
pub fn request_transfer(to: Account, amount: u64, options: TransferOptions) -> (request:
    TransferRequest)
    ensures
        is_transfer_of(request, to, amount, options),
{
    let fee = match options.fee {
        Some(fee) => Some(Quantity::from_u64(fee)),
        None => None,
    };
    TransferRequest {
        to,
        amount: Quantity::from_u64(amount),
        fee,
        memo: Some(options.memo),
        from_subaccount: None,
        created_at_time: options.created_at_time,
    }
}

/// Turns the reply to a balance query into the balance, which must fit in 64
/// bits. A call that brought no answer is reported as indeterminate.
pub fn balance_from_reply(reply: BalanceReply) -> (balance: Result<u64, Error>)
    ensures
        balance == balance_result(reply),
{
    match reply {
        BalanceReply::Balance { amount } => match amount.to_u64() {
            Some(balance) => Ok(balance),
            None => Err(Error::InvalidAmount),
        },
        BalanceReply::Failed { failure } => Err(Error::RemoteIndeterminate(failure)),
    }
}

} // verus!
