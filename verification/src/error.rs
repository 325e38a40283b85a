//! Errors reported by the service and by the remote ledger.

use vstd::prelude::*;
use crate::quantity::Quantity;

verus! {

/// Why the transport gave up on a remote call.
#[derive(Debug, Clone, Copy, PartialEq, Eq)]
pub enum RejectCode {
    NoError,
    SysFatal,
    SysTransient,
    DestinationInvalid,
    CanisterReject,
    CanisterError,
    Unknown,
}

/// A remote call that ended without an answer from the ledger itself.
#[derive(Debug, Clone, PartialEq, Eq)]
pub struct TransportFailure {
    pub code: RejectCode,
    pub message: String,
}

/// The reasons for which the remote ledger declines a transfer.
#[derive(Debug, Clone, PartialEq, Eq)]
pub enum LedgerError {
    BadFee { expected_fee: Quantity },
    BadBurn { min_burn_amount: Quantity },
    InsufficientFunds { balance: Quantity },
    TooOld,
    CreatedInFuture { ledger_time: u64 },
    Duplicate { duplicate_of: Quantity },
    TemporarilyUnavailable,
    GenericError { error_code: Quantity, message: String },
}

/// Everything that a request to the service can fail with.
#[derive(Debug, Clone, PartialEq, Eq)]
pub enum Error {
    /// A text or byte string that is no account identifier.
    InvalidIdentifier,
    /// An amount that cannot be represented in 64 bits.
    InvalidAmount,
    /// A privileged operation invoked by someone other than the service.
    Unauthorized,
    /// The ledger answered and declined.
    RemoteRejected(LedgerError),
    /// No answer arrived: the transfer may or may not have happened.
    RemoteIndeterminate(TransportFailure),
}

} // verus!
