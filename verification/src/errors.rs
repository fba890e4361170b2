//! Error taxonomy of the acceptance protocol and of the balance ledger.

use vstd::prelude::*;

verus! {

/// Why the balance ledger refused to move value. A transfer either fully
/// succeeds or fully fails with one of these reasons; no partial transfer is
/// ever visible.
#[derive(Clone, Copy, PartialEq, Eq, Debug)]
pub enum TransferError {
    /// The paying account's balance is below the requested amount.
    InsufficientBalance,
    /// Crediting the receiving account would overflow its balance.
    BalanceOverflow,
    /// The transfer instruction was rejected by the ledger for a reason of
    /// its own; used by callers that relay an outside ledger's failure.
    Rejected,
}

/// Terminal error of one submission attempt. Every failed attempt surfaces
/// exactly one of these to the caller; none is retried by the core itself.
#[derive(Clone, Copy, PartialEq, Eq, Debug)]
pub enum SubmitError {
    /// The (form, respondent) pair already has a recorded submission;
    /// non-retryable for that pair.
    DuplicateSubmission,
    /// The custodian's live balance is below the fixed payout amount at
    /// check time; retryable once the custodian is topped up.
    InsufficientCustodianFunds,
    /// The form's own remaining payable budget is below the per-respondent
    /// amount; terminal for this form until its budget is increased.
    InsufficientFormBudget,
    /// The atomic value move failed after the submission was already
    /// recorded, with the ledger's rejection reason attached.
    TransferFailed(TransferError),
    /// A decrement of the remaining budget would go negative: a defensive
    /// guard, unreachable when the funds check ran first.
    StorageUnderflow,
}

} // verus!
