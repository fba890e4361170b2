//! The submission acceptance protocol: the ordered sequence of checks,
//! record creation and value transfer that together decide whether a
//! submission is accepted and paid.
//!
//! The states of one acceptance run, in order: funds are checked
//! ([`check_funds`]); the submission record is created and the form's
//! submission counter incremented ([`record_submission`]); the payout is
//! transferred and the form's remaining budget reconciled ([`settle`]).
//! [`submit`] runs the whole protocol against the in-memory balance ledger.
//!
//! A transfer failure after the record was created leaves a permanently
//! recorded, counted submission with no corresponding payout: the protocol
//! deliberately does not roll the record or the counter back, so a retry for
//! the same pair hits `DuplicateSubmission`. This partial-failure state is
//! specified exactly, not corrected.

use vstd::prelude::*;
use crate::errors::{SubmitError, TransferError};
use crate::form::Form;
use crate::ledger::{spec_balance, Ledger};
use crate::submission::{has_pair, Submission, SubmissionLedger};

verus! {

/// What the ledger reported of one attempted payout transfer.
pub enum TransferOutcome {
    /// The value moved in full.
    Settled,
    /// The transfer failed with this reason; no value moved.
    Failed(TransferError),
}

/// The record [`submit`] appends for an accepted pair.
pub open spec fn new_record(
    form_ref: u64,
    respondent: u64,
    submission_id: String,
    content: String,
    now: i64,
) -> Submission {
    Submission {
        form_id: form_ref,
        author: respondent,
        id: submission_id,
        created_at: now,
        content: content,
    }
}

/// `trace` records a form's remaining budget along a run of consecutive
/// successful submissions: `trace[i]` is `remain_sol` after `i` successes.
/// Each success requires one payout to be coverable and subtracts exactly
/// one payout, which is what [`settle`]'s contract gives every settled step.
pub open spec fn successful_payout_run(trace: Seq<int>, payout: int) -> bool {
    forall|i: int| #![trigger trace[i]]
        0 <= i < trace.len() - 1 ==> trace[i] >= payout && trace[i + 1] == trace[i] - payout
}

/// Budget monotonicity: over any run of consecutive successful submissions
/// on one form, the remaining budget after `n` successes equals the initial
/// remaining budget minus `n` payouts, and is never negative.
pub proof fn lemma_budget_monotonicity(trace: Seq<int>, payout: int, n: int)
    requires
        payout >= 0,
        trace[0] >= 0,
        successful_payout_run(trace, payout),
        0 <= n < trace.len(),
    ensures
        trace[n] == trace[0] - n * payout,
        trace[n] >= 0,
    decreases n,
{
    if n > 0 {
        lemma_budget_monotonicity(trace, payout, n - 1);
        assert(trace[n - 1] >= payout);
        assert((n - 1) * payout == n * payout - payout) by (nonlinear_arith);
    }
}

/// The funds check that gates every acceptance: the custodian's live balance
/// and the form's own remaining budget must each cover one payout. The two
/// checks are independent and both mandatory; the custodian check comes
/// first. On success the payout amount, in ledger units, is returned.
pub fn check_funds(form: &Form, custodian_balance: u64) -> (result: Result<u64, SubmitError>)
    ensures
        custodian_balance < form.sol_per_user
            ==> result == Err::<u64, SubmitError>(SubmitError::InsufficientCustodianFunds),
        custodian_balance >= form.sol_per_user && form.remain_sol < form.sol_per_user
            ==> result == Err::<u64, SubmitError>(SubmitError::InsufficientFormBudget),
        custodian_balance >= form.sol_per_user && form.remain_sol >= form.sol_per_user
            ==> result == Ok::<u64, SubmitError>(form.sol_per_user),
{
    let payout = form.sol_per_user;
    if custodian_balance < payout {
        return Err(SubmitError::InsufficientCustodianFunds);
    }
    if form.remain_sol < payout {
        return Err(SubmitError::InsufficientFormBudget);
    }
    Ok(payout)
}

/// Once the funds check has passed, record the submission: create the one
/// record for the pair and increment the form's submission counter. This
/// happens before any transfer is attempted. A duplicate pair fails
/// deterministically and changes nothing; the remaining budget is not
/// touched either way.
pub fn record_submission(
    form: &mut Form,
    ledger: &mut SubmissionLedger,
    form_ref: u64,
    respondent: u64,
    submission_id: String,
    content: String,
    now: i64,
) -> (result: Result<usize, SubmitError>)
    requires
        old(ledger).wf(),
        old(ledger)@.len() < usize::MAX,
        old(form).submissions < u32::MAX,
    ensures
        final(ledger).wf(),
        has_pair(old(ledger)@, form_ref, respondent)
            ==> result == Err::<usize, SubmitError>(SubmitError::DuplicateSubmission)
                && final(ledger)@ == old(ledger)@ && *final(form) == *old(form),
        !has_pair(old(ledger)@, form_ref, respondent)
            ==> result == Ok::<usize, SubmitError>(old(ledger)@.len() as usize)
                && final(ledger)@ == old(ledger)@.push(
                new_record(form_ref, respondent, submission_id, content, now),
            ) && final(form).submissions == old(form).submissions + 1
                && final(form).remain_sol == old(form).remain_sol
                && old(form).same_static_fields(&*final(form)),
{
    let index = match ledger.create_submission(form_ref, respondent, submission_id, content, now) {
        Ok(index) => index,
        Err(error) => {
            return Err(error);
        },
    };
    form.submissions = form.submissions + 1;
    Ok(index)
}

/// Reconcile the form with the outcome of the payout transfer. On a settled
/// transfer the remaining budget falls by exactly one payout; a failed
/// transfer surfaces `TransferFailed` with the ledger's reason attached and
/// leaves the form untouched. A settlement whose decrement would go negative
/// is refused as `StorageUnderflow`: a defensive guard, unreachable when the
/// funds check ran first, never a silent wrap below zero.
pub fn settle(form: &mut Form, outcome: TransferOutcome) -> (result: Result<(), SubmitError>)
    ensures
        (match outcome {
            TransferOutcome::Failed(reason) => result == Err::<(), SubmitError>(
                SubmitError::TransferFailed(reason),
            ) && *final(form) == *old(form),
            TransferOutcome::Settled => if old(form).remain_sol >= old(form).sol_per_user {
                result == Ok::<(), SubmitError>(())
                    && final(form).remain_sol
                    == old(form).remain_sol - old(form).sol_per_user
                    && final(form).submissions == old(form).submissions
                    && old(form).same_static_fields(&*final(form))
            } else {
                result == Err::<(), SubmitError>(SubmitError::StorageUnderflow)
                    && *final(form) == *old(form)
            },
        }),
        old(form).wf() ==> final(form).wf(),
{
    match outcome {
        TransferOutcome::Settled => {
            if form.remain_sol < form.sol_per_user {
                return Err(SubmitError::StorageUnderflow);
            }
            form.remain_sol = form.remain_sol - form.sol_per_user;
            Ok(())
        },
        TransferOutcome::Failed(reason) => Err(SubmitError::TransferFailed(reason)),
    }
}

/// One full acceptance run against the in-memory balance ledger, as seen by
/// a caller: check funds, record the submission, move the payout from the
/// form's custodian to the respondent, reconcile the budget. On acceptance
/// the new record's position is returned; every failure is one terminal
/// error, with exactly the state the protocol's order implies left behind.
/// A transfer failure leaves the record and the incremented counter standing
/// while budget and balances stay untouched.
pub fn submit(
    form: &mut Form,
    submissions: &mut SubmissionLedger,
    bank: &mut Ledger,
    form_ref: u64,
    respondent: u64,
    submission_id: String,
    content: String,
    now: i64,
) -> (result: Result<usize, SubmitError>)
    requires
        old(submissions).wf(),
        old(submissions)@.len() < usize::MAX,
        old(form).submissions < u32::MAX,
        respondent != old(form).system,
    ensures
        final(submissions).wf(),
        old(form).wf() ==> final(form).wf(),
        spec_balance(old(bank)@, old(form).system) < old(form).sol_per_user
            ==> result == Err::<usize, SubmitError>(SubmitError::InsufficientCustodianFunds)
                && *final(form) == *old(form) && final(submissions)@ == old(submissions)@
                && final(bank)@ == old(bank)@,
        spec_balance(old(bank)@, old(form).system) >= old(form).sol_per_user
            && old(form).remain_sol < old(form).sol_per_user
            ==> result == Err::<usize, SubmitError>(SubmitError::InsufficientFormBudget)
                && *final(form) == *old(form) && final(submissions)@ == old(submissions)@
                && final(bank)@ == old(bank)@,
        spec_balance(old(bank)@, old(form).system) >= old(form).sol_per_user
            && old(form).remain_sol >= old(form).sol_per_user
            && has_pair(old(submissions)@, form_ref, respondent)
            ==> result == Err::<usize, SubmitError>(SubmitError::DuplicateSubmission)
                && *final(form) == *old(form) && final(submissions)@ == old(submissions)@
                && final(bank)@ == old(bank)@,
        spec_balance(old(bank)@, old(form).system) >= old(form).sol_per_user
            && old(form).remain_sol >= old(form).sol_per_user
            && !has_pair(old(submissions)@, form_ref, respondent)
            ==> final(submissions)@ == old(submissions)@.push(
                new_record(form_ref, respondent, submission_id, content, now),
            ) && final(form).submissions == old(form).submissions + 1
                && old(form).same_static_fields(&*final(form))
                && (if spec_balance(old(bank)@, respondent) + old(form).sol_per_user
                    <= u64::MAX {
                    result == Ok::<usize, SubmitError>(old(submissions)@.len() as usize)
                        && final(form).remain_sol
                        == old(form).remain_sol - old(form).sol_per_user
                        && final(bank)@ == old(bank)@.insert(
                        old(form).system,
                        (spec_balance(old(bank)@, old(form).system)
                            - old(form).sol_per_user) as u64,
                    ).insert(
                        respondent,
                        (spec_balance(old(bank)@, respondent) + old(form).sol_per_user) as u64,
                    )
                } else {
                    result == Err::<usize, SubmitError>(
                        SubmitError::TransferFailed(TransferError::BalanceOverflow),
                    ) && final(form).remain_sol == old(form).remain_sol
                        && final(bank)@ == old(bank)@
                }),
{
    let payout = form.sol_per_user;
    let custodian = form.system;
    let custodian_balance = bank.balance_of(custodian);
    if let Err(error) = check_funds(form, custodian_balance) {
        return Err(error);
    }
    let index = match record_submission(
        form,
        submissions,
        form_ref,
        respondent,
        submission_id,
        content,
        now,
    ) {
        Ok(index) => index,
        Err(error) => {
            return Err(error);
        },
    };
    let outcome = match bank.transfer(custodian, respondent, payout) {
        Ok(()) => TransferOutcome::Settled,
        Err(reason) => TransferOutcome::Failed(reason),
    };
    match settle(form, outcome) {
        Ok(()) => Ok(index),
        Err(error) => Err(error),
    }
}

} // verus!
