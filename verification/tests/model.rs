use surveyhub::errors::{SubmitError, TransferError};
use surveyhub::form::Form;
use surveyhub::ledger::Ledger;
use surveyhub::submission::{submission_space, SubmissionLedger};

fn sample_form() -> Form {
    Form {
        id: String::from("ab"),
        system: 1,
        owner: 2,
        name: String::from("cd"),
        description: String::new(),
        created_at: 0,
        content: String::from("xyz"),
        visits: 3,
        submissions: 4,
        sum_sol: 10,
        remain_sol: 5,
        sol_per_user: 1,
        published: false,
    }
}

#[test]
fn form_size_counts_every_field() {
    let form = sample_form();
    // 129 fixed bytes plus the byte lengths of id, name, description, content.
    assert_eq!(form.get_current_size(), 129 + 2 + 2 + 0 + 3);
}

#[test]
fn form_content_len_is_byte_length() {
    let mut form = sample_form();
    assert_eq!(form.get_current_content_len(), 3);
    form.content = String::from("héllo");
    assert_eq!(form.get_current_content_len(), "héllo".len());
}

#[test]
fn submission_space_is_exact() {
    // 88 fixed bytes plus the two declared lengths.
    assert_eq!(submission_space(3, 5), 96);
    assert_eq!(submission_space(0, 0), 88);
}

#[test]
fn empty_ledgers() {
    let subs = SubmissionLedger::new();
    assert_eq!(subs.len(), 0);
    assert!(!subs.contains_pair(1, 2));

    let bank = Ledger::new();
    assert_eq!(bank.balance_of(42), 0);
}

#[test]
fn create_submission_populates_record() {
    let mut subs = SubmissionLedger::new();
    let created = subs.create_submission(9, 7, String::from("s-1"), String::from("body"), 55);
    assert_eq!(created, Ok(0));
    assert_eq!(subs.len(), 1);
    assert!(subs.contains_pair(9, 7));
    assert!(!subs.contains_pair(9, 8));
    assert!(!subs.contains_pair(8, 7));

    let record = subs.record_at(0);
    assert_eq!(record.form_id, 9);
    assert_eq!(record.author, 7);
    assert_eq!(record.id, "s-1");
    assert_eq!(record.created_at, 55);
    assert_eq!(record.content, "body");
}

#[test]
fn create_submission_refuses_second_record_for_pair() {
    let mut subs = SubmissionLedger::new();
    assert_eq!(
        subs.create_submission(9, 7, String::from("s-1"), String::from("body"), 55),
        Ok(0)
    );
    assert_eq!(
        subs.create_submission(9, 7, String::from("s-2"), String::from("other"), 56),
        Err(SubmitError::DuplicateSubmission)
    );
    assert_eq!(subs.len(), 1);
    // Other pairs on the same form, and the same respondent on another form,
    // are still free.
    assert_eq!(
        subs.create_submission(9, 8, String::from("s-3"), String::from("more"), 57),
        Ok(1)
    );
    assert_eq!(
        subs.create_submission(10, 7, String::from("s-4"), String::from("more"), 58),
        Ok(2)
    );
}

#[test]
fn transfer_moves_value_atomically() {
    let mut bank = Ledger::new();
    bank.set_balance(1, 100);
    bank.set_balance(2, 5);
    assert_eq!(bank.transfer(1, 2, 60), Ok(()));
    assert_eq!(bank.balance_of(1), 40);
    assert_eq!(bank.balance_of(2), 65);
}

#[test]
fn transfer_refuses_short_balance() {
    let mut bank = Ledger::new();
    bank.set_balance(1, 100);
    assert_eq!(
        bank.transfer(1, 2, 101),
        Err(TransferError::InsufficientBalance)
    );
    assert_eq!(bank.balance_of(1), 100);
    assert_eq!(bank.balance_of(2), 0);
    // An account that was never funded cannot pay anything.
    assert_eq!(
        bank.transfer(3, 1, 1),
        Err(TransferError::InsufficientBalance)
    );
}

#[test]
fn transfer_refuses_receiver_overflow() {
    let mut bank = Ledger::new();
    bank.set_balance(1, 100);
    bank.set_balance(2, u64::MAX - 10);
    assert_eq!(bank.transfer(1, 2, 11), Err(TransferError::BalanceOverflow));
    assert_eq!(bank.balance_of(1), 100);
    assert_eq!(bank.balance_of(2), u64::MAX - 10);
    // At the exact bound the transfer still goes through.
    assert_eq!(bank.transfer(1, 2, 10), Ok(()));
    assert_eq!(bank.balance_of(2), u64::MAX);
}

#[test]
fn set_balance_overwrites() {
    let mut bank = Ledger::new();
    bank.set_balance(1, 100);
    bank.set_balance(1, 7);
    assert_eq!(bank.balance_of(1), 7);
}
