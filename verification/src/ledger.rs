//! An in-memory balance ledger: named balances and an atomic transfer
//! primitive that either fully succeeds or fully fails with no partial
//! transfer ever visible.

use vstd::prelude::*;
use std::collections::HashMap;
use crate::errors::TransferError;

verus! {

/// The balance an account holds under `balances`; an account that was never
/// funded holds zero.
pub open spec fn spec_balance(balances: Map<u64, u64>, account: u64) -> u64 {
    if balances.dom().contains(account) {
        balances[account]
    } else {
        0
    }
}

/// Named balances, each in the ledger's smallest unit.
pub struct Ledger {
    accounts: HashMap<u64, u64>,
}

impl View for Ledger {
    type V = Map<u64, u64>;

    closed spec fn view(&self) -> Map<u64, u64> {
        self.accounts@
    }
}

impl Ledger {
    /// A ledger with no balances.
    pub fn new() -> (ledger: Self)
        ensures
            ledger@ == Map::<u64, u64>::empty(),
    {
        Ledger { accounts: HashMap::new() }
    }

    /// Set the balance of `account` to `amount`, creating the account if it
    /// did not exist yet.
    pub fn set_balance(&mut self, account: u64, amount: u64)
        ensures
            final(self)@ == old(self)@.insert(account, amount),
    {
        self.accounts.insert(account, amount);
    }

    /// Current balance of `account`, read immediately before any funds-check
    /// decision.
    pub fn balance_of(&self, account: u64) -> (balance: u64)
        ensures
            balance == spec_balance(self@, account),
    {
        match self.accounts.get(&account) {
            Some(balance) => *balance,
            None => 0,
        }
    }

    /// Atomically move `amount` from `from` to `to`. Either both balances
    /// change, or the transfer fails with a reason and no balance changes:
    /// no intermediate state is ever visible. It fails exactly when the
    /// paying balance is short or the receiving balance would overflow.
    pub fn transfer(&mut self, from: u64, to: u64, amount: u64) -> (result: Result<
        (),
        TransferError,
    >)
        requires
            from != to,
        ensures
            spec_balance(old(self)@, from) < amount ==> result == Err::<(), TransferError>(
                TransferError::InsufficientBalance,
            ) && final(self)@ == old(self)@,
            spec_balance(old(self)@, from) >= amount && spec_balance(old(self)@, to) + amount
                > u64::MAX ==> result == Err::<(), TransferError>(TransferError::BalanceOverflow)
                && final(self)@ == old(self)@,
            spec_balance(old(self)@, from) >= amount && spec_balance(old(self)@, to) + amount
                <= u64::MAX ==> result == Ok::<(), TransferError>(()) && final(self)@ == old(
                self,
            )@.insert(from, (spec_balance(old(self)@, from) - amount) as u64).insert(
                to,
                (spec_balance(old(self)@, to) + amount) as u64,
            ),
    {
        let from_balance = self.balance_of(from);
        if from_balance < amount {
            return Err(TransferError::InsufficientBalance);
        }
        let to_balance = self.balance_of(to);
        if amount > u64::MAX - to_balance {
            return Err(TransferError::BalanceOverflow);
        }
        self.accounts.insert(from, from_balance - amount);
        self.accounts.insert(to, to_balance + amount);
        Ok(())
    }
}

} // verus!
