//! Checking the user's recall of one account's secret, or of every account's
//! in turn.

use vstd::prelude::*;
use crate::database::{get_account, has_name, hash_of, records_of, Account, AccountStore, Record};
use crate::error::AppErrors;
use crate::password::{verify_outcome, verify_password};

verus! {

/// Which account to check: one by name, or all of them where there is none.
pub struct Command {
    pub account: Option<String>,
}

/// How many of the first `attempts.len()` records the attempts, taken in
/// order, match.
pub open spec fn count_correct(records: Seq<Record>, attempts: Seq<Seq<u8>>) -> nat
    decreases attempts.len(),
{
    if attempts.len() == 0 {
        0
    } else {
        let i = attempts.len() - 1;
        count_correct(records, attempts.drop_last()) + if verify_outcome(attempts[i], records[i].1) == Some(true) {
            1nat
        } else {
            0nat
        }
    }
}

/// The attempts never match more records than there are attempts.
proof fn lemma_count_correct_bound(records: Seq<Record>, attempts: Seq<Seq<u8>>)
    ensures
        count_correct(records, attempts) <= attempts.len(),
    decreases attempts.len(),
{
    if attempts.len() > 0 {
        lemma_count_correct_bound(records, attempts.drop_last());
    }
}

/// Checks `attempt` against the hash stored in `account`.
pub fn check_account_password(account: &Account, attempt: &[u8]) -> (r: Result<bool, AppErrors>)
    ensures
        verify_outcome(attempt@, account@.1) matches Some(b) ==> r == Ok::<bool, AppErrors>(b),
        verify_outcome(attempt@, account@.1) is None ==> (r matches Err(e) && e is Hashing),
{
    verify_password(attempt, account.password().as_str())
}

/// Checks `attempt` against the hash stored for `account`; fails with
/// `AccountDoesNotExist` where no such account is stored.
pub fn check_account(store: &AccountStore, account: &String, attempt: &[u8]) -> (r: Result<bool, AppErrors>)
    requires
        store.wf(),
    ensures
        !has_name(store@, account@) ==> (r matches Err(e) && e matches AppErrors::AccountDoesNotExist(n) && n@ == account@),
        has_name(store@, account@) ==> (verify_outcome(attempt@, hash_of(store@, account@)) matches Some(b) ==> r == Ok::<bool, AppErrors>(b)),
        has_name(store@, account@) ==> (verify_outcome(attempt@, hash_of(store@, account@)) is None ==> (r matches Err(e) && e is Hashing)),
{
    match get_account(store, account) {
        Some(a) => check_account_password(a, attempt),
        None => Err(AppErrors::AccountDoesNotExist(account.clone())),
    }
}

/// The report of a check of every account.
#[derive(Debug, PartialEq, Eq, Structural)]
pub enum CheckAllOutcome {
    /// The store holds no account.
    NoAccounts,
    /// How many accounts were checked, and how many attempts matched.
    Totals { total: usize, correct: usize },
}

/// A check of every account in turn, in the order that the store lists them:
/// the attempts given so far and how many of them matched.
pub struct CheckAll {
    checked: usize,
    correct: usize,
    attempts: Ghost<Seq<Seq<u8>>>,
}

impl CheckAll {
    /// The attempts given so far, in order.
    pub closed spec fn attempts(&self) -> Seq<Seq<u8>> {
        self.attempts@
    }

    /// Well-formed as a check of the accounts `records`: no more attempts than
    /// records, and the count of matches kept.
    pub closed spec fn wf(&self, records: Seq<Record>) -> bool {
        &&& self.checked == self.attempts@.len()
        &&& self.checked <= records.len()
        &&& self.correct == count_correct(records, self.attempts@)
    }

    /// A check that has had no attempt yet.
    pub fn new() -> (r: CheckAll)
        ensures
            r.attempts() == Seq::<Seq<u8>>::empty(),
            forall|records: Seq<Record>| #[trigger] r.wf(records),
    {
        CheckAll { checked: 0, correct: 0, attempts: Ghost(Seq::empty()) }
    }

    /// The account that the next attempt is for, or `None` where every account
    /// has had its attempt.
    pub fn next_account<'a>(&self, accounts: &'a Vec<Account>) -> (r: Option<&'a Account>)
        requires
            self.wf(records_of(accounts@)),
        ensures
            r is None <==> self.attempts().len() == accounts@.len(),
            r matches Some(a) ==> a@ == records_of(accounts@)[self.attempts().len() as int],
    {
        if self.checked < accounts.len() {
            Some(&accounts[self.checked])
        } else {
            None
        }
    }

    /// Checks `attempt` against the next account. Where its stored hash is not
    /// well formed, fails with a hashing error and records nothing.
    pub fn check_next(&mut self, accounts: &Vec<Account>, attempt: &[u8]) -> (r: Result<bool, AppErrors>)
        requires
            old(self).wf(records_of(accounts@)),
            old(self).attempts().len() < accounts@.len(),
        ensures
            final(self).wf(records_of(accounts@)),
            ({
                let hash = records_of(accounts@)[old(self).attempts().len() as int].1;
                &&& verify_outcome(attempt@, hash) matches Some(b) ==> r == Ok::<bool, AppErrors>(b)
                    && final(self).attempts() == old(self).attempts().push(attempt@)
                &&& verify_outcome(attempt@, hash) is None ==> (r matches Err(e) && e is Hashing)
                    && final(self).attempts() == old(self).attempts()
            }),
    {
        let ghost records = records_of(accounts@);
        let total = accounts.len();
        let result = check_account_password(&accounts[self.checked], attempt);
        if let Ok(b) = result {
            let ghost before = self.attempts@;
            let ghost after = before.push(attempt@);
            proof {
                assert(after.drop_last() =~= before);
                lemma_count_correct_bound(records, before);
            }
            assert(self.correct <= self.checked < total);
            if b {
                self.correct = self.correct + 1;
            }
            self.checked = self.checked + 1;
            self.attempts = Ghost(after);
        }
        result
    }

    /// The report once every account has had its attempt: `NoAccounts` where
    /// there is none, else how many there are and how many attempts matched.
    pub fn outcome(&self, accounts: &Vec<Account>) -> (r: CheckAllOutcome)
        requires
            self.wf(records_of(accounts@)),
            self.attempts().len() == accounts@.len(),
        ensures
            accounts@.len() == 0 ==> r == CheckAllOutcome::NoAccounts,
            accounts@.len() > 0 ==> r == (CheckAllOutcome::Totals {
                total: accounts@.len() as usize,
                correct: count_correct(records_of(accounts@), self.attempts()) as usize,
            }),
    {
        if accounts.len() == 0 {
            CheckAllOutcome::NoAccounts
        } else {
            CheckAllOutcome::Totals { total: accounts.len(), correct: self.correct }
        }
    }
}

} // verus!
