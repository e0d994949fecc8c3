//! Removing one account, or all of them.

use vstd::prelude::*;
use crate::database::{self, has_name, names_of, without, AccountStore, Record};
use crate::list::list_all_accounts;

verus! {

/// The account to remove, or none to remove every account.
pub struct Command {
    pub account: Option<String>,
}

/// What removing every account from the records `before` may give: the names
/// `removed` and the records `after`.
pub open spec fn remove_all_outcome(before: Seq<Record>, removed: Seq<Seq<char>>, after: Seq<Record>) -> bool {
    removed == names_of(before) && after == Seq::<Record>::empty()
}

/// Removes every account, and returns the names removed, in the store's order.
pub fn remove_all_accounts(store: &mut AccountStore) -> (r: Vec<String>)
    requires
        old(store).wf(),
    ensures
        final(store).wf(),
        remove_all_outcome(old(store)@, r@.map_values(|s: String| s@), final(store)@),
{
    let results = list_all_accounts(store);
    database::delete_all_accounts(store);
    results
}

/// Removes the account named `account`; where there is none, nothing changes.
pub fn remove_account(store: &mut AccountStore, account: &String)
    requires
        old(store).wf(),
    ensures
        final(store).wf(),
        final(store)@ == without(old(store)@, account@),
{
    database::delete_account(store, account);
}

/// Removing a name that is not stored leaves the records as they were.
pub proof fn lemma_remove_absent(before: Seq<Record>, name: Seq<char>)
    requires
        !has_name(before, name),
    ensures
        without(before, name) == before,
{
    database::lemma_without_absent(before, name);
}

/// Once every account is removed, listing gives no name, however many records
/// there were before.
pub proof fn lemma_bulk_clear(before: Seq<Record>, removed: Seq<Seq<char>>, after: Seq<Record>)
    requires
        remove_all_outcome(before, removed, after),
    ensures
        names_of(after) == Seq::<Seq<char>>::empty(),
        removed.len() == before.len(),
{
    assert(names_of(after) =~= Seq::<Seq<char>>::empty());
}

} // verus!
