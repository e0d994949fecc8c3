//! Listing the accounts.

use vstd::prelude::*;
use crate::database::{get_all_accounts, names_of, records_of, AccountStore};

verus! {

/// Lists every account; takes no argument.
pub struct Command {}

/// The names of all accounts, in the store's order.
pub fn list_all_accounts(store: &AccountStore) -> (r: Vec<String>)
    ensures
        r@.map_values(|s: String| s@) == names_of(store@),
{
    let accounts = get_all_accounts(store);
    let mut names: Vec<String> = Vec::new();
    let mut i: usize = 0;
    while i < accounts.len()
        invariant
            i <= accounts@.len(),
            records_of(accounts@) == store@,
            names@.len() == i,
            forall|j: int| 0 <= j < i ==> names@[j]@ == store@[j].0,
        decreases accounts@.len() - i,
    {
        names.push(accounts[i].account().clone());
        i = i + 1;
    }
    assert(names@.map_values(|s: String| s@) =~= names_of(store@));
    names
}

} // verus!
