//! The record store: one stored hash per account name, in the order in which
//! the accounts were added.

use vstd::prelude::*;
use crate::error::StoreError;

verus! {

/// A record as the contracts see it: the account name and its stored hash.
pub type Record = (Seq<char>, Seq<char>);

/// No two records of `s` have the same name.
pub open spec fn names_unique(s: Seq<Record>) -> bool {
    forall|i: int, j: int| 0 <= i < s.len() && 0 <= j < s.len() && i != j ==> s[i].0 != s[j].0
}

/// Some record of `s` has the name `name`.
pub open spec fn has_name(s: Seq<Record>, name: Seq<char>) -> bool {
    exists|i: int| 0 <= i < s.len() && s[i].0 == name
}

/// `s` with the hash of the record named `name` replaced by `hash`; `s` itself
/// where no record has that name.
pub open spec fn with_hash(s: Seq<Record>, name: Seq<char>, hash: Seq<char>) -> Seq<Record> {
    s.map_values(|r: Record| if r.0 == name { (r.0, hash) } else { r })
}

/// `s` without the record named `name`; `s` itself where no record has that
/// name.
pub open spec fn without(s: Seq<Record>, name: Seq<char>) -> Seq<Record> {
    s.filter(|r: Record| r.0 != name)
}

/// The hash of the record named `name`, where there is one.
pub open spec fn hash_of(s: Seq<Record>, name: Seq<char>) -> Seq<char> {
    s[choose|i: int| 0 <= i < s.len() && s[i].0 == name].1
}

/// The records that the accounts `v` hold, in order.
pub open spec fn records_of(v: Seq<Account>) -> Seq<Record> {
    v.map_values(|a: Account| a@)
}

/// The names of the records `s`, in order.
pub open spec fn names_of(s: Seq<Record>) -> Seq<Seq<char>> {
    s.map_values(|r: Record| r.0)
}

/// An account name with the hash stored for it.
pub struct Account {
    account: String,
    password: String,
}

impl View for Account {
    type V = Record;

    closed spec fn view(&self) -> Record {
        (self.account@, self.password@)
    }
}

impl Account {
    /// A record of `account` with the stored hash `password`.
    pub fn new(account: String, password: String) -> (r: Account)
        ensures
            r@ == (account@, password@),
    {
        Account { account, password }
    }

    /// The account name.
    pub fn account(&self) -> (r: &String)
        ensures
            r@ == self@.0,
    {
        &self.account
    }

    /// The stored hash.
    pub fn password(&self) -> (r: &String)
        ensures
            r@ == self@.1,
    {
        &self.password
    }
}

/// The records of all accounts.
pub struct AccountStore {
    accounts: Vec<Account>,
}

impl View for AccountStore {
    type V = Seq<Record>;

    closed spec fn view(&self) -> Seq<Record> {
        records_of(self.accounts@)
    }
}

impl AccountStore {
    /// Well-formed: at most one record per name.
    pub open spec fn wf(&self) -> bool {
        names_unique(self@)
    }

    /// A store that holds no record.
    pub fn new() -> (r: AccountStore)
        ensures
            r.wf(),
            r@ == Seq::<Record>::empty(),
    {
        let r = AccountStore { accounts: Vec::new() };
        assert(r@ =~= Seq::<Record>::empty());
        r
    }

    /// The position of the record named `name`, if there is one.
    fn position(&self, name: &String) -> (r: Option<usize>)
        ensures
            r matches Some(i) ==> i < self@.len() && self@[i as int].0 == name@,
            r is None ==> !has_name(self@, name@),
    {
        let mut i: usize = 0;
        while i < self.accounts.len()
            invariant
                i <= self.accounts@.len(),
                forall|j: int| 0 <= j < i ==> self@[j].0 != name@,
            decreases self.accounts@.len() - i,
        {
            if self.accounts[i].account == *name {
                return Some(i);
            }
            i = i + 1;
        }
        None
    }
}

/// All records, in the store's order.
pub fn get_all_accounts(store: &AccountStore) -> (r: &Vec<Account>)
    ensures
        records_of(r@) == store@,
{
    &store.accounts
}

/// The record named `account`, or `None` where there is none.
pub fn get_account<'a>(store: &'a AccountStore, account: &String) -> (r: Option<&'a Account>)
    requires
        store.wf(),
    ensures
        r is Some <==> has_name(store@, account@),
        r matches Some(a) ==> a@ == (account@, hash_of(store@, account@)),
{
    match store.position(account) {
        Some(i) => {
            assert(store@[i as int] == store.accounts@[i as int]@);
            let ghost k = choose|k: int| 0 <= k < store@.len() && store@[k].0 == account@;
            Some(&store.accounts[i])
        },
        None => None,
    }
}

/// Adds the record (`account`, `password`) after the others; fails with
/// `DuplicateName`, the store unchanged, where `account` is already stored.
pub fn add_account(store: &mut AccountStore, account: &String, password: &String) -> (r: Result<(), StoreError>)
    requires
        old(store).wf(),
    ensures
        final(store).wf(),
        has_name(old(store)@, account@) ==> r is Err && r->Err_0 is DuplicateName && final(store)@ == old(store)@,
        !has_name(old(store)@, account@) ==> r is Ok && final(store)@ == old(store)@.push((account@, password@)),
{
    match store.position(account) {
        Some(_) => Err(StoreError::DuplicateName),
        None => {
            let record = Account { account: account.clone(), password: password.clone() };
            store.accounts.push(record);
            assert(store@ =~= old(store)@.push((account@, password@)));
            Ok(())
        },
    }
}

/// Replaces the hash stored for `account` by `new_password_hash`; leaves the
/// store as it is where `account` is not stored.
pub fn update_account_password(store: &mut AccountStore, account: &String, new_password_hash: &String)
    requires
        old(store).wf(),
    ensures
        final(store).wf(),
        final(store)@ == with_hash(old(store)@, account@, new_password_hash@),
{
    match store.position(account) {
        Some(i) => {
            let record = Account { account: account.clone(), password: new_password_hash.clone() };
            store.accounts.set(i, record);
            assert(store@ =~= with_hash(old(store)@, account@, new_password_hash@));
        },
        None => {
            assert(store@ =~= with_hash(old(store)@, account@, new_password_hash@));
        },
    }
}

/// Removes the record named `account`; leaves the store as it is where
/// `account` is not stored.
pub fn delete_account(store: &mut AccountStore, account: &String)
    requires
        old(store).wf(),
    ensures
        final(store).wf(),
        final(store)@ == without(old(store)@, account@),
{
    match store.position(account) {
        Some(i) => {
            let ghost s = store@;
            store.accounts.remove(i);
            proof {
                lemma_without_unique(s, i as int);
            }
            assert(store@ =~= s.remove(i as int));
        },
        None => {
            proof {
                lemma_without_absent(store@, account@);
            }
        },
    }
}

/// Removes every record.
pub fn delete_all_accounts(store: &mut AccountStore)
    ensures
        final(store).wf(),
        final(store)@ == Seq::<Record>::empty(),
{
    store.accounts = Vec::new();
    assert(store@ =~= Seq::<Record>::empty());
}

/// Replacing the hash of a name that no record has changes nothing.
pub(crate) proof fn lemma_with_hash_absent(s: Seq<Record>, name: Seq<char>, hash: Seq<char>)
    requires
        !has_name(s, name),
    ensures
        with_hash(s, name, hash) == s,
{
    assert forall|i: int| 0 <= i < s.len() implies s[i].0 != name by {
        if s[i].0 == name {
            assert(has_name(s, name));
        }
    }
    assert(with_hash(s, name, hash) =~= s);
}

/// Filtering out a name that no record has keeps every record.
pub(crate) proof fn lemma_without_absent(s: Seq<Record>, name: Seq<char>)
    requires
        !has_name(s, name),
    ensures
        without(s, name) == s,
    decreases s.len(),
{
    reveal(Seq::filter);
    if s.len() > 0 {
        let t = s.drop_last();
        assert(!has_name(t, name)) by {
            if has_name(t, name) {
                let k = choose|k: int| 0 <= k < t.len() && t[k].0 == name;
                assert(s[k].0 == name);
            }
        }
        lemma_without_absent(t, name);
        assert(t.push(s.last()) =~= s);
    } else {
        assert(without(s, name) =~= s);
    }
}

/// Where names are unique, filtering out the name of the record at `i`
/// removes that record alone.
proof fn lemma_without_unique(s: Seq<Record>, i: int)
    requires
        names_unique(s),
        0 <= i < s.len(),
    ensures
        without(s, s[i].0) == s.remove(i),
{
    let name = s[i].0;
    let front = s.subrange(0, i);
    let back = s.subrange(i + 1, s.len() as int);
    let mid = seq![s[i]];
    assert(s =~= front + mid + back);
    assert(!has_name(front, name)) by {
        if has_name(front, name) {
            let k = choose|k: int| 0 <= k < front.len() && front[k].0 == name;
            assert(s[k].0 == name);
        }
    }
    assert(!has_name(back, name)) by {
        if has_name(back, name) {
            let k = choose|k: int| 0 <= k < back.len() && back[k].0 == name;
            assert(s[i + 1 + k].0 == name);
        }
    }
    lemma_without_absent(front, name);
    lemma_without_absent(back, name);
    Seq::filter_distributes_over_add(front + mid, back, |r: Record| r.0 != name);
    Seq::filter_distributes_over_add(front, mid, |r: Record| r.0 != name);
    assert(mid.drop_last() =~= Seq::<Record>::empty());
    reveal_with_fuel(Seq::filter, 2);
    assert(without(mid, name) =~= Seq::<Record>::empty());
    assert(s.remove(i) =~= front + back);
}

} // verus!
