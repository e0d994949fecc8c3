//! Adding an account.

use vstd::prelude::*;
use crate::database::{self, get_account, has_name, hash_of, names_unique, AccountStore, Record};
use crate::error::{AppErrors, StoreError};
use crate::password::{argon2_phc, draw_salt, hash_password_with_salt, hashable, is_hash_of, salt_fits, SALT_LEN};

verus! {

/// The name of the account to add.
pub struct Command {
    pub account: String,
}

/// What adding `account` with `secret`, hashed under `salt`, to the records
/// `before` gives: the result `r` and the records `after`.
pub open spec fn add_account_outcome(
    before: Seq<Record>,
    account: Seq<char>,
    secret: Seq<u8>,
    salt: Seq<u8>,
    r: Result<(), AppErrors>,
    after: Seq<Record>,
) -> bool {
    if has_name(before, account) {
        (r matches Err(AppErrors::AccountAlreadyExists(n)) && n@ == account) && after == before
    } else if hashable(secret) {
        &&& r is Ok
        &&& after == before.push((account, argon2_phc(secret, salt)))
        &&& is_hash_of(argon2_phc(secret, salt), secret)
    } else {
        (r matches Err(e) && e is Hashing) && after == before
    }
}

/// What adding `account` with `secret` under a freshly drawn salt may give:
/// the outcome for some salt of `SALT_LEN` bytes, or, for a new name, a
/// failure of the random source with the records unchanged.
pub open spec fn add_account_drawn(
    before: Seq<Record>,
    account: Seq<char>,
    secret: Seq<u8>,
    r: Result<(), AppErrors>,
    after: Seq<Record>,
) -> bool {
    ||| ((r matches Err(e) && e is RandomSource) && !has_name(before, account) && after == before)
    ||| exists|salt: Seq<u8>| salt.len() == SALT_LEN && #[trigger] add_account_outcome(before, account, secret, salt, r, after)
}

/// The error that adding `account` reports for the store's failure `e`.
pub fn add_failure(account: &String, e: StoreError) -> (r: AppErrors)
    ensures
        e is DuplicateName ==> (r matches AppErrors::AccountAlreadyExists(n) && n@ == account@),
        e matches StoreError::Storage(s) ==> r == AppErrors::Database(s),
{
    match e {
        StoreError::DuplicateName => AppErrors::AccountAlreadyExists(account.clone()),
        StoreError::Storage(s) => AppErrors::Database(s),
    }
}

/// Hashes `secret` under `salt` and stores the hash under `account`, after the
/// other records. Fails with `AccountAlreadyExists`, the store unchanged, where
/// `account` is already stored.
pub fn add_account_with_salt(store: &mut AccountStore, account: &String, secret: &[u8], salt: &[u8]) -> (r: Result<(), AppErrors>)
    requires
        old(store).wf(),
        salt_fits(salt@),
    ensures
        final(store).wf(),
        add_account_outcome(old(store)@, account@, secret@, salt@, r, final(store)@),
{
    if get_account(store, account).is_some() {
        return Err(AppErrors::AccountAlreadyExists(account.clone()));
    }
    let hash = match hash_password_with_salt(secret, salt) {
        Ok(h) => h,
        Err(e) => return Err(e),
    };
    match database::add_account(store, account, &hash) {
        Ok(()) => Ok(()),
        Err(e) => Err(add_failure(account, e)),
    }
}

/// Hashes `secret` under a fresh random salt and stores the hash under
/// `account`, after the other records. Fails with `AccountAlreadyExists`, the
/// store unchanged, where `account` is already stored.
pub fn add_account(store: &mut AccountStore, account: &String, secret: &[u8]) -> (r: Result<(), AppErrors>)
    requires
        old(store).wf(),
    ensures
        final(store).wf(),
        add_account_drawn(old(store)@, account@, secret@, r, final(store)@),
        has_name(old(store)@, account@) ==> (r matches Err(AppErrors::AccountAlreadyExists(n)) && n@ == account@),
        !has_name(old(store)@, account@) && hashable(secret@) ==> (r is Ok || (r matches Err(e) && e is RandomSource)),
{
    if get_account(store, account).is_some() {
        let r = Err(AppErrors::AccountAlreadyExists(account.clone()));
        assert(add_account_outcome(store@, account@, secret@, Seq::new(SALT_LEN as nat, |i: int| 0u8), r, store@));
        return r;
    }
    let salt = match draw_salt() {
        Ok(s) => s,
        Err(e) => return Err(e),
    };
    add_account_with_salt(store, account, secret, salt.as_slice())
}

/// Adding a name a second time fails with `AccountAlreadyExists` and changes
/// nothing: the hash stored is still the one made of the first secret.
pub proof fn lemma_add_twice(
    s0: Seq<Record>,
    name: Seq<char>,
    first_secret: Seq<u8>,
    second_secret: Seq<u8>,
    r1: Result<(), AppErrors>,
    s1: Seq<Record>,
    r2: Result<(), AppErrors>,
    s2: Seq<Record>,
)
    requires
        names_unique(s0),
        add_account_drawn(s0, name, first_secret, r1, s1),
        r1 is Ok,
        add_account_drawn(s1, name, second_secret, r2, s2),
    ensures
        r2 matches Err(AppErrors::AccountAlreadyExists(n)) && n@ == name,
        s2 == s1,
        is_hash_of(hash_of(s2, name), first_secret),
{
    let salt = choose|salt: Seq<u8>| salt.len() == SALT_LEN && add_account_outcome(s0, name, first_secret, salt, r1, s1);
    let last = s0.len() as int;
    assert(s1[last].0 == name);
    assert(has_name(s1, name));
    let k = choose|k: int| 0 <= k < s1.len() && s1[k].0 == name;
    if k != last {
        assert(s0[k].0 == name);
        assert(has_name(s0, name));
    }
    assert(hash_of(s1, name) == argon2_phc(first_secret, salt));
}

} // verus!
