//! Replacing an account's stored hash.

use vstd::prelude::*;
use crate::database::{self, get_account, has_name, with_hash, AccountStore, Record};
use crate::error::AppErrors;
use crate::password::{argon2_phc, draw_salt, hash_password_with_salt, hashable, is_hash_of, salt_fits, SALT_LEN};

verus! {

/// The name of the account to edit.
pub struct Command {
    pub account: String,
}

/// What editing `account` with `secret`, hashed under `salt`, in the records
/// `before` gives: the result `r` and the records `after`. Editing a name
/// that is not stored succeeds and changes nothing.
pub open spec fn edit_account_outcome(
    before: Seq<Record>,
    account: Seq<char>,
    secret: Seq<u8>,
    salt: Seq<u8>,
    r: Result<(), AppErrors>,
    after: Seq<Record>,
) -> bool {
    if !has_name(before, account) {
        r is Ok && after == before
    } else if hashable(secret) {
        &&& r is Ok
        &&& after == with_hash(before, account, argon2_phc(secret, salt))
        &&& is_hash_of(argon2_phc(secret, salt), secret)
    } else {
        (r matches Err(e) && e is Hashing) && after == before
    }
}

/// What editing `account` with `secret` under a freshly drawn salt may give:
/// the outcome for some salt of `SALT_LEN` bytes, or, for a stored name, a
/// failure of the random source with the records unchanged.
pub open spec fn edit_account_drawn(
    before: Seq<Record>,
    account: Seq<char>,
    secret: Seq<u8>,
    r: Result<(), AppErrors>,
    after: Seq<Record>,
) -> bool {
    ||| ((r matches Err(e) && e is RandomSource) && has_name(before, account) && after == before)
    ||| exists|salt: Seq<u8>| salt.len() == SALT_LEN && #[trigger] edit_account_outcome(before, account, secret, salt, r, after)
}

/// Hashes `secret` under `salt` and stores the hash for `account` in place of
/// the one it had. Where `account` is not stored this changes nothing, and
/// still succeeds.
pub fn edit_account_with_salt(store: &mut AccountStore, account: &String, secret: &[u8], salt: &[u8]) -> (r: Result<(), AppErrors>)
    requires
        old(store).wf(),
        salt_fits(salt@),
    ensures
        final(store).wf(),
        edit_account_outcome(old(store)@, account@, secret@, salt@, r, final(store)@),
{
    if get_account(store, account).is_none() {
        proof {
            database::lemma_with_hash_absent(store@, account@, argon2_phc(secret@, salt@));
        }
        return Ok(());
    }
    let new_password = match hash_password_with_salt(secret, salt) {
        Ok(h) => h,
        Err(e) => return Err(e),
    };
    database::update_account_password(store, account, &new_password);
    Ok(())
}

/// Hashes `secret` under a fresh random salt and stores the hash for `account`
/// in place of the one it had. Where `account` is not stored this changes
/// nothing, and still succeeds.
pub fn edit_account(store: &mut AccountStore, account: &String, secret: &[u8]) -> (r: Result<(), AppErrors>)
    requires
        old(store).wf(),
    ensures
        final(store).wf(),
        edit_account_drawn(old(store)@, account@, secret@, r, final(store)@),
        !has_name(old(store)@, account@) ==> r is Ok && final(store)@ == old(store)@,
        has_name(old(store)@, account@) && hashable(secret@) ==> (r is Ok || (r matches Err(e) && e is RandomSource)),
{
    if get_account(store, account).is_none() {
        assert(edit_account_outcome(store@, account@, secret@, Seq::new(SALT_LEN as nat, |i: int| 0u8), Ok(()), store@));
        return Ok(());
    }
    let salt = match draw_salt() {
        Ok(s) => s,
        Err(e) => return Err(e),
    };
    edit_account_with_salt(store, account, secret, salt.as_slice())
}

/// Editing a name that is not stored succeeds and leaves the records as they
/// were: no record is created.
pub proof fn lemma_edit_absent(
    before: Seq<Record>,
    name: Seq<char>,
    secret: Seq<u8>,
    r: Result<(), AppErrors>,
    after: Seq<Record>,
)
    requires
        !has_name(before, name),
        edit_account_drawn(before, name, secret, r, after),
    ensures
        r is Ok,
        after == before,
{
}

} // verus!
