//! The errors that the account operations report, and the reading of SQLite's
//! error codes into the store's own conditions.

use vstd::prelude::*;

verus! {

#[verifier::external_type_specification]
#[verifier::external_body]
pub struct ExSqlxError(sqlx::Error);

#[verifier::external_type_specification]
#[verifier::external_body]
pub struct ExIoError(std::io::Error);

/// The code that the database gives for the failure `e`, where it gives one.
pub uninterp spec fn sqlx_code(e: sqlx::Error) -> Option<Seq<char>>;

/// SQLite's extended result code for a violated primary key constraint: the
/// code that an insert of a name already stored fails with.
pub const PRIMARY_KEY_VIOLATION: &'static str = "1555";

/// What an account operation can fail with.
#[derive(Debug)]
pub enum AppErrors {
    /// Reading the secret from the user failed.
    Input(std::io::Error),
    /// The hasher rejected the secret, or a stored hash is not well formed.
    Hashing(argon2::password_hash::Error),
    /// The operating system's random source failed while drawing a salt.
    RandomSource(argon2::password_hash::rand_core::Error),
    /// The backing storage could not complete an operation.
    Database(sqlx::Error),
    /// An account of this name is already stored.
    AccountAlreadyExists(String),
    /// No account of this name is stored.
    AccountDoesNotExist(String),
}

/// What a store operation can fail with.
#[derive(Debug)]
pub enum StoreError {
    /// A record of the name is already stored.
    DuplicateName,
    /// The backing storage failed for another reason.
    Storage(sqlx::Error),
}

/// Relies on `sqlx::Error::as_database_error` and `DatabaseError::code`: the
/// database's own code for the failure, where there is one.
#[verifier::external_body]
fn database_error_code(e: &sqlx::Error) -> (r: Option<String>)
    ensures
        r matches Some(c) ==> sqlx_code(*e) == Some(c@),
        r is None ==> sqlx_code(*e) is None,
{
    e.as_database_error().and_then(|d| d.code()).map(|c| c.into_owned())
}

/// Whether `code` is present and equal to `expected`.
fn code_is(code: &Option<String>, expected: &str) -> (r: bool)
    ensures
        r == (code matches Some(c) && c@ == expected@),
{
    match code {
        Some(c) => {
            let expected = expected.to_owned();
            *c == expected
        },
        None => false,
    }
}

/// The store's condition for a failure whose database code is `code`: a
/// duplicate name where the code is `error_code`, a storage failure otherwise.
pub fn classify_sqlx_error(error: sqlx::Error, code: Option<String>, error_code: &str) -> (r: StoreError)
    ensures
        (code matches Some(c) && c@ == error_code@) ==> r is DuplicateName,
        !(code matches Some(c) && c@ == error_code@) ==> r == StoreError::Storage(error),
{
    if code_is(&code, error_code) {
        StoreError::DuplicateName
    } else {
        StoreError::Storage(error)
    }
}

/// Passes `Ok` through and reads an error of the backing storage as a store
/// condition: `DuplicateName` where the database reports `error_code`.
pub fn match_sqlx_error_code<T>(result: Result<T, sqlx::Error>, error_code: &str) -> (r: Result<T, StoreError>)
    ensures
        result matches Ok(v) ==> r == Ok::<T, StoreError>(v),
        result matches Err(e) ==> (sqlx_code(e) == Some(error_code@) ==> (r matches Err(s) && s is DuplicateName)),
        result matches Err(e) ==> (sqlx_code(e) != Some(error_code@) ==> r == Err::<T, StoreError>(StoreError::Storage(e))),
{
    match result {
        Ok(v) => Ok(v),
        Err(e) => {
            let code = database_error_code(&e);
            Err(classify_sqlx_error(e, code, error_code))
        },
    }
}

} // verus!
