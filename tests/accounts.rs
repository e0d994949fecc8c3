use password_helper::add::{add_account, add_account_with_salt};
use password_helper::password::hash_password_with_salt;
use password_helper::check::{check_account, CheckAll, CheckAllOutcome};
use password_helper::database::{self, get_account, get_all_accounts, AccountStore};
use password_helper::edit::{edit_account, edit_account_with_salt};
use password_helper::error::AppErrors;
use password_helper::list::list_all_accounts;
use password_helper::remove::{remove_account, remove_all_accounts};

fn name(s: &str) -> String {
    s.to_string()
}

#[test]
fn add_then_check_one_account() {
    let mut store = AccountStore::new();
    assert!(add_account(&mut store, &name("github"), b"Tr0ub4dor&3").is_ok());
    assert_eq!(check_account(&store, &name("github"), b"Tr0ub4dor&3").unwrap(), true);
    assert_eq!(check_account(&store, &name("github"), b"wrong").unwrap(), false);
    match check_account(&store, &name("missing"), b"x") {
        Err(AppErrors::AccountDoesNotExist(n)) => assert_eq!(n, "missing"),
        other => panic!("unexpected {:?}", other),
    }
}

#[test]
fn empty_store_lists_nothing_and_reports_no_accounts() {
    let store = AccountStore::new();
    assert!(list_all_accounts(&store).is_empty());
    let accounts = get_all_accounts(&store);
    let quiz = CheckAll::new();
    assert!(quiz.next_account(accounts).is_none());
    assert_eq!(quiz.outcome(accounts), CheckAllOutcome::NoAccounts);
}

#[test]
fn second_add_of_a_name_fails_and_keeps_first_hash() {
    let mut store = AccountStore::new();
    add_account(&mut store, &name("mail"), b"first").unwrap();
    let first_hash = get_account(&store, &name("mail")).unwrap().password().clone();
    match add_account(&mut store, &name("mail"), b"second") {
        Err(AppErrors::AccountAlreadyExists(n)) => assert_eq!(n, "mail"),
        other => panic!("unexpected {:?}", other),
    }
    assert_eq!(list_all_accounts(&store), vec![name("mail")]);
    assert_eq!(get_account(&store, &name("mail")).unwrap().password(), &first_hash);
    assert_eq!(check_account(&store, &name("mail"), b"first").unwrap(), true);
    assert_eq!(check_account(&store, &name("mail"), b"second").unwrap(), false);
}

#[test]
fn removing_an_absent_name_changes_nothing() {
    let mut store = AccountStore::new();
    database::add_account(&mut store, &name("a"), &name("hash-a")).unwrap();
    remove_account(&mut store, &name("ghost"));
    assert_eq!(list_all_accounts(&store), vec![name("a")]);
    assert_eq!(get_account(&store, &name("a")).unwrap().password(), "hash-a");
}

#[test]
fn editing_an_absent_name_creates_nothing() {
    let mut store = AccountStore::new();
    database::add_account(&mut store, &name("a"), &name("hash-a")).unwrap();
    assert!(edit_account(&mut store, &name("ghost"), b"secret").is_ok());
    assert_eq!(list_all_accounts(&store), vec![name("a")]);
    assert!(get_account(&store, &name("ghost")).is_none());
    assert_eq!(get_account(&store, &name("a")).unwrap().password(), "hash-a");
}

#[test]
fn editing_replaces_the_hash() {
    let mut store = AccountStore::new();
    add_account(&mut store, &name("bank"), b"old secret").unwrap();
    edit_account(&mut store, &name("bank"), b"new secret").unwrap();
    assert_eq!(check_account(&store, &name("bank"), b"new secret").unwrap(), true);
    assert_eq!(check_account(&store, &name("bank"), b"old secret").unwrap(), false);
}

#[test]
fn remove_all_clears_the_store() {
    let mut store = AccountStore::new();
    for n in ["a", "b", "c"] {
        database::add_account(&mut store, &name(n), &format!("hash-{n}")).unwrap();
    }
    let removed = remove_all_accounts(&mut store);
    assert_eq!(removed, vec![name("a"), name("b"), name("c")]);
    assert!(list_all_accounts(&store).is_empty());
    assert!(remove_all_accounts(&mut store).is_empty());
}

#[test]
fn remove_one_keeps_the_others_in_order() {
    let mut store = AccountStore::new();
    for n in ["a", "b", "c"] {
        database::add_account(&mut store, &name(n), &format!("hash-{n}")).unwrap();
    }
    remove_account(&mut store, &name("b"));
    assert_eq!(list_all_accounts(&store), vec![name("a"), name("c")]);
    assert!(get_account(&store, &name("b")).is_none());
    assert_eq!(get_account(&store, &name("c")).unwrap().password(), "hash-c");
}

#[test]
fn check_all_counts_matching_attempts() {
    let mut store = AccountStore::new();
    add_account(&mut store, &name("one"), b"alpha").unwrap();
    add_account(&mut store, &name("two"), b"beta").unwrap();
    add_account(&mut store, &name("three"), b"gamma").unwrap();
    let attempts: [&[u8]; 3] = [b"alpha", b"wrong", b"gamma"];
    let accounts = get_all_accounts(&store);
    let mut quiz = CheckAll::new();
    let mut asked = Vec::new();
    let mut results = Vec::new();
    let mut i = 0;
    while let Some(account) = quiz.next_account(accounts) {
        asked.push(account.account().clone());
        results.push(quiz.check_next(accounts, attempts[i]).unwrap());
        i += 1;
    }
    assert_eq!(asked, vec![name("one"), name("two"), name("three")]);
    assert_eq!(results, vec![true, false, true]);
    assert_eq!(quiz.outcome(accounts), CheckAllOutcome::Totals { total: 3, correct: 2 });
}

#[test]
fn check_all_with_no_match_reports_zero_correct() {
    let mut store = AccountStore::new();
    add_account(&mut store, &name("only"), b"right").unwrap();
    let accounts = get_all_accounts(&store);
    let mut quiz = CheckAll::new();
    assert_eq!(quiz.check_next(accounts, b"wrong").unwrap(), false);
    assert!(quiz.next_account(accounts).is_none());
    assert_eq!(quiz.outcome(accounts), CheckAllOutcome::Totals { total: 1, correct: 0 });
}

#[test]
fn check_all_stops_on_a_malformed_hash() {
    let mut store = AccountStore::new();
    database::add_account(&mut store, &name("broken"), &name("not a hash")).unwrap();
    let accounts = get_all_accounts(&store);
    let mut quiz = CheckAll::new();
    assert!(matches!(quiz.check_next(accounts, b"x"), Err(AppErrors::Hashing(_))));
    assert_eq!(quiz.next_account(accounts).unwrap().account(), "broken");
}

#[test]
fn check_one_with_malformed_hash_is_a_hashing_error() {
    let mut store = AccountStore::new();
    database::add_account(&mut store, &name("broken"), &name("argon2id, not a PHC string")).unwrap();
    assert!(matches!(check_account(&store, &name("broken"), b"x"), Err(AppErrors::Hashing(_))));
}

#[test]
fn add_with_salt_stores_the_salted_hash() {
    let mut store = AccountStore::new();
    let salt = [9u8; 16];
    add_account_with_salt(&mut store, &name("github"), b"Tr0ub4dor&3", &salt).unwrap();
    let expected = hash_password_with_salt(b"Tr0ub4dor&3", &salt).unwrap();
    assert_eq!(get_account(&store, &name("github")).unwrap().password(), &expected);
    match add_account_with_salt(&mut store, &name("github"), b"other", &salt) {
        Err(AppErrors::AccountAlreadyExists(n)) => assert_eq!(n, "github"),
        other => panic!("unexpected {:?}", other),
    }
    assert_eq!(get_account(&store, &name("github")).unwrap().password(), &expected);
}

#[test]
fn edit_with_salt_replaces_only_a_stored_hash() {
    let mut store = AccountStore::new();
    database::add_account(&mut store, &name("a"), &name("hash-a")).unwrap();
    let salt = [4u8; 12];
    edit_account_with_salt(&mut store, &name("a"), b"new", &salt).unwrap();
    let expected = hash_password_with_salt(b"new", &salt).unwrap();
    assert_eq!(get_account(&store, &name("a")).unwrap().password(), &expected);
    assert!(edit_account_with_salt(&mut store, &name("ghost"), b"new", &salt).is_ok());
    assert_eq!(list_all_accounts(&store), vec![name("a")]);
}
