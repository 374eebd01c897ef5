//! Accounts and sign-in: matching credentials against the users table.
pub mod handlers;
pub mod middleware;
pub mod models;
pub mod registration;

use vstd::prelude::*;

use self::models::Credentials;
use crate::password::{bcrypt_accepts, is_bcrypt_hash_text, password_matches};
use crate::user::{
    deleted, find_user_by_username, id_in_use, name_of_id, registered, valid_rows, User,
    UserRows, UserStore,
};

verus! {

/// Why a sign-in was refused.
#[derive(Debug, PartialEq, Eq)]
pub enum AuthError {
    UserNotFound,
    InvalidPassword,
}

/// The table has an account named `name` whose stored hash bcrypt accepts for `password`.
pub open spec fn login_accepted(rows: UserRows, name: Seq<char>, password: Seq<char>) -> bool {
    rows.contains_key(name) && bcrypt_accepts(password, rows[name].1)
}

/// Matches a user name and password against the table.
pub fn authenticate(store: &UserStore, creds: &Credentials) -> (r: Result<User, AuthError>)
    ensures
        r is Ok <==> login_accepted(store@, creds.username@, creds.password@),
        (r matches Err(AuthError::UserNotFound)) <==> !store@.contains_key(creds.username@),
        r matches Ok(u) ==> u.username@ == creds.username@ && store@[creds.username@] == (
            u.id,
            u.password_hash@,
        ),
{
    let user = match find_user_by_username(store, creds.username.as_str()) {
        Some(u) => u,
        None => {
            return Err(AuthError::UserNotFound);
        },
    };
    if password_matches(creds.password.as_str(), user.password_hash.as_str()) {
        Ok(user)
    } else {
        Err(AuthError::InvalidPassword)
    }
}

/// Once an account has been created with a password, signing in with that name and
/// password succeeds, the name is taken (creating it again is refused), and what is stored
/// is a bcrypt hash, not the password (unless the password itself has that shape).
pub proof fn law_registered_user_can_log_in(
    before: UserRows,
    after: UserRows,
    name: Seq<char>,
    password: Seq<char>,
)
    requires
        registered(before, after, name, password),
    ensures
        login_accepted(after, name, password),
        after.contains_key(name),
        is_bcrypt_hash_text(after[name].1),
        !is_bcrypt_hash_text(password) ==> after[name].1 != password,
{
}

/// Once an account has been deleted, no password signs in under its name and its id is
/// no longer in use.
pub proof fn law_deleted_user_cannot_log_in(
    before: UserRows,
    after: UserRows,
    id: i64,
    password: Seq<char>,
)
    requires
        valid_rows(before),
        deleted(before, after, id),
    ensures
        !login_accepted(after, name_of_id(before, id), password),
        !id_in_use(after, id),
{
    let name = name_of_id(before, id);
    assert forall|k: Seq<char>| #[trigger] after.contains_key(k) implies after[k].0 != id by {
        assert(before.contains_key(k) && k != name);
    }
}

/// Deleting one account leaves every other account as it was: it is still there with the
/// same id and hash, and the same passwords sign in to it.
pub proof fn law_delete_keeps_other_accounts(
    before: UserRows,
    after: UserRows,
    id: i64,
    name: Seq<char>,
    password: Seq<char>,
)
    requires
        valid_rows(before),
        deleted(before, after, id),
        before.contains_key(name),
        before[name].0 != id,
    ensures
        after.contains_key(name),
        after[name] == before[name],
        login_accepted(after, name, password) == login_accepted(before, name, password),
{
    assert(name != name_of_id(before, id));
}

} // verus!
