//! Signing up.
use vstd::prelude::*;

use super::login_accepted;
use crate::user::{
    create_user, hashing_failed, registered, sign_up_outcome, valid_rows, NewUser, UserError,
    UserStore,
};

verus! {

/// Signs a new user up.
///
/// # Errors
///
/// Returns `UserError::UsernameTaken` if the username is already taken.
pub fn register_user(store: &mut UserStore, new_user: NewUser) -> (r: Result<(), UserError>)
    ensures
        valid_rows(final(store)@),
        (r matches Err(UserError::UsernameTaken)) <==> old(store)@.contains_key(
            new_user.username@,
        ),
        r is Ok ==> registered(
            old(store)@,
            final(store)@,
            new_user.username@,
            new_user.password@,
        ),
        r is Err ==> final(store)@ == old(store)@,
        !old(store)@.contains_key(new_user.username@) && old(store).accepts_new_ids() ==> (r is Ok
            || (r matches Err(UserError::DatabaseError(m)) && m@ == "password hashing failed"@)),
        sign_up_outcome(*old(store), *final(store), new_user.username@, new_user.password@, r),
{
    create_user(store, new_user)
}

/// Signing up `name` refuses a taken name and changes nothing. For a free name, while ids
/// are left, it fails only when hashing the password failed, and then no row changes and
/// the table counts one more hashing failure; otherwise the account is created under the
/// next id and signs in with the password it was created with. So whether a sign-up of a
/// free name succeeded shows in whether the count of hashing failures stayed the same.
pub proof fn law_sign_up_fails_only_when_hashing_fails(
    before: UserStore,
    after: UserStore,
    name: Seq<char>,
    password: Seq<char>,
    r: Result<(), UserError>,
)
    requires
        sign_up_outcome(before, after, name, password, r),
    ensures
        before@.contains_key(name) ==> r == Err::<(), UserError>(UserError::UsernameTaken)
            && after@ == before@,
        !before@.contains_key(name) && before.accepts_new_ids() ==> {
            &&& r is Ok <==> after.hashing_failures() == before.hashing_failures()
            &&& r is Err ==> hashing_failed(r) && after@ == before@ && after.hashing_failures()
                == before.hashing_failures() + 1
            &&& r is Ok ==> login_accepted(after@, name, password) && after@[name].0
                == before.id_counter() && after@ == before@.insert(name, after@[name])
        },
{
}

} // verus!
