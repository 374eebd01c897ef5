//! User accounts: the rows of the users table and the operations on them.
use vstd::prelude::*;

use crate::password::{bcrypt_accepts, bcrypt_hash, is_bcrypt_hash_text};

mod store;

pub use store::{
    delete_user, find_user_by_id, find_user_by_username, insert_user, law_new_id_above_table,
    restore_user, UserStore,
};

verus! {

/// An account: its id, its unique name and the bcrypt hash of its password.
#[derive(Debug)]
pub struct User {
    pub id: i64,
    pub username: String,
    pub password_hash: String,
}

impl User {
    /// A field-by-field copy.
    pub fn duplicate(&self) -> (r: User)
        ensures
            r == *self,
    {
        User { id: self.id, username: self.username.clone(), password_hash: self.password_hash.clone() }
    }
}

/// What a sign-up asks for.
#[derive(Debug)]
pub struct NewUser {
    pub username: String,
    pub password: String,
}

/// Why an account could not be created.
#[derive(Debug, PartialEq, Eq)]
pub enum UserError {
    UsernameTaken,
    DatabaseError(String),
}

/// Why an account could not be deleted.
#[derive(Debug, PartialEq, Eq)]
pub enum UserDeleteError {
    UserNotFound,
    DatabaseError(String),
}

/// The rows of the users table, keyed by user name: each name maps to the row's id and
/// password hash.
pub type UserRows = Map<Seq<char>, (i64, Seq<char>)>;

/// Some row has this id.
pub open spec fn id_in_use(rows: UserRows, id: i64) -> bool {
    exists|k: Seq<char>| #[trigger] rows.contains_key(k) && rows[k].0 == id
}

/// The name of the row with this id (meaningful when `id_in_use(rows, id)`).
pub open spec fn name_of_id(rows: UserRows, id: i64) -> Seq<char> {
    choose|k: Seq<char>| #[trigger] rows.contains_key(k) && rows[k].0 == id
}

/// What every table satisfies: finitely many rows, ids positive and distinct.
pub open spec fn valid_rows(rows: UserRows) -> bool {
    &&& rows.dom().finite()
    &&& forall|k: Seq<char>| #[trigger] rows.contains_key(k) ==> rows[k].0 >= 1
    &&& forall|k1: Seq<char>, k2: Seq<char>|
        #![trigger rows.contains_key(k1), rows.contains_key(k2)]
        rows.contains_key(k1) && rows.contains_key(k2) && k1 != k2 ==> rows[k1].0 != rows[k2].0
}

/// `after` is `before` with one new row for `name`, under an id never used in `before`,
/// whose hash is a bcrypt hash text that bcrypt accepts for `password`.
pub open spec fn registered(
    before: UserRows,
    after: UserRows,
    name: Seq<char>,
    password: Seq<char>,
) -> bool {
    &&& !before.contains_key(name)
    &&& after.contains_key(name)
    &&& after == before.insert(name, after[name])
    &&& after[name].0 >= 1
    &&& !id_in_use(before, after[name].0)
    &&& bcrypt_accepts(password, after[name].1)
    &&& is_bcrypt_hash_text(after[name].1)
}

/// The answer a sign-up gives when bcrypt could not hash the password.
pub open spec fn hashing_failed(r: Result<(), UserError>) -> bool {
    r matches Err(UserError::DatabaseError(m)) && m@ == "password hashing failed"@
}

/// What signing up `name` with `password` does to the table `before`, leaving `after` and
/// answering `r`. A taken name is refused. Otherwise either hashing the password failed,
/// which the table records as one more hashing failure, or the account is created under
/// the next id, or, when no id is left, nothing happens. Only a hashing failure raises the
/// table's count of them.
pub open spec fn sign_up_outcome(
    before: UserStore,
    after: UserStore,
    name: Seq<char>,
    password: Seq<char>,
    r: Result<(), UserError>,
) -> bool {
    if before@.contains_key(name) {
        &&& r == Err::<(), UserError>(UserError::UsernameTaken)
        &&& after@ == before@
        &&& after.id_counter() == before.id_counter()
        &&& after.hashing_failures() == before.hashing_failures()
    } else if hashing_failed(r) {
        &&& after@ == before@
        &&& after.id_counter() == before.id_counter()
        &&& after.hashing_failures() == before.hashing_failures() + 1
    } else if !before.accepts_new_ids() {
        &&& r matches Err(UserError::DatabaseError(m)) && m@ == "user ids exhausted"@
        &&& after@ == before@
        &&& after.id_counter() == before.id_counter()
        &&& after.hashing_failures() == before.hashing_failures()
    } else {
        &&& r is Ok
        &&& registered(before@, after@, name, password)
        &&& after@[name].0 == before.id_counter()
        &&& after.id_counter() == before.id_counter() + 1
        &&& after.hashing_failures() == before.hashing_failures()
    }
}

/// `after` is `before` without the row whose id is `id`.
pub open spec fn deleted(before: UserRows, after: UserRows, id: i64) -> bool {
    &&& id_in_use(before, id)
    &&& after == before.remove(name_of_id(before, id))
}

/// Creates an account: hashes the password with bcrypt, then adds the row.
pub fn create_user(store: &mut UserStore, new_user: NewUser) -> (r: Result<(), UserError>)
    ensures
        valid_rows(final(store)@),
        (r matches Err(UserError::UsernameTaken)) <==> old(store)@.contains_key(
            new_user.username@,
        ),
        r is Ok ==> registered(
            old(store)@,
            final(store)@,
            new_user.username@,
            new_user.password@,
        ),
        r is Err ==> final(store)@ == old(store)@ && final(store).id_counter() == old(store).id_counter(),
        r is Ok ==> final(store)@[new_user.username@].0 == old(store).id_counter() && final(store).id_counter() == old(store).id_counter() + 1,
        !old(store)@.contains_key(new_user.username@) && old(store).accepts_new_ids() ==> (r is Ok
            || (r matches Err(UserError::DatabaseError(m)) && m@ == "password hashing failed"@)),
        r matches Err(UserError::DatabaseError(m)) ==> (m@ == "password hashing failed"@ || (m@
            == "user ids exhausted"@ && !old(store).accepts_new_ids())),
        sign_up_outcome(*old(store), *final(store), new_user.username@, new_user.password@, r),
{
    let hashed = bcrypt_hash(new_user.password.as_str());
    let ghost h = hashed;
    let ghost name = new_user.username@;
    let r = insert_user(store, new_user.username, hashed);
    proof {
        reveal_strlit("password hashing failed");
        reveal_strlit("user ids exhausted");
        if old(store)@.contains_key(name) {
            assert(r == Err::<(), UserError>(UserError::UsernameTaken));
        } else if h is Err {
            assert(hashing_failed(r));
        } else {
            if let Err(UserError::DatabaseError(m)) = &r {
                assert(m@ == "user ids exhausted"@);
                assert(m@.len() != "password hashing failed"@.len());
            }
            assert(!hashing_failed(r));
            if r is Ok {
                assert(final(store)@[name].1 == h->Ok_0@);
            }
        }
    }
    r
}

} // verus!
