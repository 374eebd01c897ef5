//! Admitting requests that carry a bearer token.
use vstd::prelude::*;

use crate::status::UNAUTHORIZED;
use crate::text::{has_prefix, strip_prefix};
use crate::user::{find_user_by_id, id_in_use, name_of_id, valid_rows, User, UserRows, UserStore};

verus! {

/// What a signed token says: the account's name, its id and when the token expires
/// (seconds since the Unix epoch).
#[derive(Debug)]
pub struct Claims {
    pub sub: String,
    pub user_id: u64,
    pub exp: usize,
}

/// The account id that a token names, when it fits an account id.
pub open spec fn subject_id(user_id: u64) -> Option<i64> {
    if user_id <= i64::MAX as u64 {
        Some(user_id as i64)
    } else {
        None
    }
}

/// The token in an `Authorization` header of the form `Bearer <token>`.
pub fn bearer_token(header: Option<&str>) -> (r: Option<String>)
    ensures
        match header {
            Some(h) => if has_prefix(h@, "Bearer "@) {
                r matches Some(t) && t@ == h@.subrange("Bearer "@.len() as int, h@.len() as int)
            } else {
                r is None
            },
            None => r is None,
        },
{
    match header {
        Some(h) => strip_prefix(h, "Bearer "),
        None => None,
    }
}

/// The account id a token names, if it is one an account can have.
pub fn claims_subject_id(claims: &Claims) -> (r: Option<i64>)
    ensures
        r == subject_id(claims.user_id),
{
    if claims.user_id <= i64::MAX as u64 {
        Some(claims.user_id as i64)
    } else {
        None
    }
}

/// Admits a request whose token was decoded into `claims` (or that had no valid token):
/// the account the token names, or 401 when there is none.
pub fn authorize(store: &UserStore, claims: Option<&Claims>) -> (r: Result<User, u16>)
    ensures
        match claims {
            Some(c) => match subject_id(c.user_id) {
                Some(id) => if id_in_use(store@, id) {
                    r matches Ok(u) && u.id == id && u.username@ == name_of_id(store@, id)
                        && store@[u.username@] == (id, u.password_hash@)
                } else {
                    r == Err::<User, u16>(UNAUTHORIZED)
                },
                None => r == Err::<User, u16>(UNAUTHORIZED),
            },
            None => r == Err::<User, u16>(UNAUTHORIZED),
        },
{
    let c = match claims {
        Some(c) => c,
        None => {
            return Err(UNAUTHORIZED);
        },
    };
    let id = match claims_subject_id(c) {
        Some(id) => id,
        None => {
            return Err(UNAUTHORIZED);
        },
    };
    match find_user_by_id(store, id) {
        Some(u) => Ok(u),
        None => Err(UNAUTHORIZED),
    }
}

/// The token the middleware reads from `Bearer <token>` is `<token>` itself.
pub proof fn law_bearer_round_trip(token: Seq<char>)
    ensures
        has_prefix("Bearer "@ + token, "Bearer "@),
        ("Bearer "@ + token).subrange("Bearer "@.len() as int, ("Bearer "@ + token).len() as int)
            == token,
{
    assert(("Bearer "@ + token).subrange(0, "Bearer "@.len() as int) =~= "Bearer "@);
    assert(("Bearer "@ + token).subrange("Bearer "@.len() as int, ("Bearer "@ + token).len() as int)
        =~= token);
}

/// A token issued for an account names that account's id, and that id leads back to the
/// same account: the token of a signed-in user admits that user while the account exists.
pub proof fn law_issued_token_names_its_account(rows: UserRows, name: Seq<char>, user_id: u64)
    requires
        valid_rows(rows),
        rows.contains_key(name),
        user_id == rows[name].0 as u64,
    ensures
        subject_id(user_id) == Some(rows[name].0),
        id_in_use(rows, rows[name].0),
        name_of_id(rows, rows[name].0) == name,
{
    let id = rows[name].0;
    assert(rows.contains_key(name) && rows[name].0 == id);
    let k = name_of_id(rows, id);
    assert(rows.contains_key(k) && rows[k].0 == id);
}

} // verus!
