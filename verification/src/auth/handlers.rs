//! The decisions behind the account endpoints: sign-up, sign-in, the greeting for a
//! signed-in user and deleting one's own account.
use vstd::prelude::*;

use super::authenticate;
use super::login_accepted;
use super::middleware::Claims;
use super::models::Credentials;
use crate::clock::{utc_now_timestamp, MAX_TIMESTAMP};
use crate::status::{
    reply_is, ApiReply, ReplyKey, CONFLICT, CREATED, INTERNAL_SERVER_ERROR, NOT_FOUND, OK,
    UNAUTHORIZED,
};
use super::registration::law_sign_up_fails_only_when_hashing_fails;
use crate::user::{
    create_user, delete_user, deleted, registered, sign_up_outcome, valid_rows, NewUser, User,
    UserDeleteError, UserError, UserStore,
};

verus! {

/// How long a sign-in token stays valid: 24 hours.
pub const TOKEN_LIFETIME_SECONDS: i64 = 86400;

/// The expiry written into a token issued at time `now`.
pub open spec fn expiry_at(now: int) -> usize {
    (now + TOKEN_LIFETIME_SECONDS) as usize
}

/// The reply to a successful sign-in: the signed token.
#[derive(Debug)]
pub struct TokenResponse {
    pub token: String,
}

/// The reply of the protected endpoint.
#[derive(Debug)]
pub struct ProtectedResponse {
    pub message: String,
}

/// The token claims issued to `user` at time `now`: its name, its id and an expiry 24
/// hours later.
pub fn claims_for(user: &User, now: i64) -> (c: Claims)
    requires
        now <= i64::MAX - TOKEN_LIFETIME_SECONDS,
    ensures
        c.sub@ == user.username@,
        c.user_id == user.id as u64,
        c.exp == expiry_at(now as int),
{
    let expiry: i64 = now + TOKEN_LIFETIME_SECONDS;
    Claims { sub: user.username.clone(), user_id: user.id as u64, exp: expiry as usize }
}

/// The sign-up endpoint answers 409 for a taken name and changes nothing. For a free name,
/// while ids are left, it answers 201 and creates an account that signs in with the given
/// password, unless hashing the password failed: then it answers 500, changes no row, and
/// the table counts one more hashing failure. No other 500 comes for such a name.
pub proof fn law_api_sign_up_created_unless_hashing_fails(
    before: UserStore,
    after: UserStore,
    name: Seq<char>,
    password: Seq<char>,
    r: ApiReply,
)
    requires
        api_sign_up_outcome(before, after, name, password, r),
    ensures
        before@.contains_key(name) ==> reply_is(r, CONFLICT, ReplyKey::Error, "User already exists"@)
            && after@ == before@,
        !before@.contains_key(name) && before.accepts_new_ids() ==> {
            &&& r.status == CREATED <==> after.hashing_failures() == before.hashing_failures()
            &&& r.status == CREATED ==> reply_is(
                r,
                CREATED,
                ReplyKey::Message,
                "User created successfully"@,
            ) && login_accepted(after@, name, password)
            &&& r.status != CREATED ==> reply_is(
                r,
                INTERNAL_SERVER_ERROR,
                ReplyKey::Error,
                "An unexpected error occurred"@,
            ) && after@ == before@ && after.hashing_failures() == before.hashing_failures() + 1
        },
{
    let result = choose|result: Result<(), UserError>|
        #[trigger] sign_up_outcome(before, after, name, password, result) && register_reply_for(
            result,
            r,
        );
    law_sign_up_fails_only_when_hashing_fails(before, after, name, password, result);
}

/// Signs a user in at time `now`: the claims of the token to issue, expiring 24 hours
/// after `now`, or 401 when the name is unknown or the password does not match.
pub fn login_at(store: &UserStore, payload: &Credentials, now: i64) -> (r: Result<Claims, u16>)
    requires
        now <= i64::MAX - TOKEN_LIFETIME_SECONDS,
    ensures
        r is Ok <==> login_accepted(store@, payload.username@, payload.password@),
        r is Err ==> r == Err::<Claims, u16>(UNAUTHORIZED),
        r matches Ok(c) ==> {
            &&& c.sub@ == payload.username@
            &&& c.user_id == store@[payload.username@].0 as u64
            &&& c.exp == expiry_at(now as int)
        },
{
    match authenticate(store, payload) {
        Ok(user) => Ok(claims_for(&user, now)),
        Err(_) => Err(UNAUTHORIZED),
    }
}

/// Signs a user in now: as `login_at` with the current time from the clock.
pub fn login(store: &UserStore, payload: &Credentials) -> (r: Result<Claims, u16>)
    ensures
        r is Ok <==> login_accepted(store@, payload.username@, payload.password@),
        r is Err ==> r == Err::<Claims, u16>(UNAUTHORIZED),
        r matches Ok(c) ==> {
            &&& c.sub@ == payload.username@
            &&& c.user_id == store@[payload.username@].0 as u64
            &&& exists|now: int| 0 <= now <= MAX_TIMESTAMP && c.exp == #[trigger] expiry_at(now)
        },
{
    let now = utc_now_timestamp();
    let r = login_at(store, payload, now);
    assert(r matches Ok(c) ==> c.exp == expiry_at(now as int));
    r
}

/// The greeting for a signed-in user: `Hello, <name>!`.
pub fn protected(user: &User) -> (r: ProtectedResponse)
    ensures
        r.message@ == "Hello, "@ + user.username@ + "!"@,
{
    let mut message = String::from_str("Hello, ");
    message.append(user.username.as_str());
    message.append("!");
    ProtectedResponse { message }
}

/// The reply of the sign-up endpoint to the outcome `result`: 201 on success, 409 for a
/// taken name, 500 for any other failure.
pub open spec fn register_reply_for(result: Result<(), UserError>, r: ApiReply) -> bool {
    match result {
        Ok(_) => reply_is(r, CREATED, ReplyKey::Message, "User created successfully"@),
        Err(UserError::UsernameTaken) => reply_is(r, CONFLICT, ReplyKey::Error, "User already exists"@),
        Err(_) => reply_is(r, INTERNAL_SERVER_ERROR, ReplyKey::Error, "An unexpected error occurred"@),
    }
}

/// What the sign-up endpoint does: a sign-up of `name` with `password` takes `before` to
/// `after` with some outcome, and `r` is the reply to that outcome.
pub open spec fn api_sign_up_outcome(
    before: UserStore,
    after: UserStore,
    name: Seq<char>,
    password: Seq<char>,
    r: ApiReply,
) -> bool {
    exists|result: Result<(), UserError>|
        #[trigger] sign_up_outcome(before, after, name, password, result) && register_reply_for(
            result,
            r,
        )
}

/// The reply to a sign-up, from how creating the account went.
pub fn register_reply(result: &Result<(), UserError>) -> (r: ApiReply)
    ensures
        match result {
            Ok(_) => reply_is(r, CREATED, ReplyKey::Message, "User created successfully"@),
            Err(UserError::UsernameTaken) => reply_is(
                r,
                CONFLICT,
                ReplyKey::Error,
                "User already exists"@,
            ),
            Err(_) => reply_is(
                r,
                INTERNAL_SERVER_ERROR,
                ReplyKey::Error,
                "An unexpected error occurred"@,
            ),
        },
{
    match result {
        Ok(_) => ApiReply {
            status: CREATED,
            key: ReplyKey::Message,
            text: String::from_str("User created successfully"),
        },
        Err(UserError::UsernameTaken) => ApiReply {
            status: CONFLICT,
            key: ReplyKey::Error,
            text: String::from_str("User already exists"),
        },
        Err(_) => ApiReply {
            status: INTERNAL_SERVER_ERROR,
            key: ReplyKey::Error,
            text: String::from_str("An unexpected error occurred"),
        },
    }
}

/// Signs a new user up and answers: 201 when the account was created, 409 when the name
/// is taken, 500 otherwise.
pub fn register(store: &mut UserStore, payload: NewUser) -> (r: ApiReply)
    ensures
        valid_rows(final(store)@),
        old(store)@.contains_key(payload.username@) ==> reply_is(
            r,
            CONFLICT,
            ReplyKey::Error,
            "User already exists"@,
        ) && final(store)@ == old(store)@,
        !old(store)@.contains_key(payload.username@) ==> {
            ||| reply_is(r, CREATED, ReplyKey::Message, "User created successfully"@)
                && registered(
                old(store)@,
                final(store)@,
                payload.username@,
                payload.password@,
            )
            ||| reply_is(
                r,
                INTERNAL_SERVER_ERROR,
                ReplyKey::Error,
                "An unexpected error occurred"@,
            ) && final(store)@ == old(store)@
        },
        api_sign_up_outcome(*old(store), *final(store), payload.username@, payload.password@, r),
{
    let result = create_user(store, payload);
    let r = register_reply(&result);
    assert(register_reply_for(result, r));
    r
}

/// The reply to deleting one's own account, from how the deletion went.
pub fn delete_reply(result: &Result<(), UserDeleteError>) -> (r: ApiReply)
    ensures
        match result {
            Ok(_) => reply_is(r, OK, ReplyKey::Message, "User deleted successfully"@),
            Err(UserDeleteError::UserNotFound) => reply_is(
                r,
                NOT_FOUND,
                ReplyKey::Error,
                "User not found"@,
            ),
            Err(_) => reply_is(
                r,
                INTERNAL_SERVER_ERROR,
                ReplyKey::Error,
                "An unexpected error occurred"@,
            ),
        },
{
    match result {
        Ok(_) => ApiReply {
            status: OK,
            key: ReplyKey::Message,
            text: String::from_str("User deleted successfully"),
        },
        Err(UserDeleteError::UserNotFound) => ApiReply {
            status: NOT_FOUND,
            key: ReplyKey::Error,
            text: String::from_str("User not found"),
        },
        Err(_) => ApiReply {
            status: INTERNAL_SERVER_ERROR,
            key: ReplyKey::Error,
            text: String::from_str("An unexpected error occurred"),
        },
    }
}

/// Deletes the signed-in user's account and answers: 200 when it was deleted, 404 when
/// there was no such account.
pub fn delete_current_user(store: &mut UserStore, user: &User) -> (r: ApiReply)
    ensures
        valid_rows(final(store)@),
        crate::user::id_in_use(old(store)@, user.id) ==> reply_is(
            r,
            OK,
            ReplyKey::Message,
            "User deleted successfully"@,
        ) && deleted(old(store)@, final(store)@, user.id),
        !crate::user::id_in_use(old(store)@, user.id) ==> reply_is(
            r,
            NOT_FOUND,
            ReplyKey::Error,
            "User not found"@,
        ) && final(store)@ == old(store)@,
{
    let result = delete_user(store, user.id);
    delete_reply(&result)
}

} // verus!
