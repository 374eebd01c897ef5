//! What the sign-in and sign-up forms carry.
use vstd::prelude::*;

verus! {

/// A user name and password, as sent to log in.
#[derive(Debug)]
pub struct Credentials {
    pub username: String,
    pub password: String,
}

/// A user name and password, as sent to sign up.
#[derive(Debug)]
pub struct NewUser {
    pub username: String,
    pub password: String,
}

} // verus!
