//! The HTTP status codes the service answers with, and the shape of its JSON replies.
use vstd::prelude::*;

verus! {

pub const OK: u16 = 200;

pub const CREATED: u16 = 201;

pub const BAD_REQUEST: u16 = 400;

pub const UNAUTHORIZED: u16 = 401;

pub const NOT_FOUND: u16 = 404;

pub const CONFLICT: u16 = 409;

pub const INTERNAL_SERVER_ERROR: u16 = 500;

/// Which key a one-field JSON reply uses.
#[derive(Debug, PartialEq, Eq)]
pub enum ReplyKey {
    Message,
    Error,
}

/// A reply of the form `{"message": text}` or `{"error": text}` with its status code.
#[derive(Debug)]
pub struct ApiReply {
    pub status: u16,
    pub key: ReplyKey,
    pub text: String,
}

/// `reply` has this status, key and text.
pub open spec fn reply_is(reply: ApiReply, status: u16, key: ReplyKey, text: Seq<char>) -> bool {
    reply.status == status && reply.key == key && reply.text@ == text
}

} // verus!
