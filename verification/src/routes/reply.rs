//! Replies in JSON: a status and one text, under the key `message` or `error`.

use vstd::prelude::*;

verus! {

/// The key under which the text of a reply stands.
#[derive(Clone, Copy, Debug, PartialEq, Eq, Structural)]
pub enum ReplyKey {
    /// `message`: the request was carried out.
    Message,
    /// `error`: it was not.
    Error,
}

/// A reply: the HTTP status, and the text with its key.
#[derive(Debug)]
pub struct Reply {
    pub status: u16,
    pub key: ReplyKey,
    pub text: String,
}

/// HTTP status 200.
pub const OK: u16 = 200;

/// HTTP status 400.
pub const BAD_REQUEST: u16 = 400;

/// HTTP status 401.
pub const UNAUTHORIZED: u16 = 401;

/// HTTP status 422.
pub const UNPROCESSABLE_ENTITY: u16 = 422;

/// HTTP status 500.
pub const INTERNAL_SERVER_ERROR: u16 = 500;

impl Reply {
    /// Whether the reply has this status, key and text.
    pub open spec fn is(self, status: u16, key: ReplyKey, text: Seq<char>) -> bool {
        self.status == status && self.key == key && self.text@ == text
    }

    /// The reply with status 200 and `text` under `message`.
    pub fn message(text: &str) -> (reply: Reply)
        ensures
            reply.is(OK, ReplyKey::Message, text@),
    {
        Reply { status: OK, key: ReplyKey::Message, text: text.to_owned() }
    }

    /// The reply with status 400 and `text` under `error`.
    pub fn error(text: String) -> (reply: Reply)
        ensures
            reply.is(BAD_REQUEST, ReplyKey::Error, text@),
    {
        Reply { status: BAD_REQUEST, key: ReplyKey::Error, text }
    }
}

} // verus!
