//! The operation model: the closed sum types [`Request`] and [`Reply`], the
//! stable discriminant ([`Operation`]) their matching variants share, and
//! the exhaustive narrowing from the generic reply to each operation's
//! result type.

pub mod reply;
pub mod request;

use vstd::prelude::*;
use vstd::pervasive::unreached;

verus! {

/// Stable discriminant shared by a [`Request`] variant and its matching
/// [`Reply`] variant. The tag-match check of the poll handle compares these
/// values across the two independently-defined sum types.
#[derive(Clone, Copy, Debug, PartialEq, Eq, Structural)]
pub enum Operation {
    Agree,
    DeriveKey,
    Encrypt,
    Decrypt,
    GenerateKey,
    Sign,
    Verify,
}

/// A submitted operation; exactly one variant is ever in flight per client.
#[derive(Debug)]
pub enum Request {
    Agree(request::Agree),
    DeriveKey(request::DeriveKey),
    Encrypt(request::Encrypt),
    Decrypt(request::Decrypt),
    GenerateKey(request::GenerateKey),
    Sign(request::Sign),
    Verify(request::Verify),
}

/// A completed operation's result, produced by the peer service.
#[derive(Debug)]
pub enum Reply {
    Agree(reply::Agree),
    DeriveKey(reply::DeriveKey),
    Encrypt(reply::Encrypt),
    Decrypt(reply::Decrypt),
    GenerateKey(reply::GenerateKey),
    Sign(reply::Sign),
    Verify(reply::Verify),
}

/// The discriminant of a request.
pub open spec fn request_tag(r: Request) -> Operation {
    match r {
        Request::Agree(_) => Operation::Agree,
        Request::DeriveKey(_) => Operation::DeriveKey,
        Request::Encrypt(_) => Operation::Encrypt,
        Request::Decrypt(_) => Operation::Decrypt,
        Request::GenerateKey(_) => Operation::GenerateKey,
        Request::Sign(_) => Operation::Sign,
        Request::Verify(_) => Operation::Verify,
    }
}

/// The discriminant of a reply.
pub open spec fn reply_tag(r: Reply) -> Operation {
    match r {
        Reply::Agree(_) => Operation::Agree,
        Reply::DeriveKey(_) => Operation::DeriveKey,
        Reply::Encrypt(_) => Operation::Encrypt,
        Reply::Decrypt(_) => Operation::Decrypt,
        Reply::GenerateKey(_) => Operation::GenerateKey,
        Reply::Sign(_) => Operation::Sign,
        Reply::Verify(_) => Operation::Verify,
    }
}

impl Request {
    /// The discriminant of this request.
    pub fn tag(&self) -> (t: Operation)
        ensures
            t == request_tag(*self),
    {
        match self {
            Request::Agree(_) => Operation::Agree,
            Request::DeriveKey(_) => Operation::DeriveKey,
            Request::Encrypt(_) => Operation::Encrypt,
            Request::Decrypt(_) => Operation::Decrypt,
            Request::GenerateKey(_) => Operation::GenerateKey,
            Request::Sign(_) => Operation::Sign,
            Request::Verify(_) => Operation::Verify,
        }
    }
}

impl Reply {
    /// The discriminant of this reply.
    pub fn tag(&self) -> (t: Operation)
        ensures
            t == reply_tag(*self),
    {
        match self {
            Reply::Agree(_) => Operation::Agree,
            Reply::DeriveKey(_) => Operation::DeriveKey,
            Reply::Encrypt(_) => Operation::Encrypt,
            Reply::Decrypt(_) => Operation::Decrypt,
            Reply::GenerateKey(_) => Operation::GenerateKey,
            Reply::Sign(_) => Operation::Sign,
            Reply::Verify(_) => Operation::Verify,
        }
    }
}

/// Narrowing from the generic [`Reply`] sum type to one operation's result
/// type. The mapping is exhaustive: every catalog operation has a defined
/// narrowing. It is only ever invoked on a reply already known to carry the
/// expected discriminant, so no runtime tag re-check is needed.
pub trait FromReply: Sized {
    /// The discriminant of the replies this type narrows.
    spec fn expected_tag() -> Operation;

    /// The generic reply this narrowed value stands for.
    spec fn as_reply(self) -> Reply;

    /// Extracts the narrowed result from a reply of the matching variant.
    fn from_reply(reply: Reply) -> (r: Self)
        requires
            reply_tag(reply) == Self::expected_tag(),
        ensures
            r.as_reply() == reply,
    ;
}

impl FromReply for reply::Agree {
    open spec fn expected_tag() -> Operation {
        Operation::Agree
    }

    open spec fn as_reply(self) -> Reply {
        Reply::Agree(self)
    }

    fn from_reply(reply: Reply) -> (r: Self) {
        match reply {
            Reply::Agree(r) => r,
            _ => unreached(),
        }
    }
}

impl FromReply for reply::DeriveKey {
    open spec fn expected_tag() -> Operation {
        Operation::DeriveKey
    }

    open spec fn as_reply(self) -> Reply {
        Reply::DeriveKey(self)
    }

    fn from_reply(reply: Reply) -> (r: Self) {
        match reply {
            Reply::DeriveKey(r) => r,
            _ => unreached(),
        }
    }
}

impl FromReply for reply::Encrypt {
    open spec fn expected_tag() -> Operation {
        Operation::Encrypt
    }

    open spec fn as_reply(self) -> Reply {
        Reply::Encrypt(self)
    }

    fn from_reply(reply: Reply) -> (r: Self) {
        match reply {
            Reply::Encrypt(r) => r,
            _ => unreached(),
        }
    }
}

impl FromReply for reply::Decrypt {
    open spec fn expected_tag() -> Operation {
        Operation::Decrypt
    }

    open spec fn as_reply(self) -> Reply {
        Reply::Decrypt(self)
    }

    fn from_reply(reply: Reply) -> (r: Self) {
        match reply {
            Reply::Decrypt(r) => r,
            _ => unreached(),
        }
    }
}

impl FromReply for reply::GenerateKey {
    open spec fn expected_tag() -> Operation {
        Operation::GenerateKey
    }

    open spec fn as_reply(self) -> Reply {
        Reply::GenerateKey(self)
    }

    fn from_reply(reply: Reply) -> (r: Self) {
        match reply {
            Reply::GenerateKey(r) => r,
            _ => unreached(),
        }
    }
}

impl FromReply for reply::Sign {
    open spec fn expected_tag() -> Operation {
        Operation::Sign
    }

    open spec fn as_reply(self) -> Reply {
        Reply::Sign(self)
    }

    fn from_reply(reply: Reply) -> (r: Self) {
        match reply {
            Reply::Sign(r) => r,
            _ => unreached(),
        }
    }
}

impl FromReply for reply::Verify {
    open spec fn expected_tag() -> Operation {
        Operation::Verify
    }

    open spec fn as_reply(self) -> Reply {
        Reply::Verify(self)
    }

    fn from_reply(reply: Reply) -> (r: Self) {
        match reply {
            Reply::Verify(r) => r,
            _ => unreached(),
        }
    }
}

} // verus!
