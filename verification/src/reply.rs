//! The replies that the routes give: a status and a JSON message.
use vstd::prelude::*;

verus! {

/// The HTTP statuses that the routes answer with.
#[derive(Clone, Copy, Debug, PartialEq, Eq, Structural)]
pub enum Status {
    /// 200 OK.
    Success,
    Created,
    Unauthorized,
    InternalServerError,
}

/// The numeric code of a status.
pub open spec fn status_code(s: Status) -> u16 {
    match s {
        Status::Success => 200,
        Status::Created => 201,
        Status::Unauthorized => 401,
        Status::InternalServerError => 500,
    }
}

impl Status {
    /// The numeric code of this status.
    pub fn code(&self) -> (c: u16)
        ensures
            c == status_code(*self),
    {
        match self {
            Status::Success => 200,
            Status::Created => 201,
            Status::Unauthorized => 401,
            Status::InternalServerError => 500,
        }
    }
}

/// The JSON body `{"msg": ...}`.
#[derive(Clone, Debug)]
pub struct JsonMessage {
    pub msg: String,
}

/// A reply whose body is a `JsonMessage`.
#[derive(Clone, Debug)]
pub struct Reply {
    pub status: Status,
    pub body: JsonMessage,
}

impl View for Reply {
    type V = (Status, Seq<char>);

    open spec fn view(&self) -> (Status, Seq<char>) {
        (self.status, self.body.msg@)
    }
}

/// A reply with the given status and message.
pub fn message_reply(status: Status, msg: String) -> (r: Reply)
    ensures
        r@ == (status, msg@),
{
    Reply { status, body: JsonMessage { msg } }
}

/// A reply with the given status and a literal message.
pub fn text_reply(status: Status, msg: &str) -> (r: Reply)
    ensures
        r@ == (status, msg@),
{
    message_reply(status, String::from_str(msg))
}

/// The status of a route whose work came back as `result`: `success` when
/// it went through, 500 when the store failed.
pub fn status_for<T, E>(result: &Result<T, E>, success: Status) -> (s: Status)
    ensures
        s == (if result is Ok {
            success
        } else {
            Status::InternalServerError
        }),
{
    match result {
        Ok(_) => success,
        Err(_) => Status::InternalServerError,
    }
}

} // verus!
