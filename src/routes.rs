//! The handlers of the five routes. Each maps one request to one reply; only
//! `mut_state_test` changes anything, and only the counter.
use vstd::prelude::*;
use crate::decimal::{decimal, push_decimal};
use crate::state::{AppState, AppStateWithCounter};

verus! {

/// The status of every reply a handler gives.
pub const STATUS_OK: u16 = 200;

/// The body of a reply.
pub enum Body {
    Text(String),
    Bytes(Vec<u8>),
}

/// A reply: a status code and a body.
pub struct Reply {
    pub status: u16,
    pub body: Body,
}

impl Reply {
    /// A success whose body is the text `t`.
    pub open spec fn is_ok_text(&self, t: Seq<char>) -> bool {
        &&& self.status == STATUS_OK
        &&& match self.body {
            Body::Text(s) => s@ == t,
            Body::Bytes(_) => false,
        }
    }

    /// A success whose body is the bytes `b`.
    pub open spec fn is_ok_bytes(&self, b: Seq<u8>) -> bool {
        &&& self.status == STATUS_OK
        &&& match self.body {
            Body::Text(_) => false,
            Body::Bytes(v) => v@ == b,
        }
    }

    pub fn ok_text(s: String) -> (r: Reply)
        ensures
            r.is_ok_text(s@),
    {
        Reply { status: STATUS_OK, body: Body::Text(s) }
    }
}

/// `GET /`: a fixed greeting.
pub fn hello() -> (r: Reply)
    ensures
        r.is_ok_text("Hello world!"@),
{
    Reply::ok_text(String::from_str("Hello world!"))
}

/// `POST /echo`: the request body, unchanged.
pub fn echo(req_body: Vec<u8>) -> (r: Reply)
    ensures
        r.is_ok_bytes(req_body@),
{
    Reply { status: STATUS_OK, body: Body::Bytes(req_body) }
}

/// `GET /hey`: a fixed greeting.
pub fn manual_hello() -> (r: Reply)
    ensures
        r.is_ok_text("Hey there!"@),
{
    Reply::ok_text(String::from_str("Hey there!"))
}

/// `GET /app/index.html`: a greeting that names the application.
pub fn index(data: &AppState) -> (r: Reply)
    ensures
        r.is_ok_text("Hello "@ + data.app_name@),
{
    let mut s = String::from_str("Hello ");
    s.append(data.app_name.as_str());
    Reply::ok_text(s)
}

/// `GET /mut_state_test`: counts this request and reports how many have been
/// counted so far, this one included.
pub fn mut_state_test(data: &mut AppStateWithCounter) -> (r: Reply)
    requires
        old(data)@ < u64::MAX,
    ensures
        final(data)@ == old(data)@ + 1,
        r.is_ok_text("Requests number: "@ + decimal(final(data)@)),
{
    let n = data.increment();
    let mut s = String::from_str("Requests number: ");
    push_decimal(&mut s, n);
    Reply::ok_text(s)
}

} // verus!
