//! The request and response bodies and the handler decisions of the two
//! small HTTP services (the actix one on "/" and "/test", the warp one on
//! "/submit").

use vstd::prelude::*;
use crate::clock::{read_clock, ClockReading};

verus! {

/// The protocol part of a request (it carries no fields).
#[derive(Debug, Clone, Copy, PartialEq, Eq, Structural)]
pub struct Protocol {}

/// The JSON body posted to "/test" (`equipmentSn` on the wire).
#[derive(Debug)]
pub struct MyRequest {
    pub equipment_sn: String,
    pub protocol: Option<Protocol>,
}

/// The JSON body answered by "/test".
#[derive(Debug)]
pub struct MyResponse {
    pub status: i32,
    pub rows: i32,
    pub msg: String,
    pub timestamp: i64,
}

/// A plain-text reply: an HTTP status code and its body.
#[derive(Debug)]
pub struct TextReply {
    pub status: u16,
    pub body: String,
}

/// The JSON body posted to "/submit".
#[derive(Debug)]
pub struct PostData {
    pub message: String,
}

impl MyResponse {
    /// A response with no rows, stamped with the given time.
    pub fn with_timestamp(status: i32, msg: &str, timestamp: i64) -> (res: Self)
        ensures
            res.status == status,
            res.rows == 0,
            res.msg@ == msg@,
            res.timestamp == timestamp,
    {
        MyResponse { status, rows: 0, msg: String::from_str(msg), timestamp }
    }

    /// A response with no rows, stamped with the seconds of a clock reading
    /// taken while it is made.
    pub fn new(status: i32, msg: &str) -> (res: Self)
        ensures
            res.status == status,
            res.rows == 0,
            res.msg@ == msg@,
            res.timestamp >= 0,
            exists|c: ClockReading| #[trigger] c.time().secs == res.timestamp,
    {
        let reading = read_clock();
        let now = reading.value();
        Self::with_timestamp(status, msg, now.secs)
    }
}

/// The answer to `GET /`: 200 with "Hello World!".
pub fn hello() -> (res: TextReply)
    ensures
        res.status == 200,
        res.body@ == "Hello World!"@,
{
    TextReply { status: 200, body: String::from_str("Hello World!") }
}

/// The answer to `POST /test` for a request that names its protocol (one
/// without a protocol is refused by the service before this point): status 0,
/// no rows, an empty message, stamped with the current time.
pub fn tests(body: &MyRequest) -> (res: MyResponse)
    requires
        body.protocol is Some,
    ensures
        res.status == 0,
        res.rows == 0,
        res.msg@ == Seq::<char>::empty(),
        res.timestamp >= 0,
        exists|c: ClockReading| #[trigger] c.time().secs == res.timestamp,
{
    let res = MyResponse::new(0, "");
    proof {
        reveal_strlit("");
    }
    res
}

/// The answer to `POST /submit`: 200 with "Question added", whatever the
/// message.
pub fn handle_post(post_data: &PostData) -> (res: TextReply)
    ensures
        res.status == 200,
        res.body@ == "Question added"@,
{
    TextReply { status: 200, body: String::from_str("Question added") }
}

} // verus!
