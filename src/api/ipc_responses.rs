//! Responses to the script: a status code and a body, itself JSON text.
use vstd::prelude::*;
use vstd::string::StringExecFns;

use crate::api::json::{json_string_literal, quote};
use crate::api::text::{micro_decimal, push_micro_decimal, push_signed_decimal, signed_decimal};

verus! {

/// The status of a response.
#[derive(Clone, Copy, Debug, PartialEq, Eq, Structural)]
pub enum ApiStatus {
    Success,
    InvalidEncoding,
    InvalidRequestHead,
    InvalidRequestBody,
    InvalidRequestArgs,
}

/// The code of a status on the wire.
pub open spec fn status_code(s: ApiStatus) -> int {
    match s {
        ApiStatus::Success => 0,
        ApiStatus::InvalidEncoding => 1,
        ApiStatus::InvalidRequestHead => 2,
        ApiStatus::InvalidRequestBody => 3,
        ApiStatus::InvalidRequestArgs => 4,
    }
}

impl ApiStatus {
    /// The code of this status on the wire.
    pub fn code(&self) -> (c: u16)
        ensures
            c == status_code(*self),
    {
        match self {
            ApiStatus::Success => 0,
            ApiStatus::InvalidEncoding => 1,
            ApiStatus::InvalidRequestHead => 2,
            ApiStatus::InvalidRequestBody => 3,
            ApiStatus::InvalidRequestArgs => 4,
        }
    }
}

/// A response: its status and its body.
#[derive(Debug)]
pub struct ApiResponse {
    pub status: ApiStatus,
    pub body: String,
}

/// The text of a response, with its members in the order of the fields.
pub open spec fn response_text(status: ApiStatus, body: Seq<char>) -> Seq<char> {
    "{\"status\":"@ + signed_decimal(status_code(status)) + ",\"body\":"@ + json_string_literal(
        body,
    ) + "}"@
}

impl ApiResponse {
    /// Encodes the response as JSON text.
    pub fn to_json(&self) -> (s: String)
        ensures
            s@ == response_text(self.status, self.body@),
    {
        let mut s = String::from_str("{\"status\":");
        push_signed_decimal(&mut s, self.status.code() as i64);
        s.append(",\"body\":");
        let q = quote(self.body.as_str());
        s.append(q.as_str());
        s.append("}");
        s
    }
}

/// The body of an error response.
#[derive(Debug)]
pub struct ApiIpcErrorResponseBody {
    pub message: String,
}

/// The text of an error body.
pub open spec fn error_body_text(message: Seq<char>) -> Seq<char> {
    "{\"message\":"@ + json_string_literal(message) + "}"@
}

impl ApiIpcErrorResponseBody {
    /// Encodes the body as JSON text.
    pub fn to_json(&self) -> (s: String)
        ensures
            s@ == error_body_text(self.message@),
    {
        let mut s = String::from_str("{\"message\":");
        let q = quote(self.message.as_str());
        s.append(q.as_str());
        s.append("}");
        s
    }
}

/// The body of a successful LED request.
#[derive(Debug)]
pub struct ApiIpcLedResponseBody {}

impl ApiIpcLedResponseBody {
    /// Encodes the body as JSON text: an empty object.
    pub fn to_json(&self) -> (s: String)
        ensures
            s@ == "{}"@,
    {
        String::from_str("{}")
    }
}

/// The body of a successful velocity request.
#[derive(Debug)]
pub struct ApiIpcVelResponseBody {}

impl ApiIpcVelResponseBody {
    /// Encodes the body as JSON text: an empty object.
    pub fn to_json(&self) -> (s: String)
        ensures
            s@ == "{}"@,
    {
        String::from_str("{}")
    }
}

/// The body of a successful position request: lengths in micrometres and
/// the angle in microradians, written in metres and radians.
#[derive(Debug)]
pub struct ApiIpcPosResponseBody {
    pub x: i64,
    pub y: i64,
    pub theta: i64,
}

/// The text of a position body.
pub open spec fn pos_body_text(x: int, y: int, theta: int) -> Seq<char> {
    "{\"x\":"@ + micro_decimal(x) + ",\"y\":"@ + micro_decimal(y) + ",\"theta\":"@ + micro_decimal(
        theta,
    ) + "}"@
}

impl ApiIpcPosResponseBody {
    /// Encodes the body as JSON text.
    pub fn to_json(&self) -> (s: String)
        ensures
            s@ == pos_body_text(self.x as int, self.y as int, self.theta as int),
    {
        let mut s = String::from_str("{\"x\":");
        push_micro_decimal(&mut s, self.x);
        s.append(",\"y\":");
        push_micro_decimal(&mut s, self.y);
        s.append(",\"theta\":");
        push_micro_decimal(&mut s, self.theta);
        s.append("}");
        s
    }
}

} // verus!
