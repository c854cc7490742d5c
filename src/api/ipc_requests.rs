//! Requests of the script: the envelope, and a body type for each request
//! type with its own range check.
use vstd::prelude::*;
use vstd::string::StringExecFns;

use crate::api::json::{
    int_member, is_object, json_int_member, json_object, json_str_member, json_string_literal,
    quote, str_member,
};
use crate::api::text::{push_signed_decimal, signed_decimal};

verus! {

/// The type tag of a request.
#[derive(Clone, Copy, Debug, PartialEq, Eq, Structural)]
pub enum ApiIpcRequestType {
    /// Sets the LED color; tag 0.
    Led,
    /// Sets the motor power; tag 1.
    Vel,
    /// Reads the position; tag 2.
    Pos,
}

/// The request type that a tag names, if any.
pub open spec fn request_type_of(tag: int) -> Option<ApiIpcRequestType> {
    if tag == 0 {
        Some(ApiIpcRequestType::Led)
    } else if tag == 1 {
        Some(ApiIpcRequestType::Vel)
    } else if tag == 2 {
        Some(ApiIpcRequestType::Pos)
    } else {
        None
    }
}

/// The tag of a request type on the wire.
pub open spec fn tag_of(t: ApiIpcRequestType) -> int {
    match t {
        ApiIpcRequestType::Led => 0,
        ApiIpcRequestType::Vel => 1,
        ApiIpcRequestType::Pos => 2,
    }
}

impl ApiIpcRequestType {
    /// The request type that a tag names; `None` for an unknown tag.
    pub fn from_tag(tag: i64) -> (r: Option<ApiIpcRequestType>)
        ensures
            r == request_type_of(tag as int),
    {
        if tag == 0 {
            Some(ApiIpcRequestType::Led)
        } else if tag == 1 {
            Some(ApiIpcRequestType::Vel)
        } else if tag == 2 {
            Some(ApiIpcRequestType::Pos)
        } else {
            None
        }
    }

    /// The tag of this request type on the wire.
    pub fn tag(&self) -> (t: i64)
        ensures
            t == tag_of(*self),
            request_type_of(t as int) == Some(*self),
    {
        match self {
            ApiIpcRequestType::Led => 0,
            ApiIpcRequestType::Vel => 1,
            ApiIpcRequestType::Pos => 2,
        }
    }
}

/// A request: its type tag and its body, itself JSON text.
#[derive(Debug)]
pub struct ApiIpcRequest {
    pub request_type: ApiIpcRequestType,
    pub body: String,
}

/// The envelope that the members `request_type` and `body` give, where the
/// tag is known and the body is a string.
pub open spec fn envelope_of(tag: Option<i64>, body: Option<Seq<char>>) -> Option<
    (ApiIpcRequestType, Seq<char>),
> {
    match (tag, body) {
        (Some(t), Some(b)) => match request_type_of(t as int) {
            Some(rt) => Some((rt, b)),
            None => None,
        },
        _ => None,
    }
}

/// The text that an optional string holds.
pub open spec fn text_of(s: Option<String>) -> Option<Seq<char>> {
    match s {
        Some(s) => Some(s@),
        None => None,
    }
}

/// The envelope that serde_json reads from `text`.
pub open spec fn envelope_of_text(text: Seq<char>) -> Option<(ApiIpcRequestType, Seq<char>)> {
    envelope_of(json_int_member(text, "request_type"@), json_str_member(text, "body"@))
}

/// The text of an envelope, with its members in the order of the fields.
pub open spec fn envelope_text(t: ApiIpcRequestType, body: Seq<char>) -> Seq<char> {
    "{\"request_type\":"@ + signed_decimal(tag_of(t)) + ",\"body\":"@ + json_string_literal(body)
        + "}"@
}

impl ApiIpcRequest {
    /// Builds the envelope from its members as read: `None` where either is
    /// missing or of the wrong kind, or where the tag is unknown.
    pub fn from_members(request_type: Option<i64>, body: Option<String>) -> (r: Option<
        ApiIpcRequest,
    >)
        ensures
            r matches Some(q) ==> envelope_of(request_type, text_of(body)) == Some(
                (q.request_type, q.body@),
            ),
            r is None ==> envelope_of(request_type, text_of(body)) is None,
    {
        match (request_type, body) {
            (Some(t), Some(b)) => match ApiIpcRequestType::from_tag(t) {
                Some(rt) => Some(ApiIpcRequest { request_type: rt, body: b }),
                None => None,
            },
            _ => None,
        }
    }

    /// Decodes an envelope from JSON text.
    pub fn from_json(text: &str) -> (r: Option<ApiIpcRequest>)
        ensures
            r matches Some(q) ==> envelope_of_text(text@) == Some((q.request_type, q.body@)),
            r is None ==> envelope_of_text(text@) is None,
    {
        let t = int_member(text, "request_type");
        let b = str_member(text, "body");
        ApiIpcRequest::from_members(t, b)
    }

    /// Encodes the envelope as JSON text.
    pub fn to_json(&self) -> (s: String)
        ensures
            s@ == envelope_text(self.request_type, self.body@),
    {
        let mut s = String::from_str("{\"request_type\":");
        push_signed_decimal(&mut s, self.request_type.tag());
        s.append(",\"body\":");
        let q = quote(self.body.as_str());
        s.append(q.as_str());
        s.append("}");
        s
    }
}

/// A body type with a range check of its own.
pub trait ValidatesApiIpcBody {
    /// Whether every field lies in its declared range.
    spec fn valid(&self) -> bool;

    /// Checks every field against its declared range.
    fn validate(&self) -> (r: bool)
        ensures
            r == self.valid(),
    ;
}

/// The body of a LED request: one value per channel, each to lie in 0..=255.
#[derive(Clone, Copy, Debug, PartialEq, Eq, Structural)]
pub struct ApiIpcLedRequestBody {
    pub r: i64,
    pub g: i64,
    pub b: i64,
}

/// Whether a channel lies in 0..=255.
pub open spec fn led_arg_in_range(c: int) -> bool {
    0 <= c <= 255
}

impl ValidatesApiIpcBody for ApiIpcLedRequestBody {
    open spec fn valid(&self) -> bool {
        led_arg_in_range(self.r as int) && led_arg_in_range(self.g as int) && led_arg_in_range(
            self.b as int,
        )
    }

    fn validate(&self) -> (r: bool) {
        0 <= self.r && self.r <= 255 && 0 <= self.g && self.g <= 255 && 0 <= self.b && self.b
            <= 255
    }
}

/// The LED body that the members `r`, `g` and `b` give, where all three are
/// integers.
pub open spec fn led_body_of(r: Option<i64>, g: Option<i64>, b: Option<i64>) -> Option<
    ApiIpcLedRequestBody,
> {
    match (r, g, b) {
        (Some(r), Some(g), Some(b)) => Some(ApiIpcLedRequestBody { r, g, b }),
        _ => None,
    }
}

/// The LED body that serde_json reads from `text`.
pub open spec fn led_body_of_text(text: Seq<char>) -> Option<ApiIpcLedRequestBody> {
    led_body_of(
        json_int_member(text, "r"@),
        json_int_member(text, "g"@),
        json_int_member(text, "b"@),
    )
}

impl ApiIpcLedRequestBody {
    /// Builds the body from its members as read; `None` where one is missing.
    pub fn from_members(r: Option<i64>, g: Option<i64>, b: Option<i64>) -> (res: Option<
        ApiIpcLedRequestBody,
    >)
        ensures
            res == led_body_of(r, g, b),
    {
        match (r, g, b) {
            (Some(r), Some(g), Some(b)) => Some(ApiIpcLedRequestBody { r, g, b }),
            _ => None,
        }
    }

    /// Decodes the body from JSON text; the range is not checked here.
    pub fn from_json(text: &str) -> (res: Option<ApiIpcLedRequestBody>)
        ensures
            res == led_body_of_text(text@),
    {
        let r = int_member(text, "r");
        let g = int_member(text, "g");
        let b = int_member(text, "b");
        ApiIpcLedRequestBody::from_members(r, g, b)
    }
}

/// The body of a velocity request: the power of each side in percent, each
/// to lie in -100..=100.
#[derive(Clone, Copy, Debug, PartialEq, Eq, Structural)]
pub struct ApiIpcVelRequestBody {
    pub l: i64,
    pub r: i64,
}

/// Whether a side's power lies in -100..=100.
pub open spec fn vel_arg_in_range(v: int) -> bool {
    -100 <= v <= 100
}

impl ValidatesApiIpcBody for ApiIpcVelRequestBody {
    open spec fn valid(&self) -> bool {
        vel_arg_in_range(self.l as int) && vel_arg_in_range(self.r as int)
    }

    fn validate(&self) -> (res: bool) {
        -100 <= self.l && self.l <= 100 && -100 <= self.r && self.r <= 100
    }
}

/// The velocity body that the members `l` and `r` give, where both are
/// integers.
pub open spec fn vel_body_of(l: Option<i64>, r: Option<i64>) -> Option<ApiIpcVelRequestBody> {
    match (l, r) {
        (Some(l), Some(r)) => Some(ApiIpcVelRequestBody { l, r }),
        _ => None,
    }
}

/// The velocity body that serde_json reads from `text`.
pub open spec fn vel_body_of_text(text: Seq<char>) -> Option<ApiIpcVelRequestBody> {
    vel_body_of(json_int_member(text, "l"@), json_int_member(text, "r"@))
}

/// The text of a velocity body.
pub open spec fn vel_body_text(b: ApiIpcVelRequestBody) -> Seq<char> {
    "{\"l\":"@ + signed_decimal(b.l as int) + ",\"r\":"@ + signed_decimal(b.r as int) + "}"@
}

impl ApiIpcVelRequestBody {
    /// Builds the body from its members as read; `None` where one is missing.
    pub fn from_members(l: Option<i64>, r: Option<i64>) -> (res: Option<ApiIpcVelRequestBody>)
        ensures
            res == vel_body_of(l, r),
    {
        match (l, r) {
            (Some(l), Some(r)) => Some(ApiIpcVelRequestBody { l, r }),
            _ => None,
        }
    }

    /// Decodes the body from JSON text; the range is not checked here.
    pub fn from_json(text: &str) -> (res: Option<ApiIpcVelRequestBody>)
        ensures
            res == vel_body_of_text(text@),
    {
        let l = int_member(text, "l");
        let r = int_member(text, "r");
        ApiIpcVelRequestBody::from_members(l, r)
    }

    /// Encodes the body as JSON text.
    pub fn to_json(&self) -> (s: String)
        ensures
            s@ == vel_body_text(*self),
    {
        let mut s = String::from_str("{\"l\":");
        push_signed_decimal(&mut s, self.l);
        s.append(",\"r\":");
        push_signed_decimal(&mut s, self.r);
        s.append("}");
        s
    }
}

/// The body of a position request, which carries nothing.
#[derive(Clone, Copy, Debug, PartialEq, Eq, Structural)]
pub struct ApiIpcPosRequestBody {}

impl ValidatesApiIpcBody for ApiIpcPosRequestBody {
    open spec fn valid(&self) -> bool {
        true
    }

    fn validate(&self) -> (r: bool) {
        true
    }
}

/// The position body of `text`: present where serde_json reads an object.
pub open spec fn pos_body_of_text(text: Seq<char>) -> Option<ApiIpcPosRequestBody> {
    if json_object(text) {
        Some(ApiIpcPosRequestBody {  })
    } else {
        None
    }
}

impl ApiIpcPosRequestBody {
    /// Builds the body where the text was read as an object.
    pub fn from_members(is_object: bool) -> (res: Option<ApiIpcPosRequestBody>)
        ensures
            res is Some <==> is_object,
    {
        if is_object {
            Some(ApiIpcPosRequestBody {  })
        } else {
            None
        }
    }

    /// Decodes the body from JSON text.
    pub fn from_json(text: &str) -> (res: Option<ApiIpcPosRequestBody>)
        ensures
            res == pos_body_of_text(text@),
    {
        ApiIpcPosRequestBody::from_members(is_object(text))
    }
}

} // verus!
