//! The protocol engine: from the bytes of one request to exactly one
//! response and the change that the request asks of the robot state.
use vstd::prelude::*;
use vstd::string::StringExecFns;
use vstd::utf8::{decode_utf8, valid_utf8};

use crate::api::errors::ApiError;
use crate::api::ipc_requests::{
    envelope_of_text, led_body_of_text, pos_body_of_text, vel_body_of_text, ApiIpcLedRequestBody,
    ApiIpcPosRequestBody, ApiIpcRequest, ApiIpcRequestType, ApiIpcVelRequestBody,
    ValidatesApiIpcBody,
};
use crate::api::ipc_responses::{
    error_body_text, pos_body_text, ApiIpcErrorResponseBody, ApiIpcLedResponseBody,
    ApiIpcPosResponseBody, ApiIpcVelResponseBody, ApiResponse, ApiStatus,
};
use crate::models::api::{ApiTickInputMessage, ApiTickOutputMessage};
use crate::models::led_color::LedColor;
use crate::models::motor_power::MotorPower;
use crate::models::position::Position;

verus! {

/// The answer to one request: the response to send, and what the request
/// asks of the robot state or why it was refused.
#[derive(Debug)]
pub struct ApiExchange {
    pub response: ApiResponse,
    pub outcome: Result<ApiTickOutputMessage, ApiError>,
}

/// The exchange refuses the request: `status` and an error body that carries
/// `message` are sent, and the call fails with `err`.
pub open spec fn is_error_exchange(
    x: ApiExchange,
    status: ApiStatus,
    message: Seq<char>,
    err: ApiError,
) -> bool {
    &&& x.response.status == status
    &&& x.response.body@ == error_body_text(message)
    &&& x.outcome == Err::<ApiTickOutputMessage, ApiError>(err)
}

/// The exchange succeeds with `body` and asks for `out`.
pub open spec fn is_success_exchange(
    x: ApiExchange,
    body: Seq<char>,
    out: ApiTickOutputMessage,
) -> bool {
    &&& x.response.status == ApiStatus::Success
    &&& x.response.body@ == body
    &&& x.outcome == Ok::<ApiTickOutputMessage, ApiError>(out)
}

/// The exchange refuses a body that does not have the shape of its type.
pub open spec fn is_bad_body_exchange(x: ApiExchange) -> bool {
    is_error_exchange(
        x,
        ApiStatus::InvalidRequestBody,
        "The body is invalid. Are you trying something funny?"@,
        ApiError::InvalidRequestBody,
    )
}

/// The exchange refuses a body whose fields are out of range.
pub open spec fn is_bad_args_exchange(x: ApiExchange) -> bool {
    is_error_exchange(
        x,
        ApiStatus::InvalidRequestArgs,
        "The body params are invalid. Are you trying something funny?"@,
        ApiError::InvalidRequestBody,
    )
}

/// The answer to a LED request whose body was read as `body`.
pub open spec fn led_exchange(body: Option<ApiIpcLedRequestBody>, x: ApiExchange) -> bool {
    match body {
        None => is_bad_body_exchange(x),
        Some(b) => if !b.valid() {
            is_bad_args_exchange(x)
        } else {
            is_success_exchange(
                x,
                "{}"@,
                ApiTickOutputMessage {
                    request_motor_power: None,
                    request_led_color: Some(
                        LedColor { r: b.r as u8, g: b.g as u8, b: b.b as u8, a: 255 },
                    ),
                },
            )
        },
    }
}

/// `out` asks for the motor power (`left`, `right`), unlocked, and nothing
/// else.
pub open spec fn asks_for_power(out: ApiTickOutputMessage, left: int, right: int) -> bool {
    &&& out.request_led_color is None
    &&& out.request_motor_power matches Some(p) && p.left() == left && p.right() == right
        && !p.locked()
}

/// The answer to a velocity request whose body was read as `body`.
pub open spec fn vel_exchange(body: Option<ApiIpcVelRequestBody>, x: ApiExchange) -> bool {
    match body {
        None => is_bad_body_exchange(x),
        Some(b) => if !b.valid() {
            is_bad_args_exchange(x)
        } else {
            &&& x.response.status == ApiStatus::Success
            &&& x.response.body@ == "{}"@
            &&& x.outcome matches Ok(out) && asks_for_power(out, b.l as int, b.r as int)
        },
    }
}

/// The answer to a position request whose body was read as `body`, at `pos`.
pub open spec fn pos_exchange(
    body: Option<ApiIpcPosRequestBody>,
    pos: Position,
    x: ApiExchange,
) -> bool {
    match body {
        None => is_bad_body_exchange(x),
        Some(b) => is_success_exchange(
            x,
            pos_body_text(pos.x as int, pos.y as int, pos.theta as int),
            ApiTickOutputMessage { request_motor_power: None, request_led_color: None },
        ),
    }
}

/// The answer to a request of type `t` with body text `body`, at `pos`.
pub open spec fn request_exchange(
    t: ApiIpcRequestType,
    body: Seq<char>,
    pos: Position,
    x: ApiExchange,
) -> bool {
    match t {
        ApiIpcRequestType::Led => led_exchange(led_body_of_text(body), x),
        ApiIpcRequestType::Vel => vel_exchange(vel_body_of_text(body), x),
        ApiIpcRequestType::Pos => pos_exchange(pos_body_of_text(body), pos, x),
    }
}

/// The answer to a request whose text is `text`, at `pos`.
pub open spec fn text_exchange(text: Seq<char>, pos: Position, x: ApiExchange) -> bool {
    match envelope_of_text(text) {
        None => is_error_exchange(
            x,
            ApiStatus::InvalidRequestHead,
            "The header of the message is invalid. Are you trying something funny?"@,
            ApiError::InvalidRequestHead,
        ),
        Some((t, body)) => request_exchange(t, body, pos, x),
    }
}

/// The answer to a request whose bytes are `bytes`, at `pos`.
pub open spec fn message_exchange(bytes: Seq<u8>, pos: Position, x: ApiExchange) -> bool {
    if !valid_utf8(bytes) {
        is_error_exchange(
            x,
            ApiStatus::InvalidEncoding,
            "The character encoding is not UTF-8. Are you trying something funny?"@,
            ApiError::DecodeError,
        )
    } else {
        text_exchange(decode_utf8(bytes), pos, x)
    }
}

/// Relies on std::str::from_utf8: the text of `bytes` where they are valid
/// UTF-8, and nothing otherwise.
#[verifier::external_body]
fn utf8_text(bytes: &[u8]) -> (r: Option<&str>)
    ensures
        r is Some <==> valid_utf8(bytes@),
        r matches Some(s) ==> s@ == decode_utf8(bytes@),
{
    match std::str::from_utf8(bytes) {
        Ok(s) => Some(s),
        Err(_) => None,
    }
}

/// An exchange that refuses the request with `status`, an error body that
/// carries `message`, and the failure `err`.
fn error_exchange(status: ApiStatus, message: &str, err: ApiError) -> (x: ApiExchange)
    ensures
        is_error_exchange(x, status, message@, err),
{
    let body = ApiIpcErrorResponseBody { message: String::from_str(message) };
    ApiExchange { response: ApiResponse { status, body: body.to_json() }, outcome: Err(err) }
}

/// Checks a body as read: the body itself where it has its type's shape and
/// every field is in range, otherwise the exchange that refuses it.
pub fn validate_body<B: ValidatesApiIpcBody>(body: Option<B>) -> (r: Result<B, ApiExchange>)
    ensures
        body is None ==> (r matches Err(x) && is_bad_body_exchange(x)),
        body matches Some(b) ==> (!b.valid() ==> (r matches Err(x) && is_bad_args_exchange(x))),
        body matches Some(b) ==> (b.valid() ==> r == Ok::<B, ApiExchange>(b)),
{
    match body {
        None => Err(
            error_exchange(
                ApiStatus::InvalidRequestBody,
                "The body is invalid. Are you trying something funny?",
                ApiError::InvalidRequestBody,
            ),
        ),
        Some(b) => {
            if !b.validate() {
                Err(
                    error_exchange(
                        ApiStatus::InvalidRequestArgs,
                        "The body params are invalid. Are you trying something funny?",
                        ApiError::InvalidRequestBody,
                    ),
                )
            } else {
                Ok(b)
            }
        },
    }
}

/// The successful answer to a LED request with an in-range body: the color
/// is each channel over 255, fully opaque.
pub fn handle_led_request(request: ApiIpcLedRequestBody) -> (x: ApiExchange)
    requires
        request.valid(),
    ensures
        led_exchange(Some(request), x),
{
    let color = LedColor::new(request.r as i32, request.g as i32, request.b as i32).unwrap();
    ApiExchange {
        response: ApiResponse {
            status: ApiStatus::Success,
            body: ApiIpcLedResponseBody {  }.to_json(),
        },
        outcome: Ok(ApiTickOutputMessage::led(color)),
    }
}

/// The successful answer to a velocity request with an in-range body: each
/// side's power is its percentage over 100, unlocked.
pub fn handle_vel_request(request: ApiIpcVelRequestBody) -> (x: ApiExchange)
    requires
        request.valid(),
    ensures
        vel_exchange(Some(request), x),
{
    let power = MotorPower::new(request.l as i32, request.r as i32, false).unwrap();
    ApiExchange {
        response: ApiResponse {
            status: ApiStatus::Success,
            body: ApiIpcVelResponseBody {  }.to_json(),
        },
        outcome: Ok(ApiTickOutputMessage::motor(power)),
    }
}

/// The successful answer to a position request: the position of `input`,
/// and no change of state.
pub fn handle_pos_request(request: ApiIpcPosRequestBody, input: &ApiTickInputMessage) -> (x:
    ApiExchange)
    ensures
        pos_exchange(Some(request), input.bot_pos, x),
{
    let body = ApiIpcPosResponseBody {
        x: input.bot_pos.x,
        y: input.bot_pos.y,
        theta: input.bot_pos.theta,
    };
    ApiExchange {
        response: ApiResponse { status: ApiStatus::Success, body: body.to_json() },
        outcome: Ok(ApiTickOutputMessage::none()),
    }
}

/// Answers a request whose envelope was decoded: reads the body as the
/// request type asks, checks it, and answers it.
pub fn handle_request(request: &ApiIpcRequest, input: &ApiTickInputMessage) -> (x: ApiExchange)
    ensures
        request_exchange(request.request_type, request.body@, input.bot_pos, x),
{
    let text = request.body.as_str();
    match request.request_type {
        ApiIpcRequestType::Led => match validate_body(ApiIpcLedRequestBody::from_json(text)) {
            Ok(b) => handle_led_request(b),
            Err(x) => x,
        },
        ApiIpcRequestType::Vel => match validate_body(ApiIpcVelRequestBody::from_json(text)) {
            Ok(b) => handle_vel_request(b),
            Err(x) => x,
        },
        ApiIpcRequestType::Pos => match validate_body(ApiIpcPosRequestBody::from_json(text)) {
            Ok(b) => handle_pos_request(b, input),
            Err(x) => x,
        },
    }
}

/// Answers a request given as text.
pub fn handle_text(text: &str, input: &ApiTickInputMessage) -> (x: ApiExchange)
    ensures
        text_exchange(text@, input.bot_pos, x),
{
    match ApiIpcRequest::from_json(text) {
        None => error_exchange(
            ApiStatus::InvalidRequestHead,
            "The header of the message is invalid. Are you trying something funny?",
            ApiError::InvalidRequestHead,
        ),
        Some(request) => handle_request(&request, input),
    }
}

/// Answers a request given as the bytes of a message.
pub fn handle_message(message: &[u8], input: &ApiTickInputMessage) -> (x: ApiExchange)
    ensures
        message_exchange(message@, input.bot_pos, x),
{
    match utf8_text(message) {
        None => error_exchange(
            ApiStatus::InvalidEncoding,
            "The character encoding is not UTF-8. Are you trying something funny?",
            ApiError::DecodeError,
        ),
        Some(text) => handle_text(text, input),
    }
}

} // verus!

verus! {

/// The endpoint side of the protocol engine: the address the endpoint binds,
/// and whether it is bound (answering) or not.
#[derive(Debug)]
pub struct ApiMessager {
    comm_file: String,
    bound: bool,
}

impl ApiMessager {
    /// The address of the endpoint, of the form `ipc:///path/to/sock`.
    pub closed spec fn address(&self) -> Seq<char> {
        self.comm_file@
    }

    /// The address of the endpoint.
    pub fn comm_file(&self) -> (s: &str)
        ensures
            s@ == self.address(),
    {
        self.comm_file.as_str()
    }

    /// Whether the endpoint is bound.
    pub closed spec fn bound(&self) -> bool {
        self.bound
    }

    /// A messager for `comm_file`, not yet bound.
    pub fn new(comm_file: &str) -> (m: ApiMessager)
        ensures
            m.address() == comm_file@,
            !m.bound(),
    {
        ApiMessager { comm_file: String::from_str(comm_file), bound: false }
    }

    /// Whether the endpoint is bound.
    pub fn is_bound(&self) -> (b: bool)
        ensures
            b == self.bound(),
    {
        self.bound
    }

    /// Records the outcome of binding the endpoint: bound on success; on a
    /// failure the endpoint stays as it was, and the transport's error number
    /// is reported.
    pub fn start(&mut self, bind_result: Result<(), i32>) -> (r: Result<(), ApiError>)
        ensures
            final(self).address() == old(self).address(),
            final(self).bound() == (bind_result is Ok || old(self).bound()),
            bind_result matches Ok(u) ==> r == Ok::<(), ApiError>(u),
            bind_result matches Err(e) ==> r == Err::<(), ApiError>(ApiError::ZMQError(e)),
    {
        match bind_result {
            Ok(()) => {
                self.bound = true;
                Ok(())
            },
            Err(e) => Err(ApiError::ZMQError(e)),
        }
    }

    /// Closes the endpoint; closing an unbound endpoint does nothing.
    pub fn stop(&mut self)
        ensures
            final(self).address() == old(self).address(),
            !final(self).bound(),
    {
        self.bound = false;
    }

    /// Answers one received message: fails with `SockNotReady` where the
    /// endpoint is not bound, and otherwise gives the one response to send.
    pub fn run_tick(&self, message: &[u8], data: &ApiTickInputMessage) -> (r: Result<
        ApiExchange,
        ApiError,
    >)
        ensures
            !self.bound() ==> (r matches Err(e) && e == ApiError::SockNotReady),
            self.bound() ==> (r matches Ok(x) && message_exchange(message@, data.bot_pos, x)),
    {
        if !self.bound {
            return Err(ApiError::SockNotReady);
        }
        Ok(handle_message(message, data))
    }
}

} // verus!

verus! {

/// The failure that a refusing status reports to the caller.
pub open spec fn failure_of(status: ApiStatus) -> ApiError {
    match status {
        ApiStatus::InvalidEncoding => ApiError::DecodeError,
        ApiStatus::InvalidRequestHead => ApiError::InvalidRequestHead,
        _ => ApiError::InvalidRequestBody,
    }
}

/// Every request gets exactly one response, and the response and the
/// caller's outcome agree: the status is `Success` exactly when the outcome
/// is a change of state, and a refusing status comes with its failure.
pub proof fn lemma_response_matches_outcome(bytes: Seq<u8>, pos: Position, x: ApiExchange)
    requires
        message_exchange(bytes, pos, x),
    ensures
        x.response.status == ApiStatus::Success <==> x.outcome is Ok,
        x.response.status != ApiStatus::Success ==> x.outcome == Err::<
            ApiTickOutputMessage,
            ApiError,
        >(failure_of(x.response.status)),
{
}

} // verus!
