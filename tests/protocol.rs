use cocos::api::errors::ApiError;
use cocos::api::ipc_requests::{
    ApiIpcLedRequestBody, ApiIpcPosRequestBody, ApiIpcRequest, ApiIpcRequestType,
    ApiIpcVelRequestBody, ValidatesApiIpcBody,
};
use cocos::api::ipc_responses::{ApiIpcErrorResponseBody, ApiIpcPosResponseBody, ApiResponse, ApiStatus};
use cocos::api::messager::{handle_message, handle_text, validate_body, ApiMessager};
use cocos::models::api::ApiTickInputMessage;
use cocos::models::app_state::AppState;
use cocos::models::led_color::LedColor;
use cocos::models::motor_power::MotorPower;
use cocos::models::position::Position;

fn at_origin() -> ApiTickInputMessage {
    ApiTickInputMessage { bot_pos: Position::zero() }
}

#[test]
fn vel_request_round_trip() {
    let body = ApiIpcVelRequestBody { l: 50, r: -50 };
    let body_text = body.to_json();
    assert_eq!(body_text, "{\"l\":50,\"r\":-50}");
    let request = ApiIpcRequest { request_type: ApiIpcRequestType::Vel, body: body_text };
    let envelope = request.to_json();
    assert_eq!(envelope, "{\"request_type\":1,\"body\":\"{\\\"l\\\":50,\\\"r\\\":-50}\"}");
    let decoded = ApiIpcRequest::from_json(&envelope).unwrap();
    assert_eq!(decoded.request_type, ApiIpcRequestType::Vel);
    assert_eq!(ApiIpcVelRequestBody::from_json(&decoded.body), Some(body));
    let x = handle_text(&envelope, &at_origin());
    assert_eq!(x.response.status, ApiStatus::Success);
    let out = x.outcome.unwrap();
    assert_eq!(out.request_motor_power, MotorPower::new(50, -50, false));
    assert_eq!(out.request_led_color, None);
}

#[test]
fn vel_request_full_power() {
    let text = "{\"request_type\":1,\"body\":\"{\\\"l\\\":100,\\\"r\\\":100}\"}";
    let x = handle_text(text, &at_origin());
    assert_eq!(x.response.status, ApiStatus::Success);
    assert_eq!(x.response.body, "{}");
    let mut state = AppState::zero();
    state.apply_tick_result(&x.outcome);
    assert_eq!(state.target_motor_power, MotorPower::new(100, 100, false).unwrap());
}

#[test]
fn led_request_out_of_range_is_refused() {
    let text = "{\"request_type\":0,\"body\":\"{\\\"r\\\":300,\\\"g\\\":0,\\\"b\\\":0}\"}";
    let x = handle_text(text, &at_origin());
    assert_eq!(x.response.status, ApiStatus::InvalidRequestArgs);
    assert_eq!(x.outcome, Err(ApiError::InvalidRequestBody));
    let mut state = AppState::zero();
    state.apply_tick_result(&x.outcome);
    assert_eq!(state.target_led, LedColor::off());
}

#[test]
fn led_request_sets_color() {
    let text = "{\"request_type\":0,\"body\":\"{\\\"r\\\":255,\\\"g\\\":128,\\\"b\\\":0}\"}";
    let x = handle_text(text, &at_origin());
    assert_eq!(x.response.status, ApiStatus::Success);
    let out = x.outcome.unwrap();
    assert_eq!(out.request_led_color, Some(LedColor::new(255, 128, 0).unwrap()));
    assert_eq!(out.request_motor_power, None);
}

#[test]
fn unknown_request_type_is_refused() {
    let text = "{\"request_type\":9,\"body\":\"{}\"}";
    let x = handle_text(text, &at_origin());
    assert_eq!(x.response.status, ApiStatus::InvalidRequestHead);
    assert_eq!(x.outcome, Err(ApiError::InvalidRequestHead));
    let y = handle_text("not json", &at_origin());
    assert_eq!(y.response.status, ApiStatus::InvalidRequestHead);
    let z = handle_text("{\"request_type\":1}", &at_origin());
    assert_eq!(z.outcome, Err(ApiError::InvalidRequestHead));
}

#[test]
fn non_utf8_message_is_refused() {
    let x = handle_message(&[0x7b, 0xff, 0xfe, 0x7d], &at_origin());
    assert_eq!(x.response.status, ApiStatus::InvalidEncoding);
    assert_eq!(x.outcome, Err(ApiError::DecodeError));
    assert_eq!(
        x.response.body,
        "{\"message\":\"The character encoding is not UTF-8. Are you trying something funny?\"}"
    );
}

#[test]
fn malformed_body_is_refused() {
    let text = "{\"request_type\":1,\"body\":\"{\\\"l\\\":10}\"}";
    let x = handle_text(text, &at_origin());
    assert_eq!(x.response.status, ApiStatus::InvalidRequestBody);
    assert_eq!(x.outcome, Err(ApiError::InvalidRequestBody));
    let y = handle_text("{\"request_type\":2,\"body\":\"[1]\"}", &at_origin());
    assert_eq!(y.response.status, ApiStatus::InvalidRequestBody);
    let z = handle_text("{\"request_type\":1,\"body\":\"{\\\"l\\\":-101,\\\"r\\\":0}\"}", &at_origin());
    assert_eq!(z.response.status, ApiStatus::InvalidRequestArgs);
}

#[test]
fn pos_request_reports_position() {
    let input = ApiTickInputMessage { bot_pos: Position { x: 1_500_000, y: -250, theta: 3_141_593 } };
    let x = handle_message(b"{\"request_type\":2,\"body\":\"{}\"}", &input);
    assert_eq!(x.response.status, ApiStatus::Success);
    assert_eq!(x.response.body, "{\"x\":1.500000,\"y\":-0.000250,\"theta\":3.141593}");
    let out = x.outcome.unwrap();
    assert_eq!(out.request_motor_power, None);
    assert_eq!(out.request_led_color, None);
}

#[test]
fn responses_are_framed() {
    let ok = ApiResponse { status: ApiStatus::Success, body: "{}".to_string() };
    assert_eq!(ok.to_json(), "{\"status\":0,\"body\":\"{}\"}");
    let err = ApiIpcErrorResponseBody { message: "bad \"x\"".to_string() };
    assert_eq!(err.to_json(), "{\"message\":\"bad \\\"x\\\"\"}");
    let r = ApiResponse { status: ApiStatus::InvalidRequestArgs, body: err.to_json() };
    assert_eq!(r.to_json(), "{\"status\":4,\"body\":\"{\\\"message\\\":\\\"bad \\\\\\\"x\\\\\\\"\\\"}\"}");
    let pos = ApiIpcPosResponseBody { x: 0, y: -1, theta: i64::MIN };
    assert_eq!(pos.to_json(), "{\"x\":0.000000,\"y\":-0.000001,\"theta\":-9223372036854.775808}");
    assert_eq!(ApiStatus::InvalidRequestHead.code(), 2);
}

#[test]
fn bodies_validate_their_ranges() {
    assert!(ApiIpcLedRequestBody { r: 0, g: 255, b: 7 }.validate());
    assert!(!ApiIpcLedRequestBody { r: 0, g: 256, b: 7 }.validate());
    assert!(ApiIpcVelRequestBody { l: -100, r: 100 }.validate());
    assert!(!ApiIpcVelRequestBody { l: -101, r: 0 }.validate());
    assert!(ApiIpcPosRequestBody {}.validate());
    assert!(validate_body(Some(ApiIpcVelRequestBody { l: 1, r: 2 })).is_ok());
    let refused = validate_body::<ApiIpcVelRequestBody>(None).unwrap_err();
    assert_eq!(refused.response.status, ApiStatus::InvalidRequestBody);
}

#[test]
fn bodies_decode_from_members() {
    assert_eq!(
        ApiIpcLedRequestBody::from_json("{\"r\":1,\"g\":2,\"b\":3,\"extra\":true}"),
        Some(ApiIpcLedRequestBody { r: 1, g: 2, b: 3 })
    );
    assert_eq!(ApiIpcLedRequestBody::from_json("{\"r\":1,\"g\":2.5,\"b\":3}"), None);
    assert_eq!(ApiIpcVelRequestBody::from_members(Some(3), None), None);
    assert_eq!(ApiIpcPosRequestBody::from_json("{}"), Some(ApiIpcPosRequestBody {}));
    assert_eq!(ApiIpcPosRequestBody::from_json("3"), None);
    assert_eq!(ApiIpcRequestType::from_tag(2), Some(ApiIpcRequestType::Pos));
    assert_eq!(ApiIpcRequestType::from_tag(-1), None);
    assert!(ApiIpcRequest::from_members(Some(0), Some("{}".to_string())).is_some());
    assert!(ApiIpcRequest::from_members(Some(3), Some("{}".to_string())).is_none());
}

#[test]
fn messager_answers_only_when_bound() {
    let mut m = ApiMessager::new("ipc:///tmp/cocos-api");
    assert_eq!(m.comm_file(), "ipc:///tmp/cocos-api");
    assert!(!m.is_bound());
    let refused = m.run_tick(b"{}", &at_origin()).unwrap_err();
    assert_eq!(refused, ApiError::SockNotReady);
    assert_eq!(m.start(Err(98)), Err(ApiError::ZMQError(98)));
    assert!(!m.is_bound());
    assert_eq!(m.start(Ok(())), Ok(()));
    assert!(m.is_bound());
    let x = m.run_tick(b"{\"request_type\":7,\"body\":\"{}\"}", &at_origin()).unwrap();
    assert_eq!(x.response.status, ApiStatus::InvalidRequestHead);
    m.stop();
    m.stop();
    assert!(!m.is_bound());
}

#[test]
fn failed_rebind_keeps_endpoint_bound() {
    let mut m = ApiMessager::new("ipc:///tmp/cocos-api");
    assert_eq!(m.start(Ok(())), Ok(()));
    assert_eq!(m.start(Err(98)), Err(ApiError::ZMQError(98)));
    assert!(m.is_bound());
    let x = m.run_tick(b"{\"request_type\":2,\"body\":\"{}\"}", &at_origin()).unwrap();
    assert_eq!(x.response.status, ApiStatus::Success);
}

#[test]
fn control_characters_are_escaped() {
    let err = ApiIpcErrorResponseBody { message: "a\\b\n\t\r\u{8}\u{c}\u{1}\u{1f}é".to_string() };
    assert_eq!(err.to_json(), "{\"message\":\"a\\\\b\\n\\t\\r\\b\\f\\u0001\\u001fé\"}");
}
