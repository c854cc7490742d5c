use cocos::api::errors::ApiError;
use cocos::controllers::interface::HandlesPyApi;
use cocos::models::api::ApiTickOutputMessage;
use cocos::models::app_state::AppState;
use cocos::models::led_color::LedColor;
use cocos::models::motor_power::{MotorPower, MotorPowerQuadrant};
use cocos::models::position::Position;

#[test]
fn motor_power_in_range_is_built() {
    let m = MotorPower::new(50, -50, false).unwrap();
    assert_eq!(m.pow_left(), 50);
    assert_eq!(m.pow_right(), 50);
    assert!(!m.is_locked());
    let edge = MotorPower::new(-100, 100, true).unwrap();
    assert_eq!(edge.pow_left(), 100);
    assert_eq!(edge.pow_right(), 100);
    assert!(edge.is_locked());
}

#[test]
fn motor_power_out_of_range_fails() {
    assert!(MotorPower::new(101, 0, false).is_none());
    assert!(MotorPower::new(0, -101, false).is_none());
    assert!(MotorPower::new(-1000, 1000, true).is_none());
    assert!(MotorPower::new(i32::MIN, 0, false).is_none());
}

#[test]
fn motor_power_zero_is_at_rest() {
    let z = MotorPower::zero();
    assert_eq!(z.pow_left(), 0);
    assert_eq!(z.pow_right(), 0);
    assert!(!z.is_locked());
    assert_eq!(z, MotorPower::new(0, 0, false).unwrap());
}

#[test]
fn quadrants_cover_every_sign_pair() {
    let q = |l: i32, r: i32| MotorPower::new(l, r, false).unwrap().as_quadrant();
    assert_eq!(q(10, 20), MotorPowerQuadrant::PLeftPRight);
    assert_eq!(q(0, 0), MotorPowerQuadrant::PLeftPRight);
    assert_eq!(q(0, -1), MotorPowerQuadrant::PLeftNRight);
    assert_eq!(q(-1, 0), MotorPowerQuadrant::NLeftPRight);
    assert_eq!(q(-100, -100), MotorPowerQuadrant::NLeftNRight);
}

#[test]
fn led_color_channels_in_range() {
    let c = LedColor::new(255, 0, 128).unwrap();
    assert_eq!((c.r, c.g, c.b, c.a), (255, 0, 128, 255));
    assert!(LedColor::new(256, 0, 0).is_err());
    assert!(LedColor::new(0, -1, 0).is_err());
    assert!(LedColor::new(0, 0, 300).is_err());
    let off = LedColor::off();
    assert_eq!((off.r, off.g, off.b, off.a), (0, 0, 0, 0));
}

#[test]
fn app_state_applies_only_named_targets() {
    let mut s = AppState::zero();
    assert_eq!(s.position, Position::zero());
    assert_eq!(s.target_led, LedColor::off());
    let p = MotorPower::new(30, 40, false).unwrap();
    s.apply_output(&ApiTickOutputMessage::motor(p));
    assert_eq!(s.target_motor_power, p);
    assert_eq!(s.target_led, LedColor::off());
    let c = LedColor::new(1, 2, 3).unwrap();
    s.apply_output(&ApiTickOutputMessage::led(c));
    assert_eq!(s.target_motor_power, p);
    assert_eq!(s.target_led, c);
    let before = s;
    s.apply_output(&ApiTickOutputMessage::none());
    assert_eq!(s, before);
    s.apply_tick_result(&Err(ApiError::InvalidRequestBody));
    assert_eq!(s, before);
}

#[test]
fn app_state_answers_script_hooks() {
    let mut s = AppState::zero();
    s.position = Position { x: 5, y: -6, theta: 7 };
    let p = MotorPower::new(-20, 20, true).unwrap();
    s.on_set_rel_speed(p);
    let c = LedColor::new(9, 8, 7).unwrap();
    s.on_set_led_color(c);
    assert_eq!(s.on_get_pos(), Position { x: 5, y: -6, theta: 7 });
    assert_eq!(s.target_motor_power, p);
    assert_eq!(s.target_led, c);
}
