use vstd::prelude::*;

use crate::models::led_color::LedColor;
use crate::models::motor_power::MotorPower;
use crate::models::position::Position;

verus! {

/// What the protocol engine is given on each poll.
#[derive(Clone, Copy, Debug)]
pub struct ApiTickInputMessage {
    /// The current position of the robot.
    pub bot_pos: Position,
}

/// What one handled request asks of the shared robot state.
#[derive(Clone, Copy, Debug, PartialEq, Eq, Structural)]
pub struct ApiTickOutputMessage {
    pub request_motor_power: Option<MotorPower>,
    pub request_led_color: Option<LedColor>,
}

impl ApiTickOutputMessage {
    /// Asks for a new motor power.
    pub fn motor(pow: MotorPower) -> (m: ApiTickOutputMessage)
        ensures
            m.request_motor_power == Some(pow),
            m.request_led_color.is_none(),
    {
        ApiTickOutputMessage { request_led_color: None, request_motor_power: Some(pow) }
    }

    /// Asks for a new LED color.
    pub fn led(color: LedColor) -> (m: ApiTickOutputMessage)
        ensures
            m.request_led_color == Some(color),
            m.request_motor_power.is_none(),
    {
        ApiTickOutputMessage { request_led_color: Some(color), request_motor_power: None }
    }

    /// Asks for no change.
    pub fn none() -> (m: ApiTickOutputMessage)
        ensures
            m.request_led_color.is_none(),
            m.request_motor_power.is_none(),
    {
        ApiTickOutputMessage { request_led_color: None, request_motor_power: None }
    }
}

} // verus!
