//! The shared robot state: the current position, and the targets of the
//! motors and of the LED.
use vstd::prelude::*;

use crate::api::errors::ApiError;
use crate::controllers::interface::HandlesPyApi;
use crate::models::api::ApiTickOutputMessage;
use crate::models::led_color::LedColor;
use crate::models::motor_power::MotorPower;
use crate::models::position::Position;

verus! {

/// The value that a request leaves in a target: what it names, or else the
/// old value.
pub open spec fn requested_or<T>(request: Option<T>, current: T) -> T {
    match request {
        Some(v) => v,
        None => current,
    }
}

/// `after` is `before` with the targets that `out` names replaced.
pub open spec fn applies_output(
    before: AppState,
    after: AppState,
    out: ApiTickOutputMessage,
) -> bool {
    &&& after.position == before.position
    &&& after.target_motor_power == requested_or(out.request_motor_power, before.target_motor_power)
    &&& after.target_led == requested_or(out.request_led_color, before.target_led)
}

/// The state that the periodic tasks share.
#[derive(Clone, Copy, Debug, PartialEq, Eq, Structural)]
pub struct AppState {
    /// Written by the position task; read by logging and the script.
    pub position: Position,
    /// Written on the script's command; read by the motor task.
    pub target_motor_power: MotorPower,
    /// Written on the script's command; read by the LED task.
    pub target_led: LedColor,
}

impl AppState {
    /// The state at start-up: at the origin, motors at rest, LED off.
    pub fn zero() -> (s: AppState)
        ensures
            s.position == (Position { x: 0, y: 0, theta: 0 }),
            s.target_motor_power.left() == 0,
            s.target_motor_power.right() == 0,
            !s.target_motor_power.locked(),
            s.target_led == (LedColor { r: 0, g: 0, b: 0, a: 0 }),
    {
        AppState {
            position: Position::zero(),
            target_motor_power: MotorPower::zero(),
            target_led: LedColor::off(),
        }
    }

    /// Applies what a handled request asks: each target that it names is
    /// replaced, the others and the position stay.
    pub fn apply_output(&mut self, out: &ApiTickOutputMessage)
        ensures
            applies_output(*old(self), *final(self), *out),
    {
        if let Some(p) = out.request_motor_power {
            self.target_motor_power = p;
        }
        if let Some(c) = out.request_led_color {
            self.target_led = c;
        }
    }

    /// Applies the outcome of one poll: a request that was refused changes
    /// nothing.
    pub fn apply_tick_result(&mut self, outcome: &Result<ApiTickOutputMessage, ApiError>)
        ensures
            outcome is Err ==> *final(self) == *old(self),
            outcome matches Ok(out) ==> applies_output(*old(self), *final(self), *out),
    {
        if let Ok(out) = outcome {
            self.apply_output(out);
        }
    }
}

impl HandlesPyApi for AppState {
    fn on_set_rel_speed(&mut self, rel_speed: MotorPower)
        ensures
            final(self).target_motor_power == rel_speed,
            final(self).position == old(self).position,
            final(self).target_led == old(self).target_led,
    {
        self.target_motor_power = rel_speed;
    }

    fn on_set_led_color(&mut self, led_color: LedColor)
        ensures
            final(self).target_led == led_color,
            final(self).position == old(self).position,
            final(self).target_motor_power == old(self).target_motor_power,
    {
        self.target_led = led_color;
    }

    fn on_get_pos(&mut self) -> (p: Position)
        ensures
            p == old(self).position,
            *final(self) == *old(self),
    {
        self.position
    }
}

} // verus!
