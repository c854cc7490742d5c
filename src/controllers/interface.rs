//! Hooks of the periodic tasks and of the script's commands.
use vstd::prelude::*;

use crate::models::led_color::LedColor;
use crate::models::motor_power::MotorPower;
use crate::models::position::Position;

verus! {

/// Work done every millisecond.
pub trait HandlesTick1Ms {
    fn on_tick1(&mut self);
}

/// Work done every 10 milliseconds.
pub trait HandlesTick10Ms {
    fn on_tick10(&mut self);
}

/// Work done every 100 milliseconds.
pub trait HandlesTick100Ms {
    fn on_tick100(&mut self);
}

/// Work done every second.
pub trait HandlesTick1000Ms {
    fn on_tick1000(&mut self);
}

/// What the behaviour script can ask of the robot.
pub trait HandlesPyApi {
    /// Sets the power of the two motors.
    fn on_set_rel_speed(&mut self, rel_speed: MotorPower);

    /// Sets the color of the LED.
    fn on_set_led_color(&mut self, led_color: LedColor);

    /// The current position of the robot.
    fn on_get_pos(&mut self) -> Position;
}

} // verus!
