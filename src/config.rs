//! The pin assignments and serial settings of the robot.
use vstd::prelude::*;

use crate::drivers::led_driver::LedDescriptor;
use crate::drivers::motor_driver::MotorDescriptor;
use crate::drivers::nucifera_driver::NuciferaDescriptor;
use crate::io::uart::UartParity;

verus! {

/// The wiring of the robot.
#[derive(Clone, Copy, Debug)]
pub struct AppConfig {
    pub mot_left: MotorDescriptor,
    pub mot_right: MotorDescriptor,
    pub nucifera: NuciferaDescriptor,
    pub led: LedDescriptor,
}

/// The wiring of the robot's board. The two motors share their standby pin.
pub fn app_config() -> (c: AppConfig)
    ensures
        c.mot_left.pin_stdby == c.mot_right.pin_stdby,
        c.led.frequency_hz == 120,
{
    AppConfig {
        mot_left: MotorDescriptor { pin_in1: 19, pin_in2: 16, pin_pwm: 26, pin_stdby: 20 },
        mot_right: MotorDescriptor { pin_in1: 5, pin_in2: 6, pin_pwm: 12, pin_stdby: 20 },
        led: LedDescriptor { pin_r_bcm: 22, pin_g_bcm: 23, pin_b_bcm: 24, frequency_hz: 120 },
        nucifera: NuciferaDescriptor {
            baud_rate: 19200,
            parity: UartParity::Even,
            data_bits: 8,
            stop_bits: 1,
        },
    }
}

} // verus!
