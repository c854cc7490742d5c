//! The RGB status LED: one PWM pin per channel.
use vstd::prelude::*;

use crate::io::pwm::{run_pwm_plan, DrivesPwm, DutyCycle, PwmCall, RecordedPwm};
use crate::io::runs_plan;
use crate::models::led_color::LedColor;

verus! {

/// The pins of one LED and the PWM frequency it is driven at.
#[derive(Clone, Copy, Debug, PartialEq, Eq, Structural)]
pub struct LedDescriptor {
    /// The red BCM pin.
    pub pin_r_bcm: u8,
    /// The green BCM pin.
    pub pin_g_bcm: u8,
    /// The blue BCM pin.
    pub pin_b_bcm: u8,
    /// The PWM frequency in hertz; anything above 120 is fine.
    pub frequency_hz: u32,
}

/// Failures of the LED.
#[derive(Clone, Copy, Debug, PartialEq, Eq, Structural)]
pub enum LedError {
    /// The PWM layer failed.
    IO,
}

/// The calls that show `c`: red, green, then blue, each channel's duty cycle
/// its value over 255.
pub open spec fn color_plan(d: LedDescriptor, c: LedColor) -> Seq<PwmCall> {
    seq![
        PwmCall {
            frequency_hz: d.frequency_hz,
            duty_cycle: DutyCycle { num: c.r as u32, den: 255 },
            pin_bcm: d.pin_r_bcm,
        },
        PwmCall {
            frequency_hz: d.frequency_hz,
            duty_cycle: DutyCycle { num: c.g as u32, den: 255 },
            pin_bcm: d.pin_g_bcm,
        },
        PwmCall {
            frequency_hz: d.frequency_hz,
            duty_cycle: DutyCycle { num: c.b as u32, den: 255 },
            pin_bcm: d.pin_b_bcm,
        },
    ]
}

/// Drives one LED through the PWM layer.
#[derive(Clone, Copy, Debug)]
pub struct LedDriver {
    descriptor: LedDescriptor,
}

impl LedDriver {
    /// The pins of the LED.
    pub closed spec fn descriptor(&self) -> LedDescriptor {
        self.descriptor
    }

    pub fn new(descriptor: LedDescriptor) -> (l: LedDriver)
        ensures
            l.descriptor() == descriptor,
    {
        LedDriver { descriptor }
    }

    /// Shows `color`, stopping at the first channel that fails.
    pub fn set_color<P: DrivesPwm>(
        &self,
        color: LedColor,
        pwm_driver: &mut RecordedPwm<P>,
    ) -> (r: Result<(), LedError>)
        ensures
            runs_plan(
                old(pwm_driver).pwm_calls(),
                final(pwm_driver).pwm_calls(),
                color_plan(self.descriptor(), color),
                r is Ok,
            ),
    {
        let d = self.descriptor;
        let mut v: Vec<PwmCall> = Vec::new();
        v.push(
            PwmCall {
                frequency_hz: d.frequency_hz,
                duty_cycle: DutyCycle { num: color.r as u32, den: 255 },
                pin_bcm: d.pin_r_bcm,
            },
        );
        v.push(
            PwmCall {
                frequency_hz: d.frequency_hz,
                duty_cycle: DutyCycle { num: color.g as u32, den: 255 },
                pin_bcm: d.pin_g_bcm,
            },
        );
        v.push(
            PwmCall {
                frequency_hz: d.frequency_hz,
                duty_cycle: DutyCycle { num: color.b as u32, den: 255 },
                pin_bcm: d.pin_b_bcm,
            },
        );
        assert(v@ == color_plan(d, color));
        match run_pwm_plan(pwm_driver, &v) {
            Ok(()) => Ok(()),
            Err(_) => Err(LedError::IO),
        }
    }
}

} // verus!
