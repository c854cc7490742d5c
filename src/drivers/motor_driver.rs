//! One DC motor behind an H-bridge: two direction pins, a PWM pin for its
//! speed and a standby pin.
use vstd::prelude::*;

use crate::io::gpio::{run_gpio_plan, DrivesGpio, GpioCall, PullMode, RecordedGpio};
use crate::io::pwm::{DrivesPwm, DutyCycle, PwmCall, RecordedPwm};
use crate::io::runs_plan;

verus! {

/// The PWM frequency at which motors are driven, in hertz.
pub const MOTOR_PWM_FREQUENCY_HZ: u32 = 600;

/// The sense in which a motor turns.
#[derive(Clone, Copy, Debug, PartialEq, Eq, Structural)]
pub enum MotorDirection {
    Clockwise,
    CounterClockwise,
}

/// Failures of a motor.
#[derive(Clone, Copy, Debug, PartialEq, Eq, Structural)]
pub enum MotorError {
    /// The GPIO or PWM layer failed.
    IOError,
}

/// The BCM pins of one motor.
#[derive(Clone, Copy, Debug, PartialEq, Eq, Structural)]
pub struct MotorDescriptor {
    pub pin_in1: u8,
    pub pin_in2: u8,
    pub pin_pwm: u8,
    pub pin_stdby: u8,
}

/// The calls that release the motor: every control pin low.
pub open spec fn unblock_plan(d: MotorDescriptor) -> Seq<GpioCall> {
    seq![GpioCall::Low(d.pin_in1), GpioCall::Low(d.pin_in2), GpioCall::Low(d.pin_stdby)]
}

/// The calls that brake the motor: every control pin high.
pub open spec fn block_plan(d: MotorDescriptor) -> Seq<GpioCall> {
    seq![GpioCall::High(d.pin_in1), GpioCall::High(d.pin_in2), GpioCall::High(d.pin_stdby)]
}

/// The calls that set the sense of rotation: counter-clockwise drives the
/// first direction pin high and the second low, clockwise the reverse.
pub open spec fn direction_plan(d: MotorDescriptor, direction: MotorDirection) -> Seq<GpioCall> {
    match direction {
        MotorDirection::CounterClockwise => seq![
            GpioCall::High(d.pin_in1),
            GpioCall::Low(d.pin_in2),
        ],
        MotorDirection::Clockwise => seq![GpioCall::Low(d.pin_in1), GpioCall::High(d.pin_in2)],
    }
}

/// The calls that set the motor up: every pin an output pulled down, then
/// every pin low.
pub open spec fn init_plan(d: MotorDescriptor) -> Seq<GpioCall> {
    seq![
        GpioCall::Output(d.pin_in1, PullMode::Down),
        GpioCall::Output(d.pin_in2, PullMode::Down),
        GpioCall::Output(d.pin_pwm, PullMode::Down),
        GpioCall::Output(d.pin_stdby, PullMode::Down),
        GpioCall::Low(d.pin_in1),
        GpioCall::Low(d.pin_in2),
        GpioCall::Low(d.pin_pwm),
        GpioCall::Low(d.pin_stdby),
    ]
}

/// The call that runs the motor at `percent` of full speed.
pub open spec fn speed_call(d: MotorDescriptor, percent: u32) -> PwmCall {
    PwmCall {
        frequency_hz: MOTOR_PWM_FREQUENCY_HZ,
        duty_cycle: DutyCycle { num: percent, den: 100 },
        pin_bcm: d.pin_pwm,
    }
}

/// Drives one motor through the GPIO and PWM layers.
#[derive(Clone, Copy, Debug)]
pub struct MotorDriver {
    descriptor: MotorDescriptor,
}

impl MotorDriver {
    /// The pins of the motor.
    pub closed spec fn descriptor(&self) -> MotorDescriptor {
        self.descriptor
    }

    pub fn new(descriptor: MotorDescriptor) -> (m: MotorDriver)
        ensures
            m.descriptor() == descriptor,
    {
        MotorDriver { descriptor }
    }

    /// The calls of `unblock`, in order.
    pub fn unblock_calls(&self) -> (v: Vec<GpioCall>)
        ensures
            v@ == unblock_plan(self.descriptor()),
    {
        let d = self.descriptor;
        let mut v: Vec<GpioCall> = Vec::new();
        v.push(GpioCall::Low(d.pin_in1));
        v.push(GpioCall::Low(d.pin_in2));
        v.push(GpioCall::Low(d.pin_stdby));
        v
    }

    /// The calls of `block`, in order.
    pub fn block_calls(&self) -> (v: Vec<GpioCall>)
        ensures
            v@ == block_plan(self.descriptor()),
    {
        let d = self.descriptor;
        let mut v: Vec<GpioCall> = Vec::new();
        v.push(GpioCall::High(d.pin_in1));
        v.push(GpioCall::High(d.pin_in2));
        v.push(GpioCall::High(d.pin_stdby));
        v
    }

    /// The calls of `set_direction`, in order.
    pub fn direction_calls(&self, direction: MotorDirection) -> (v: Vec<GpioCall>)
        ensures
            v@ == direction_plan(self.descriptor(), direction),
    {
        let d = self.descriptor;
        let mut v: Vec<GpioCall> = Vec::new();
        match direction {
            MotorDirection::CounterClockwise => {
                v.push(GpioCall::High(d.pin_in1));
                v.push(GpioCall::Low(d.pin_in2));
            },
            MotorDirection::Clockwise => {
                v.push(GpioCall::Low(d.pin_in1));
                v.push(GpioCall::High(d.pin_in2));
            },
        }
        v
    }

    /// Releases the motor; whether it halts is up to the hardware.
    pub fn unblock<G: DrivesGpio>(
        &self,
        gpio_driver: &mut RecordedGpio<G>,
    ) -> (r: Result<(), MotorError>)
        ensures
            runs_plan(
                old(gpio_driver).gpio_calls(),
                final(gpio_driver).gpio_calls(),
                unblock_plan(self.descriptor()),
                r is Ok,
            ),
    {
        match run_gpio_plan(gpio_driver, &self.unblock_calls()) {
            Ok(()) => Ok(()),
            Err(_) => Err(MotorError::IOError),
        }
    }

    /// Halts the motor at once and keeps it braked.
    pub fn block<G: DrivesGpio>(
        &self,
        gpio_driver: &mut RecordedGpio<G>,
    ) -> (r: Result<(), MotorError>)
        ensures
            runs_plan(
                old(gpio_driver).gpio_calls(),
                final(gpio_driver).gpio_calls(),
                block_plan(self.descriptor()),
                r is Ok,
            ),
    {
        match run_gpio_plan(gpio_driver, &self.block_calls()) {
            Ok(()) => Ok(()),
            Err(_) => Err(MotorError::IOError),
        }
    }

    /// The PWM call that runs the motor at `percent` of full speed.
    pub fn speed_setting(&self, percent: u32) -> (c: PwmCall)
        ensures
            c == speed_call(self.descriptor(), percent),
    {
        PwmCall {
            frequency_hz: MOTOR_PWM_FREQUENCY_HZ,
            duty_cycle: DutyCycle { num: percent, den: 100 },
            pin_bcm: self.descriptor.pin_pwm,
        }
    }

    /// Runs the motor at `percent` of full speed.
    pub fn set_speed<P: DrivesPwm>(
        &self,
        percent: u32,
        pwm_driver: &mut RecordedPwm<P>,
    ) -> (r: Result<(), MotorError>)
        requires
            percent <= 100,
        ensures
            final(pwm_driver).pwm_calls() == old(pwm_driver).pwm_calls().push(
                (speed_call(self.descriptor(), percent), r is Ok),
            ),
    {
        match pwm_driver.call(self.speed_setting(percent)) {
            Ok(()) => Ok(()),
            Err(_) => Err(MotorError::IOError),
        }
    }

    /// Sets the sense of rotation.
    pub fn set_direction<G: DrivesGpio>(
        &self,
        direction: MotorDirection,
        gpio_driver: &mut RecordedGpio<G>,
    ) -> (r: Result<(), MotorError>)
        ensures
            runs_plan(
                old(gpio_driver).gpio_calls(),
                final(gpio_driver).gpio_calls(),
                direction_plan(self.descriptor(), direction),
                r is Ok,
            ),
    {
        match run_gpio_plan(gpio_driver, &self.direction_calls(direction)) {
            Ok(()) => Ok(()),
            Err(_) => Err(MotorError::IOError),
        }
    }

    /// Sets the pins up: all outputs, all low.
    pub fn init<G: DrivesGpio>(
        &self,
        gpio_driver: &mut RecordedGpio<G>,
    ) -> (r: Result<(), MotorError>)
        ensures
            runs_plan(
                old(gpio_driver).gpio_calls(),
                final(gpio_driver).gpio_calls(),
                init_plan(self.descriptor()),
                r is Ok,
            ),
    {
        let d = self.descriptor;
        let mut v: Vec<GpioCall> = Vec::new();
        v.push(GpioCall::Output(d.pin_in1, PullMode::Down));
        v.push(GpioCall::Output(d.pin_in2, PullMode::Down));
        v.push(GpioCall::Output(d.pin_pwm, PullMode::Down));
        v.push(GpioCall::Output(d.pin_stdby, PullMode::Down));
        v.push(GpioCall::Low(d.pin_in1));
        v.push(GpioCall::Low(d.pin_in2));
        v.push(GpioCall::Low(d.pin_pwm));
        v.push(GpioCall::Low(d.pin_stdby));
        assert(v@ == init_plan(d));
        match run_gpio_plan(gpio_driver, &v) {
            Ok(()) => Ok(()),
            Err(_) => Err(MotorError::IOError),
        }
    }
}

} // verus!
