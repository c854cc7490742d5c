//! Both wheels: turns a motor power into the pin calls of the two motors.
use vstd::prelude::*;

use crate::drivers::motor_driver::{
    block_plan, direction_plan, speed_call, unblock_plan, MotorDescriptor, MotorDirection,
    MotorDriver,
};
use crate::io::gpio::{run_gpio_plan, DrivesGpio, GpioCall, RecordedGpio};
use crate::io::pwm::{run_pwm_plan, DrivesPwm, PwmCall, RecordedPwm};
use crate::io::{completed, runs_plan};
use crate::models::motor_power::{magnitude, quadrant_of, MotorPower, MotorPowerQuadrant};

verus! {

/// Failures of the wheels.
#[derive(Clone, Copy, Debug, PartialEq, Eq, Structural)]
pub enum MotorControllerError {
    /// The GPIO or PWM layer failed.
    IOError,
}

/// The sense of the left motor: it is mounted so that counter-clockwise
/// drives forward.
pub open spec fn left_direction(q: MotorPowerQuadrant) -> MotorDirection {
    match q {
        MotorPowerQuadrant::PLeftPRight | MotorPowerQuadrant::PLeftNRight => {
            MotorDirection::CounterClockwise
        },
        MotorPowerQuadrant::NLeftPRight | MotorPowerQuadrant::NLeftNRight => {
            MotorDirection::Clockwise
        },
    }
}

/// The sense of the right motor: it is mounted so that clockwise drives
/// forward.
pub open spec fn right_direction(q: MotorPowerQuadrant) -> MotorDirection {
    match q {
        MotorPowerQuadrant::PLeftPRight | MotorPowerQuadrant::NLeftPRight => {
            MotorDirection::Clockwise
        },
        MotorPowerQuadrant::PLeftNRight | MotorPowerQuadrant::NLeftNRight => {
            MotorDirection::CounterClockwise
        },
    }
}

/// The pin calls that brake both motors.
pub open spec fn block_both_plan(l: MotorDescriptor, r: MotorDescriptor) -> Seq<GpioCall> {
    block_plan(l) + block_plan(r)
}

/// The pin calls that release both motors.
pub open spec fn unblock_both_plan(l: MotorDescriptor, r: MotorDescriptor) -> Seq<GpioCall> {
    unblock_plan(l) + unblock_plan(r)
}

/// The pin calls that release both motors and set their senses for the
/// quadrant `q`.
pub open spec fn drive_plan(l: MotorDescriptor, r: MotorDescriptor, q: MotorPowerQuadrant) -> Seq<
    GpioCall,
> {
    unblock_both_plan(l, r) + direction_plan(l, left_direction(q)) + direction_plan(
        r,
        right_direction(q),
    )
}

/// The PWM calls that give each motor the magnitude of its power.
pub open spec fn speed_plan(l: MotorDescriptor, r: MotorDescriptor, vel: MotorPower) -> Seq<
    PwmCall,
> {
    seq![speed_call(l, magnitude(vel.left()) as u32), speed_call(r, magnitude(vel.right()) as u32)]
}

/// What applying `vel` does, from the GPIO record `gpio_before` to `gpio_after` and the PWM
/// record `pwm_before` to `pwm_after`, with `ok` for success: a locked power brakes both
/// motors and leaves the PWM alone; any other releases both, sets their
/// senses, and, where all of that succeeded, sets their speeds.
pub open spec fn applies_power(
    l: MotorDescriptor,
    r: MotorDescriptor,
    vel: MotorPower,
    gpio_before: Seq<(GpioCall, bool)>,
    gpio_after: Seq<(GpioCall, bool)>,
    pwm_before: Seq<(PwmCall, bool)>,
    pwm_after: Seq<(PwmCall, bool)>,
    ok: bool,
) -> bool {
    if vel.locked() {
        runs_plan(gpio_before, gpio_after, block_both_plan(l, r), ok) && pwm_after == pwm_before
    } else {
        let plan = drive_plan(l, r, quadrant_of(vel.left(), vel.right()));
        let gpio_log = gpio_after.subrange(gpio_before.len() as int, gpio_after.len() as int);
        let gpio_ok = completed(plan, gpio_log);
        &&& runs_plan(gpio_before, gpio_after, plan, gpio_ok)
        &&& gpio_ok ==> runs_plan(pwm_before, pwm_after, speed_plan(l, r, vel), ok)
        &&& !gpio_ok ==> pwm_after == pwm_before && !ok
    }
}

/// The two motors of the robot.
#[derive(Clone, Copy, Debug)]
pub struct MotorController {
    left_motor_driver: MotorDriver,
    right_motor_driver: MotorDriver,
}

impl MotorController {
    /// The pins of the left motor.
    pub closed spec fn left(&self) -> MotorDescriptor {
        self.left_motor_driver.descriptor()
    }

    /// The pins of the right motor.
    pub closed spec fn right(&self) -> MotorDescriptor {
        self.right_motor_driver.descriptor()
    }

    pub fn new(lmot: MotorDescriptor, rmot: MotorDescriptor) -> (m: MotorController)
        ensures
            m.left() == lmot,
            m.right() == rmot,
    {
        MotorController {
            left_motor_driver: MotorDriver::new(lmot),
            right_motor_driver: MotorDriver::new(rmot),
        }
    }

    /// Brakes both motors, the left one first.
    pub fn block<G: DrivesGpio>(
        &self,
        gpio_driver: &mut RecordedGpio<G>,
    ) -> (r: Result<(), MotorControllerError>)
        ensures
            runs_plan(
                old(gpio_driver).gpio_calls(),
                final(gpio_driver).gpio_calls(),
                block_both_plan(self.left(), self.right()),
                r is Ok,
            ),
    {
        let mut plan = self.left_motor_driver.block_calls();
        let mut second = self.right_motor_driver.block_calls();
        plan.append(&mut second);
        match run_gpio_plan(gpio_driver, &plan) {
            Ok(()) => Ok(()),
            Err(_) => Err(MotorControllerError::IOError),
        }
    }

    /// Releases both motors, the left one first.
    pub fn unblock<G: DrivesGpio>(
        &self,
        gpio_driver: &mut RecordedGpio<G>,
    ) -> (r: Result<(), MotorControllerError>)
        ensures
            runs_plan(
                old(gpio_driver).gpio_calls(),
                final(gpio_driver).gpio_calls(),
                unblock_both_plan(self.left(), self.right()),
                r is Ok,
            ),
    {
        let mut plan = self.left_motor_driver.unblock_calls();
        let mut second = self.right_motor_driver.unblock_calls();
        plan.append(&mut second);
        match run_gpio_plan(gpio_driver, &plan) {
            Ok(()) => Ok(()),
            Err(_) => Err(MotorControllerError::IOError),
        }
    }

    fn left_direction_of(q: MotorPowerQuadrant) -> (d: MotorDirection)
        ensures
            d == left_direction(q),
    {
        match q {
            MotorPowerQuadrant::PLeftPRight | MotorPowerQuadrant::PLeftNRight => {
                MotorDirection::CounterClockwise
            },
            MotorPowerQuadrant::NLeftPRight | MotorPowerQuadrant::NLeftNRight => {
                MotorDirection::Clockwise
            },
        }
    }

    fn right_direction_of(q: MotorPowerQuadrant) -> (d: MotorDirection)
        ensures
            d == right_direction(q),
    {
        match q {
            MotorPowerQuadrant::PLeftPRight | MotorPowerQuadrant::NLeftPRight => {
                MotorDirection::Clockwise
            },
            MotorPowerQuadrant::PLeftNRight | MotorPowerQuadrant::NLeftNRight => {
                MotorDirection::CounterClockwise
            },
        }
    }

    /// Applies a motor power to both wheels: a locked power brakes them;
    /// otherwise the quadrant sets each motor's sense and the magnitude of
    /// each side its speed.
    pub fn set_vel<G: DrivesGpio, P: DrivesPwm>(
        &self,
        vel: MotorPower,
        gpio_driver: &mut RecordedGpio<G>,
        pwm_driver: &mut RecordedPwm<P>,
    ) -> (r: Result<(), MotorControllerError>)
        ensures
            applies_power(
                self.left(),
                self.right(),
                vel,
                old(gpio_driver).gpio_calls(),
                final(gpio_driver).gpio_calls(),
                old(pwm_driver).pwm_calls(),
                final(pwm_driver).pwm_calls(),
                r is Ok,
            ),
    {
        if vel.is_locked() {
            return self.block(gpio_driver);
        }
        let q = vel.as_quadrant();
        let mut plan = self.left_motor_driver.unblock_calls();
        let mut part = self.right_motor_driver.unblock_calls();
        plan.append(&mut part);
        let mut part = self.left_motor_driver.direction_calls(
            MotorController::left_direction_of(q),
        );
        plan.append(&mut part);
        let mut part = self.right_motor_driver.direction_calls(
            MotorController::right_direction_of(q),
        );
        plan.append(&mut part);
        if run_gpio_plan(gpio_driver, &plan).is_err() {
            return Err(MotorControllerError::IOError);
        }
        let mut speeds: Vec<PwmCall> = Vec::new();
        speeds.push(self.left_motor_driver.speed_setting(vel.pow_left()));
        speeds.push(self.right_motor_driver.speed_setting(vel.pow_right()));
        match run_pwm_plan(pwm_driver, &speeds) {
            Ok(()) => Ok(()),
            Err(_) => Err(MotorControllerError::IOError),
        }
    }
}

} // verus!

verus! {

/// The four quadrants give four different pairs of senses.
pub proof fn lemma_quadrants_have_distinct_senses(q1: MotorPowerQuadrant, q2: MotorPowerQuadrant)
    requires
        q1 != q2,
    ensures
        (left_direction(q1), right_direction(q1)) != (left_direction(q2), right_direction(q2)),
{
}

/// The two senses drive the first direction pin to opposite levels, so
/// their pin calls differ.
pub proof fn lemma_senses_have_distinct_pin_plans(d: MotorDescriptor)
    ensures
        direction_plan(d, MotorDirection::Clockwise) != direction_plan(
            d,
            MotorDirection::CounterClockwise,
        ),
{
    assert(direction_plan(d, MotorDirection::Clockwise)[0] != direction_plan(
        d,
        MotorDirection::CounterClockwise,
    )[0]);
}

} // verus!
