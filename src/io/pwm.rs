//! The PWM capability: drive a pin at a frequency and duty cycle.
use vstd::prelude::*;

use crate::io::{completed, performed, runs_plan};

verus! {

/// The share of each period that a pin is high: `num / den`.
#[derive(Clone, Copy, Debug, PartialEq, Eq, Structural)]
pub struct DutyCycle {
    pub num: u32,
    pub den: u32,
}

/// Failures of the PWM layer.
#[derive(Clone, Copy, Debug, PartialEq, Eq, Structural)]
pub enum PwmError {
    /// The pin could not be driven.
    IO,
}

/// One call on a PWM driver.
#[derive(Clone, Copy, Debug, PartialEq, Eq, Structural)]
pub struct PwmCall {
    pub frequency_hz: u32,
    pub duty_cycle: DutyCycle,
    pub pin_bcm: u8,
}

/// Drives pins of the board with pulse-width modulation.
pub trait DrivesPwm {
    /// Drives `pin_bcm` at `frequency_hz` hertz with the given duty cycle.
    fn set_freq_dc(&mut self, frequency_hz: u32, duty_cycle: DutyCycle, pin_bcm: u8) -> Result<
        (),
        PwmError,
    >;
}

/// A PWM driver together with the record of every call made through it,
/// each with whether it succeeded.
#[derive(Debug)]
pub struct RecordedPwm<P> {
    driver: P,
    calls: Vec<(PwmCall, bool)>,
}

impl<P: DrivesPwm> RecordedPwm<P> {
    /// The calls made so far, each with whether it succeeded.
    pub closed spec fn pwm_calls(&self) -> Seq<(PwmCall, bool)> {
        self.calls@
    }

    /// Wraps `driver`, with nothing recorded.
    pub fn new(driver: P) -> (p: RecordedPwm<P>)
        ensures
            p.pwm_calls() == Seq::<(PwmCall, bool)>::empty(),
    {
        RecordedPwm { driver, calls: Vec::new() }
    }

    /// The calls made so far.
    pub fn calls(&self) -> (c: &Vec<(PwmCall, bool)>)
        ensures
            c@ == self.pwm_calls(),
    {
        &self.calls
    }

    /// Forgets the calls recorded so far.
    pub fn clear_calls(&mut self)
        ensures
            final(self).pwm_calls() == Seq::<(PwmCall, bool)>::empty(),
    {
        self.calls.clear();
    }

    /// Makes one call on the driver and records it.
    pub fn call(&mut self, call: PwmCall) -> (r: Result<(), PwmError>)
        ensures
            final(self).pwm_calls() == old(self).pwm_calls().push((call, r is Ok)),
    {
        let r = self.driver.set_freq_dc(call.frequency_hz, call.duty_cycle, call.pin_bcm);
        self.calls.push((call, r.is_ok()));
        r
    }
}

/// Makes the calls of `plan` in order, stopping at the first that fails.
pub fn run_pwm_plan<P: DrivesPwm>(
    pwm: &mut RecordedPwm<P>,
    plan: &Vec<PwmCall>,
) -> (r: Result<(), PwmError>)
    ensures
        runs_plan(old(pwm).pwm_calls(), final(pwm).pwm_calls(), plan@, r is Ok),
{
    let ghost before = pwm.pwm_calls();
    let mut i: usize = 0;
    while i < plan.len()
        invariant
            0 <= i <= plan@.len(),
            before == old(pwm).pwm_calls(),
            before.len() + i == pwm.pwm_calls().len(),
            pwm.pwm_calls().subrange(0, before.len() as int) == before,
            performed(
                plan@.subrange(0, i as int),
                pwm.pwm_calls().subrange(before.len() as int, pwm.pwm_calls().len() as int),
            ),
            completed(
                plan@.subrange(0, i as int),
                pwm.pwm_calls().subrange(before.len() as int, pwm.pwm_calls().len() as int),
            ),
        decreases plan@.len() - i,
    {
        let ghost prev = pwm.pwm_calls();
        let r = pwm.call(plan[i]);
        let ghost log = pwm.pwm_calls().subrange(before.len() as int, pwm.pwm_calls().len() as int);
        let ghost prev_log = prev.subrange(before.len() as int, prev.len() as int);
        assert(log == prev_log.push((plan@[i as int], r is Ok)));
        assert(pwm.pwm_calls().subrange(0, before.len() as int) == prev.subrange(
            0,
            before.len() as int,
        ));
        if r.is_err() {
            return Err(PwmError::IO);
        }
        i = i + 1;
        assert(plan@.subrange(0, i as int) == plan@.subrange(0, (i - 1) as int).push(plan@[i - 1]));
    }
    assert(plan@.subrange(0, i as int) == plan@);
    Ok(())
}

} // verus!
