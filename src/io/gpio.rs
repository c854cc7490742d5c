//! The GPIO capability: drive pins high or low, configure their direction.
use vstd::prelude::*;

use crate::io::{completed, performed, runs_plan};

verus! {

/// The internal pull of a pin.
#[derive(Clone, Copy, Debug, PartialEq, Eq, Structural)]
pub enum PullMode {
    Up,
    Down,
}

/// Failures of the GPIO layer.
#[derive(Clone, Copy, Debug, PartialEq, Eq, Structural)]
pub enum GpioError {
    /// A pin could not be changed.
    IO,
}

/// One call on a GPIO driver, by BCM pin number.
#[derive(Clone, Copy, Debug, PartialEq, Eq, Structural)]
pub enum GpioCall {
    /// `set`: the pin driven high.
    High(u8),
    /// `clear`: the pin driven low.
    Low(u8),
    /// `set_out`: the pin made an output.
    Output(u8, PullMode),
    /// `set_inp`: the pin made an input.
    Input(u8, PullMode),
}

/// Drives the GPIO pins of the board.
pub trait DrivesGpio {
    /// Drives a pin high.
    fn set(&mut self, pin_bcm: u8) -> Result<(), GpioError>;

    /// Drives a pin low.
    fn clear(&mut self, pin_bcm: u8) -> Result<(), GpioError>;

    /// Makes a pin an output, with the given pull.
    fn set_out(&mut self, pin_bcm: u8, pull_mode: PullMode) -> Result<(), GpioError>;

    /// Makes a pin an input, with the given pull.
    fn set_inp(&mut self, pin_bcm: u8, pull_mode: PullMode) -> Result<(), GpioError>;
}

/// A GPIO driver together with the record of every call made through it,
/// each with whether it succeeded.
#[derive(Debug)]
pub struct RecordedGpio<G> {
    driver: G,
    calls: Vec<(GpioCall, bool)>,
}

impl<G: DrivesGpio> RecordedGpio<G> {
    /// The calls made so far, each with whether it succeeded.
    pub closed spec fn gpio_calls(&self) -> Seq<(GpioCall, bool)> {
        self.calls@
    }

    /// Wraps `driver`, with nothing recorded.
    pub fn new(driver: G) -> (g: RecordedGpio<G>)
        ensures
            g.gpio_calls() == Seq::<(GpioCall, bool)>::empty(),
    {
        RecordedGpio { driver, calls: Vec::new() }
    }

    /// The calls made so far.
    pub fn calls(&self) -> (c: &Vec<(GpioCall, bool)>)
        ensures
            c@ == self.gpio_calls(),
    {
        &self.calls
    }

    /// Forgets the calls recorded so far.
    pub fn clear_calls(&mut self)
        ensures
            final(self).gpio_calls() == Seq::<(GpioCall, bool)>::empty(),
    {
        self.calls.clear();
    }

    /// Makes one call on the driver and records it.
    pub fn call(&mut self, call: GpioCall) -> (r: Result<(), GpioError>)
        ensures
            final(self).gpio_calls() == old(self).gpio_calls().push((call, r is Ok)),
    {
        let r = match call {
            GpioCall::High(p) => self.driver.set(p),
            GpioCall::Low(p) => self.driver.clear(p),
            GpioCall::Output(p, m) => self.driver.set_out(p, m),
            GpioCall::Input(p, m) => self.driver.set_inp(p, m),
        };
        self.calls.push((call, r.is_ok()));
        r
    }
}

/// Makes the calls of `plan` in order, stopping at the first that fails.
pub fn run_gpio_plan<G: DrivesGpio>(
    gpio: &mut RecordedGpio<G>,
    plan: &Vec<GpioCall>,
) -> (r: Result<(), GpioError>)
    ensures
        runs_plan(old(gpio).gpio_calls(), final(gpio).gpio_calls(), plan@, r is Ok),
{
    let ghost before = gpio.gpio_calls();
    let mut i: usize = 0;
    while i < plan.len()
        invariant
            0 <= i <= plan@.len(),
            before == old(gpio).gpio_calls(),
            before.len() + i == gpio.gpio_calls().len(),
            gpio.gpio_calls().subrange(0, before.len() as int) == before,
            performed(
                plan@.subrange(0, i as int),
                gpio.gpio_calls().subrange(before.len() as int, gpio.gpio_calls().len() as int),
            ),
            completed(
                plan@.subrange(0, i as int),
                gpio.gpio_calls().subrange(before.len() as int, gpio.gpio_calls().len() as int),
            ),
        decreases plan@.len() - i,
    {
        let ghost prev = gpio.gpio_calls();
        let r = gpio.call(plan[i]);
        let ghost log = gpio.gpio_calls().subrange(
            before.len() as int,
            gpio.gpio_calls().len() as int,
        );
        let ghost prev_log = prev.subrange(before.len() as int, prev.len() as int);
        assert(log == prev_log.push((plan@[i as int], r is Ok)));
        assert(gpio.gpio_calls().subrange(0, before.len() as int) == prev.subrange(
            0,
            before.len() as int,
        ));
        if r.is_err() {
            return Err(GpioError::IO);
        }
        i = i + 1;
        assert(plan@.subrange(0, i as int) == plan@.subrange(0, (i - 1) as int).push(plan@[i - 1]));
    }
    assert(plan@.subrange(0, i as int) == plan@);
    Ok(())
}

} // verus!
