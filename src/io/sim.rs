//! Simulated hardware: a GPIO on which every call succeeds, and a UART on
//! which nothing arrives.
use vstd::prelude::*;

use crate::io::gpio::{DrivesGpio, GpioError, PullMode};
use crate::io::uart::{DrivesUart, UartError};

verus! {

/// A GPIO driver that changes no hardware: every call succeeds.
#[derive(Clone, Copy, Debug)]
pub struct RpiGpioSimulator {}

impl RpiGpioSimulator {
    pub fn new() -> RpiGpioSimulator {
        RpiGpioSimulator {  }
    }
}

impl DrivesGpio for RpiGpioSimulator {
    fn set(&mut self, pin_bcm: u8) -> (r: Result<(), GpioError>)
        ensures
            r is Ok,
    {
        Ok(())
    }

    fn clear(&mut self, pin_bcm: u8) -> (r: Result<(), GpioError>)
        ensures
            r is Ok,
    {
        Ok(())
    }

    fn set_out(&mut self, pin_bcm: u8, pull_mode: PullMode) -> (r: Result<(), GpioError>)
        ensures
            r is Ok,
    {
        Ok(())
    }

    fn set_inp(&mut self, pin_bcm: u8, pull_mode: PullMode) -> (r: Result<(), GpioError>)
        ensures
            r is Ok,
    {
        Ok(())
    }
}

/// A UART on which no byte ever arrives.
#[derive(Clone, Copy, Debug)]
pub struct PrintUartDriver {}

impl PrintUartDriver {
    pub fn new() -> (d: PrintUartDriver) {
        PrintUartDriver {  }
    }
}

impl DrivesUart for PrintUartDriver {
    fn read_bytes(&mut self, into: &mut [u8]) -> (r: Result<usize, UartError>)
        ensures
            r == Ok::<usize, UartError>(0),
    {
        Ok(0)
    }
}

} // verus!
