//! The position sensor, read over a UART.
use vstd::prelude::*;

use crate::io::uart::{DrivesUart, UartDescriptor, UartParity};
use crate::io::{IODriver, IOError};
use crate::models::position::Position;

verus! {

/// The serial settings of the position sensor.
#[derive(Clone, Copy, Debug, PartialEq, Eq, Structural)]
pub struct NuciferaDescriptor {
    pub baud_rate: u32,
    pub parity: UartParity,
    pub data_bits: u8,
    pub stop_bits: u8,
}

impl NuciferaDescriptor {
    /// The UART settings that reach the sensor.
    pub fn to_uart_descriptor(&self) -> (u: UartDescriptor)
        ensures
            u.baud_rate == self.baud_rate,
            u.parity == self.parity,
            u.data_bits == self.data_bits,
            u.stop_bits == self.stop_bits,
    {
        UartDescriptor {
            baud_rate: self.baud_rate,
            parity: self.parity,
            data_bits: self.data_bits,
            stop_bits: self.stop_bits,
        }
    }
}

/// Reads the position of the robot from the sensor.
#[derive(Clone, Copy, Debug)]
pub struct NuciferaDriver {
    descriptor: NuciferaDescriptor,
}

/// One message of the sensor.
#[derive(Clone, Copy, Debug)]
pub struct NuciferaMessage {}

impl IODriver for NuciferaDriver {
    fn init(&mut self) -> (r: Result<(), IOError>) {
        Ok(())
    }
}

impl NuciferaDriver {
    /// The serial settings of the sensor.
    pub closed spec fn descriptor(&self) -> NuciferaDescriptor {
        self.descriptor
    }

    pub fn new(descriptor: NuciferaDescriptor) -> (n: NuciferaDriver)
        ensures
            n.descriptor() == descriptor,
    {
        NuciferaDriver { descriptor }
    }

    /// The current position of the robot. The sensor's messages are not
    /// decoded yet, so the origin is reported.
    pub fn read_current_position<U: DrivesUart>(&self, uart_driver: &U) -> (p: Position)
        ensures
            p.x == 0 && p.y == 0 && p.theta == 0,
    {
        Position::zero()
    }
}

} // verus!
