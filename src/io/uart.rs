//! The UART capability: read the bytes that have arrived.
use vstd::prelude::*;

verus! {

/// Failures of the UART layer.
#[derive(Clone, Copy, Debug, PartialEq, Eq, Structural)]
pub enum UartError {
    IO,
}

/// The parity modes of a UART.
#[derive(Clone, Copy, Debug, PartialEq, Eq, Structural)]
pub enum UartParity {
    NoParity,
    Even,
    Odd,
    Mark,
    Space,
}

/// What it takes to open a UART.
#[derive(Clone, Copy, Debug, PartialEq, Eq, Structural)]
pub struct UartDescriptor {
    pub baud_rate: u32,
    pub parity: UartParity,
    pub data_bits: u8,
    pub stop_bits: u8,
}

/// Reads from a UART.
pub trait DrivesUart {
    /// Reads the bytes that are available into the front of `into`, and
    /// gives how many were read.
    fn read_bytes(&mut self, into: &mut [u8]) -> (r: Result<usize, UartError>)
        ensures
            final(into)@.len() == old(into)@.len(),
            r matches Ok(n) ==> n <= old(into)@.len(),
    ;
}

} // verus!
