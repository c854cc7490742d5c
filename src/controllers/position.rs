use vstd::prelude::*;

verus! {

/// Failures of the position task.
#[derive(Clone, Copy, Debug, PartialEq, Eq, Structural)]
pub enum PositionControllerError {
    /// The sensor's UART failed.
    Uart,
}

} // verus!
