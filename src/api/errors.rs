use vstd::prelude::*;

verus! {

/// Failures of the script supervisor and of the request/response protocol.
#[derive(Clone, Copy, Debug, PartialEq, Eq, Structural)]
pub enum ApiError {
    /// The operation cannot start while another one is in progress.
    General,
    /// A script cannot be staged while a process runs.
    AlreadyRunning,
    /// The running process could not be signalled or reclaimed.
    ProcessError,
    /// The interpreter process could not be created.
    ProcessSpawnError,
    /// The script could not be written to the child's input stream.
    IO,
    /// The endpoint is not bound.
    SockNotReady,
    /// The transport failed, with its error number.
    ZMQError(i32),
    /// The message bytes are not valid UTF-8.
    DecodeError,
    /// The envelope is malformed or names an unknown request type.
    InvalidRequestHead,
    /// The body does not have the shape of its type, or is out of range.
    InvalidRequestBody,
}

} // verus!
