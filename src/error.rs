use vstd::prelude::*;

verus! {

/// The ways an operation on stored configurations can fail.
#[derive(Debug, Clone, Copy, PartialEq, Eq, Structural)]
pub enum VexError {
    /// No configuration is stored under the name.
    NotFound,
    /// A stored file could not be decoded, or a record could not be encoded.
    SerializationError,
    /// A filesystem operation or a process spawn failed.
    IoError,
    /// The name would resolve outside the configuration directory.
    InvalidName,
    /// The launched binary exited unsuccessfully with this code
    /// (`-1` when it was terminated without one).
    ExecutionFailed(i32),
}

} // verus!
