use vstd::prelude::*;

verus! {

/// Why an operation on a named semaphore did not succeed.
#[derive(Debug, Clone, Copy, PartialEq, Eq, Structural)]
pub enum SemError {
    /// The name holds a null byte, so it cannot be handed to the system.
    /// Detected before any system call is made.
    InvalidInput,
    /// The system refused the call; the error number it reported is kept
    /// as it is, without reinterpretation.
    Os(i32),
}

} // verus!
