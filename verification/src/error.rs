//! The error type of the hypervisor.

use vstd::prelude::*;

verus! {

/// What a hypervisor operation can fail with.
#[derive(Debug, Clone, Copy, PartialEq, Eq, Structural)]
pub enum RvmError {
    Internal,
    NotSupported,
    NoMemory,
    InvalidParam,
    OutOfRange,
    BadState,
    NotFound,
}

/// The result of a hypervisor operation.
pub type RvmResult<T> = Result<T, RvmError>;

} // verus!
