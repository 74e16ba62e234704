use vstd::prelude::*;

verus! {

/// Error codes reported by the GLES entry points.
#[derive(Clone, Copy, Debug, PartialEq, Eq, Structural)]
pub enum ErrorCode {
    /// The operation has completed successfully
    Success,
    /// Enumeration argument is out of range
    InvalidEnumeration,
    /// Numeric argument is out of range
    InvalidValue,
    /// The requested operation is illegal in the current state
    InvalidOperation,
    /// The requested operation would cause a stack overflow
    StackOverflow,
    /// The requested operation would cause a stack underflow
    StackUnderflow,
    /// Not enough memory is available to execute the requested operation
    OutOfMemory,
}

impl ErrorCode {
    /// The numeric value of each code on the C boundary.
    pub open spec fn spec_code(self) -> u32 {
        match self {
            ErrorCode::Success => 0,
            ErrorCode::InvalidEnumeration => 0x500,
            ErrorCode::InvalidValue => 0x501,
            ErrorCode::InvalidOperation => 0x502,
            ErrorCode::StackOverflow => 0x503,
            ErrorCode::StackUnderflow => 0x504,
            ErrorCode::OutOfMemory => 0x505,
        }
    }

    pub fn code(&self) -> (r: u32)
        ensures
            r == self.spec_code(),
    {
        match self {
            ErrorCode::Success => 0,
            ErrorCode::InvalidEnumeration => 0x500,
            ErrorCode::InvalidValue => 0x501,
            ErrorCode::InvalidOperation => 0x502,
            ErrorCode::StackOverflow => 0x503,
            ErrorCode::StackUnderflow => 0x504,
            ErrorCode::OutOfMemory => 0x505,
        }
    }
}

/// No error state is tracked yet: every query reports success.
#[allow(non_snake_case)]
pub fn glGetError() -> (r: ErrorCode)
    ensures
        r == ErrorCode::Success,
{
    ErrorCode::Success
}

} // verus!
