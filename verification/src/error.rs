//! The ways in which reading a serial number fails.

use vstd::prelude::*;

verus! {

/// The system error code for a path that names nothing. While the drive
/// indices are walked, this is how an index without a device shows.
pub const OS_ERROR_NOT_FOUND: u32 = 2;

/// Why one attempt to read a serial number gave no serial number.
#[derive(Clone, Copy, Debug, PartialEq, Eq, Structural)]
pub enum QueryError {
    /// The device could not be opened; the field is the system error code.
    OpenFailed(u32),
    /// The device was opened but turned the property query down; the field
    /// is the system error code.
    QueryFailed(u32),
    /// The query succeeded but wrote less than one full descriptor header.
    TruncatedResponse,
    /// The descriptor locates no serial number inside the written bytes.
    NoSerialNumber,
    /// The bytes of the serial number are not UTF-8.
    InvalidEncoding,
}

impl QueryError {
    /// The failure that stands for "no device at this path".
    pub open spec fn not_found(self) -> bool {
        self == QueryError::OpenFailed(OS_ERROR_NOT_FOUND)
    }

    /// Tells the absent device apart from every other failure, by the error
    /// code and not by any message text.
    pub fn is_not_found(&self) -> (found: bool)
        ensures
            found == self.not_found(),
    {
        match self {
            QueryError::OpenFailed(code) => *code == OS_ERROR_NOT_FOUND,
            _ => false,
        }
    }
}

} // verus!
