use vstd::prelude::*;

verus! {

#[verifier::external_type_specification]
#[verifier::external_body]
pub struct ExErrorKind(embedded_hal::i2c::ErrorKind);

/// Error type for Modulino operations.
///
/// A failed bus transaction is reported with the portable error kind that
/// the bus implementation gives for its own error.
#[derive(Debug, Clone, Copy, PartialEq, Eq)]
pub enum Error {
    /// I2C communication error
    I2c(embedded_hal::i2c::ErrorKind),
    /// Device not found on the I2C bus
    DeviceNotFound,
    /// Invalid address provided
    InvalidAddress,
    /// Invalid parameter value
    InvalidParameter,
    /// Value out of range
    OutOfRange,
    /// Operation timed out
    Timeout,
    /// Data transmission error
    DataError,
}

/// Result type alias for Modulino operations.
pub type Result<T> = core::result::Result<T, Error>;

/// Every error in `r` comes from a failed bus transaction.
pub open spec fn from_bus<T>(r: Result<T>) -> bool {
    r is Err ==> r->Err_0 is I2c
}

} // verus!
