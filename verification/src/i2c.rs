//! Skeleton of an I2C bus handle: a constructor and its result type only; no
//! transfer logic is in scope.

use vstd::prelude::*;

verus! {

#[verifier::external_type_specification]
#[verifier::external_body]
pub struct ExIoError(std::io::Error);

/// Errors that can occur when accessing the I2C peripherals.
pub enum Error {
    /// I/O error raised while opening the bus, propagated unchanged.
    Io(std::io::Error),
}

/// A handle to an I2C bus.
pub struct I2c {}

impl I2c {
    /// Opens the bus. No underlying device is touched here, so opening
    /// always succeeds.
    pub fn new() -> (r: Result<I2c, Error>)
        ensures
            r is Ok,
    {
        Ok(I2c {  })
    }
}

} // verus!
