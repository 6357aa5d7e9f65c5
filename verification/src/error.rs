//! Driver status codes.

use vstd::prelude::*;

verus! {

/// The status code with which the driver reports success.
pub const CUDA_SUCCESS: u32 = 0;

/// A status code of the driver other than success.
#[derive(Clone, Copy, Debug, PartialEq, Eq, Structural)]
pub struct DriverError(pub u32);

/// What a status code of the driver means for the caller.
pub open spec fn result_of_status(status: u32) -> Result<(), DriverError> {
    if status == CUDA_SUCCESS {
        Ok(())
    } else {
        Err(DriverError(status))
    }
}

/// Turns a status code of the driver into a result. Every code but success is
/// an error, which keeps the code.
pub fn driver_result(status: u32) -> (result: Result<(), DriverError>)
    ensures
        result == result_of_status(status),
        result is Ok <==> status == 0,
        result matches Err(error) ==> error.0 == status,
{
    if status == CUDA_SUCCESS {
        Ok(())
    } else {
        Err(DriverError(status))
    }
}

} // verus!
