//! Kernel status values and the raw three-register result of one syscall.

use vstd::prelude::*;
use crate::abi::{
    HyperNativeStatus, HYPER_NATIVE_EXTENSIBLE_RECORD_MAX_BYTES, HYPER_NATIVE_STATUS_OK,
};
use crate::os::error::Error;

verus! {

/// One status value returned by the Native ABI.
#[derive(Clone, Copy, Debug, Eq, PartialEq, Structural)]
pub struct Status(pub HyperNativeStatus);

impl Status {
    pub fn from_raw(raw: HyperNativeStatus) -> (s: Status)
        ensures
            s.0 == raw,
    {
        Status(raw)
    }

    pub fn as_raw(self) -> (r: HyperNativeStatus)
        ensures
            r == self.0,
    {
        self.0
    }

    /// `Ok` exactly for the success status; every other status is an error.
    pub fn into_result(self) -> (r: Result<(), Error>)
        ensures
            r is Ok <==> self.0 == HYPER_NATIVE_STATUS_OK,
            r is Err ==> r == Err::<(), Error>(Error::Status(self)),
    {
        if self.0 == 0 {
            Ok(())
        } else {
            Err(Error::Status(self))
        }
    }
}

/// The status and two value registers returned by one syscall.
#[derive(Clone, Copy, Debug, Eq, PartialEq, Structural)]
pub struct CallResult {
    pub status: HyperNativeStatus,
    pub value0: u64,
    pub value1: u64,
}

/// The outcome of one extensible-info query: the kernel's record size, when
/// the call succeeded and the size is at least `minimum_size` and at most the
/// extensible-record bound with a clear second register.
pub open spec fn info_result(result: CallResult, minimum_size: usize) -> Result<usize, Error> {
    if result.status != HYPER_NATIVE_STATUS_OK {
        Err(Error::Status(Status(result.status)))
    } else if result.value0 > usize::MAX || result.value1 != 0 || result.value0 < minimum_size
        || result.value0 > HYPER_NATIVE_EXTENSIBLE_RECORD_MAX_BYTES {
        Err(Error::InvalidResponse)
    } else {
        Ok(result.value0 as usize)
    }
}

/// Validates one extensible-info result and preserves the kernel record size.
pub fn validate_info_result(result: CallResult, minimum_size: usize) -> (r: Result<usize, Error>)
    ensures
        r == info_result(result, minimum_size),
{
    let checked = Status::from_raw(result.status).into_result();
    if let Err(e) = checked {
        return Err(e);
    }
    if result.value0 > usize::MAX as u64 {
        return Err(Error::InvalidResponse);
    }
    let supported_size = result.value0 as usize;
    if result.value1 != 0 || supported_size < minimum_size || result.value0
        > HYPER_NATIVE_EXTENSIBLE_RECORD_MAX_BYTES {
        return Err(Error::InvalidResponse);
    }
    Ok(supported_size)
}

} // verus!
