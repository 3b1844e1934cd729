//! Native filesystem block initiators.

use vstd::prelude::*;
use crate::abi::HYPER_NATIVE_STATUS_OK;
use crate::os::error::Error;
use crate::os::handle::{HandleRef, NativeBlockObject, OwnedHandle};
use crate::os::status::{CallResult, Status};

verus! {

/// Exclusive owner of one block initiator.
pub struct NativeBlock {
    handle: OwnedHandle<NativeBlockObject>,
}

impl NativeBlock {
    pub closed spec fn handle(&self) -> OwnedHandle<NativeBlockObject> {
        self.handle
    }

    /// Restores the initiator API from an exclusively owned handle.
    pub fn from_handle(handle: OwnedHandle<NativeBlockObject>) -> (r: NativeBlock)
        ensures
            r.handle() == handle,
    {
        NativeBlock { handle }
    }

    pub fn as_handle_ref(&self) -> (r: HandleRef<'_, NativeBlockObject>)
        ensures
            r@ == self.handle()@,
    {
        self.handle.as_handle_ref()
    }

    /// The verified 512-byte sector count reported by activation.
    pub fn activate(&self, result: CallResult) -> (r: Result<u64, Error>)
        ensures
            r == if result.status != HYPER_NATIVE_STATUS_OK {
                Err::<u64, Error>(Error::Status(Status(result.status)))
            } else if result.value0 == 0 || result.value1 != 0 {
                Err(Error::InvalidResponse)
            } else {
                Ok(result.value0)
            },
    {
        let checked = Status::from_raw(result.status).into_result();
        if let Err(e) = checked {
            return Err(e);
        }
        if result.value0 == 0 || result.value1 != 0 {
            return Err(Error::InvalidResponse);
        }
        Ok(result.value0)
    }

    /// Settles a mount: both value registers must be clear.
    pub fn mount(&self, result: CallResult) -> (r: Result<(), Error>)
        ensures
            r == if result.status != HYPER_NATIVE_STATUS_OK {
                Err::<(), Error>(Error::Status(Status(result.status)))
            } else if result.value0 != 0 || result.value1 != 0 {
                Err(Error::InvalidResponse)
            } else {
                Ok(())
            },
    {
        let checked = Status::from_raw(result.status).into_result();
        if let Err(e) = checked {
            return Err(e);
        }
        if result.value0 != 0 || result.value1 != 0 {
            return Err(Error::InvalidResponse);
        }
        Ok(())
    }
}

} // verus!
