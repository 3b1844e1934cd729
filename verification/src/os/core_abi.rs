//! The installed kernel's ABI revision and features.

use vstd::prelude::*;
use crate::abi::{HYPER_NATIVE_ABI_REVISION, HYPER_NATIVE_FEATURE_CORE, HYPER_NATIVE_STATUS_OK};
use crate::os::error::Error;
use crate::os::status::{CallResult, Status};

verus! {

/// Verifies, from the answer to the ABI query, the revision and baseline
/// features that every binding requires.
pub fn require_core_abi(result: CallResult) -> (r: Result<(), Error>)
    ensures
        r == if result.status != HYPER_NATIVE_STATUS_OK {
            Err::<(), Error>(Error::Status(Status(result.status)))
        } else if result.value0 != HYPER_NATIVE_ABI_REVISION || result.value1
            & HYPER_NATIVE_FEATURE_CORE == 0 {
            Err(Error::UnsupportedAbi { revision: result.value0, features: result.value1 })
        } else {
            Ok(())
        },
{
    let checked = Status::from_raw(result.status).into_result();
    if let Err(e) = checked {
        return Err(e);
    }
    if result.value0 != HYPER_NATIVE_ABI_REVISION || result.value1 & HYPER_NATIVE_FEATURE_CORE == 0 {
        return Err(Error::UnsupportedAbi { revision: result.value0, features: result.value1 });
    }
    Ok(())
}

} // verus!
