//! Guest control mailboxes and direct cross-VM queue notifications.

use vstd::prelude::*;
use crate::abi::HYPER_NATIVE_STATUS_OK;
use crate::os::error::Error;
use crate::os::handle::{
    adopt_produced_handle_excluding, produced_handle_valid, AnyObject, GuestMailboxObject,
    GuestNotificationObject, HandleInfo, HandleRef, OwnedHandle, TypedObject,
};
use crate::os::status::{CallResult, Status};

verus! {

/// The answer to a creation call that publishes one owner of kind `kind`
/// with exactly `rights`: a successful status, a produced handle that is
/// nonzero and aliases none of the `excluded` inputs, a clear second
/// register, and queried metadata that reports those rights and that kind.
pub open spec fn created_answer(
    result: CallResult,
    rights: u64,
    excluded: Seq<u64>,
    info: Result<HandleInfo, Error>,
    kind: u32,
) -> Result<u64, Error> {
    if result.status != HYPER_NATIVE_STATUS_OK {
        Err(Error::Status(Status(result.status)))
    } else if !produced_handle_valid(result.value0, excluded) || result.value1 != 0 {
        Err(Error::InvalidResponse)
    } else {
        match info {
            Err(e) => Err(e),
            Ok(i) => if i.rights@ != rights {
                Err(Error::InvalidResponse)
            } else if i.kind@ != kind {
                Err(Error::UnexpectedObjectKind { expected: kind, actual: i.kind@ })
            } else {
                Ok(result.value0)
            },
        }
    }
}

/// Adopts the owner a creation call published, given the metadata queried
/// for it. A rejected answer adopts nothing; the caller closes any handle
/// that was published.
pub fn adopt_created<T: TypedObject>(
    result: CallResult,
    rights: u64,
    excluded: &[u64],
    info: Result<HandleInfo, Error>,
) -> (r: Result<OwnedHandle<T>, Error>)
    ensures
        r is Ok <==> created_answer(result, rights, excluded@, info, T::kind_value()) is Ok,
        r matches Ok(h) ==> h@ == result.value0,
        r matches Err(e) ==> created_answer(result, rights, excluded@, info, T::kind_value())
            == Err::<u64, Error>(e),
{
    let checked = Status::from_raw(result.status).into_result();
    if let Err(e) = checked {
        return Err(e);
    }
    let owner = match adopt_produced_handle_excluding::<AnyObject>(result.value0, excluded) {
        Ok(owner) => owner,
        Err(e) => {
            return Err(e);
        },
    };
    if result.value1 != 0 {
        return Err(Error::InvalidResponse);
    }
    match info {
        Err(e) => {
            return Err(e);
        },
        Ok(i) => {
            if i.rights.bits() != rights {
                return Err(Error::InvalidResponse);
            }
        },
    }
    match owner.downcast::<T>(info) {
        Ok(handle) => Ok(handle),
        Err(failure) => Err(failure.error()),
    }
}

/// Exclusive owner of one guest control mailbox.
pub struct Mailbox {
    handle: OwnedHandle<GuestMailboxObject>,
}

impl Mailbox {
    pub closed spec fn handle(&self) -> OwnedHandle<GuestMailboxObject> {
        self.handle
    }

    pub fn from_handle(handle: OwnedHandle<GuestMailboxObject>) -> (r: Mailbox)
        ensures
            r.handle() == handle,
    {
        Mailbox { handle }
    }

    pub fn into_handle(self) -> (r: OwnedHandle<GuestMailboxObject>)
        ensures
            r == self.handle(),
    {
        self.handle
    }

    pub fn as_handle_ref(&self) -> (r: HandleRef<'_, GuestMailboxObject>)
        ensures
            r@ == self.handle()@,
    {
        self.handle.as_handle_ref()
    }

    /// Settles one non-blocking receive into a destination of which
    /// `capacity` bytes were offered to the kernel. A failed copy leaves the
    /// message queued for a later call.
    pub fn receive(&self, capacity: usize, result: CallResult) -> (r: Result<usize, Error>)
        ensures
            r == mailbox_received(capacity, result),
    {
        let checked = Status::from_raw(result.status).into_result();
        if let Err(e) = checked {
            return Err(e);
        }
        if result.value1 != 0 || result.value0 > capacity as u64 {
            return Err(Error::InvalidResponse);
        }
        Ok(result.value0 as usize)
    }
}

/// The length a mailbox receive reports: at most the offered capacity, with a
/// clear second register.
pub open spec fn mailbox_received(capacity: usize, result: CallResult) -> Result<usize, Error> {
    if result.status != HYPER_NATIVE_STATUS_OK {
        Err(Error::Status(Status(result.status)))
    } else if result.value1 != 0 || result.value0 > capacity {
        Err(Error::InvalidResponse)
    } else {
        Ok(result.value0 as usize)
    }
}

/// One control operation on a notification.
#[derive(Clone, Copy, Debug, Eq, PartialEq, Structural)]
pub enum Operation {
    Disable,
    Enable,
    RaiseConfigurationInterrupt,
    /// Permanently withdraw both routes after backend DMA quiescence.
    Disconnect,
}

/// The epoch a control call reports: a nonzero 32-bit value with a clear
/// second register.
pub open spec fn control_answer(result: CallResult) -> Result<u32, Error> {
    if result.status != HYPER_NATIVE_STATUS_OK {
        Err(Error::Status(Status(result.status)))
    } else if result.value0 > u32::MAX || result.value0 == 0 || result.value1 != 0 {
        Err(Error::InvalidResponse)
    } else {
        Ok(result.value0 as u32)
    }
}

/// Exclusive owner of one cross-VM queue notification.
pub struct Notification {
    handle: OwnedHandle<GuestNotificationObject>,
}

impl Notification {
    pub closed spec fn handle(&self) -> OwnedHandle<GuestNotificationObject> {
        self.handle
    }

    pub fn from_handle(handle: OwnedHandle<GuestNotificationObject>) -> (r: Notification)
        ensures
            r.handle() == handle,
    {
        Notification { handle }
    }

    pub fn into_handle(self) -> (r: OwnedHandle<GuestNotificationObject>)
        ensures
            r == self.handle(),
    {
        self.handle
    }

    pub fn as_handle_ref(&self) -> (r: HandleRef<'_, GuestNotificationObject>)
        ensures
            r@ == self.handle()@,
    {
        self.handle.as_handle_ref()
    }

    /// The epoch reported by one control call.
    pub fn control(&self, operation: Operation, result: CallResult) -> (r: Result<u32, Error>)
        ensures
            r == control_answer(result),
    {
        let checked = Status::from_raw(result.status).into_result();
        if let Err(e) = checked {
            return Err(e);
        }
        if result.value0 > u32::MAX as u64 || result.value0 == 0 || result.value1 != 0 {
            return Err(Error::InvalidResponse);
        }
        Ok(result.value0 as u32)
    }

    /// Settles the disconnect of both routes.
    pub fn disconnect(&self, result: CallResult) -> (r: Result<(), Error>)
        ensures
            r == match control_answer(result) {
                Ok(_) => Ok::<(), Error>(()),
                Err(e) => Err(e),
            },
    {
        match self.control(Operation::Disconnect, result) {
            Ok(_) => Ok(()),
            Err(e) => Err(e),
        }
    }
}

} // verus!
