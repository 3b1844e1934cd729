//! Owned access to the immutable process-startup boot namespace.
//!
//! The boot namespace resolves paths and reads files exactly as a directory
//! does, with the directory path and read bounds; its files never change size.

use vstd::prelude::*;
use crate::abi::{
    HYPER_NATIVE_RIGHT_DUPLICATE,
    HYPER_NATIVE_RIGHT_EXECUTE,
    HYPER_NATIVE_RIGHT_INSPECT,
    HYPER_NATIVE_RIGHT_READ,
    HYPER_NATIVE_RIGHT_TRANSFER,
    HYPER_NATIVE_RIGHT_WRITE,
    HYPER_NATIVE_STATUS_OK,
};
use crate::os::error::Error;
use crate::os::fs::{decode_read, path_valid, read_response, validate_path, ExactRead};
use crate::os::handle::{bits_contain, BootFileObject, BootFsObject, HandleRef, OwnedHandle, Rights};
use crate::os::status::{CallResult, Status};

verus! {

/// Rights meaningful for immutable boot files.
pub open spec fn boot_file_rights() -> u64 {
    HYPER_NATIVE_RIGHT_READ | HYPER_NATIVE_RIGHT_INSPECT | HYPER_NATIVE_RIGHT_DUPLICATE
        | HYPER_NATIVE_RIGHT_TRANSFER | HYPER_NATIVE_RIGHT_EXECUTE
}

/// A rights set may be requested for a boot file exactly when every right in
/// it is read, inspect, duplicate, transfer or execute; in particular each of
/// those five rights may be requested alone, so a boot file can be opened
/// for execution, and write never can.
pub proof fn boot_file_rights_are_read_inspect_duplicate_transfer_execute(rights: u64)
    ensures
        bits_contain(boot_file_rights(), rights) <==> rights & !(HYPER_NATIVE_RIGHT_READ
            | HYPER_NATIVE_RIGHT_INSPECT | HYPER_NATIVE_RIGHT_DUPLICATE | HYPER_NATIVE_RIGHT_TRANSFER
            | HYPER_NATIVE_RIGHT_EXECUTE) == 0,
        bits_contain(boot_file_rights(), HYPER_NATIVE_RIGHT_READ),
        bits_contain(boot_file_rights(), HYPER_NATIVE_RIGHT_INSPECT),
        bits_contain(boot_file_rights(), HYPER_NATIVE_RIGHT_DUPLICATE),
        bits_contain(boot_file_rights(), HYPER_NATIVE_RIGHT_TRANSFER),
        bits_contain(boot_file_rights(), HYPER_NATIVE_RIGHT_EXECUTE),
        !bits_contain(boot_file_rights(), HYPER_NATIVE_RIGHT_WRITE),
{
    assert(HYPER_NATIVE_RIGHT_READ == 0x10u64 && HYPER_NATIVE_RIGHT_INSPECT == 0x08u64
        && HYPER_NATIVE_RIGHT_DUPLICATE == 0x01u64 && HYPER_NATIVE_RIGHT_TRANSFER == 0x02u64
        && HYPER_NATIVE_RIGHT_EXECUTE == 0x80u64 && HYPER_NATIVE_RIGHT_WRITE == 0x20u64)
        by (bit_vector);
    assert(((0x9bu64 & rights) == rights) <==> (rights & !0x9bu64) == 0) by (bit_vector);
    assert((0x10u64 | 0x08u64 | 0x01u64 | 0x02u64 | 0x80u64) == 0x9bu64) by (bit_vector);
    assert(0x9bu64 & 0x10u64 == 0x10u64 && 0x9bu64 & 0x08u64 == 0x08u64 && 0x9bu64 & 0x01u64
        == 0x01u64 && 0x9bu64 & 0x02u64 == 0x02u64 && 0x9bu64 & 0x80u64 == 0x80u64 && 0x9bu64
        & 0x20u64 != 0x20u64) by (bit_vector);
}

/// Rights which may be requested for a newly opened immutable `BootFile`.
#[derive(Clone, Copy, Debug, Eq, PartialEq, Structural)]
pub struct BootFileRights(Rights);

impl View for BootFileRights {
    type V = u64;

    closed spec fn view(&self) -> u64 {
        self.0@
    }
}

impl BootFileRights {
    #[verifier::type_invariant]
    spec fn within_allowlist(self) -> bool {
        bits_contain(boot_file_rights(), self.0@)
    }

    /// Narrows generic rights to those meaningful for immutable boot files.
    pub fn from_rights(rights: Rights) -> (r: Option<BootFileRights>)
        ensures
            r is Some <==> bits_contain(boot_file_rights(), rights@),
            r is Some <==> rights@ & !(HYPER_NATIVE_RIGHT_READ | HYPER_NATIVE_RIGHT_INSPECT
                | HYPER_NATIVE_RIGHT_DUPLICATE | HYPER_NATIVE_RIGHT_TRANSFER
                | HYPER_NATIVE_RIGHT_EXECUTE) == 0,
            r matches Some(b) ==> b@ == rights@,
    {
        proof {
            boot_file_rights_are_read_inspect_duplicate_transfer_execute(rights@);
        }
        let allowed = HYPER_NATIVE_RIGHT_READ | HYPER_NATIVE_RIGHT_INSPECT
            | HYPER_NATIVE_RIGHT_DUPLICATE | HYPER_NATIVE_RIGHT_TRANSFER
            | HYPER_NATIVE_RIGHT_EXECUTE;
        if (allowed & rights.bits()) == rights.bits() {
            Some(BootFileRights(rights))
        } else {
            None
        }
    }

    pub fn union(self, other: BootFileRights) -> (r: BootFileRights)
        ensures
            r@ == self@ | other@,
    {
        proof {
            use_type_invariant(&self);
            use_type_invariant(&other);
            let (allowed, x, y) = (boot_file_rights(), self.0@, other.0@);
            assert((allowed & x == x && allowed & y == y) ==> allowed & (x | y) == (x | y))
                by (bit_vector);
        }
        BootFileRights(self.0.union(other.0))
    }

    pub fn as_rights(self) -> (r: Rights)
        ensures
            r@ == self@,
            bits_contain(boot_file_rights(), r@),
    {
        proof {
            use_type_invariant(&self);
        }
        self.0
    }
}

/// A validated request to open one path of the boot namespace: the raw
/// namespace handle and the rights requested for the new file.
#[derive(Clone, Copy, Debug, Eq, PartialEq, Structural)]
pub struct OpenRequest {
    pub root: u64,
    pub rights: u64,
}

/// Exclusive authority to resolve paths in the immutable boot namespace.
pub struct BootFs {
    handle: OwnedHandle<BootFsObject>,
}

impl BootFs {
    /// The owned namespace handle.
    pub closed spec fn handle(&self) -> OwnedHandle<BootFsObject> {
        self.handle
    }

    /// Restores boot-namespace operations from an exclusively owned handle.
    pub fn from_handle(handle: OwnedHandle<BootFsObject>) -> (r: BootFs)
        ensures
            r.handle() == handle,
    {
        BootFs { handle }
    }

    /// Borrows the underlying namespace authority for delegation.
    pub fn as_handle_ref(&self) -> (r: HandleRef<'_, BootFsObject>)
        ensures
            r@ == self.handle()@,
    {
        self.handle.as_handle_ref()
    }

    /// Recovers the typed owner for delegation or explicit close.
    pub fn into_handle(self) -> (r: OwnedHandle<BootFsObject>)
        ensures
            r == self.handle(),
    {
        self.handle
    }

    /// Validates the path of an open; no call is made for an invalid path.
    pub fn open_request(&self, path: &str, requested_rights: BootFileRights) -> (r: Result<
        OpenRequest,
        Error,
    >)
        ensures
            r is Ok <==> path_valid(path),
            r matches Ok(request) ==> request.root == self.handle()@ && request.rights
                == requested_rights@,
            r matches Err(e) ==> e == Error::InvalidPath,
    {
        let checked = validate_path(path);
        if let Err(e) = checked {
            return Err(e);
        }
        Ok(OpenRequest { root: self.as_handle_ref().raw(), rights: requested_rights.as_rights().bits() })
    }

    /// Adopts the file published by a successful open call.
    pub fn open(&self, result: CallResult) -> (r: Result<BootFile, Error>)
        ensures
            r is Ok <==> result.status == HYPER_NATIVE_STATUS_OK && result.value0 != 0,
            r matches Ok(file) ==> file.handle()@ == result.value0,
            r matches Err(e) ==> if result.status != HYPER_NATIVE_STATUS_OK {
                e == Error::Status(Status(result.status))
            } else {
                e == Error::InvalidResponse
            },
    {
        let checked = Status::from_raw(result.status).into_result();
        if let Err(e) = checked {
            return Err(e);
        }
        if result.value0 == 0 {
            return Err(Error::InvalidResponse);
        }
        Ok(BootFile { handle: OwnedHandle::from_raw_owned(result.value0) })
    }
}

/// Result metadata from one bounded `BootFile` read.
#[derive(Clone, Copy, Debug, Eq, PartialEq, Structural)]
pub struct ReadOutcome {
    pub bytes_read: usize,
    pub file_size: u64,
}

/// Exclusive ownership of one immutable boot file.
pub struct BootFile {
    handle: OwnedHandle<BootFileObject>,
}

impl BootFile {
    /// The owned file handle.
    pub closed spec fn handle(&self) -> OwnedHandle<BootFileObject> {
        self.handle
    }

    /// Restores file operations from an exclusively owned typed handle.
    pub fn from_handle(handle: OwnedHandle<BootFileObject>) -> (r: BootFile)
        ensures
            r.handle() == handle,
    {
        BootFile { handle }
    }

    /// Borrows the underlying immutable file capability.
    pub fn as_handle_ref(&self) -> (r: HandleRef<'_, BootFileObject>)
        ensures
            r@ == self.handle()@,
    {
        self.handle.as_handle_ref()
    }

    /// Recovers the typed owner for delegation or explicit close.
    pub fn into_handle(self) -> (r: OwnedHandle<BootFileObject>)
        ensures
            r == self.handle(),
    {
        self.handle
    }

    /// Settles one bounded read of `output_len` bytes at `offset`; only the
    /// first bounded prefix of the output was offered to the kernel.
    pub fn read(&self, offset: u64, output_len: usize, result: CallResult) -> (r: Result<
        ReadOutcome,
        Error,
    >)
        ensures
            r == match read_response(offset, output_len, result) {
                Ok(o) => Ok::<ReadOutcome, Error>(
                    ReadOutcome { bytes_read: o.bytes_read, file_size: o.file_size },
                ),
                Err(e) => Err(e),
            },
    {
        match decode_read(offset, output_len, result) {
            Ok(o) => Ok(ReadOutcome { bytes_read: o.bytes_read, file_size: o.file_size }),
            Err(e) => Err(e),
        }
    }

    /// The immutable file size reported by an empty read at offset zero.
    pub fn size(&self, result: CallResult) -> (r: Result<u64, Error>)
        ensures
            r == match read_response(0, 0, result) {
                Ok(o) => Ok::<u64, Error>(o.file_size),
                Err(e) => Err(e),
            },
    {
        match self.read(0, 0, result) {
            Ok(outcome) => Ok(outcome.file_size),
            Err(e) => Err(e),
        }
    }

    /// Starts an exact read of `expected` bytes at `offset`, in which every
    /// chunk must report the same immutable file size.
    pub fn read_exact(&self, offset: u64, expected: usize) -> (r: Result<ExactRead, Error>)
        ensures
            r is Ok <==> expected == 0 || offset + expected <= u64::MAX,
            r matches Ok(read) ==> read.offset() == offset && read.expected() == expected
                && read.completed() == 0 && read.file_size() is None && read.fixed_size(),
            r matches Err(e) ==> e == Error::OffsetOverflow,
    {
        ExactRead::new(offset, expected, true)
    }
}

} // verus!
