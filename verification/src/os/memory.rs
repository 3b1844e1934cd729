//! Ownership and bounded transfers of virtual memory objects.

pub mod private;

use vstd::prelude::*;
use crate::abi::{
    HYPER_NATIVE_PAGE_SIZE,
    HYPER_NATIVE_RIGHT_DUPLICATE,
    HYPER_NATIVE_RIGHT_INSPECT,
    HYPER_NATIVE_RIGHT_MAP,
    HYPER_NATIVE_RIGHT_READ,
    HYPER_NATIVE_RIGHT_TRANSFER,
    HYPER_NATIVE_RIGHT_WRITE,
    HYPER_NATIVE_OBJECT_VMO,
    HYPER_NATIVE_STATUS_OK,
};
use crate::os::error::Error;
use crate::os::handle::{
    adopt_produced_handle_excluding, produced_handle_valid, AnyObject, HandleInfo, HandleRef,
    OwnedHandle, VmoObject,
};
use crate::os::status::{CallResult, Status};

verus! {

/// Size of one page.
pub const PAGE_SIZE: u64 = 4096;

/// Largest transfer of one VMO read or write.
pub const MAX_TRANSFER_BYTES: usize = 65536;

/// Rights of a newly created writable VMO.
pub open spec fn writable_rights() -> u64 {
    HYPER_NATIVE_RIGHT_DUPLICATE | HYPER_NATIVE_RIGHT_TRANSFER | HYPER_NATIVE_RIGHT_INSPECT
        | HYPER_NATIVE_RIGHT_READ | HYPER_NATIVE_RIGHT_WRITE | HYPER_NATIVE_RIGHT_MAP
}

/// Rights of a newly captured snapshot: everything but write.
pub open spec fn snapshot_rights() -> u64 {
    HYPER_NATIVE_RIGHT_DUPLICATE | HYPER_NATIVE_RIGHT_TRANSFER | HYPER_NATIVE_RIGHT_INSPECT
        | HYPER_NATIVE_RIGHT_READ | HYPER_NATIVE_RIGHT_MAP
}

/// A VMO is created with a nonzero whole number of pages.
pub fn validate_vmo_size(size: u64) -> (r: Result<(), Error>)
    ensures
        r is Ok <==> size != 0 && size % PAGE_SIZE == 0,
        r matches Err(e) ==> e == Error::InvalidMemoryRange,
{
    if size == 0 || size % PAGE_SIZE != 0 {
        return Err(Error::InvalidMemoryRange);
    }
    Ok(())
}

/// A produced VMO is accepted when the call succeeded, its handle is adopted,
/// and its queried metadata reports a VMO with exactly `rights`.
pub open spec fn vmo_accepted(
    result: CallResult,
    excluded: Seq<u64>,
    info: Result<HandleInfo, Error>,
    rights: u64,
) -> bool {
    &&& result.status == HYPER_NATIVE_STATUS_OK
    &&& produced_handle_valid(result.value0, excluded)
    &&& info matches Ok(i) && i.rights@ == rights && i.kind@ == HYPER_NATIVE_OBJECT_VMO
}

/// The error a rejected produced VMO reports.
pub open spec fn vmo_error(
    result: CallResult,
    excluded: Seq<u64>,
    info: Result<HandleInfo, Error>,
    rights: u64,
) -> Error {
    if result.status != HYPER_NATIVE_STATUS_OK {
        Error::Status(Status(result.status))
    } else if !produced_handle_valid(result.value0, excluded) {
        Error::InvalidResponse
    } else {
        match info {
            Err(e) => e,
            Ok(i) => if i.rights@ != rights {
                Error::InvalidResponse
            } else {
                Error::UnexpectedObjectKind { expected: HYPER_NATIVE_OBJECT_VMO, actual: i.kind@ }
            },
        }
    }
}

fn adopt_vmo(result: CallResult, excluded: &[u64], info: Result<HandleInfo, Error>, rights: u64)
    -> (r: Result<OwnedHandle<VmoObject>, Error>)
    ensures
        r is Ok <==> vmo_accepted(result, excluded@, info, rights),
        r matches Ok(h) ==> h@ == result.value0,
        r matches Err(e) ==> e == vmo_error(result, excluded@, info, rights),
{
    let checked = Status::from_raw(result.status).into_result();
    if let Err(e) = checked {
        return Err(e);
    }
    let owner = match adopt_produced_handle_excluding::<AnyObject>(result.value0, excluded) {
        Ok(owner) => owner,
        Err(e) => {
            return Err(e);
        },
    };
    let known = match info {
        Ok(i) => i,
        Err(e) => {
            return Err(e);
        },
    };
    if known.rights.bits() != rights {
        return Err(Error::InvalidResponse);
    }
    match owner.downcast::<VmoObject>(info) {
        Ok(handle) => Ok(handle),
        Err(failure) => Err(failure.error()),
    }
}

/// Where the chunk starting at `completed` of a `length`-byte transfer ends:
/// after at most `MAX_TRANSFER_BYTES`, and never past the end.
pub open spec fn chunk_end(completed: int, length: int) -> int {
    if length - completed < MAX_TRANSFER_BYTES {
        length
    } else {
        completed + MAX_TRANSFER_BYTES
    }
}

/// Chunked transfers make progress and stay in bounds: each chunk of an
/// unfinished transfer is nonempty, at most `MAX_TRANSFER_BYTES` long, and
/// ends within the transfer, so consecutive chunks cover the range exactly.
pub proof fn chunks_cover_the_range(completed: int, length: int)
    requires
        0 <= completed < length,
    ensures
        completed < chunk_end(completed, length) <= length,
        chunk_end(completed, length) - completed <= MAX_TRANSFER_BYTES,
{
}

/// Progress of one chunked transfer of `length` bytes at `offset`: each call
/// carries at most `MAX_TRANSFER_BYTES` and the first rejected call ends it.
pub struct Transfer {
    offset: u64,
    length: usize,
    completed: usize,
}

impl Transfer {
    #[verifier::type_invariant]
    spec fn well_formed(self) -> bool {
        &&& self.completed <= self.length
        &&& self.offset + self.length <= u64::MAX
    }

    pub closed spec fn offset(&self) -> u64 {
        self.offset
    }

    pub closed spec fn length(&self) -> usize {
        self.length
    }

    pub closed spec fn completed(&self) -> usize {
        self.completed
    }

    /// The next chunk: its VMO offset and the `start .. end` range of the
    /// caller's buffer it carries; `None` once the transfer is complete.
    pub fn next_chunk(&self) -> (r: Option<(u64, usize, usize)>)
        ensures
            r is Some <==> self.completed() < self.length(),
            r matches Some(chunk) ==> {
                &&& chunk.0 == self.offset() + self.completed()
                &&& chunk.1 == self.completed()
                &&& chunk.2 == chunk_end(self.completed() as int, self.length() as int)
            },
    {
        proof {
            use_type_invariant(self);
        }
        if self.completed >= self.length {
            return None;
        }
        let end = if self.length - self.completed < MAX_TRANSFER_BYTES {
            self.length
        } else {
            self.completed + MAX_TRANSFER_BYTES
        };
        Some((self.offset + self.completed as u64, self.completed, end))
    }

    /// Accounts for the call that carried the next chunk: success moves past
    /// it, and a rejection ends the transfer with that status.
    pub fn advance(&mut self, status: Status) -> (r: Result<(), Error>)
        requires
            old(self).completed() < old(self).length(),
        ensures
            final(self).offset() == old(self).offset(),
            final(self).length() == old(self).length(),
            r is Ok <==> status.0 == HYPER_NATIVE_STATUS_OK,
            r is Err ==> r == Err::<(), Error>(Error::Status(status)) && final(self).completed()
                == old(self).completed(),
            r is Ok ==> final(self).completed() == chunk_end(
                old(self).completed() as int,
                old(self).length() as int,
            ),
    {
        proof {
            use_type_invariant(&*self);
        }
        let checked = status.into_result();
        if let Err(e) = checked {
            return Err(e);
        }
        let end = if self.length - self.completed < MAX_TRANSFER_BYTES {
            self.length
        } else {
            self.completed + MAX_TRANSFER_BYTES
        };
        self.completed = end;
        Ok(())
    }

    /// Whether every byte has been transferred.
    pub fn is_complete(&self) -> (r: bool)
        ensures
            r == (self.completed() == self.length()),
    {
        self.completed == self.length
    }
}

/// A range of `length` bytes at `offset` must end within `size`; a range
/// that passes the end of the offset space overflows.
pub open spec fn range_check(offset: u64, length: usize, size: u64) -> Result<(), Error> {
    if offset + length > u64::MAX {
        Err(Error::OffsetOverflow)
    } else if offset + length > size {
        Err(Error::InvalidMemoryRange)
    } else {
        Ok(())
    }
}

/// A transfer is accepted exactly when its whole range lies inside the
/// object: ranges that end at or before the object's end, the whole object
/// included, are accepted, and any range that ends past it is refused, as
/// out of range or, when its end is not even addressable, as an overflow.
pub proof fn transfers_accept_exactly_the_ranges_inside_the_object(
    offset: u64,
    length: usize,
    size: u64,
)
    ensures
        range_check(offset, length, size) is Ok <==> offset + length <= size,
        offset + length > size ==> (range_check(offset, length, size) == Err::<(), Error>(
            Error::OffsetOverflow,
        ) <==> offset + length > u64::MAX),
        range_check(offset, length, size) is Err ==> range_check(offset, length, size) == Err::<
            (),
            Error,
        >(Error::OffsetOverflow) || range_check(offset, length, size) == Err::<(), Error>(
            Error::InvalidMemoryRange,
        ),
{
}

fn start_transfer(offset: u64, length: usize, size: u64) -> (r: Result<Transfer, Error>)
    ensures
        r is Ok <==> range_check(offset, length, size) is Ok,
        r is Ok <==> offset + length <= size,
        r matches Err(e) ==> Err::<(), Error>(e) == range_check(offset, length, size),
        r matches Ok(t) ==> t.offset() == offset && t.length() == length && t.completed() == 0,
{
    if offset > u64::MAX - length as u64 {
        return Err(Error::OffsetOverflow);
    }
    if offset + length as u64 > size {
        return Err(Error::InvalidMemoryRange);
    }
    Ok(Transfer { offset, length, completed: 0 })
}

/// Exclusive process-local owner of one writable virtual memory object.
pub struct WritableVmo {
    handle: OwnedHandle<VmoObject>,
    size: u64,
}

impl WritableVmo {
    pub closed spec fn handle(&self) -> OwnedHandle<VmoObject> {
        self.handle
    }

    pub closed spec fn spec_size(&self) -> u64 {
        self.size
    }

    /// Adopts the VMO that a create call of `size` bytes produced, given the
    /// metadata queried for it; the size must be a nonzero whole number of
    /// pages, which is checked before the call.
    pub fn create(size: u64, result: CallResult, info: Result<HandleInfo, Error>) -> (r: Result<
        WritableVmo,
        Error,
    >)
        ensures
            !(size != 0 && size % PAGE_SIZE == 0) ==> r matches Err(Error::InvalidMemoryRange),
            size != 0 && size % PAGE_SIZE == 0 ==> {
                &&& (r is Ok <==> vmo_accepted(result, seq![], info, writable_rights()))
                &&& (r matches Ok(vmo) ==> vmo.handle()@ == result.value0 && vmo.spec_size()
                    == size)
                &&& (r matches Err(e) ==> e == vmo_error(result, seq![], info, writable_rights()))
            },
    {
        let checked = validate_vmo_size(size);
        if let Err(e) = checked {
            return Err(e);
        }
        let rights = HYPER_NATIVE_RIGHT_DUPLICATE | HYPER_NATIVE_RIGHT_TRANSFER
            | HYPER_NATIVE_RIGHT_INSPECT | HYPER_NATIVE_RIGHT_READ | HYPER_NATIVE_RIGHT_WRITE
            | HYPER_NATIVE_RIGHT_MAP;
        let none: [u64; 0] = [];
        proof {
            assert(none@ =~= seq![]);
        }
        match adopt_vmo(result, &none, info, rights) {
            Ok(handle) => Ok(WritableVmo { handle, size }),
            Err(e) => Err(e),
        }
    }

    pub fn size(&self) -> (r: u64)
        ensures
            r == self.spec_size(),
    {
        self.size
    }

    pub fn as_handle_ref(&self) -> (r: HandleRef<'_, VmoObject>)
        ensures
            r@ == self.handle()@,
    {
        self.handle.as_handle_ref()
    }

    pub fn into_handle(self) -> (r: OwnedHandle<VmoObject>)
        ensures
            r == self.handle(),
    {
        self.handle
    }

    /// Starts the chunked write of `length` bytes at `offset`.
    pub fn write_all_at(&self, offset: u64, length: usize) -> (r: Result<Transfer, Error>)
        ensures
            r is Ok <==> range_check(offset, length, self.spec_size()) is Ok,
            r is Ok <==> offset + length <= self.spec_size(),
            r matches Err(e) ==> Err::<(), Error>(e) == range_check(offset, length, self.spec_size()),
            r matches Ok(t) ==> t.offset() == offset && t.length() == length && t.completed() == 0,
    {
        start_transfer(offset, length, self.size)
    }

    /// Starts the chunked read of `length` bytes at `offset`.
    pub fn read_exact_at(&self, offset: u64, length: usize) -> (r: Result<Transfer, Error>)
        ensures
            r is Ok <==> range_check(offset, length, self.spec_size()) is Ok,
            r is Ok <==> offset + length <= self.spec_size(),
            r matches Err(e) ==> Err::<(), Error>(e) == range_check(offset, length, self.spec_size()),
            r matches Ok(t) ==> t.offset() == offset && t.length() == length && t.completed() == 0,
    {
        start_transfer(offset, length, self.size)
    }
}

/// Immutable bytes captured from one VMO or file-content generation.
pub struct SnapshotVmo {
    handle: OwnedHandle<VmoObject>,
    byte_size: u64,
}

impl SnapshotVmo {
    pub closed spec fn handle(&self) -> OwnedHandle<VmoObject> {
        self.handle
    }

    pub closed spec fn spec_byte_size(&self) -> u64 {
        self.byte_size
    }

    fn adopt(result: CallResult, source: u64, info: Result<HandleInfo, Error>) -> (r: Result<
        SnapshotVmo,
        Error,
    >)
        ensures
            r is Ok <==> vmo_accepted(result, seq![source], info, snapshot_rights()),
            r matches Ok(s) ==> s.handle()@ == result.value0 && s.spec_byte_size() == result.value1,
            r matches Err(e) ==> e == vmo_error(result, seq![source], info, snapshot_rights()),
    {
        let rights = HYPER_NATIVE_RIGHT_DUPLICATE | HYPER_NATIVE_RIGHT_TRANSFER
            | HYPER_NATIVE_RIGHT_INSPECT | HYPER_NATIVE_RIGHT_READ | HYPER_NATIVE_RIGHT_MAP;
        let excluded = [source];
        proof {
            assert(excluded@ =~= seq![source]);
        }
        match adopt_vmo(result, &excluded, info, rights) {
            Ok(handle) => Ok(SnapshotVmo { handle, byte_size: result.value1 }),
            Err(e) => Err(e),
        }
    }

    /// Adopts the snapshot a capture of the borrowed VMO produced, given the
    /// metadata queried for it; the second register reports its size.
    pub fn from_vmo(source: HandleRef<'_, VmoObject>, result: CallResult, info: Result<
        HandleInfo,
        Error,
    >) -> (r: Result<SnapshotVmo, Error>)
        ensures
            r is Ok <==> vmo_accepted(result, seq![source@], info, snapshot_rights()),
            r matches Ok(s) ==> s.handle()@ == result.value0 && s.spec_byte_size() == result.value1,
            r matches Err(e) ==> e == vmo_error(result, seq![source@], info, snapshot_rights()),
    {
        SnapshotVmo::adopt(result, source.raw(), info)
    }

    /// Adopts the snapshot a capture of the borrowed file produced.
    pub fn from_file(source: HandleRef<'_, crate::os::handle::FileObject>, result: CallResult, info: Result<
        HandleInfo,
        Error,
    >) -> (r: Result<SnapshotVmo, Error>)
        ensures
            r is Ok <==> vmo_accepted(result, seq![source@], info, snapshot_rights()),
            r matches Ok(s) ==> s.handle()@ == result.value0 && s.spec_byte_size() == result.value1,
            r matches Err(e) ==> e == vmo_error(result, seq![source@], info, snapshot_rights()),
    {
        SnapshotVmo::adopt(result, source.raw(), info)
    }

    pub fn byte_size(&self) -> (r: u64)
        ensures
            r == self.spec_byte_size(),
    {
        self.byte_size
    }

    pub fn as_handle_ref(&self) -> (r: HandleRef<'_, VmoObject>)
        ensures
            r@ == self.handle()@,
    {
        self.handle.as_handle_ref()
    }

    /// Starts the chunked read of `length` bytes at `offset`.
    pub fn read_exact_at(&self, offset: u64, length: usize) -> (r: Result<Transfer, Error>)
        ensures
            r is Ok <==> range_check(offset, length, self.spec_byte_size()) is Ok,
            r is Ok <==> offset + length <= self.spec_byte_size(),
            r matches Err(e) ==> Err::<(), Error>(e) == range_check(
                offset,
                length,
                self.spec_byte_size(),
            ),
            r matches Ok(t) ==> t.offset() == offset && t.length() == length && t.completed() == 0,
    {
        start_transfer(offset, length, self.byte_size)
    }
}

} // verus!
