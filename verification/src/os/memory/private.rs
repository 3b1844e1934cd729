//! Private address-space mappings with an explicit copy policy: validation
//! of each request, and the two-step close that keeps cleanup authority.

use vstd::prelude::*;
use crate::abi::{
    HYPER_NATIVE_STATUS_OK,
    HYPER_NATIVE_VMAR_PERMISSION_READ,
    HYPER_NATIVE_VMAR_PERMISSION_WRITE,
};
use crate::os::error::Error;
use crate::os::handle::{adopt_produced_handle_excluding, produced_handle_valid, HandleRef, OwnedHandle, VmarObject};
use crate::os::memory::{SnapshotVmo, PAGE_SIZE};
use crate::os::status::{CallResult, Status};

verus! {

#[derive(Clone, Copy, Debug, Eq, PartialEq, Structural)]
pub enum PrivateMappingMode {
    CopyOnWrite,
    Eager,
}

/// Bytes outside the selected source interval are initialized to zero.
#[derive(Clone, Copy, Debug, Eq, PartialEq, Structural)]
pub struct PrivateMappingOptions {
    pub source_offset: u64,
    pub source_length: u64,
    pub data_offset: u64,
    pub size: u64,
    pub writable: bool,
    pub mode: PrivateMappingMode,
}

/// The validated private-mapping request: the region to reserve in the
/// parent, and the mapping record for the reserved region.
#[derive(Clone, Copy, Debug, Eq, PartialEq, Structural)]
pub struct PrivateMapRequest {
    pub parent: u64,
    pub source: u64,
    pub address: u64,
    pub size: u64,
    pub source_offset: u64,
    pub source_length: u64,
    pub data_offset: u64,
    pub permissions: u64,
    pub writable: bool,
    pub mode: PrivateMappingMode,
}

/// Whether a request of `options` at `address` over a snapshot of
/// `byte_size` bytes is accepted, or the error that rejects it: the data
/// interval must fit in the mapping, which must be a nonzero whole number of
/// pages at a nonzero page-aligned address; the source interval must start
/// on a page and lie in the snapshot; the data offset lies in the first page;
/// and the mapping must be addressable.
pub open spec fn private_map_check(address: u64, options: PrivateMappingOptions, byte_size: u64)
    -> Result<(), Error> {
    let data_end = options.data_offset + options.source_length;
    if data_end > u64::MAX {
        Err(Error::OffsetOverflow)
    } else if address == 0 || address % PAGE_SIZE != 0 || options.size == 0 || options.size
        % PAGE_SIZE != 0 || options.source_offset % PAGE_SIZE != 0 || options.data_offset
        >= PAGE_SIZE || data_end > options.size {
        Err(Error::InvalidMemoryRange)
    } else if options.source_length != 0 && options.source_offset + data_end > u64::MAX {
        Err(Error::OffsetOverflow)
    } else if (options.source_length != 0 && options.source_offset + data_end > byte_size)
        || address + options.size > u64::MAX {
        Err(Error::InvalidMemoryRange)
    } else if address > usize::MAX || options.size > isize::MAX {
        Err(Error::InvalidMemoryRange)
    } else {
        Ok(())
    }
}

/// A private mapping is accepted exactly when it is a nonzero whole number
/// of 4096-byte pages at a nonzero page-aligned, addressable address, its
/// source interval starts on a page, its data starts in the first page and
/// ends within the mapping, and a nonempty source interval lies inside the
/// snapshot.
pub proof fn private_mappings_accept_exactly_page_aligned_contained_views(
    address: u64,
    options: PrivateMappingOptions,
    byte_size: u64,
)
    ensures
        private_map_check(address, options, byte_size) is Ok <==> {
            &&& address != 0 && address % 4096 == 0
            &&& options.size != 0 && options.size % 4096 == 0
            &&& options.source_offset % 4096 == 0
            &&& options.data_offset < 4096
            &&& options.data_offset + options.source_length <= options.size
            &&& (options.source_length != 0 ==> options.source_offset + options.data_offset
                + options.source_length <= byte_size)
            &&& address + options.size <= u64::MAX
            &&& address <= usize::MAX && options.size <= isize::MAX
        },
{
}

impl SnapshotVmo {
    /// Validates a private view of this snapshot at `address` inside
    /// `parent` and lays out its reservation and mapping requests. The caller
    /// must own the destination address range for the mapping's lifetime.
    pub fn map_private_at(
        &self,
        parent: HandleRef<'_, VmarObject>,
        address: u64,
        options: PrivateMappingOptions,
    ) -> (r: Result<PrivateMapRequest, Error>)
        ensures
            r is Ok <==> private_map_check(address, options, self.spec_byte_size()) is Ok,
            r matches Err(e) ==> Err::<(), Error>(e) == private_map_check(
                address,
                options,
                self.spec_byte_size(),
            ),
            r matches Ok(request) ==> {
                &&& request.parent == parent@
                &&& request.source == self.handle()@
                &&& request.address == address
                &&& request.size == options.size
                &&& request.source_offset == options.source_offset
                &&& request.source_length == options.source_length
                &&& request.data_offset == options.data_offset
                &&& request.permissions == if options.writable {
                    HYPER_NATIVE_VMAR_PERMISSION_READ | HYPER_NATIVE_VMAR_PERMISSION_WRITE
                } else {
                    HYPER_NATIVE_VMAR_PERMISSION_READ
                }
                &&& request.writable == options.writable
                &&& request.mode == options.mode
            },
    {
        if options.data_offset > u64::MAX - options.source_length {
            return Err(Error::OffsetOverflow);
        }
        let data_end = options.data_offset + options.source_length;
        if address == 0 || address % PAGE_SIZE != 0 || options.size == 0 || options.size
            % PAGE_SIZE != 0 || options.source_offset % PAGE_SIZE != 0 || options.data_offset
            >= PAGE_SIZE || data_end > options.size {
            return Err(Error::InvalidMemoryRange);
        }
        if options.source_length != 0 {
            if options.source_offset > u64::MAX - data_end {
                return Err(Error::OffsetOverflow);
            }
            if options.source_offset + data_end > self.byte_size() {
                return Err(Error::InvalidMemoryRange);
            }
        }
        if address > u64::MAX - options.size {
            return Err(Error::InvalidMemoryRange);
        }
        if address > usize::MAX as u64 || options.size > isize::MAX as u64 {
            return Err(Error::InvalidMemoryRange);
        }
        let permissions = if options.writable {
            HYPER_NATIVE_VMAR_PERMISSION_READ | HYPER_NATIVE_VMAR_PERMISSION_WRITE
        } else {
            HYPER_NATIVE_VMAR_PERMISSION_READ
        };
        Ok(
            PrivateMapRequest {
                parent: parent.raw(),
                source: self.as_handle_ref().raw(),
                address,
                size: options.size,
                source_offset: options.source_offset,
                source_length: options.source_length,
                data_offset: options.data_offset,
                permissions,
                writable: options.writable,
                mode: options.mode,
            },
        )
    }
}

impl PrivateMapRequest {
    /// Adopts the child region a successful reservation produced; it must
    /// alias neither the parent nor the source. The new mapping owns the
    /// region but maps nothing yet.
    pub fn reserved(self, result: CallResult) -> (r: Result<PrivateMapping, Error>)
        requires
            self.address <= usize::MAX,
            self.size <= usize::MAX,
        ensures
            r is Ok <==> result.status == HYPER_NATIVE_STATUS_OK && produced_handle_valid(
                result.value0,
                seq![self.parent, self.source],
            ),
            r matches Ok(mapping) ==> mapping.region() == Some(result.value0) && mapping.address()
                == self.address && mapping.size() == self.size && mapping.writable()
                == self.writable && !mapping.mapped(),
            r matches Err(e) ==> if result.status != HYPER_NATIVE_STATUS_OK {
                e == Error::Status(Status(result.status))
            } else {
                e == Error::InvalidResponse
            },
    {
        let checked = Status::from_raw(result.status).into_result();
        if let Err(e) = checked {
            return Err(e);
        }
        let excluded = [self.parent, self.source];
        proof {
            assert(excluded@ =~= seq![self.parent, self.source]);
        }
        let region = match adopt_produced_handle_excluding::<VmarObject>(result.value0, &excluded) {
            Ok(region) => region,
            Err(e) => {
                return Err(e);
            },
        };
        Ok(
            PrivateMapping {
                region: Some(region),
                address: self.address as usize,
                size: self.size as usize,
                writable: self.writable,
                mapped: false,
            },
        )
    }
}

/// Owns an exact child region and its private mapping.
pub struct PrivateMapping {
    region: Option<OwnedHandle<VmarObject>>,
    address: usize,
    size: usize,
    writable: bool,
    mapped: bool,
}

/// The next call of a close: unmap the bytes, destroy the emptied region, or
/// nothing once the region is gone.
#[derive(Clone, Copy, Debug, Eq, PartialEq, Structural)]
pub enum CloseStep {
    Unmap { region: u64, address: usize, size: usize },
    Destroy { region: u64 },
    Done,
}

impl PrivateMapping {
    pub closed spec fn region(&self) -> Option<u64> {
        match self.region {
            Some(region) => Some(region@),
            None => None,
        }
    }

    pub closed spec fn address(&self) -> usize {
        self.address
    }

    pub closed spec fn size(&self) -> usize {
        self.size
    }

    pub closed spec fn writable(&self) -> bool {
        self.writable
    }

    pub closed spec fn mapped(&self) -> bool {
        self.mapped
    }

    /// Checks that the mapping may be written through before a mutable view
    /// of its bytes is formed.
    pub fn require_writable(&self) -> (r: Result<(), Error>)
        ensures
            r is Ok <==> self.writable(),
            r is Err ==> r == Err::<(), Error>(Error::InvalidMemoryRange),
    {
        if !self.writable {
            return Err(Error::InvalidMemoryRange);
        }
        Ok(())
    }

    /// The first mapped address.
    pub fn address_value(&self) -> (r: usize)
        ensures
            r == self.address(),
    {
        self.address
    }

    /// The mapping's length in bytes.
    pub fn size_value(&self) -> (r: usize)
        ensures
            r == self.size(),
    {
        self.size
    }

    /// Records the answer to the mapping call: success maps the bytes; a
    /// rejection leaves the region unmapped, to be closed.
    pub fn settle_map(&mut self, status: Status) -> (r: Result<(), Error>)
        ensures
            final(self).region() == old(self).region(),
            final(self).address() == old(self).address(),
            final(self).size() == old(self).size(),
            final(self).writable() == old(self).writable(),
            r is Ok <==> status.0 == HYPER_NATIVE_STATUS_OK,
            r is Ok ==> final(self).mapped(),
            r is Err ==> r == Err::<(), Error>(Error::Status(status)) && final(self).mapped()
                == old(self).mapped(),
    {
        let checked = status.into_result();
        if let Err(e) = checked {
            return Err(e);
        }
        self.mapped = true;
        Ok(())
    }

    /// The next call a close makes.
    pub fn close_step(&self) -> (r: CloseStep)
        ensures
            r == match self.region() {
                None => CloseStep::Done,
                Some(region) => if self.mapped() {
                    CloseStep::Unmap { region, address: self.address(), size: self.size() }
                } else {
                    CloseStep::Destroy { region }
                },
            },
    {
        match &self.region {
            None => CloseStep::Done,
            Some(region) => {
                let raw = region.as_handle_ref().raw();
                if self.mapped {
                    CloseStep::Unmap { region: raw, address: self.address, size: self.size }
                } else {
                    CloseStep::Destroy { region: raw }
                }
            },
        }
    }

    /// Settles the call `close_step` named. A rejection keeps cleanup
    /// authority in the error; an accepted unmap leaves the region to be
    /// destroyed, so a retry destroys only the emptied region; an accepted
    /// destroy consumes the region.
    pub fn try_close(self, status: Status) -> (r: Result<
        Option<PrivateMapping>,
        PrivateMappingCloseError,
    >)
        ensures
            self.region() is None ==> r matches Ok(None),
            self.region() is Some ==> {
                &&& (r is Ok <==> status.0 == HYPER_NATIVE_STATUS_OK)
                &&& (r matches Err(failure) ==> failure.spec_error() == Error::Status(status)
                    && failure.mapping() == self)
                &&& (r matches Ok(rest) ==> if self.mapped() {
                    rest matches Some(m) && m.region() == self.region() && !m.mapped()
                        && m.address() == self.address() && m.size() == self.size()
                        && m.writable() == self.writable()
                } else {
                    rest is None
                })
            },
    {
        if self.region.is_none() {
            return Ok(None);
        }
        if status.0 != HYPER_NATIVE_STATUS_OK {
            return Err(PrivateMappingCloseError { error: Error::Status(status), mapping: self });
        }
        if self.mapped {
            let PrivateMapping { region, address, size, writable, mapped: _ } = self;
            return Ok(Some(PrivateMapping { region, address, size, writable, mapped: false }));
        }
        Ok(None)
    }
}

/// A failed explicit close which keeps cleanup authority for a retry. The
/// bytes may already be unmapped, so it exposes only the error and another
/// close attempt.
pub struct PrivateMappingCloseError {
    error: Error,
    mapping: PrivateMapping,
}

impl PrivateMappingCloseError {
    pub closed spec fn spec_error(&self) -> Error {
        self.error
    }

    pub closed spec fn mapping(&self) -> PrivateMapping {
        self.mapping
    }

    pub fn error(&self) -> (r: Error)
        ensures
            r == self.spec_error(),
    {
        self.error
    }

    /// The call a retry makes.
    pub fn close_step(&self) -> (r: CloseStep)
        ensures
            r == match self.mapping().region() {
                None => CloseStep::Done,
                Some(region) => if self.mapping().mapped() {
                    CloseStep::Unmap {
                        region,
                        address: self.mapping().address(),
                        size: self.mapping().size(),
                    }
                } else {
                    CloseStep::Destroy { region }
                },
            },
    {
        self.mapping.close_step()
    }

    /// Settles one retried close call.
    pub fn retry(self, status: Status) -> (r: Result<Option<PrivateMapping>, PrivateMappingCloseError>)
        ensures
            self.mapping().region() is None ==> r matches Ok(None),
            self.mapping().region() is Some ==> {
                &&& (r is Ok <==> status.0 == HYPER_NATIVE_STATUS_OK)
                &&& (r matches Err(failure) ==> failure.spec_error() == Error::Status(status)
                    && failure.mapping() == self.mapping())
            },
    {
        self.mapping.try_close(status)
    }
}

} // verus!
