//! Physical devices assigned to guest virtual machines: validation of the
//! kernel's device, profile, resource and DMA-extent records.

pub mod firmware;

use vstd::prelude::*;
use crate::os::error::Error;

verus! {

/// Size of the guest aperture that every device resource lies in.
pub const RESOURCE_APERTURE_BYTES: u64 = 65536;

/// Most resources one assignment profile declares.
pub const MAX_PROFILE_RESOURCES: u32 = 8;

/// The kernel's physical-device info record.
#[derive(Clone, Copy, Debug, Eq, PartialEq, Structural)]
pub struct HyperNativePhysicalDeviceInfo {
    pub device_id: u32,
    pub transport_version: u32,
    pub mmio_size: u64,
}

/// Identity of one physical device.
#[derive(Clone, Copy, Debug, Eq, PartialEq, Structural)]
pub struct Info {
    /// Virtio device identifier, or zero for a userspace-managed device.
    pub device_id: u32,
    /// Virtio transport version, or zero when no kernel transport is identified.
    pub transport_version: u32,
    pub mmio_size: u64,
}

/// A device record is valid when a userspace-managed device names no
/// transport and the register window is nonempty.
pub open spec fn device_info_valid(record: HyperNativePhysicalDeviceInfo) -> bool {
    !(record.device_id == 0 && record.transport_version != 0) && record.mmio_size != 0
}

/// Decodes one physical-device info record.
pub fn decode_info(record: HyperNativePhysicalDeviceInfo) -> (r: Result<Info, Error>)
    ensures
        r is Ok <==> device_info_valid(record),
        r matches Ok(info) ==> info.device_id == record.device_id && info.transport_version
            == record.transport_version && info.mmio_size == record.mmio_size,
        r matches Err(e) ==> e == Error::InvalidResponse,
{
    if (record.device_id == 0 && record.transport_version != 0) || record.mmio_size == 0 {
        return Err(Error::InvalidResponse);
    }
    Ok(
        Info {
            device_id: record.device_id,
            transport_version: record.transport_version,
            mmio_size: record.mmio_size,
        },
    )
}

/// One resident contiguous extent inspected for DMA metadata.
#[derive(Clone, Copy, Debug, Eq, PartialEq, Structural)]
pub struct DmaExtent {
    pub physical_base: u64,
    pub length: u64,
}

/// The kernel's DMA-extent record.
#[derive(Clone, Copy, Debug, Eq, PartialEq, Structural)]
pub struct HyperNativeDmaExtent {
    pub physical_base: u64,
    pub length: u64,
}

/// Decodes the extent reported for a request of `length` bytes: it must
/// cover exactly the nonempty request without passing the end of the
/// physical address space.
pub fn decode_dma_extent(record: HyperNativeDmaExtent, length: u64) -> (r: Result<DmaExtent, Error>)
    ensures
        r is Ok <==> record.length == length && length != 0 && record.physical_base + length
            <= u64::MAX,
        r matches Ok(extent) ==> extent.physical_base == record.physical_base && extent.length
            == length,
        r matches Err(e) ==> e == Error::InvalidResponse,
{
    if record.length != length || length == 0 || record.physical_base > u64::MAX - length {
        return Err(Error::InvalidResponse);
    }
    Ok(DmaExtent { physical_base: record.physical_base, length })
}

/// Assignment profiles encode the kernel's validated device and reset
/// contract.
#[derive(Clone, Copy, Debug, Eq, PartialEq, Structural)]
pub enum Profile {
    VirtioMmioScsi,
    /// Register semantics and interrupt acknowledgement belong to userspace.
    Userspace,
}

/// The ABI value of a profile.
pub open spec fn profile_value(profile: Profile) -> u32 {
    match profile {
        Profile::VirtioMmioScsi => 1u32,
        Profile::Userspace => 2u32,
    }
}

impl Profile {
    /// The ABI value of this profile.
    pub fn as_raw(self) -> (r: u32)
        ensures
            r == profile_value(self),
    {
        match self {
            Profile::VirtioMmioScsi => 1,
            Profile::Userspace => 2,
        }
    }
}

/// A firmware identity that selects one device to claim.
#[derive(Clone, Copy, Debug, Eq, PartialEq)]
pub enum FirmwareIdentity<'a> {
    Compatible(&'a str),
    FdtPath(&'a str),
}

/// The profile and resource count of one claimed device.
#[derive(Clone, Copy, Debug, Eq, PartialEq, Structural)]
pub struct ProfileInfo {
    pub profile: Profile,
    pub resource_count: u32,
}

/// The kernel's device-profile record.
#[derive(Clone, Copy, Debug, Eq, PartialEq, Structural)]
pub struct HyperNativeDeviceProfileInfo {
    pub profile: u32,
    pub resource_count: u32,
    pub reserved0: u32,
    pub reserved1: u32,
    pub reserved2: u32,
    pub reserved3: u32,
}

/// A profile record is valid when it names a declared profile, declares
/// between one and `MAX_PROFILE_RESOURCES` resources, and keeps its reserved
/// words clear.
pub open spec fn profile_info_valid(record: HyperNativeDeviceProfileInfo) -> bool {
    &&& (record.profile == 1 || record.profile == 2)
    &&& 1 <= record.resource_count <= MAX_PROFILE_RESOURCES
    &&& record.reserved0 == 0 && record.reserved1 == 0 && record.reserved2 == 0
        && record.reserved3 == 0
}

/// Decodes one device-profile record.
pub fn decode_profile_info(record: HyperNativeDeviceProfileInfo) -> (r: Result<ProfileInfo, Error>)
    ensures
        r is Ok <==> profile_info_valid(record),
        r matches Ok(info) ==> profile_value(info.profile) == record.profile && info.resource_count
            == record.resource_count,
        r matches Err(e) ==> e == Error::InvalidResponse,
{
    let profile = if record.profile == 1 {
        Profile::VirtioMmioScsi
    } else if record.profile == 2 {
        Profile::Userspace
    } else {
        return Err(Error::InvalidResponse);
    };
    if record.resource_count == 0 || record.resource_count > MAX_PROFILE_RESOURCES
        || record.reserved0 != 0 || record.reserved1 != 0 || record.reserved2 != 0
        || record.reserved3 != 0 {
        return Err(Error::InvalidResponse);
    }
    Ok(ProfileInfo { profile, resource_count: record.resource_count })
}

/// One device resource inside the guest aperture.
#[derive(Clone, Copy, Debug, Eq, PartialEq, Structural)]
pub struct ResourceInfo {
    pub kind: u32,
    pub offset: u64,
    pub length: u64,
}

/// The kernel's device-resource record.
#[derive(Clone, Copy, Debug, Eq, PartialEq, Structural)]
pub struct HyperNativeDeviceResourceInfo {
    pub kind: u32,
    pub reserved: u32,
    pub offset: u64,
    pub length: u64,
    pub reserved2: u64,
}

/// A resource record is valid when its reserved words are clear and it is a
/// nonempty range inside the guest aperture.
pub open spec fn resource_info_valid(record: HyperNativeDeviceResourceInfo) -> bool {
    &&& record.reserved == 0 && record.reserved2 == 0
    &&& record.length != 0
    &&& record.offset + record.length <= RESOURCE_APERTURE_BYTES
}

/// Decodes one device-resource record.
pub fn decode_resource_info(record: HyperNativeDeviceResourceInfo) -> (r: Result<
    ResourceInfo,
    Error,
>)
    ensures
        r is Ok <==> resource_info_valid(record),
        r matches Ok(info) ==> info.kind == record.kind && info.offset == record.offset
            && info.length == record.length,
        r matches Err(e) ==> e == Error::InvalidResponse,
{
    if record.reserved != 0 || record.reserved2 != 0 || record.length == 0 || record.offset
        > RESOURCE_APERTURE_BYTES || record.length > RESOURCE_APERTURE_BYTES - record.offset {
        return Err(Error::InvalidResponse);
    }
    Ok(ResourceInfo { kind: record.kind, offset: record.offset, length: record.length })
}

} // verus!
