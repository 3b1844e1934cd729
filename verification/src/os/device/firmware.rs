//! Firmware descriptions of assignable devices.

use vstd::prelude::*;
use crate::abi::HYPER_NATIVE_STATUS_OK;
use crate::os::error::Error;
use crate::os::status::{CallResult, Status};

verus! {

/// Length of the fixed firmware info record.
pub const FIRMWARE_INFO_BYTES: usize = 32;

/// The firmware field one read selects.
#[derive(Clone, Copy, Debug, Eq, PartialEq, Structural)]
pub enum FirmwareField {
    Info,
    Path,
    Compatible,
    Registers,
    Property,
}

#[derive(Clone, Copy, Debug, Eq, PartialEq, Structural)]
pub enum IrqTrigger {
    Level,
    Edge,
}

#[derive(Clone, Copy, Debug, Eq, PartialEq, Structural)]
pub struct FirmwareInterrupt {
    pub number: u32,
    pub trigger: IrqTrigger,
}

#[derive(Clone, Copy, Debug, Eq, PartialEq, Structural)]
pub struct FirmwareInfo {
    pub kernel_owned: bool,
    pub register_count: u32,
    pub interrupt: Option<FirmwareInterrupt>,
}

/// The little-endian 32-bit word at `offset`.
pub open spec fn le_word(bytes: Seq<u8>, offset: int) -> u32 {
    (bytes[offset] + bytes[offset + 1] * 256 + bytes[offset + 2] * 65536 + bytes[offset + 3]
        * 16777216) as u32
}

fn read_word(bytes: &[u8], offset: usize) -> (r: u32)
    requires
        offset + 4 <= bytes@.len(),
    ensures
        r == le_word(bytes@, offset as int),
{
    bytes[offset] as u32 + bytes[offset + 1] as u32 * 256 + bytes[offset + 2] as u32 * 65536
        + bytes[offset + 3] as u32 * 16777216
}

/// The four little-endian bytes of `w`, least significant first.
pub open spec fn le_bytes(w: u32) -> Seq<u8> {
    seq![(w % 256) as u8, ((w / 256) % 256) as u8, ((w / 65536) % 256) as u8, (w / 16777216) as u8]
}

/// Words are read little-endian: the word read at any offset where the
/// bytes of `w` stand, least significant first, is `w`.
pub proof fn words_are_read_little_endian(prefix: Seq<u8>, w: u32, suffix: Seq<u8>)
    ensures
        le_word(prefix + le_bytes(w) + suffix, prefix.len() as int) == w,
{
    let b = prefix + le_bytes(w) + suffix;
    let o = prefix.len() as int;
    assert(b[o] == (w % 256) as u8);
    assert(b[o + 1] == ((w / 256) % 256) as u8);
    assert(b[o + 2] == ((w / 65536) % 256) as u8);
    assert(b[o + 3] == (w / 16777216) as u8);
    assert((w % 256) + ((w / 256) % 256) * 256 + ((w / 65536) % 256) * 65536 + (w / 16777216)
        * 16777216 == w) by (nonlinear_arith);
}

/// The interrupt a firmware record declares: none when both its number and
/// trigger words are zero, a level or edge interrupt for trigger one or two,
/// and malformed otherwise.
pub open spec fn declared_interrupt(bytes: Seq<u8>) -> Option<Option<FirmwareInterrupt>> {
    let trigger = le_word(bytes, 12);
    let number = le_word(bytes, 8);
    if trigger == 0 && number == 0 {
        Some(None)
    } else if trigger == 1 {
        Some(Some(FirmwareInterrupt { number, trigger: IrqTrigger::Level }))
    } else if trigger == 2 {
        Some(Some(FirmwareInterrupt { number, trigger: IrqTrigger::Edge }))
    } else {
        None
    }
}

/// The firmware info a 32-byte record describes: only the kernel-owned flag
/// may be set, the interrupt must be well formed, and the last sixteen bytes
/// are reserved and clear.
pub open spec fn firmware_record(bytes: Seq<u8>) -> Result<FirmwareInfo, Error> {
    if declared_interrupt(bytes) is None || le_word(bytes, 0) > 1 || exists|i: int|
        16 <= i < 32 && #[trigger] bytes[i] != 0 {
        Err(Error::InvalidResponse)
    } else {
        Ok(
            FirmwareInfo {
                kernel_owned: le_word(bytes, 0) != 0,
                register_count: le_word(bytes, 4),
                interrupt: declared_interrupt(bytes)->0,
            },
        )
    }
}

/// Decodes one 32-byte firmware info record.
pub fn decode_info(bytes: &[u8]) -> (r: Result<FirmwareInfo, Error>)
    requires
        bytes@.len() == FIRMWARE_INFO_BYTES,
    ensures
        r == firmware_record(bytes@),
{
    let flags = read_word(bytes, 0);
    let number = read_word(bytes, 8);
    let trigger = read_word(bytes, 12);
    let interrupt = if trigger == 0 && number == 0 {
        None
    } else if trigger == 1 {
        Some(FirmwareInterrupt { number, trigger: IrqTrigger::Level })
    } else if trigger == 2 {
        Some(FirmwareInterrupt { number, trigger: IrqTrigger::Edge })
    } else {
        return Err(Error::InvalidResponse);
    };
    if flags > 1 {
        return Err(Error::InvalidResponse);
    }
    let mut i: usize = 16;
    while i < FIRMWARE_INFO_BYTES
        invariant
            bytes@.len() == FIRMWARE_INFO_BYTES,
            16 <= i <= FIRMWARE_INFO_BYTES,
            forall|k: int| 16 <= k < i ==> #[trigger] bytes@[k] == 0,
        decreases FIRMWARE_INFO_BYTES - i,
    {
        if bytes[i] != 0 {
            return Err(Error::InvalidResponse);
        }
        i = i + 1;
    }
    Ok(FirmwareInfo { kernel_owned: flags != 0, register_count: read_word(bytes, 4), interrupt })
}

/// The firmware info of one node, from the kernel's answer to the read of
/// its info field into a 32-byte buffer: the read must succeed with a clear
/// second register and fill the whole record.
pub fn firmware_info(result: CallResult, bytes: &[u8]) -> (r: Result<FirmwareInfo, Error>)
    requires
        bytes@.len() == FIRMWARE_INFO_BYTES,
    ensures
        r == if result.status != HYPER_NATIVE_STATUS_OK {
            Err::<FirmwareInfo, Error>(Error::Status(Status(result.status)))
        } else if result.value1 != 0 || result.value0 != FIRMWARE_INFO_BYTES {
            Err(Error::InvalidResponse)
        } else {
            firmware_record(bytes@)
        },
{
    if result.status != HYPER_NATIVE_STATUS_OK {
        return Err(Error::Status(Status::from_raw(result.status)));
    }
    if result.value1 != 0 || result.value0 != FIRMWARE_INFO_BYTES as u64 {
        return Err(Error::InvalidResponse);
    }
    decode_info(bytes)
}

/// The value one device call reports: success with a clear second register.
pub open spec fn device_value(result: CallResult) -> Result<u64, Error> {
    if result.status != HYPER_NATIVE_STATUS_OK {
        Err(Error::Status(Status(result.status)))
    } else if result.value1 != 0 {
        Err(Error::InvalidResponse)
    } else {
        Ok(result.value0)
    }
}

/// Settles one device call that reports a value.
pub fn result_value(result: CallResult) -> (r: Result<u64, Error>)
    ensures
        r == device_value(result),
{
    if result.status != HYPER_NATIVE_STATUS_OK {
        return Err(Error::Status(Status::from_raw(result.status)));
    }
    if result.value1 != 0 {
        return Err(Error::InvalidResponse);
    }
    Ok(result.value0)
}

/// The register value one MMIO read reports.
pub fn mmio_read(result: CallResult) -> (r: Result<u64, Error>)
    ensures
        r == device_value(result),
{
    result_value(result)
}

/// Settles one MMIO write: it reports no value.
pub fn mmio_write(result: CallResult) -> (r: Result<(), Error>)
    ensures
        r == match device_value(result) {
            Ok(value) => if value == 0 {
                Ok::<(), Error>(())
            } else {
                Err(Error::InvalidResponse)
            },
            Err(e) => Err(e),
        },
{
    match result_value(result) {
        Ok(value) => if value == 0 {
            Ok(())
        } else {
            Err(Error::InvalidResponse)
        },
        Err(e) => Err(e),
    }
}

/// The pending interrupt sequence: zero when idle.
pub fn irq_pending(result: CallResult) -> (r: Result<u64, Error>)
    ensures
        r == device_value(result),
{
    result_value(result)
}

/// Settles one interrupt completion: it reports no value.
pub fn irq_complete(result: CallResult) -> (r: Result<(), Error>)
    ensures
        r == match device_value(result) {
            Ok(value) => if value == 0 {
                Ok::<(), Error>(())
            } else {
                Err(Error::InvalidResponse)
            },
            Err(e) => Err(e),
        },
{
    mmio_write(result)
}

} // verus!
