//! The startup console: bounded transfers, and the settling of each read,
//! write and wait of its blocking operations.

use vstd::prelude::*;
use core::marker::PhantomData;
use crate::abi::{
    HYPER_NATIVE_SIGNAL_CONSOLE_READABLE,
    HYPER_NATIVE_SIGNAL_CONSOLE_WRITABLE,
    HYPER_NATIVE_STATUS_OK,
    HYPER_NATIVE_STATUS_WOULD_BLOCK,
};
use crate::os::channel::ChannelStep;
use crate::os::error::Error;
use crate::os::handle::bits_contain;
use crate::os::status::{CallResult, Status};

verus! {

/// Largest transfer of one console read or write.
pub const MAX_TRANSFER_BYTES: usize = 4096;

/// The part of a transfer that one call carries.
pub open spec fn console_capacity(len: usize) -> usize {
    if len < MAX_TRANSFER_BYTES {
        len
    } else {
        MAX_TRANSFER_BYTES
    }
}

/// Accepts a reported transfer count of at most `limit` bytes.
pub fn decode_transfer_count(raw: u64, limit: usize) -> (r: Result<usize, Error>)
    ensures
        r is Ok <==> raw <= limit,
        r matches Ok(count) ==> count == raw,
        r matches Err(e) ==> e == Error::InvalidResponse,
{
    if raw > limit as u64 {
        return Err(Error::InvalidResponse);
    }
    Ok(raw as usize)
}

/// What one write attempt of `write_all` leaves: the bytes still to write,
/// and whether to wait until the console is writable before the next one.
#[derive(Clone, Copy, Debug, Eq, PartialEq, Structural)]
pub struct WriteProgress {
    pub remaining: usize,
    pub wait: bool,
}

/// Borrowed console capability supplied by the process runtime.
#[derive(Clone, Copy)]
pub struct Console<'startup> {
    raw: u64,
    _startup: PhantomData<&'startup ()>,
}

impl<'startup> Console<'startup> {
    /// The raw console handle.
    pub closed spec fn raw(&self) -> u64 {
        self.raw
    }

    /// Borrows the console handle that process startup supplied.
    pub fn from_startup(raw: u64) -> (r: Console<'startup>)
        requires
            raw != 0,
        ensures
            r.raw() == raw,
    {
        Console { raw, _startup: PhantomData }
    }

    /// The raw console handle, for the calls that transfer bytes.
    pub fn raw_handle(&self) -> (r: u64)
        ensures
            r == self.raw(),
    {
        self.raw
    }

    /// Settles one read attempt of a blocking read into a buffer of
    /// `buffer_len` bytes: an empty buffer completes with zero bytes and makes
    /// no call; input completes the read; no input makes it wait until
    /// readable.
    pub fn read_blocking(&self, buffer_len: usize, result: CallResult) -> (r: Result<
        ChannelStep<usize>,
        Error,
    >)
        ensures
            buffer_len == 0 ==> r == Ok::<ChannelStep<usize>, Error>(ChannelStep::Complete(0)),
            buffer_len != 0 ==> r == if result.status != HYPER_NATIVE_STATUS_OK && result.status
                != HYPER_NATIVE_STATUS_WOULD_BLOCK {
                Err::<ChannelStep<usize>, Error>(Error::Status(Status(result.status)))
            } else if result.value0 > console_capacity(buffer_len) {
                Err(Error::InvalidResponse)
            } else if result.value0 != 0 {
                Ok(ChannelStep::Complete(result.value0 as usize))
            } else {
                Ok(ChannelStep::WaitFor(HYPER_NATIVE_SIGNAL_CONSOLE_READABLE))
            },
    {
        if buffer_len == 0 {
            return Ok(ChannelStep::Complete(0));
        }
        let capacity = if buffer_len < MAX_TRANSFER_BYTES {
            buffer_len
        } else {
            MAX_TRANSFER_BYTES
        };
        if result.status != HYPER_NATIVE_STATUS_OK && result.status
            != HYPER_NATIVE_STATUS_WOULD_BLOCK {
            return Err(Error::Status(Status(result.status)));
        }
        let transferred = match decode_transfer_count(result.value0, capacity) {
            Ok(count) => count,
            Err(e) => {
                return Err(e);
            },
        };
        if transferred != 0 {
            Ok(ChannelStep::Complete(transferred))
        } else {
            Ok(ChannelStep::WaitFor(HYPER_NATIVE_SIGNAL_CONSOLE_READABLE))
        }
    }

    /// Settles one write attempt of `write_all` with `remaining` bytes still
    /// to write, of which at most `MAX_TRANSFER_BYTES` were offered: the
    /// transferred prefix is consumed; a successful write must make progress;
    /// a write the console held back waits until writable while bytes remain.
    pub fn write_all(&self, remaining: usize, result: CallResult) -> (r: Result<
        WriteProgress,
        Error,
    >)
        requires
            remaining > 0,
        ensures
            r == if result.status != HYPER_NATIVE_STATUS_OK && result.status
                != HYPER_NATIVE_STATUS_WOULD_BLOCK {
                Err::<WriteProgress, Error>(Error::Status(Status(result.status)))
            } else if result.value0 > console_capacity(remaining) || (result.status
                == HYPER_NATIVE_STATUS_OK && result.value0 == 0) {
                Err(Error::InvalidResponse)
            } else {
                Ok(
                    WriteProgress {
                        remaining: (remaining - result.value0) as usize,
                        wait: result.status == HYPER_NATIVE_STATUS_WOULD_BLOCK && remaining
                            - result.value0 != 0,
                    },
                )
            },
    {
        let count = if remaining < MAX_TRANSFER_BYTES {
            remaining
        } else {
            MAX_TRANSFER_BYTES
        };
        if result.status != HYPER_NATIVE_STATUS_OK && result.status
            != HYPER_NATIVE_STATUS_WOULD_BLOCK {
            return Err(Error::Status(Status(result.status)));
        }
        let transferred = match decode_transfer_count(result.value0, count) {
            Ok(count) => count,
            Err(e) => {
                return Err(e);
            },
        };
        let left = remaining - transferred;
        if result.status == HYPER_NATIVE_STATUS_OK && transferred == 0 {
            return Err(Error::InvalidResponse);
        }
        Ok(
            WriteProgress {
                remaining: left,
                wait: result.status == HYPER_NATIVE_STATUS_WOULD_BLOCK && left != 0,
            },
        )
    }

    /// Settles one wait for `signals`: every awaited signal must be reported.
    pub fn settle_wait(&self, result: CallResult, signals: u64) -> (r: Result<(), Error>)
        ensures
            r == if result.status != HYPER_NATIVE_STATUS_OK {
                Err::<(), Error>(Error::Status(Status(result.status)))
            } else if !bits_contain(result.value0, signals) {
                Err(Error::InvalidResponse)
            } else {
                Ok(())
            },
    {
        let checked = Status::from_raw(result.status).into_result();
        if let Err(e) = checked {
            return Err(e);
        }
        if result.value0 & signals != signals {
            return Err(Error::InvalidResponse);
        }
        Ok(())
    }

    /// The signal a held-back write waits for.
    pub fn writable_signal(&self) -> (r: u64)
        ensures
            r == HYPER_NATIVE_SIGNAL_CONSOLE_WRITABLE,
    {
        HYPER_NATIVE_SIGNAL_CONSOLE_WRITABLE
    }
}

} // verus!
