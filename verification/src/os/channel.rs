//! Handle-free byte-channel messaging: size limits, the settling of each
//! read and write, and the classification of waits.

use vstd::prelude::*;
use crate::abi::{
    HYPER_NATIVE_SIGNAL_BYTE_CHANNEL_PEER_CLOSED,
    HYPER_NATIVE_SIGNAL_BYTE_CHANNEL_READABLE,
    HYPER_NATIVE_SIGNAL_BYTE_CHANNEL_WRITABLE,
    HYPER_NATIVE_STATUS_BUFFER_TOO_SMALL,
    HYPER_NATIVE_STATUS_OK,
    HYPER_NATIVE_STATUS_PEER_CLOSED,
    HYPER_NATIVE_STATUS_WOULD_BLOCK,
};
use crate::os::error::Error;
use crate::os::handle::{bits_contain, ByteChannelObject, HandleRef, OwnedHandle};
use crate::os::status::{CallResult, Status};

verus! {

/// Maximum payload carried by one byte-channel message.
pub const MAX_MESSAGE_BYTES: usize = 65536;

/// Adopts the connected pair published by a successful create call: two
/// distinct nonzero endpoints.
pub fn create_pair(result: CallResult) -> (r: Result<
    (OwnedHandle<ByteChannelObject>, OwnedHandle<ByteChannelObject>),
    Error,
>)
    ensures
        r is Ok <==> result.status == HYPER_NATIVE_STATUS_OK && result.value0 != 0 && result.value1
            != 0 && result.value0 != result.value1,
        r matches Ok(pair) ==> pair.0@ == result.value0 && pair.1@ == result.value1,
        r matches Err(e) ==> if result.status != HYPER_NATIVE_STATUS_OK {
            e == Error::Status(Status(result.status))
        } else {
            e == Error::InvalidResponse
        },
{
    let checked = Status::from_raw(result.status).into_result();
    if let Err(e) = checked {
        return Err(e);
    }
    if result.value0 == 0 || result.value1 == 0 || result.value0 == result.value1 {
        return Err(Error::InvalidResponse);
    }
    Ok((OwnedHandle::from_raw_owned(result.value0), OwnedHandle::from_raw_owned(result.value1)))
}

/// How one wait for a channel signal ended.
#[derive(Clone, Copy, Debug, Eq, PartialEq, Structural)]
pub enum WaitOutcome {
    Desired,
    PeerClosed,
}

/// The outcome of a wait that observed `observed` while waiting for
/// `desired`: the desired signals win over peer closure, so a receiver drains
/// queued data; peer closure alone ends the wait; anything else is a protocol
/// violation.
pub open spec fn wait_outcome(observed: u64, desired: u64) -> Result<WaitOutcome, Error> {
    if bits_contain(observed, desired) {
        Ok(WaitOutcome::Desired)
    } else if observed & HYPER_NATIVE_SIGNAL_BYTE_CHANNEL_PEER_CLOSED != 0 {
        Ok(WaitOutcome::PeerClosed)
    } else {
        Err(Error::InvalidResponse)
    }
}

/// Classifies the signals one wait observed.
pub fn classify_wait(observed: u64, desired: u64) -> (r: Result<WaitOutcome, Error>)
    ensures
        r == wait_outcome(observed, desired),
{
    if observed & desired == desired {
        Ok(WaitOutcome::Desired)
    } else if observed & HYPER_NATIVE_SIGNAL_BYTE_CHANNEL_PEER_CLOSED != 0 {
        Ok(WaitOutcome::PeerClosed)
    } else {
        Err(Error::InvalidResponse)
    }
}

/// What a blocking channel operation does next: it has completed with a
/// value, or it waits for the given signals before trying again.
#[derive(Clone, Copy, Debug, Eq, PartialEq, Structural)]
pub enum ChannelStep<T> {
    Complete(T),
    WaitFor(u64),
}

/// The outcome of one non-blocking read into a buffer of `buffer_len` bytes.
pub open spec fn read_outcome(buffer_len: usize, result: CallResult) -> Result<usize, Error> {
    let capacity = if buffer_len < MAX_MESSAGE_BYTES {
        buffer_len
    } else {
        MAX_MESSAGE_BYTES
    };
    if result.status == HYPER_NATIVE_STATUS_OK {
        if result.value0 > capacity || result.value1 != 0 {
            Err(Error::InvalidResponse)
        } else {
            Ok(result.value0 as usize)
        }
    } else if result.status == HYPER_NATIVE_STATUS_BUFFER_TOO_SMALL {
        Err(Error::MessageTooLarge { bytes: result.value0, handles: result.value1 })
    } else {
        Err(Error::Status(Status(result.status)))
    }
}

/// Borrowed byte-channel endpoint. A message sent through it carries bytes
/// only, so receiving one never creates hidden handle ownership.
pub struct ByteChannel<'owner> {
    handle: HandleRef<'owner, ByteChannelObject>,
}

impl<'owner> ByteChannel<'owner> {
    /// The borrowed endpoint.
    pub closed spec fn handle(&self) -> HandleRef<'owner, ByteChannelObject> {
        self.handle
    }

    pub fn from_handle(handle: HandleRef<'owner, ByteChannelObject>) -> (r: ByteChannel<'owner>)
        ensures
            r.handle() == handle,
    {
        ByteChannel { handle }
    }

    /// The raw endpoint handle.
    pub fn handle_raw(&self) -> (r: u64)
        ensures
            r == self.handle()@,
    {
        self.handle.raw()
    }

    /// Checks one message of `bytes_len` bytes before a write is attempted.
    pub fn try_send(&self, bytes_len: usize) -> (r: Result<(), Error>)
        ensures
            r is Ok <==> bytes_len <= MAX_MESSAGE_BYTES,
            r is Err ==> r == Err::<(), Error>(
                Error::MessageTooLarge { bytes: bytes_len as u64, handles: 0 },
            ),
    {
        if bytes_len > MAX_MESSAGE_BYTES {
            return Err(Error::MessageTooLarge { bytes: bytes_len as u64, handles: 0 });
        }
        Ok(())
    }

    /// Settles one write attempt of a blocking send: success completes it, a
    /// full peer makes it wait until writable, and any other status fails it.
    pub fn send(&self, bytes_len: usize, status: Status) -> (r: Result<ChannelStep<()>, Error>)
        ensures
            bytes_len > MAX_MESSAGE_BYTES ==> r == Err::<ChannelStep<()>, Error>(
                Error::MessageTooLarge { bytes: bytes_len as u64, handles: 0 },
            ),
            bytes_len <= MAX_MESSAGE_BYTES ==> r == if status.0 == HYPER_NATIVE_STATUS_OK {
                Ok::<ChannelStep<()>, Error>(ChannelStep::Complete(()))
            } else if status.0 == HYPER_NATIVE_STATUS_WOULD_BLOCK {
                Ok(ChannelStep::WaitFor(HYPER_NATIVE_SIGNAL_BYTE_CHANNEL_WRITABLE))
            } else {
                Err(Error::Status(status))
            },
    {
        let checked = self.try_send(bytes_len);
        if let Err(e) = checked {
            return Err(e);
        }
        if status.0 == HYPER_NATIVE_STATUS_OK {
            Ok(ChannelStep::Complete(()))
        } else if status.0 == HYPER_NATIVE_STATUS_WOULD_BLOCK {
            Ok(ChannelStep::WaitFor(HYPER_NATIVE_SIGNAL_BYTE_CHANNEL_WRITABLE))
        } else {
            Err(Error::Status(status))
        }
    }

    /// Settles one non-blocking read into a buffer of `buffer_len` bytes, of
    /// which at most `MAX_MESSAGE_BYTES` were offered.
    pub fn try_receive(&self, buffer_len: usize, result: CallResult) -> (r: Result<usize, Error>)
        ensures
            r == read_outcome(buffer_len, result),
    {
        let capacity = if buffer_len < MAX_MESSAGE_BYTES {
            buffer_len
        } else {
            MAX_MESSAGE_BYTES
        };
        if result.status == HYPER_NATIVE_STATUS_OK {
            if result.value0 > capacity as u64 || result.value1 != 0 {
                return Err(Error::InvalidResponse);
            }
            Ok(result.value0 as usize)
        } else if result.status == HYPER_NATIVE_STATUS_BUFFER_TOO_SMALL {
            Err(Error::MessageTooLarge { bytes: result.value0, handles: result.value1 })
        } else {
            Err(Error::Status(Status(result.status)))
        }
    }

    /// Settles one read attempt of a blocking receive: a message completes it,
    /// an empty queue makes it wait until readable, and any other failure
    /// fails it.
    pub fn receive(&self, buffer_len: usize, result: CallResult) -> (r: Result<
        ChannelStep<usize>,
        Error,
    >)
        ensures
            r == match read_outcome(buffer_len, result) {
                Ok(n) => Ok::<ChannelStep<usize>, Error>(ChannelStep::Complete(n)),
                Err(Error::Status(s)) => if s.0 == HYPER_NATIVE_STATUS_WOULD_BLOCK {
                    Ok(ChannelStep::WaitFor(HYPER_NATIVE_SIGNAL_BYTE_CHANNEL_READABLE))
                } else {
                    Err(Error::Status(s))
                },
                Err(e) => Err(e),
            },
    {
        match self.try_receive(buffer_len, result) {
            Ok(n) => Ok(ChannelStep::Complete(n)),
            Err(Error::Status(s)) => {
                if s.0 == HYPER_NATIVE_STATUS_WOULD_BLOCK {
                    Ok(ChannelStep::WaitFor(HYPER_NATIVE_SIGNAL_BYTE_CHANNEL_READABLE))
                } else {
                    Err(Error::Status(s))
                }
            },
            Err(e) => Err(e),
        }
    }

    /// The signals a wait for `desired` also watches: peer closure.
    pub fn awaited_signals(&self, desired: u64) -> (r: u64)
        ensures
            r == desired | HYPER_NATIVE_SIGNAL_BYTE_CHANNEL_PEER_CLOSED,
    {
        desired | HYPER_NATIVE_SIGNAL_BYTE_CHANNEL_PEER_CLOSED
    }

    /// Settles one wait of a blocking operation: the operation retries when
    /// the desired signals arrived, and fails with peer closure when only the
    /// peer closed.
    pub fn settle_wait(&self, result: CallResult, desired: u64) -> (r: Result<(), Error>)
        ensures
            result.status != HYPER_NATIVE_STATUS_OK ==> r == Err::<(), Error>(
                Error::Status(Status(result.status)),
            ),
            result.status == HYPER_NATIVE_STATUS_OK ==> r == match wait_outcome(
                result.value0,
                desired,
            ) {
                Ok(WaitOutcome::Desired) => Ok::<(), Error>(()),
                Ok(WaitOutcome::PeerClosed) => Err(
                    Error::Status(Status(HYPER_NATIVE_STATUS_PEER_CLOSED)),
                ),
                Err(e) => Err(e),
            },
    {
        let checked = Status::from_raw(result.status).into_result();
        if let Err(e) = checked {
            return Err(e);
        }
        match classify_wait(result.value0, desired) {
            Ok(WaitOutcome::Desired) => Ok(()),
            Ok(WaitOutcome::PeerClosed) => Err(Error::Status(Status(HYPER_NATIVE_STATUS_PEER_CLOSED))),
            Err(e) => Err(e),
        }
    }
}

/// How one wait of a blocking operation for `desired` settles, as
/// `ByteChannel::settle_wait` reports it.
pub open spec fn wait_settled(result: CallResult, desired: u64) -> Result<(), Error> {
    if result.status != HYPER_NATIVE_STATUS_OK {
        Err(Error::Status(Status(result.status)))
    } else {
        match wait_outcome(result.value0, desired) {
            Ok(WaitOutcome::Desired) => Ok(()),
            Ok(WaitOutcome::PeerClosed) => Err(Error::Status(Status(HYPER_NATIVE_STATUS_PEER_CLOSED))),
            Err(e) => Err(e),
        }
    }
}

/// The outcome of a blocking send of `bytes_len` bytes, from write attempt
/// `i` on, over the kernel's answers: `writes[k]` to write attempt `k`, and
/// `waits[k]` to the wait for writability after it. An oversized message
/// fails before any call; a write that succeeds completes the send; a full
/// peer makes it wait and try again; any other status, or a wait that does
/// not report writability, ends it with that error. `None` when the answers
/// end before the send does.
pub open spec fn blocking_send_outcome(
    bytes_len: usize,
    writes: Seq<Status>,
    waits: Seq<CallResult>,
    i: int,
) -> Option<Result<(), Error>>
    decreases writes.len() - i,
{
    if bytes_len > MAX_MESSAGE_BYTES {
        Some(Err(Error::MessageTooLarge { bytes: bytes_len as u64, handles: 0 }))
    } else if !(0 <= i < writes.len()) {
        None
    } else if writes[i].0 == HYPER_NATIVE_STATUS_OK {
        Some(Ok(()))
    } else if writes[i].0 != HYPER_NATIVE_STATUS_WOULD_BLOCK {
        Some(Err(Error::Status(writes[i])))
    } else if i >= waits.len() {
        None
    } else {
        match wait_settled(waits[i], HYPER_NATIVE_SIGNAL_BYTE_CHANNEL_WRITABLE) {
            Ok(()) => blocking_send_outcome(bytes_len, writes, waits, i + 1),
            Err(e) => Some(Err(e)),
        }
    }
}

impl<'owner> ByteChannel<'owner> {
    /// Runs a blocking send of `bytes_len` bytes against the kernel's answers
    /// in order, with the same steps as `send` and `settle_wait`; each wait
    /// watches `awaited_signals` of writability. `None` when the answers end
    /// before the send does.
    pub fn blocking_send(&self, bytes_len: usize, writes: &[Status], waits: &[CallResult]) -> (r:
        Option<Result<(), Error>>)
        ensures
            r == blocking_send_outcome(bytes_len, writes@, waits@, 0),
    {
        let mut i: usize = 0;
        while i < writes.len()
            invariant
                i <= writes@.len(),
                bytes_len <= MAX_MESSAGE_BYTES || i == 0,
                blocking_send_outcome(bytes_len, writes@, waits@, 0) == blocking_send_outcome(
                    bytes_len,
                    writes@,
                    waits@,
                    i as int,
                ),
            decreases writes@.len() - i,
        {
            match self.send(bytes_len, writes[i]) {
                Err(e) => {
                    return Some(Err(e));
                },
                Ok(ChannelStep::Complete(())) => {
                    return Some(Ok(()));
                },
                Ok(ChannelStep::WaitFor(desired)) => {
                    if i >= waits.len() {
                        return None;
                    }
                    let settled = self.settle_wait(waits[i], desired);
                    if let Err(e) = settled {
                        return Some(Err(e));
                    }
                },
            }
            i = i + 1;
        }
        if bytes_len > MAX_MESSAGE_BYTES {
            return Some(Err(Error::MessageTooLarge { bytes: bytes_len as u64, handles: 0 }));
        }
        None
    }
}

impl OwnedHandle<ByteChannelObject> {
    /// Borrows this owned endpoint as a byte-message channel.
    pub fn as_byte_channel(&self) -> (r: ByteChannel<'_>)
        ensures
            r.handle()@ == self@,
    {
        ByteChannel::from_handle(self.as_handle_ref())
    }
}

} // verus!
