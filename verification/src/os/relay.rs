//! Bounded, nonblocking forwarding between byte channels.

use vstd::prelude::*;
use crate::abi::{
    HYPER_NATIVE_SIGNAL_BYTE_CHANNEL_PEER_CLOSED,
    HYPER_NATIVE_SIGNAL_BYTE_CHANNEL_READABLE,
    HYPER_NATIVE_SIGNAL_BYTE_CHANNEL_WRITABLE,
    HYPER_NATIVE_STATUS_OK,
    HYPER_NATIVE_STATUS_PEER_CLOSED,
    HYPER_NATIVE_STATUS_WOULD_BLOCK,
};
use crate::os::channel::{read_outcome, ByteChannel};
use crate::os::error::Error;
use crate::os::status::{CallResult, Status};

verus! {

/// One handle and the signals a wait on it watches.
#[derive(Clone, Copy, Debug, Eq, PartialEq, Structural)]
pub struct WaitItem {
    pub handle: u64,
    pub signals: u64,
}

/// The next call one relay step makes.
#[derive(Clone, Copy, Debug, Eq, PartialEq, Structural)]
pub enum RelayCall {
    /// Nothing: the source has ended.
    Idle,
    /// Write the pending message of this length to the destination.
    Send(usize),
    /// Read one message from the source into the buffer.
    Receive,
}

/// One relay step from the pending message and end state, given the answer
/// to the call the step made: the progress report, the pending message and
/// the end state after it. A delivered message clears the pending one; a
/// received message becomes pending; source closure is successful
/// completion; a full destination or an empty source is no progress; any
/// other failure is an error that changes nothing; after the end nothing
/// happens.
pub open spec fn relay_step(
    pending: Option<usize>,
    finished: bool,
    buffer_len: usize,
    result: CallResult,
) -> (Result<bool, Error>, Option<usize>, bool) {
    if finished {
        (Ok(false), pending, true)
    } else if pending is Some {
        if result.status == HYPER_NATIVE_STATUS_OK {
            (Ok(true), None, false)
        } else if result.status == HYPER_NATIVE_STATUS_WOULD_BLOCK {
            (Ok(false), pending, false)
        } else {
            (Err(Error::Status(Status(result.status))), pending, false)
        }
    } else {
        match read_outcome(buffer_len, result) {
            Ok(length) => (Ok(true), Some(length), false),
            Err(Error::Status(s)) => if s.0 == HYPER_NATIVE_STATUS_WOULD_BLOCK {
                (Ok(false), None, false)
            } else if s.0 == HYPER_NATIVE_STATUS_PEER_CLOSED {
                (Ok(true), None, true)
            } else {
                (Err(Error::Status(s)), None, false)
            },
            Err(e) => (Err(e), None, false),
        }
    }
}

/// A pending message is never overwritten or partially forwarded: a step
/// either keeps it whole or delivers it; and the end of the source is
/// permanent.
pub proof fn relay_never_overwrites_pending(
    pending: Option<usize>,
    finished: bool,
    buffer_len: usize,
    result: CallResult,
)
    ensures
        pending is Some ==> relay_step(pending, finished, buffer_len, result).1 == pending
            || relay_step(pending, finished, buffer_len, result).1 is None,
        pending is Some && relay_step(pending, finished, buffer_len, result).1 is None ==> !finished
            && result.status == HYPER_NATIVE_STATUS_OK,
        finished ==> relay_step(pending, finished, buffer_len, result).2 && relay_step(
            pending,
            finished,
            buffer_len,
            result,
        ).1 == pending,
{
}

/// One direction of a multiplexed byte-channel relay. The caller supplies
/// storage for one complete message and keeps both endpoints; a pending
/// message is never overwritten or partially forwarded, and a step never
/// blocks.
pub struct ByteRelay<'owner> {
    source: ByteChannel<'owner>,
    destination: ByteChannel<'owner>,
    buffer_len: usize,
    pending: Option<usize>,
    finished: bool,
}

impl<'owner> ByteRelay<'owner> {
    pub closed spec fn source(&self) -> u64 {
        self.source.handle()@
    }

    pub closed spec fn destination(&self) -> u64 {
        self.destination.handle()@
    }

    pub closed spec fn spec_buffer_len(&self) -> usize {
        self.buffer_len
    }

    pub closed spec fn pending(&self) -> Option<usize> {
        self.pending
    }

    pub closed spec fn finished(&self) -> bool {
        self.finished
    }

    /// A relay from `source` to `destination` through a buffer of
    /// `buffer_len` bytes, with nothing pending.
    pub fn new(source: ByteChannel<'owner>, destination: ByteChannel<'owner>, buffer_len: usize) -> (r:
        ByteRelay<'owner>)
        ensures
            r.source() == source.handle()@,
            r.destination() == destination.handle()@,
            r.spec_buffer_len() == buffer_len,
            r.pending() is None,
            !r.finished(),
    {
        ByteRelay { source, destination, buffer_len, pending: None, finished: false }
    }

    /// The call the next step makes.
    pub fn next_call(&self) -> (r: RelayCall)
        ensures
            r == if self.finished() {
                RelayCall::Idle
            } else {
                match self.pending() {
                    Some(length) => RelayCall::Send(length),
                    None => RelayCall::Receive,
                }
            },
    {
        if self.finished {
            return RelayCall::Idle;
        }
        match self.pending {
            Some(length) => RelayCall::Send(length),
            None => RelayCall::Receive,
        }
    }

    /// Settles the call `next_call` named and reports whether progress
    /// occurred; see `relay_step`.
    pub fn poll(&mut self, result: CallResult) -> (r: Result<bool, Error>)
        ensures
            final(self).source() == old(self).source(),
            final(self).destination() == old(self).destination(),
            final(self).spec_buffer_len() == old(self).spec_buffer_len(),
            (r, final(self).pending(), final(self).finished()) == relay_step(
                old(self).pending(),
                old(self).finished(),
                old(self).spec_buffer_len(),
                result,
            ),
    {
        if self.finished {
            return Ok(false);
        }
        if let Some(_length) = self.pending {
            let status = Status::from_raw(result.status);
            if status.0 == HYPER_NATIVE_STATUS_OK {
                self.pending = None;
                return Ok(true);
            } else if status.0 == HYPER_NATIVE_STATUS_WOULD_BLOCK {
                return Ok(false);
            } else {
                return Err(Error::Status(status));
            }
        }
        match self.source.try_receive(self.buffer_len, result) {
            Ok(length) => {
                self.pending = Some(length);
                Ok(true)
            },
            Err(Error::Status(s)) => {
                if s.0 == HYPER_NATIVE_STATUS_WOULD_BLOCK {
                    Ok(false)
                } else if s.0 == HYPER_NATIVE_STATUS_PEER_CLOSED {
                    self.finished = true;
                    Ok(true)
                } else {
                    Err(Error::Status(s))
                }
            },
            Err(e) => Err(e),
        }
    }

    /// The next input or capacity condition to wait for, or `None` after the
    /// source ended: destination capacity while a message is pending, source
    /// input otherwise, each together with peer closure.
    pub fn wait_item(&self) -> (r: Option<WaitItem>)
        ensures
            self.finished() ==> r is None,
            !self.finished() ==> r == Some(
                if self.pending() is Some {
                    WaitItem {
                        handle: self.destination(),
                        signals: HYPER_NATIVE_SIGNAL_BYTE_CHANNEL_WRITABLE
                            | HYPER_NATIVE_SIGNAL_BYTE_CHANNEL_PEER_CLOSED,
                    }
                } else {
                    WaitItem {
                        handle: self.source(),
                        signals: HYPER_NATIVE_SIGNAL_BYTE_CHANNEL_READABLE
                            | HYPER_NATIVE_SIGNAL_BYTE_CHANNEL_PEER_CLOSED,
                    }
                },
            ),
    {
        if self.finished {
            return None;
        }
        if self.pending.is_some() {
            Some(
                WaitItem {
                    handle: self.destination.handle_raw(),
                    signals: HYPER_NATIVE_SIGNAL_BYTE_CHANNEL_WRITABLE
                        | HYPER_NATIVE_SIGNAL_BYTE_CHANNEL_PEER_CLOSED,
                },
            )
        } else {
            Some(
                WaitItem {
                    handle: self.source.handle_raw(),
                    signals: HYPER_NATIVE_SIGNAL_BYTE_CHANNEL_READABLE
                        | HYPER_NATIVE_SIGNAL_BYTE_CHANNEL_PEER_CLOSED,
                },
            )
        }
    }

    /// Whether a received message still needs destination capacity.
    pub fn has_pending(&self) -> (r: bool)
        ensures
            r == self.pending() is Some,
    {
        self.pending.is_some()
    }

    pub fn is_finished(&self) -> (r: bool)
        ensures
            r == self.finished(),
    {
        self.finished
    }
}

} // verus!
