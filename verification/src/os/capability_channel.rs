//! Transactional capability rendezvous: validation of every source before a
//! send, and of every received owner before it is published.

use vstd::prelude::*;
use crate::abi::{
    HYPER_NATIVE_RIGHT_DUPLICATE,
    HYPER_NATIVE_RIGHT_TRANSFER,
    HYPER_NATIVE_STATUS_ACCESS_DENIED,
    HYPER_NATIVE_STATUS_BUFFER_TOO_SMALL,
    HYPER_NATIVE_STATUS_OK,
    HyperNativeCapabilityDisposition,
    HyperNativeCapabilityReceiveSlot,
};
use crate::os::error::Error;
use crate::os::handle::{
    bits_contain, distinct_nonzero, first_appearances, AnyObject, CapabilityChannelObject,
    HandleInfo, HandleRef, ObjectKind,
    OwnedHandle, Rights, RightsOffer, TypedObject,
};
use crate::os::status::{CallResult, Status};

verus! {

/// Largest message payload, in bytes.
pub const MAX_MESSAGE_BYTES: usize = 4096;

/// Most capabilities carried by one message.
pub const MAX_CAPABILITIES: usize = 16;

/// Disposition operation that moves the source owner.
pub const OPERATION_MOVE: u32 = 0;

/// Disposition operation that keeps the source and sends a duplicate.
pub const OPERATION_DUPLICATE: u32 = 1;

/// A source may be sent when its queried metadata reports the expected kind,
/// carries every `required` right, and covers an exact rights offer.
pub open spec fn source_accepted(
    info: Result<HandleInfo, Error>,
    kind: u32,
    offer: RightsOffer,
    required: u64,
) -> bool {
    &&& info matches Ok(i)
    &&& info->Ok_0.kind@ == kind
    &&& bits_contain(info->Ok_0.rights@, required)
    &&& (offer matches RightsOffer::Exact(o) ==> bits_contain(info->Ok_0.rights@, o@))
}

/// The error that rejects a source.
pub open spec fn source_error(info: Result<HandleInfo, Error>, kind: u32) -> Error {
    match info {
        Err(e) => e,
        Ok(i) => if i.kind@ != kind {
            Error::UnexpectedObjectKind { expected: kind, actual: i.kind@ }
        } else {
            Error::Status(Status(HYPER_NATIVE_STATUS_ACCESS_DENIED))
        },
    }
}

/// The ABI encoding of a rights offer.
pub open spec fn offer_raw(offer: RightsOffer) -> u64 {
    match offer {
        RightsOffer::SameRights => u64::MAX,
        RightsOffer::Exact(rights) => rights@,
    }
}

fn validate_source(info: Result<HandleInfo, Error>, kind: ObjectKind, offer: RightsOffer, required: u64)
    -> (r: Result<(), Error>)
    ensures
        r is Ok <==> source_accepted(info, kind@, offer, required),
        r matches Err(e) ==> e == source_error(info, kind@),
{
    let info = match info {
        Ok(info) => info,
        Err(e) => {
            return Err(e);
        },
    };
    if info.kind.as_raw() != kind.as_raw() {
        return Err(
            Error::UnexpectedObjectKind { expected: kind.as_raw(), actual: info.kind.as_raw() },
        );
    }
    if info.rights.bits() & required != required {
        return Err(Error::Status(Status(HYPER_NATIVE_STATUS_ACCESS_DENIED)));
    }
    if let RightsOffer::Exact(offered) = offer {
        if !info.rights.contains(offered) {
            return Err(Error::Status(Status(HYPER_NATIVE_STATUS_ACCESS_DENIED)));
        }
    }
    Ok(())
}

/// One validated source disposition for a capability rendezvous.
#[derive(Clone, Copy, Debug, Eq, PartialEq)]
pub struct CapabilityDisposition {
    record: HyperNativeCapabilityDisposition,
}

impl CapabilityDisposition {
    /// The record this disposition sends.
    pub closed spec fn spec_record(&self) -> HyperNativeCapabilityDisposition {
        self.record
    }

    /// Prepares a MOVE of the owner in `source`, given the metadata queried
    /// for it. The source keeps its owner until a send commits.
    pub fn move_handle<T: TypedObject>(
        source: &Option<OwnedHandle<T>>,
        offer: RightsOffer,
        info: Result<HandleInfo, Error>,
    ) -> (r: Result<CapabilityDisposition, Error>)
        ensures
            source is None ==> r == Err::<CapabilityDisposition, Error>(Error::MissingHandle),
            source matches Some(owner) ==> {
                &&& (r is Ok <==> source_accepted(
                    info,
                    T::kind_value(),
                    offer,
                    HYPER_NATIVE_RIGHT_TRANSFER,
                ))
                &&& (r matches Ok(d) ==> d.spec_record() == (HyperNativeCapabilityDisposition {
                    handle: owner@,
                    rights: offer_raw(offer),
                    expected_kind: T::kind_value(),
                    operation: OPERATION_MOVE,
                }))
                &&& (r matches Err(e) ==> e == source_error(info, T::kind_value()))
            },
    {
        let owner = match source {
            Some(owner) => owner,
            None => {
                return Err(Error::MissingHandle);
            },
        };
        let checked = validate_source(info, T::kind(), offer, HYPER_NATIVE_RIGHT_TRANSFER);
        if let Err(e) = checked {
            return Err(e);
        }
        Ok(
            CapabilityDisposition {
                record: HyperNativeCapabilityDisposition {
                    handle: owner.as_handle_ref().raw(),
                    rights: offer.raw(),
                    expected_kind: T::kind().as_raw(),
                    operation: OPERATION_MOVE,
                },
            },
        )
    }

    /// Prepares a DUPLICATE of the borrowed source, which is kept on every
    /// outcome, given the metadata queried for it.
    pub fn duplicate<T: TypedObject>(
        source: HandleRef<'_, T>,
        offer: RightsOffer,
        info: Result<HandleInfo, Error>,
    ) -> (r: Result<CapabilityDisposition, Error>)
        ensures
            r is Ok <==> source_accepted(
                info,
                T::kind_value(),
                offer,
                HYPER_NATIVE_RIGHT_TRANSFER | HYPER_NATIVE_RIGHT_DUPLICATE,
            ),
            r matches Ok(d) ==> d.spec_record() == (HyperNativeCapabilityDisposition {
                handle: source@,
                rights: offer_raw(offer),
                expected_kind: T::kind_value(),
                operation: OPERATION_DUPLICATE,
            }),
            r matches Err(e) ==> e == source_error(info, T::kind_value()),
    {
        let checked = validate_source(
            info,
            T::kind(),
            offer,
            HYPER_NATIVE_RIGHT_TRANSFER | HYPER_NATIVE_RIGHT_DUPLICATE,
        );
        if let Err(e) = checked {
            return Err(e);
        }
        Ok(
            CapabilityDisposition {
                record: HyperNativeCapabilityDisposition {
                    handle: source.raw(),
                    rights: offer.raw(),
                    expected_kind: T::kind().as_raw(),
                    operation: OPERATION_DUPLICATE,
                },
            },
        )
    }

    /// Whether a committed send consumes the source owner.
    pub fn is_move(&self) -> (r: bool)
        ensures
            r == (self.spec_record().operation == OPERATION_MOVE),
    {
        self.record.operation == OPERATION_MOVE
    }

    /// The record this disposition sends.
    pub fn record(&self) -> (r: HyperNativeCapabilityDisposition)
        ensures
            r == self.spec_record(),
    {
        self.record
    }
}

/// No two dispositions name the same source handle.
pub open spec fn sources_distinct(dispositions: Seq<CapabilityDisposition>) -> bool {
    forall|i: int, j: int|
        0 <= i < j < dispositions.len() ==> #[trigger] dispositions[i].spec_record().handle
            != #[trigger] dispositions[j].spec_record().handle
}

/// One typed destination request and its optional received owner.
pub struct CapabilityReceiveSlot {
    expected_kind: ObjectKind,
    rights: Rights,
    received: Option<OwnedHandle<AnyObject>>,
}

impl CapabilityReceiveSlot {
    /// The requested object kind.
    pub closed spec fn spec_kind(&self) -> u32 {
        self.expected_kind@
    }

    /// The requested exact rights.
    pub closed spec fn spec_rights(&self) -> u64 {
        self.rights@
    }

    /// The raw handle of the received owner, if the slot holds one.
    pub closed spec fn spec_received(&self) -> Option<u64> {
        match self.received {
            Some(owner) => Some(owner@),
            None => None,
        }
    }

    /// Declares one exact type-and-rights request.
    pub fn new<T: TypedObject>(rights: Rights) -> (r: CapabilityReceiveSlot)
        ensures
            r.spec_kind() == T::kind_value(),
            r.spec_rights() == rights@,
            r.spec_received() is None,
    {
        CapabilityReceiveSlot { expected_kind: T::kind(), rights, received: None }
    }

    /// Whether this slot currently owns a received capability.
    pub fn is_occupied(&self) -> (r: bool)
        ensures
            r == self.spec_received() is Some,
    {
        self.received.is_some()
    }

    /// The raw handle of the received owner, for a metadata query.
    pub fn received_raw(&self) -> (r: Option<u64>)
        ensures
            r == self.spec_received(),
    {
        match &self.received {
            Some(owner) => Some(owner.as_handle_ref().raw()),
            None => None,
        }
    }

    /// Takes the received owner as the requested static type, given the
    /// metadata queried for it. A mismatch leaves the owner in the slot.
    pub fn take<T: TypedObject>(&mut self, info: Result<HandleInfo, Error>) -> (r: Result<
        Option<OwnedHandle<T>>,
        Error,
    >)
        ensures
            final(self).spec_kind() == old(self).spec_kind(),
            final(self).spec_rights() == old(self).spec_rights(),
            old(self).spec_kind() != T::kind_value() ==> r == Err::<Option<OwnedHandle<T>>, Error>(
                Error::UnexpectedObjectKind {
                    expected: T::kind_value(),
                    actual: old(self).spec_kind(),
                },
            ) && final(self).spec_received() == old(self).spec_received(),
            old(self).spec_kind() == T::kind_value() ==> {
                &&& old(self).spec_received() is None ==> (r matches Ok(None))
                    && final(self).spec_received() is None
                &&& old(self).spec_received() matches Some(raw) ==> {
                    &&& (r is Ok <==> (info matches Ok(i) && i.kind@ == T::kind_value()))
                    &&& (r matches Ok(o) ==> o matches Some(h) && h@ == raw)
                    &&& (r is Ok ==> final(self).spec_received() is None)
                    &&& (r is Err ==> final(self).spec_received() == Some(raw))
                    &&& (r matches Err(e) ==> match info {
                        Ok(i) => e == Error::UnexpectedObjectKind {
                            expected: T::kind_value(),
                            actual: i.kind@,
                        },
                        Err(cause) => e == cause,
                    })
                }
            },
    {
        let expected = T::kind();
        if self.expected_kind.as_raw() != expected.as_raw() {
            return Err(
                Error::UnexpectedObjectKind {
                    expected: expected.as_raw(),
                    actual: self.expected_kind.as_raw(),
                },
            );
        }
        let owner = match self.received.take() {
            Some(owner) => owner,
            None => {
                return Ok(None);
            },
        };
        match owner.downcast::<T>(info) {
            Ok(owner) => Ok(Some(owner)),
            Err(failure) => {
                let (error, owner) = failure.into_parts();
                self.received = Some(owner);
                Err(error)
            },
        }
    }

    fn raw_request(&self) -> (r: HyperNativeCapabilityReceiveSlot)
        ensures
            r == (HyperNativeCapabilityReceiveSlot {
                handle: 0,
                rights: self.spec_rights(),
                expected_kind: self.spec_kind(),
                flags: 0,
            }),
    {
        HyperNativeCapabilityReceiveSlot {
            handle: 0,
            rights: self.rights.bits(),
            expected_kind: self.expected_kind.as_raw(),
            flags: 0,
        }
    }
}

/// Successfully received bytes and capability count.
pub struct CapabilityMessage {
    bytes: Vec<u8>,
    capability_count: usize,
}

impl CapabilityMessage {
    pub closed spec fn spec_bytes(&self) -> Seq<u8> {
        self.bytes@
    }

    pub closed spec fn spec_capability_count(&self) -> usize {
        self.capability_count
    }

    pub fn bytes(&self) -> (r: &[u8])
        ensures
            r@ == self.spec_bytes(),
    {
        self.bytes.as_slice()
    }

    pub fn capability_count(&self) -> (r: usize)
        ensures
            r == self.spec_capability_count(),
    {
        self.capability_count
    }
}

/// The records and byte capacity that one receive call is made with.
pub struct ReceiveRequest {
    pub byte_capacity: usize,
    pub slots: Vec<HyperNativeCapabilityReceiveSlot>,
}

/// The prefix of a buffer that one receive may fill.
pub open spec fn message_capacity(len: usize) -> usize {
    if len < MAX_MESSAGE_BYTES {
        len
    } else {
        MAX_MESSAGE_BYTES
    }
}

/// Exclusive ownership of one capability-channel endpoint.
pub struct CapabilityChannel {
    handle: OwnedHandle<CapabilityChannelObject>,
}


/// Nonzero handles reported in distinct slots are distinct.
pub open spec fn outputs_distinct(raw: Seq<HyperNativeCapabilityReceiveSlot>) -> bool {
    forall|i: int, j: int|
        0 <= i < j < raw.len() && raw[j].handle != 0 ==> #[trigger] raw[i].handle
            != #[trigger] raw[j].handle
}

/// The slot at `index` answers its request: it holds a handle exactly when
/// it is among the first `actual`, and keeps its requested kind and rights
/// with clear flags.
pub open spec fn slot_answered(
    raw: HyperNativeCapabilityReceiveSlot,
    slot: CapabilityReceiveSlot,
    index: int,
    actual: int,
) -> bool {
    &&& (index < actual) == (raw.handle != 0)
    &&& raw.rights == slot.spec_rights()
    &&& raw.expected_kind == slot.spec_kind()
    &&& raw.flags == 0
}

/// Every slot answers its request, and exactly the first `actual` are filled.
pub open spec fn slots_answered(
    raw: Seq<HyperNativeCapabilityReceiveSlot>,
    slots: Seq<CapabilityReceiveSlot>,
    actual: int,
) -> bool {
    forall|i: int| 0 <= i < slots.len() ==> #[trigger] slot_answered(raw[i], slots[i], i, actual)
}

/// The metadata queried for a received owner confirms its slot's request.
pub open spec fn info_confirms(info: Result<HandleInfo, Error>, slot: CapabilityReceiveSlot) -> bool {
    info matches Ok(i) && i.kind@ == slot.spec_kind() && i.rights@ == slot.spec_rights()
}

/// The first metadata answer among the first `k` received owners that does
/// not confirm its slot, as the error it reports.
pub open spec fn first_info_failure(
    infos: Seq<Result<HandleInfo, Error>>,
    slots: Seq<CapabilityReceiveSlot>,
    k: nat,
) -> Option<Error>
    decreases k,
{
    if k == 0 {
        None
    } else {
        match first_info_failure(infos, slots, (k - 1) as nat) {
            Some(e) => Some(e),
            None => if info_confirms(infos[k - 1], slots[k - 1]) {
                None
            } else {
                match infos[k - 1] {
                    Err(e) => Some(e),
                    Ok(_) => Some(Error::InvalidResponse),
                }
            },
        }
    }
}

/// The outcome of one receive: the delivered byte and capability counts, or
/// the error it reports.
pub open spec fn receive_outcome(
    result: CallResult,
    buffer_len: usize,
    raw: Seq<HyperNativeCapabilityReceiveSlot>,
    slots: Seq<CapabilityReceiveSlot>,
    infos: Seq<Result<HandleInfo, Error>>,
) -> Result<(u64, u64), Error> {
    if result.status != HYPER_NATIVE_STATUS_OK {
        if result.status == HYPER_NATIVE_STATUS_BUFFER_TOO_SMALL {
            Err(Error::MessageTooLarge { bytes: result.value0, handles: result.value1 })
        } else {
            Err(Error::Status(Status(result.status)))
        }
    } else if !outputs_distinct(raw) {
        Err(Error::InvalidResponse)
    } else if result.value0 > message_capacity(buffer_len) || result.value1 > slots.len() {
        Err(Error::InvalidResponse)
    } else if !slots_answered(raw, slots, result.value1 as int) {
        Err(Error::InvalidResponse)
    } else {
        match first_info_failure(infos, slots, result.value1 as nat) {
            Some(e) => Err(e),
            None => Ok((result.value0, result.value1)),
        }
    }
}

/// After a delivered message, the slot at `index` keeps its request and holds
/// the owner of its reported handle exactly when it is among the first
/// `actual`.
pub open spec fn slot_installed(
    before: CapabilityReceiveSlot,
    after: CapabilityReceiveSlot,
    raw: HyperNativeCapabilityReceiveSlot,
    index: int,
    actual: int,
) -> bool {
    &&& after.spec_kind() == before.spec_kind()
    &&& after.spec_rights() == before.spec_rights()
    &&& after.spec_received() == if index < actual {
        Some(raw.handle)
    } else {
        None
    }
}

proof fn lemma_first_info_failure_step(
    infos: Seq<Result<HandleInfo, Error>>,
    slots: Seq<CapabilityReceiveSlot>,
    k: nat,
)
    requires
        first_info_failure(infos, slots, k) is None,
    ensures
        first_info_failure(infos, slots, k + 1) is None <==> info_confirms(infos[k as int], slots[k as int]),
{
}

proof fn lemma_first_info_failure_stable(
    infos: Seq<Result<HandleInfo, Error>>,
    slots: Seq<CapabilityReceiveSlot>,
    k: nat,
    later: nat,
)
    requires
        k <= later,
        first_info_failure(infos, slots, k) is Some,
    ensures
        first_info_failure(infos, slots, later) == first_info_failure(infos, slots, k),
    decreases later - k,
{
    if k < later {
        lemma_first_info_failure_stable(infos, slots, k, (later - 1) as nat);
    }
}

/// The handle values of a receive's slot records, in slot order.
pub open spec fn receive_handles(raw: Seq<HyperNativeCapabilityReceiveSlot>) -> Seq<u64> {
    raw.map_values(|s: HyperNativeCapabilityReceiveSlot| s.handle)
}

/// The owners a rejected receive answer published: with a successful status,
/// every distinct nonzero handle of its slot records, in order of first
/// appearance; with a failed status, none.
pub open spec fn rejected_receive_owners(
    result: CallResult,
    raw: Seq<HyperNativeCapabilityReceiveSlot>,
) -> Seq<u64> {
    if result.status == HYPER_NATIVE_STATUS_OK {
        first_appearances(receive_handles(raw), raw.len() as int)
    } else {
        Seq::empty()
    }
}

/// The owners to close once each after a rejected receive answer.
pub fn rejected_receive_owners_of(result: CallResult, raw: &[HyperNativeCapabilityReceiveSlot])
    -> (r: Vec<u64>)
    ensures
        r@ == rejected_receive_owners(result, raw@),
{
    if result.status != HYPER_NATIVE_STATUS_OK {
        return Vec::new();
    }
    let mut handles: Vec<u64> = Vec::new();
    let mut i: usize = 0;
    while i < raw.len()
        invariant
            i <= raw@.len(),
            handles@ == receive_handles(raw@).take(i as int),
        decreases raw@.len() - i,
    {
        handles.push(raw[i].handle);
        i = i + 1;
        assert(handles@ =~= receive_handles(raw@).take(i as int));
    }
    assert(handles@ =~= receive_handles(raw@));
    distinct_nonzero(handles.as_slice())
}

impl CapabilityChannel {
    /// The owned endpoint handle.
    pub closed spec fn handle(&self) -> OwnedHandle<CapabilityChannelObject> {
        self.handle
    }

    /// Restores the endpoint API from an exclusively owned typed handle.
    pub fn from_handle(handle: OwnedHandle<CapabilityChannelObject>) -> (r: CapabilityChannel)
        ensures
            r.handle() == handle,
    {
        CapabilityChannel { handle }
    }

    /// Borrows the endpoint handle.
    pub fn as_handle_ref(&self) -> (r: HandleRef<'_, CapabilityChannelObject>)
        ensures
            r@ == self.handle()@,
    {
        self.handle.as_handle_ref()
    }

    /// Recovers the typed owner for delegation or explicit close.
    pub fn into_handle(self) -> (r: OwnedHandle<CapabilityChannelObject>)
        ensures
            r == self.handle(),
    {
        self.handle
    }

    /// Adopts the connected pair published by a successful create call: two
    /// distinct nonzero endpoints.
    pub fn create(result: CallResult) -> (r: Result<(CapabilityChannel, CapabilityChannel), Error>)
        ensures
            r is Ok <==> result.status == HYPER_NATIVE_STATUS_OK && result.value0 != 0
                && result.value1 != 0 && result.value0 != result.value1,
            r matches Ok(pair) ==> pair.0.handle()@ == result.value0 && pair.1.handle()@
                == result.value1,
            r matches Err(e) ==> if result.status != HYPER_NATIVE_STATUS_OK {
                e == Error::Status(Status(result.status))
            } else {
                e == Error::InvalidResponse
            },
    {
        let checked = Status::from_raw(result.status).into_result();
        if let Err(e) = checked {
            return Err(e);
        }
        if result.value0 == 0 || result.value1 == 0 || result.value0 == result.value1 {
            return Err(Error::InvalidResponse);
        }
        Ok(
            (
                CapabilityChannel { handle: OwnedHandle::from_raw_owned(result.value0) },
                CapabilityChannel { handle: OwnedHandle::from_raw_owned(result.value1) },
            ),
        )
    }

    /// Validates one rendezvous of `bytes_len` bytes and lays out the records
    /// the send call carries. A send that the kernel then accepts commits
    /// every MOVE: its source owner passes to the peer; a rejected send keeps
    /// every source.
    pub fn try_send(&self, bytes_len: usize, dispositions: &[CapabilityDisposition]) -> (r:
        Result<Vec<HyperNativeCapabilityDisposition>, Error>)
        ensures
            r is Ok <==> bytes_len <= MAX_MESSAGE_BYTES && dispositions@.len() <= MAX_CAPABILITIES
                && sources_distinct(dispositions@),
            bytes_len > MAX_MESSAGE_BYTES || dispositions@.len() > MAX_CAPABILITIES ==> r == Err::<
                Vec<HyperNativeCapabilityDisposition>,
                Error,
            >(Error::MessageTooLarge { bytes: bytes_len as u64, handles: dispositions@.len() as u64 }),
            r matches Err(e) ==> e == Error::InvalidCapabilityDisposition || (e matches Error::MessageTooLarge { .. }),
            bytes_len <= MAX_MESSAGE_BYTES && dispositions@.len() <= MAX_CAPABILITIES ==> (r matches Err(
                e,
            ) ==> e == Error::InvalidCapabilityDisposition),
            r matches Ok(records) ==> records@.len() == dispositions@.len() && forall|i: int|
                0 <= i < records@.len() ==> #[trigger] records@[i] == dispositions@[i].spec_record(),
    {
        if bytes_len > MAX_MESSAGE_BYTES || dispositions.len() > MAX_CAPABILITIES {
            return Err(
                Error::MessageTooLarge {
                    bytes: bytes_len as u64,
                    handles: dispositions.len() as u64,
                },
            );
        }
        let mut records: Vec<HyperNativeCapabilityDisposition> = Vec::new();
        let mut j: usize = 0;
        while j < dispositions.len()
            invariant
                bytes_len <= MAX_MESSAGE_BYTES,
                dispositions@.len() <= MAX_CAPABILITIES,
                j <= dispositions@.len(),
                records@.len() == j,
                forall|a: int, b: int|
                    0 <= a < b < j ==> #[trigger] dispositions@[a].spec_record().handle
                        != #[trigger] dispositions@[b].spec_record().handle,
                forall|k: int| 0 <= k < j ==> #[trigger] records@[k] == dispositions@[k].spec_record(),
            decreases dispositions@.len() - j,
        {
            let handle = dispositions[j].record().handle;
            let mut i: usize = 0;
            while i < j
                invariant
                    bytes_len <= MAX_MESSAGE_BYTES,
                    dispositions@.len() <= MAX_CAPABILITIES,
                    i <= j < dispositions@.len(),
                    handle == dispositions@[j as int].spec_record().handle,
                    forall|a: int| 0 <= a < i ==> #[trigger] dispositions@[a].spec_record().handle != handle,
                decreases j - i,
            {
                if dispositions[i].record().handle == handle {
                    return Err(Error::InvalidCapabilityDisposition);
                }
                i = i + 1;
            }
            records.push(dispositions[j].record());
            j = j + 1;
        }
        Ok(records)
    }

    /// The whole of one capability send of `bytes_len` bytes: an oversized
    /// message or a repeated source fails before any call and keeps every
    /// source; otherwise the records are sent, and `status`, the kernel's
    /// answer to that call, settles it. A committed send passes every MOVE
    /// source to the peer; a rejected send keeps every source.
    pub fn send_and_settle(
        &self,
        bytes_len: usize,
        dispositions: &[CapabilityDisposition],
        status: Status,
        sources: &mut Vec<Option<OwnedHandle<AnyObject>>>,
    ) -> (r: Result<(), Error>)
        requires
            old(sources)@.len() == dispositions@.len(),
        ensures
            final(sources)@.len() == old(sources)@.len(),
            bytes_len > MAX_MESSAGE_BYTES || dispositions@.len() > MAX_CAPABILITIES ==> r == Err::<
                (),
                Error,
            >(Error::MessageTooLarge { bytes: bytes_len as u64, handles: dispositions@.len() as u64 })
                && final(sources)@ == old(sources)@,
            bytes_len <= MAX_MESSAGE_BYTES && dispositions@.len() <= MAX_CAPABILITIES
                && !sources_distinct(dispositions@) ==> r == Err::<(), Error>(
                Error::InvalidCapabilityDisposition,
            ) && final(sources)@ == old(sources)@,
            bytes_len <= MAX_MESSAGE_BYTES && dispositions@.len() <= MAX_CAPABILITIES
                && sources_distinct(dispositions@) ==> {
                &&& (r is Ok <==> status.0 == HYPER_NATIVE_STATUS_OK)
                &&& (r is Err ==> r == Err::<(), Error>(Error::Status(status)))
                &&& forall|i: int|
                    0 <= i < old(sources)@.len() ==> #[trigger] final(sources)@[i] == if r is Ok
                        && dispositions@[i].spec_record().operation == OPERATION_MOVE {
                        None::<OwnedHandle<AnyObject>>
                    } else {
                        old(sources)@[i]
                    }
            },
    {
        match self.try_send(bytes_len, dispositions) {
            Err(e) => Err(e),
            Ok(_records) => self.settle_send(status, dispositions, sources),
        }
    }

    /// Settles the kernel's status for one send of `dispositions`, whose
    /// sources stand at the same positions in `sources`. A committed send
    /// passes every MOVE source to the peer, so its slot is emptied; a
    /// rejected send keeps every source, and DUPLICATE sources are always
    /// kept.
    pub fn settle_send(
        &self,
        status: Status,
        dispositions: &[CapabilityDisposition],
        sources: &mut Vec<Option<OwnedHandle<AnyObject>>>,
    ) -> (r: Result<(), Error>)
        requires
            old(sources)@.len() == dispositions@.len(),
        ensures
            r is Ok <==> status.0 == HYPER_NATIVE_STATUS_OK,
            r matches Err(e) ==> e == Error::Status(status),
            final(sources)@.len() == old(sources)@.len(),
            forall|i: int|
                0 <= i < old(sources)@.len() ==> #[trigger] final(sources)@[i] == if r is Ok
                    && dispositions@[i].spec_record().operation == OPERATION_MOVE {
                    None::<OwnedHandle<AnyObject>>
                } else {
                    old(sources)@[i]
                },
    {
        if status.0 != HYPER_NATIVE_STATUS_OK {
            return Err(Error::Status(status));
        }
        let mut i: usize = 0;
        while i < dispositions.len()
            invariant
                status.0 == HYPER_NATIVE_STATUS_OK,
                i <= dispositions@.len(),
                sources@.len() == old(sources)@.len(),
                old(sources)@.len() == dispositions@.len(),
                forall|k: int|
                    0 <= k < i ==> #[trigger] sources@[k] == if dispositions@[k].spec_record().operation
                        == OPERATION_MOVE {
                        None::<OwnedHandle<AnyObject>>
                    } else {
                        old(sources)@[k]
                    },
                forall|k: int| i <= k < sources@.len() ==> #[trigger] sources@[k] == old(sources)@[k],
            decreases dispositions@.len() - i,
        {
            if dispositions[i].is_move() {
                sources.set(i, None);
            }
            i = i + 1;
        }
        Ok(())
    }

    /// Validates the destination slots of one receive into a buffer of
    /// `buffer_len` bytes and lays out the records the receive call carries.
    pub fn receive_request(&self, buffer_len: usize, slots: &[CapabilityReceiveSlot]) -> (r: Result<
        ReceiveRequest,
        Error,
    >)
        ensures
            r is Ok <==> slots@.len() <= MAX_CAPABILITIES && forall|i: int|
                0 <= i < slots@.len() ==> #[trigger] slots@[i].spec_received() is None,
            slots@.len() > MAX_CAPABILITIES ==> (r matches Err(Error::MessageTooLarge { bytes, handles })
                && bytes == buffer_len && handles == slots@.len()),
            slots@.len() <= MAX_CAPABILITIES ==> (r matches Err(e) ==> e == Error::OccupiedReceiveSlot),
            r matches Ok(request) ==> request.byte_capacity == message_capacity(buffer_len)
                && request.slots@.len() == slots@.len() && forall|i: int|
                0 <= i < slots@.len() ==> #[trigger] request.slots@[i] == (HyperNativeCapabilityReceiveSlot {
                    handle: 0,
                    rights: slots@[i].spec_rights(),
                    expected_kind: slots@[i].spec_kind(),
                    flags: 0,
                }),
    {
        if slots.len() > MAX_CAPABILITIES {
            return Err(
                Error::MessageTooLarge { bytes: buffer_len as u64, handles: slots.len() as u64 },
            );
        }
        let mut records: Vec<HyperNativeCapabilityReceiveSlot> = Vec::new();
        let mut i: usize = 0;
        while i < slots.len()
            invariant
                slots@.len() <= MAX_CAPABILITIES,
                i <= slots@.len(),
                records@.len() == i,
                forall|k: int| 0 <= k < i ==> #[trigger] slots@[k].spec_received() is None,
                forall|k: int|
                    0 <= k < i ==> #[trigger] records@[k] == (HyperNativeCapabilityReceiveSlot {
                        handle: 0,
                        rights: slots@[k].spec_rights(),
                        expected_kind: slots@[k].spec_kind(),
                        flags: 0,
                    }),
            decreases slots@.len() - i,
        {
            if slots[i].is_occupied() {
                return Err(Error::OccupiedReceiveSlot);
            }
            records.push(slots[i].raw_request());
            i = i + 1;
        }
        let byte_capacity = if buffer_len < MAX_MESSAGE_BYTES {
            buffer_len
        } else {
            MAX_MESSAGE_BYTES
        };
        Ok(ReceiveRequest { byte_capacity, slots: records })
    }

    /// Settles one receive: given the kernel's answer, the buffer it wrote,
    /// the slot records it returned, and the metadata queried for each
    /// reported handle, installs the validated owners into `slots` and returns
    /// the delivered bytes. Any rejected answer installs nothing. A rejected
    /// answer with a successful status still published every distinct
    /// nonzero handle of `raw`, each as one owner: those are appended to
    /// `to_close`, in order of first appearance, for the caller to close
    /// once each; a failed status published nothing.
    pub fn receive(
        &self,
        result: CallResult,
        buffer: &[u8],
        raw: &[HyperNativeCapabilityReceiveSlot],
        slots: &mut [CapabilityReceiveSlot],
        infos: &[Result<HandleInfo, Error>],
        to_close: &mut Vec<u64>,
    ) -> (r: Result<CapabilityMessage, Error>)
        requires
            old(slots)@.len() <= MAX_CAPABILITIES,
            raw@.len() == old(slots)@.len(),
            infos@.len() == old(slots)@.len(),
            forall|i: int| 0 <= i < old(slots)@.len() ==> #[trigger] old(slots)@[i].spec_received() is None,
        ensures
            final(slots)@.len() == old(slots)@.len(),
            r is Ok <==> receive_outcome(result, buffer.len(), raw@, old(slots)@, infos@) is Ok,
            r matches Err(e) ==> Err::<(u64, u64), Error>(e) == receive_outcome(
                result,
                buffer.len(),
                raw@,
                old(slots)@,
                infos@,
            ) && final(slots)@ == old(slots)@,
            r matches Ok(message) ==> {
                &&& message.spec_bytes() == buffer@.subrange(0, result.value0 as int)
                &&& message.spec_capability_count() == result.value1
                &&& forall|i: int|
                    0 <= i < old(slots)@.len() ==> #[trigger] slot_installed(
                        old(slots)@[i],
                        final(slots)@[i],
                        raw@[i],
                        i,
                        result.value1 as int,
                    )
            },
            r is Ok ==> final(to_close)@ == old(to_close)@,
            r is Err ==> final(to_close)@ == old(to_close)@ + rejected_receive_owners(result, raw@),
    {
        let settled = self.settle_receive(result, buffer, raw, slots, infos);
        if settled.is_err() {
            let mut owners = rejected_receive_owners_of(result, raw);
            to_close.append(&mut owners);
        }
        settled
    }

    fn settle_receive(
        &self,
        result: CallResult,
        buffer: &[u8],
        raw: &[HyperNativeCapabilityReceiveSlot],
        slots: &mut [CapabilityReceiveSlot],
        infos: &[Result<HandleInfo, Error>],
    ) -> (r: Result<CapabilityMessage, Error>)
        requires
            old(slots)@.len() <= MAX_CAPABILITIES,
            raw@.len() == old(slots)@.len(),
            infos@.len() == old(slots)@.len(),
            forall|i: int| 0 <= i < old(slots)@.len() ==> #[trigger] old(slots)@[i].spec_received() is None,
        ensures
            final(slots)@.len() == old(slots)@.len(),
            r is Ok <==> receive_outcome(result, buffer.len(), raw@, old(slots)@, infos@) is Ok,
            r matches Err(e) ==> Err::<(u64, u64), Error>(e) == receive_outcome(
                result,
                buffer.len(),
                raw@,
                old(slots)@,
                infos@,
            ) && final(slots)@ == old(slots)@,
            r matches Ok(message) ==> {
                &&& message.spec_bytes() == buffer@.subrange(0, result.value0 as int)
                &&& message.spec_capability_count() == result.value1
                &&& forall|i: int|
                    0 <= i < old(slots)@.len() ==> #[trigger] slot_installed(
                        old(slots)@[i],
                        final(slots)@[i],
                        raw@[i],
                        i,
                        result.value1 as int,
                    )
            },
    {
        let status = Status::from_raw(result.status);
        if status.0 != HYPER_NATIVE_STATUS_OK {
            if status.0 == HYPER_NATIVE_STATUS_BUFFER_TOO_SMALL {
                return Err(Error::MessageTooLarge { bytes: result.value0, handles: result.value1 });
            }
            return Err(Error::Status(status));
        }
        let n = slots.len();
        let mut j: usize = 0;
        while j < n
            invariant
                result.status == HYPER_NATIVE_STATUS_OK,
                slots@ == old(slots)@,
                n == raw@.len(),
                j <= n,
                forall|a: int, b: int|
                    0 <= a < b < j && raw@[b].handle != 0 ==> #[trigger] raw@[a].handle
                        != #[trigger] raw@[b].handle,
            decreases n - j,
        {
            let handle = raw[j].handle;
            if handle != 0 {
                let mut i: usize = 0;
                while i < j
                    invariant
                        result.status == HYPER_NATIVE_STATUS_OK,
                        slots@ == old(slots)@,
                        forall|a: int, b: int|
                            0 <= a < b < j && raw@[b].handle != 0 ==> #[trigger] raw@[a].handle
                                != #[trigger] raw@[b].handle,
                        handle != 0,
                        i <= j < n,
                        n == raw@.len(),
                        handle == raw@[j as int].handle,
                        forall|a: int| 0 <= a < i ==> #[trigger] raw@[a].handle != handle,
                    decreases j - i,
                {
                    if raw[i].handle == handle {
                        return Err(Error::InvalidResponse);
                    }
                    i = i + 1;
                }
            }
            j = j + 1;
        }
        let capacity = if buffer.len() < MAX_MESSAGE_BYTES {
            buffer.len()
        } else {
            MAX_MESSAGE_BYTES
        };
        if result.value0 > capacity as u64 || result.value1 > n as u64 {
            return Err(Error::InvalidResponse);
        }
        let actual_bytes = result.value0 as usize;
        let actual = result.value1 as usize;
        let mut k: usize = 0;
        while k < n
            invariant
                result.status == HYPER_NATIVE_STATUS_OK,
                slots@ == old(slots)@,
                outputs_distinct(raw@),
                result.value0 <= message_capacity(buffer.len()),
                actual == result.value1,
                n == raw@.len(),
                n == slots@.len(),
                actual <= n,
                k <= n,
                forall|a: int| 0 <= a < k ==> #[trigger] slot_answered(raw@[a], slots@[a], a, actual as int),
            decreases n - k,
        {
            let filled = k < actual;
            let record = raw[k];
            if filled != (record.handle != 0) || record.rights != slots[k].rights.bits()
                || record.expected_kind != slots[k].expected_kind.as_raw() || record.flags != 0 {
                proof {
                    assert(!slot_answered(raw@[k as int], slots@[k as int], k as int, actual as int));
                }
                return Err(Error::InvalidResponse);
            }
            k = k + 1;
        }
        let mut m: usize = 0;
        while m < actual
            invariant
                result.status == HYPER_NATIVE_STATUS_OK,
                slots@ == old(slots)@,
                outputs_distinct(raw@),
                result.value0 <= message_capacity(buffer.len()),
                actual == result.value1,
                slots_answered(raw@, slots@, actual as int),
                n == slots@.len(),
                n == infos@.len(),
                actual <= n,
                m <= actual,
                first_info_failure(infos@, slots@, m as nat) is None,
            decreases actual - m,
        {
            proof {
                lemma_first_info_failure_step(infos@, slots@, m as nat);
            }
            let requested_kind = slots[m].expected_kind.as_raw();
            let requested_rights = slots[m].rights.bits();
            match &infos[m] {
                Err(e) => {
                    proof {
                        assert(first_info_failure(infos@, slots@, (m + 1) as nat) == Some(*e));
                        lemma_first_info_failure_stable(infos@, slots@, (m + 1) as nat, actual as nat);
                    }
                    return Err(*e);
                },
                Ok(info) => {
                    if info.kind.as_raw() != requested_kind || info.rights.bits() != requested_rights {
                        proof {
                            assert(first_info_failure(infos@, slots@, (m + 1) as nat) == Some(
                                Error::InvalidResponse,
                            ));
                            lemma_first_info_failure_stable(
                                infos@,
                                slots@,
                                (m + 1) as nat,
                                actual as nat,
                            );
                        }
                        return Err(Error::InvalidResponse);
                    }
                },
            }
            m = m + 1;
        }
        let ghost before = slots@;
        let mut t: usize = 0;
        while t < n
            invariant
                n == raw@.len(),
                n == slots@.len(),
                n == before.len(),
                actual <= n,
                t <= n,
                slots_answered(raw@, before, actual as int),
                forall|a: int| t <= a < n ==> #[trigger] slots@[a] == before[a],
                forall|a: int|
                    0 <= a < t ==> #[trigger] slot_installed(
                        before[a],
                        slots@[a],
                        raw@[a],
                        a,
                        actual as int,
                    ),
            decreases n - t,
        {
            proof {
                assert(slot_answered(raw@[t as int], before[t as int], t as int, actual as int));
            }
            let expected_kind = slots[t].expected_kind;
            let rights = slots[t].rights;
            let received = if t < actual {
                Some(OwnedHandle::from_raw_owned(raw[t].handle))
            } else {
                None
            };
            slots[t] = CapabilityReceiveSlot { expected_kind, rights, received };
            t = t + 1;
        }
        let mut bytes: Vec<u8> = Vec::new();
        let mut b: usize = 0;
        while b < actual_bytes
            invariant
                actual_bytes <= buffer@.len(),
                b <= actual_bytes,
                bytes@ == buffer@.subrange(0, b as int),
            decreases actual_bytes - b,
        {
            bytes.push(buffer[b]);
            b = b + 1;
            proof {
                assert(bytes@ =~= buffer@.subrange(0, b as int));
            }
        }
        Ok(CapabilityMessage { bytes, capability_count: actual })
    }
}

} // verus!
