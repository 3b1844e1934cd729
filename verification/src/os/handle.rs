//! Linear ownership and typed borrowing of Native handles, object kinds and
//! rights.

use core::marker::PhantomData;
use vstd::prelude::*;
use crate::abi::{
    HYPER_NATIVE_CAPABILITY_DISPOSITION_SAME_RIGHTS,
    HYPER_NATIVE_OBJECT_BYTE_CHANNEL,
    HYPER_NATIVE_OBJECT_CAPABILITY_CHANNEL,
    HYPER_NATIVE_OBJECT_CONSOLE,
    HYPER_NATIVE_OBJECT_DIRECTORY,
    HYPER_NATIVE_OBJECT_EVENT,
    HYPER_NATIVE_OBJECT_EXECUTABLE_AUTHORITY,
    HYPER_NATIVE_OBJECT_FILE,
    HYPER_NATIVE_OBJECT_NONE,
    HYPER_NATIVE_OBJECT_OBJECT_INSPECTOR,
    HYPER_NATIVE_OBJECT_PROCESS,
    HYPER_NATIVE_OBJECT_PROCESS_BUILDER,
    HYPER_NATIVE_OBJECT_RESOURCE_DOMAIN,
    HYPER_NATIVE_OBJECT_TASK_FACTORY,
    HYPER_NATIVE_OBJECT_TASK_GROUP,
    HYPER_NATIVE_OBJECT_TASK_INSPECTOR,
    HYPER_NATIVE_OBJECT_THREAD,
    HYPER_NATIVE_OBJECT_VMAR,
    HYPER_NATIVE_OBJECT_VMO,
    HYPER_NATIVE_RIGHTS_MASK,
    HYPER_NATIVE_STATUS_OK,
    HyperNativeHandleInfo,
};
use crate::os::error::Error;
use crate::os::status::{CallResult, Status};

verus! {

// ---------------------------------------------------------------------------
// Object kinds.

/// One Native object-kind value reported by the kernel.
#[derive(Clone, Copy, Debug, Eq, PartialEq, Structural)]
pub struct ObjectKind(u32);

impl View for ObjectKind {
    type V = u32;

    closed spec fn view(&self) -> u32 {
        self.0
    }
}

/// The stable Native name of an object-kind value.
pub open spec fn object_kind_name(raw: u32) -> Seq<char> {
    if raw == HYPER_NATIVE_OBJECT_EVENT {
        "event"@
    } else if raw == HYPER_NATIVE_OBJECT_BYTE_CHANNEL {
        "byte-channel"@
    } else if raw == HYPER_NATIVE_OBJECT_THREAD {
        "thread"@
    } else if raw == HYPER_NATIVE_OBJECT_PROCESS {
        "process"@
    } else if raw == HYPER_NATIVE_OBJECT_TASK_GROUP {
        "task-group"@
    } else if raw == HYPER_NATIVE_OBJECT_RESOURCE_DOMAIN {
        "resource-domain"@
    } else if raw == HYPER_NATIVE_OBJECT_TASK_FACTORY {
        "task-factory"@
    } else if raw == HYPER_NATIVE_OBJECT_EXECUTABLE_AUTHORITY {
        "executable-authority"@
    } else if raw == HYPER_NATIVE_OBJECT_VMO {
        "vmo"@
    } else if raw == HYPER_NATIVE_OBJECT_VMAR {
        "vmar"@
    } else if raw == HYPER_NATIVE_OBJECT_CONSOLE {
        "console"@
    } else if raw == HYPER_NATIVE_OBJECT_CAPABILITY_CHANNEL {
        "capability-channel"@
    } else if raw == HYPER_NATIVE_OBJECT_PROCESS_BUILDER {
        "process-builder"@
    } else if raw == HYPER_NATIVE_OBJECT_TASK_INSPECTOR {
        "task-inspector"@
    } else if raw == HYPER_NATIVE_OBJECT_OBJECT_INSPECTOR {
        "object-inspector"@
    } else {
        "unknown"@
    }
}

/// The role carried by an object-kind value.
pub open spec fn object_kind_purpose(raw: u32) -> Seq<char> {
    if raw == HYPER_NATIVE_OBJECT_EVENT {
        "notification"@
    } else if raw == HYPER_NATIVE_OBJECT_BYTE_CHANNEL {
        "byte channel endpoint"@
    } else if raw == HYPER_NATIVE_OBJECT_THREAD {
        "thread control"@
    } else if raw == HYPER_NATIVE_OBJECT_PROCESS {
        "process supervision"@
    } else if raw == HYPER_NATIVE_OBJECT_TASK_GROUP {
        "lifecycle group"@
    } else if raw == HYPER_NATIVE_OBJECT_RESOURCE_DOMAIN {
        "resource accounting"@
    } else if raw == HYPER_NATIVE_OBJECT_TASK_FACTORY {
        "process creation"@
    } else if raw == HYPER_NATIVE_OBJECT_EXECUTABLE_AUTHORITY {
        "executable mapping"@
    } else if raw == HYPER_NATIVE_OBJECT_VMO {
        "memory object"@
    } else if raw == HYPER_NATIVE_OBJECT_VMAR {
        "address-space region"@
    } else if raw == HYPER_NATIVE_OBJECT_CONSOLE {
        "system console"@
    } else if raw == HYPER_NATIVE_OBJECT_CAPABILITY_CHANNEL {
        "capability rendezvous"@
    } else if raw == HYPER_NATIVE_OBJECT_PROCESS_BUILDER {
        "staged process construction"@
    } else if raw == HYPER_NATIVE_OBJECT_TASK_INSPECTOR {
        "task observation"@
    } else if raw == HYPER_NATIVE_OBJECT_OBJECT_INSPECTOR {
        "object observation"@
    } else {
        "unrecognized object"@
    }
}

impl ObjectKind {
    pub fn from_trusted_raw(raw: u32) -> (k: ObjectKind)
        ensures
            k@ == raw,
    {
        ObjectKind(raw)
    }

    /// Accepts every kernel-reported kind except the reserved `none` kind.
    pub fn from_kernel(raw: u32) -> (r: Result<ObjectKind, Error>)
        ensures
            r is Err <==> raw == HYPER_NATIVE_OBJECT_NONE,
            r matches Ok(k) ==> k@ == raw,
            r matches Err(e) ==> e == Error::InvalidResponse,
    {
        if raw == HYPER_NATIVE_OBJECT_NONE {
            Err(Error::InvalidResponse)
        } else {
            Ok(ObjectKind(raw))
        }
    }

    pub fn as_raw(self) -> (r: u32)
        ensures
            r == self@,
    {
        self.0
    }

    /// Returns the stable Native name of this object kind.
    pub fn name(self) -> (r: &'static str)
        ensures
            r@ == object_kind_name(self@),
    {
        let raw = self.0;
        if raw == HYPER_NATIVE_OBJECT_EVENT {
            "event"
        } else if raw == HYPER_NATIVE_OBJECT_BYTE_CHANNEL {
            "byte-channel"
        } else if raw == HYPER_NATIVE_OBJECT_THREAD {
            "thread"
        } else if raw == HYPER_NATIVE_OBJECT_PROCESS {
            "process"
        } else if raw == HYPER_NATIVE_OBJECT_TASK_GROUP {
            "task-group"
        } else if raw == HYPER_NATIVE_OBJECT_RESOURCE_DOMAIN {
            "resource-domain"
        } else if raw == HYPER_NATIVE_OBJECT_TASK_FACTORY {
            "task-factory"
        } else if raw == HYPER_NATIVE_OBJECT_EXECUTABLE_AUTHORITY {
            "executable-authority"
        } else if raw == HYPER_NATIVE_OBJECT_VMO {
            "vmo"
        } else if raw == HYPER_NATIVE_OBJECT_VMAR {
            "vmar"
        } else if raw == HYPER_NATIVE_OBJECT_CONSOLE {
            "console"
        } else if raw == HYPER_NATIVE_OBJECT_CAPABILITY_CHANNEL {
            "capability-channel"
        } else if raw == HYPER_NATIVE_OBJECT_PROCESS_BUILDER {
            "process-builder"
        } else if raw == HYPER_NATIVE_OBJECT_TASK_INSPECTOR {
            "task-inspector"
        } else if raw == HYPER_NATIVE_OBJECT_OBJECT_INSPECTOR {
            "object-inspector"
        } else {
            "unknown"
        }
    }

    /// Summarizes the role carried by this object kind.
    pub fn purpose(self) -> (r: &'static str)
        ensures
            r@ == object_kind_purpose(self@),
    {
        let raw = self.0;
        if raw == HYPER_NATIVE_OBJECT_EVENT {
            "notification"
        } else if raw == HYPER_NATIVE_OBJECT_BYTE_CHANNEL {
            "byte channel endpoint"
        } else if raw == HYPER_NATIVE_OBJECT_THREAD {
            "thread control"
        } else if raw == HYPER_NATIVE_OBJECT_PROCESS {
            "process supervision"
        } else if raw == HYPER_NATIVE_OBJECT_TASK_GROUP {
            "lifecycle group"
        } else if raw == HYPER_NATIVE_OBJECT_RESOURCE_DOMAIN {
            "resource accounting"
        } else if raw == HYPER_NATIVE_OBJECT_TASK_FACTORY {
            "process creation"
        } else if raw == HYPER_NATIVE_OBJECT_EXECUTABLE_AUTHORITY {
            "executable mapping"
        } else if raw == HYPER_NATIVE_OBJECT_VMO {
            "memory object"
        } else if raw == HYPER_NATIVE_OBJECT_VMAR {
            "address-space region"
        } else if raw == HYPER_NATIVE_OBJECT_CONSOLE {
            "system console"
        } else if raw == HYPER_NATIVE_OBJECT_CAPABILITY_CHANNEL {
            "capability rendezvous"
        } else if raw == HYPER_NATIVE_OBJECT_PROCESS_BUILDER {
            "staged process construction"
        } else if raw == HYPER_NATIVE_OBJECT_TASK_INSPECTOR {
            "task observation"
        } else if raw == HYPER_NATIVE_OBJECT_OBJECT_INSPECTOR {
            "object observation"
        } else {
            "unrecognized object"
        }
    }
}

// ---------------------------------------------------------------------------
// Object-type markers.

/// Marker implemented by the closed set of Native kernel-object types.
pub trait ObjectType {}

/// Marker for an object type with one exact Native ABI kind.
pub trait TypedObject: ObjectType {
    /// The object-kind value of this marker.
    spec fn kind_value() -> u32;

    fn kind() -> (k: ObjectKind)
        ensures
            k@ == Self::kind_value(),
    ;
}

/// Type-erased Native kernel object.
pub struct AnyObject(());

impl ObjectType for AnyObject {}

pub struct EventObject(());

impl ObjectType for EventObject {}

impl TypedObject for EventObject {
    open spec fn kind_value() -> u32 {
        HYPER_NATIVE_OBJECT_EVENT
    }

    fn kind() -> (k: ObjectKind) {
        ObjectKind(HYPER_NATIVE_OBJECT_EVENT)
    }
}

pub struct ByteChannelObject(());

impl ObjectType for ByteChannelObject {}

impl TypedObject for ByteChannelObject {
    open spec fn kind_value() -> u32 {
        HYPER_NATIVE_OBJECT_BYTE_CHANNEL
    }

    fn kind() -> (k: ObjectKind) {
        ObjectKind(HYPER_NATIVE_OBJECT_BYTE_CHANNEL)
    }
}

pub struct ThreadObject(());

impl ObjectType for ThreadObject {}

impl TypedObject for ThreadObject {
    open spec fn kind_value() -> u32 {
        HYPER_NATIVE_OBJECT_THREAD
    }

    fn kind() -> (k: ObjectKind) {
        ObjectKind(HYPER_NATIVE_OBJECT_THREAD)
    }
}

pub struct ProcessObject(());

impl ObjectType for ProcessObject {}

impl TypedObject for ProcessObject {
    open spec fn kind_value() -> u32 {
        HYPER_NATIVE_OBJECT_PROCESS
    }

    fn kind() -> (k: ObjectKind) {
        ObjectKind(HYPER_NATIVE_OBJECT_PROCESS)
    }
}

pub struct TaskGroupObject(());

impl ObjectType for TaskGroupObject {}

impl TypedObject for TaskGroupObject {
    open spec fn kind_value() -> u32 {
        HYPER_NATIVE_OBJECT_TASK_GROUP
    }

    fn kind() -> (k: ObjectKind) {
        ObjectKind(HYPER_NATIVE_OBJECT_TASK_GROUP)
    }
}

pub struct ResourceDomainObject(());

impl ObjectType for ResourceDomainObject {}

impl TypedObject for ResourceDomainObject {
    open spec fn kind_value() -> u32 {
        HYPER_NATIVE_OBJECT_RESOURCE_DOMAIN
    }

    fn kind() -> (k: ObjectKind) {
        ObjectKind(HYPER_NATIVE_OBJECT_RESOURCE_DOMAIN)
    }
}

pub struct TaskFactoryObject(());

impl ObjectType for TaskFactoryObject {}

impl TypedObject for TaskFactoryObject {
    open spec fn kind_value() -> u32 {
        HYPER_NATIVE_OBJECT_TASK_FACTORY
    }

    fn kind() -> (k: ObjectKind) {
        ObjectKind(HYPER_NATIVE_OBJECT_TASK_FACTORY)
    }
}

pub struct ExecutableAuthorityObject(());

impl ObjectType for ExecutableAuthorityObject {}

impl TypedObject for ExecutableAuthorityObject {
    open spec fn kind_value() -> u32 {
        HYPER_NATIVE_OBJECT_EXECUTABLE_AUTHORITY
    }

    fn kind() -> (k: ObjectKind) {
        ObjectKind(HYPER_NATIVE_OBJECT_EXECUTABLE_AUTHORITY)
    }
}

pub struct VmoObject(());

impl ObjectType for VmoObject {}

impl TypedObject for VmoObject {
    open spec fn kind_value() -> u32 {
        HYPER_NATIVE_OBJECT_VMO
    }

    fn kind() -> (k: ObjectKind) {
        ObjectKind(HYPER_NATIVE_OBJECT_VMO)
    }
}

pub struct VmarObject(());

impl ObjectType for VmarObject {}

impl TypedObject for VmarObject {
    open spec fn kind_value() -> u32 {
        HYPER_NATIVE_OBJECT_VMAR
    }

    fn kind() -> (k: ObjectKind) {
        ObjectKind(HYPER_NATIVE_OBJECT_VMAR)
    }
}

pub struct ConsoleObject(());

impl ObjectType for ConsoleObject {}

impl TypedObject for ConsoleObject {
    open spec fn kind_value() -> u32 {
        HYPER_NATIVE_OBJECT_CONSOLE
    }

    fn kind() -> (k: ObjectKind) {
        ObjectKind(HYPER_NATIVE_OBJECT_CONSOLE)
    }
}

pub struct CapabilityChannelObject(());

impl ObjectType for CapabilityChannelObject {}

impl TypedObject for CapabilityChannelObject {
    open spec fn kind_value() -> u32 {
        HYPER_NATIVE_OBJECT_CAPABILITY_CHANNEL
    }

    fn kind() -> (k: ObjectKind) {
        ObjectKind(HYPER_NATIVE_OBJECT_CAPABILITY_CHANNEL)
    }
}

pub struct ProcessBuilderObject(());

impl ObjectType for ProcessBuilderObject {}

impl TypedObject for ProcessBuilderObject {
    open spec fn kind_value() -> u32 {
        HYPER_NATIVE_OBJECT_PROCESS_BUILDER
    }

    fn kind() -> (k: ObjectKind) {
        ObjectKind(HYPER_NATIVE_OBJECT_PROCESS_BUILDER)
    }
}

pub struct TaskInspectorObject(());

impl ObjectType for TaskInspectorObject {}

impl TypedObject for TaskInspectorObject {
    open spec fn kind_value() -> u32 {
        HYPER_NATIVE_OBJECT_TASK_INSPECTOR
    }

    fn kind() -> (k: ObjectKind) {
        ObjectKind(HYPER_NATIVE_OBJECT_TASK_INSPECTOR)
    }
}

pub struct ObjectInspectorObject(());

impl ObjectType for ObjectInspectorObject {}

impl TypedObject for ObjectInspectorObject {
    open spec fn kind_value() -> u32 {
        HYPER_NATIVE_OBJECT_OBJECT_INSPECTOR
    }

    fn kind() -> (k: ObjectKind) {
        ObjectKind(HYPER_NATIVE_OBJECT_OBJECT_INSPECTOR)
    }
}


/// The immutable process-startup boot namespace. The ABI schema assigns it no
/// object kind, so it has no exact-kind marker.
pub struct BootFsObject(());

impl ObjectType for BootFsObject {}

/// One immutable file of the boot namespace; like its namespace, it has no
/// object kind in the ABI schema.
pub struct BootFileObject(());

impl ObjectType for BootFileObject {}

/// A guest control mailbox; the ABI schema assigns it no object kind.
pub struct GuestMailboxObject(());

impl ObjectType for GuestMailboxObject {}

/// A cross-VM queue notification; the ABI schema assigns it no object kind.
pub struct GuestNotificationObject(());

impl ObjectType for GuestNotificationObject {}

/// A native filesystem block initiator; the ABI schema assigns it no object
/// kind.
pub struct NativeBlockObject(());

impl ObjectType for NativeBlockObject {}

pub struct DirectoryObject(());

impl ObjectType for DirectoryObject {}

impl TypedObject for DirectoryObject {
    open spec fn kind_value() -> u32 {
        HYPER_NATIVE_OBJECT_DIRECTORY
    }

    fn kind() -> (k: ObjectKind) {
        ObjectKind(HYPER_NATIVE_OBJECT_DIRECTORY)
    }
}

pub struct FileObject(());

impl ObjectType for FileObject {}

impl TypedObject for FileObject {
    open spec fn kind_value() -> u32 {
        HYPER_NATIVE_OBJECT_FILE
    }

    fn kind() -> (k: ObjectKind) {
        ObjectKind(HYPER_NATIVE_OBJECT_FILE)
    }
}

// ---------------------------------------------------------------------------
// Rights.

/// Monotonically attenuated rights carried by one Native handle.
#[derive(Clone, Copy, Debug, Eq, PartialEq, Structural)]
pub struct Rights(u64);

impl View for Rights {
    type V = u64;

    closed spec fn view(&self) -> u64 {
        self.0
    }
}

/// Every bit of `required` is set in `bits`.
pub open spec fn bits_contain(bits: u64, required: u64) -> bool {
    bits & required == required
}

/// Number of rights with a stable name; right `i` is bit `1 << i`.
pub const NAMED_RIGHTS: usize = 29;

/// The stable lower-case name of right `i`, the right whose bit is `1 << i`.
pub open spec fn right_name(i: int) -> Seq<char> {
    if i == 0 {
        "duplicate"@
    } else if i == 1 {
        "transfer"@
    } else if i == 2 {
        "wait"@
    } else if i == 3 {
        "inspect"@
    } else if i == 4 {
        "read"@
    } else if i == 5 {
        "write"@
    } else if i == 6 {
        "map"@
    } else if i == 7 {
        "execute"@
    } else if i == 8 {
        "resize"@
    } else if i == 9 {
        "pin"@
    } else if i == 10 {
        "start"@
    } else if i == 11 {
        "request-stop"@
    } else if i == 12 {
        "run-vcpu"@
    } else if i == 13 {
        "inject-interrupt"@
    } else if i == 14 {
        "grant-memory"@
    } else if i == 15 {
        "assign-device"@
    } else if i == 16 {
        "map-dma"@
    } else if i == 17 {
        "ack-interrupt"@
    } else if i == 18 {
        "revoke"@
    } else if i == 19 {
        "signal"@
    } else if i == 20 {
        "create-process"@
    } else if i == 21 {
        "create-thread"@
    } else if i == 22 {
        "create-task-group"@
    } else if i == 23 {
        "create-resource-domain"@
    } else if i == 24 {
        "set-limits"@
    } else if i == 25 {
        "create-executable"@
    } else if i == 26 {
        "attach-process"@
    } else if i == 27 {
        "sponsor-domain"@
    } else {
        "derive"@
    }
}

fn right_name_text(i: usize) -> (r: &'static str)
    requires
        i < 29,
    ensures
        r@ == right_name(i as int),
{
    if i == 0 {
        "duplicate"
    } else if i == 1 {
        "transfer"
    } else if i == 2 {
        "wait"
    } else if i == 3 {
        "inspect"
    } else if i == 4 {
        "read"
    } else if i == 5 {
        "write"
    } else if i == 6 {
        "map"
    } else if i == 7 {
        "execute"
    } else if i == 8 {
        "resize"
    } else if i == 9 {
        "pin"
    } else if i == 10 {
        "start"
    } else if i == 11 {
        "request-stop"
    } else if i == 12 {
        "run-vcpu"
    } else if i == 13 {
        "inject-interrupt"
    } else if i == 14 {
        "grant-memory"
    } else if i == 15 {
        "assign-device"
    } else if i == 16 {
        "map-dma"
    } else if i == 17 {
        "ack-interrupt"
    } else if i == 18 {
        "revoke"
    } else if i == 19 {
        "signal"
    } else if i == 20 {
        "create-process"
    } else if i == 21 {
        "create-thread"
    } else if i == 22 {
        "create-task-group"
    } else if i == 23 {
        "create-resource-domain"
    } else if i == 24 {
        "set-limits"
    } else if i == 25 {
        "create-executable"
    } else if i == 26 {
        "attach-process"
    } else if i == 27 {
        "sponsor-domain"
    } else {
        "derive"
    }
}

impl Rights {
    #[verifier::type_invariant]
    spec fn declared(self) -> bool {
        self.0 & !HYPER_NATIVE_RIGHTS_MASK == 0
    }

    /// Accepts exactly the bit sets within the ABI's declared rights.
    pub fn from_bits(bits: u64) -> (r: Option<Rights>)
        ensures
            r is Some <==> bits & !HYPER_NATIVE_RIGHTS_MASK == 0,
            r matches Some(rights) ==> rights@ == bits,
    {
        if bits & !HYPER_NATIVE_RIGHTS_MASK == 0 {
            Some(Rights(bits))
        } else {
            None
        }
    }

    /// The rights bits; every right set lies within the declared rights, so
    /// `from_bits` gives the same set back.
    pub fn bits(self) -> (r: u64)
        ensures
            r == self@,
            r & !HYPER_NATIVE_RIGHTS_MASK == 0,
    {
        proof {
            use_type_invariant(&self);
        }
        self.0
    }

    pub fn union(self, other: Rights) -> (r: Rights)
        ensures
            r@ == self@ | other@,
    {
        proof {
            use_type_invariant(&self);
            use_type_invariant(&other);
            let (x, y) = (self.0, other.0);
            assert((x & !0x7fffffffu64 == 0 && y & !0x7fffffffu64 == 0) ==> (x | y) & !0x7fffffffu64
                == 0) by (bit_vector);
        }
        Rights(self.0 | other.0)
    }

    pub fn contains(self, required: Rights) -> (r: bool)
        ensures
            r == bits_contain(self@, required@),
    {
        self.0 & required.0 == required.0
    }

    /// Enumerates the stable lower-case names of every right in this set.
    pub fn names(self) -> (r: RightNames)
        ensures
            r.spec_rights() == self,
            r.position() == 0,
    {
        RightNames { rights: self, next: 0 }
    }
}

/// The first named right at or after `from` that `bits` carries, or
/// `NAMED_RIGHTS` when there is none.
pub open spec fn next_named_right(bits: u64, from: int) -> int
    decreases NAMED_RIGHTS - from,
{
    if from >= NAMED_RIGHTS {
        NAMED_RIGHTS as int
    } else if bits_contain(bits, (1u64 << (from as u64))) {
        from
    } else {
        next_named_right(bits, from + 1)
    }
}

proof fn lemma_next_named_right_bounds(bits: u64, from: int)
    requires
        0 <= from,
    ensures
        from <= next_named_right(bits, from) || from > NAMED_RIGHTS,
        next_named_right(bits, from) <= NAMED_RIGHTS,
        next_named_right(bits, from) < NAMED_RIGHTS ==> bits_contain(
            bits,
            (1u64 << (next_named_right(bits, from) as u64)),
        ),
        forall|j: int|
            from <= j < next_named_right(bits, from) ==> !bits_contain(bits, #[trigger] (1u64 << (j as u64))),
    decreases NAMED_RIGHTS - from,
{
    if from < NAMED_RIGHTS && !bits_contain(bits, (1u64 << (from as u64))) {
        lemma_next_named_right_bounds(bits, from + 1);
    }
}

/// Cursor over the stable names of the rights in one [`Rights`] set, in
/// bit order.
pub struct RightNames {
    rights: Rights,
    next: usize,
}

impl RightNames {
    #[verifier::type_invariant]
    spec fn within_table(self) -> bool {
        self.next <= NAMED_RIGHTS
    }

    /// The rights set whose names are enumerated.
    pub closed spec fn spec_rights(self) -> Rights {
        self.rights
    }

    /// The table position from which the next name is searched.
    pub closed spec fn position(self) -> int {
        self.next as int
    }

    /// The next name, advancing past every right examined.
    pub fn next(&mut self) -> (r: Option<&'static str>)
        ensures
            final(self).spec_rights() == old(self).spec_rights(),
            0 <= old(self).position() <= NAMED_RIGHTS,
            ({
                let j = next_named_right(old(self).spec_rights()@, old(self).position());
                if j < NAMED_RIGHTS {
                    &&& r matches Some(name) && name@ == right_name(j)
                    &&& final(self).position() == j + 1
                } else {
                    &&& r is None
                    &&& final(self).position() == NAMED_RIGHTS
                }
            }),
    {
        proof {
            use_type_invariant(&*self);
            lemma_next_named_right_bounds(self.rights@, self.next as int);
        }
        let ghost start = self.next as int;
        while self.next < NAMED_RIGHTS
            invariant
                self.rights == old(self).rights,
                start == old(self).next,
                start <= self.next <= NAMED_RIGHTS,
                next_named_right(self.rights@, start) == next_named_right(
                    self.rights@,
                    self.next as int,
                ),
            decreases NAMED_RIGHTS - self.next,
        {
            let index = self.next;
            let bit: u64 = 1u64 << (index as u64);
            self.next = self.next + 1;
            if self.rights.0 & bit == bit {
                return Some(right_name_text(index));
            }
        }
        None
    }
}

/// The names of a rights set are enumerated in table order: from any
/// position, the next name given is that of the first contained right at or
/// after it, and every right skipped on the way is absent from the set.
pub proof fn next_named_right_is_first_contained(bits: u64, from: int)
    requires
        0 <= from <= NAMED_RIGHTS,
    ensures
        from <= next_named_right(bits, from) <= NAMED_RIGHTS,
        next_named_right(bits, from) < NAMED_RIGHTS ==> bits_contain(
            bits,
            1u64 << (next_named_right(bits, from) as u64),
        ),
        forall|k: int|
            from <= k < next_named_right(bits, from) ==> !#[trigger] bits_contain(
                bits,
                1u64 << (k as u64),
            ),
    decreases NAMED_RIGHTS - from,
{
    if from < NAMED_RIGHTS && !bits_contain(bits, 1u64 << (from as u64)) {
        next_named_right_is_first_contained(bits, from + 1);
    }
}

/// Union of rights is commutative, associative and idempotent.
pub proof fn rights_union_laws(a: Rights, b: Rights, c: Rights)
    ensures
        a@ | b@ == b@ | a@,
        (a@ | b@) | c@ == a@ | (b@ | c@),
        a@ | a@ == a@,
{
    let (x, y, z) = (a@, b@, c@);
    assert(x | y == y | x) by (bit_vector);
    assert((x | y) | z == x | (y | z)) by (bit_vector);
    assert(x | x == x) by (bit_vector);
}

/// Containment is reflexive and transitive, a union contains both of its
/// operands, and a set containing two sets contains their union.
pub proof fn rights_containment_laws(a: Rights, b: Rights, c: Rights)
    ensures
        bits_contain(a@, a@),
        bits_contain(a@, b@) && bits_contain(b@, c@) ==> bits_contain(a@, c@),
        bits_contain(a@ | b@, a@) && bits_contain(a@ | b@, b@),
        bits_contain(c@, a@) && bits_contain(c@, b@) ==> bits_contain(c@, a@ | b@),
{
    let (x, y, z) = (a@, b@, c@);
    assert(x & x == x) by (bit_vector);
    assert((x & y == y && y & z == z) ==> x & z == z) by (bit_vector);
    assert((x | y) & x == x && (x | y) & y == y) by (bit_vector);
    assert((z & x == x && z & y == y) ==> z & (x | y) == (x | y)) by (bit_vector);
}

/// The rights ceiling offered when delegating one capability.
#[derive(Clone, Copy, Debug, Eq, PartialEq, Structural)]
pub enum RightsOffer {
    /// Offer every right currently carried by the source handle.
    SameRights,
    /// Offer exactly this rights ceiling.
    Exact(Rights),
}

impl RightsOffer {
    /// The ABI encoding: the same-rights sentinel, or the exact rights bits.
    pub fn raw(self) -> (r: u64)
        ensures
            r == match self {
                RightsOffer::SameRights => HYPER_NATIVE_CAPABILITY_DISPOSITION_SAME_RIGHTS,
                RightsOffer::Exact(rights) => rights@,
            },
    {
        match self {
            RightsOffer::SameRights => HYPER_NATIVE_CAPABILITY_DISPOSITION_SAME_RIGHTS,
            RightsOffer::Exact(rights) => rights.bits(),
        }
    }
}

/// A produced handle is adopted when it is nonzero and aliases none of the
/// handles that stay live across the producing call.
pub open spec fn produced_handle_valid(raw: u64, excluded: Seq<u64>) -> bool {
    raw != 0 && !excluded.contains(raw)
}

/// Adopts the handle a successful call produced, rejecting zero and any alias
/// of a handle that stays live across that call.
pub fn adopt_produced_handle_excluding<T: ObjectType>(raw: u64, excluded: &[u64]) -> (r: Result<
    OwnedHandle<T>,
    Error,
>)
    ensures
        r is Ok <==> produced_handle_valid(raw, excluded@),
        r matches Ok(h) ==> h@ == raw,
        r matches Err(e) ==> e == Error::InvalidResponse,
{
    if raw == 0 {
        return Err(Error::InvalidResponse);
    }
    let mut i: usize = 0;
    while i < excluded.len()
        invariant
            i <= excluded@.len(),
            forall|k: int| 0 <= k < i ==> #[trigger] excluded@[k] != raw,
        decreases excluded@.len() - i,
    {
        if excluded[i] == raw {
            proof {
                assert(excluded@.contains(raw));
            }
            return Err(Error::InvalidResponse);
        }
        i = i + 1;
    }
    Ok(OwnedHandle { raw, _type: PhantomData })
}

/// Whether `w` occurs among the first `n` values.
pub open spec fn occurs_before(values: Seq<u64>, n: int, w: u64) -> bool {
    exists|k: int| 0 <= k < n && #[trigger] values[k] == w
}

proof fn lemma_occurs_before_step(values: Seq<u64>, n: int, w: u64)
    requires
        0 <= n < values.len(),
    ensures
        occurs_before(values, n + 1, w) <==> (occurs_before(values, n, w) || values[n] == w),
{
    if occurs_before(values, n + 1, w) && values[n] != w {
        let k = choose|k: int| 0 <= k < n + 1 && #[trigger] values[k] == w;
        assert(k < n);
    }
}

proof fn lemma_push_contains(s: Seq<u64>, a: u64, b: u64)
    ensures
        s.push(a).contains(b) <==> (s.contains(b) || a == b),
{
    if s.contains(b) {
        let k = choose|k: int| 0 <= k < s.len() && s[k] == b;
        assert(s.push(a)[k] == b);
    }
    if a == b {
        assert(s.push(a)[s.len() as int] == b);
    }
    if s.push(a).contains(b) {
        let k = choose|k: int| 0 <= k < s.push(a).len() && s.push(a)[k] == b;
        if k < s.len() {
            assert(s[k] == b);
        }
    }
}

/// The distinct nonzero values among the first `n` values, each at the
/// place where it first appears.
pub open spec fn first_appearances(values: Seq<u64>, n: int) -> Seq<u64>
    decreases n,
{
    if n <= 0 {
        Seq::empty()
    } else {
        let rest = first_appearances(values, n - 1);
        let v = values[n - 1];
        if v == 0 || occurs_before(values, n - 1, v) {
            rest
        } else {
            rest.push(v)
        }
    }
}

/// The distinct nonzero values among `values`, in order of first appearance:
/// the owners a malformed successful answer published, each to be closed
/// once.
pub fn distinct_nonzero(values: &[u64]) -> (r: Vec<u64>)
    ensures
        r@ == first_appearances(values@, values@.len() as int),
        forall|i: int| 0 <= i < r@.len() ==> #[trigger] r@[i] != 0,
        forall|i: int, j: int| 0 <= i < j < r@.len() ==> #[trigger] r@[i] != #[trigger] r@[j],
        forall|v: u64| #[trigger] r@.contains(v) <==> (v != 0 && values@.contains(v)),
{
    let mut out: Vec<u64> = Vec::new();
    let mut i: usize = 0;
    while i < values.len()
        invariant
            i <= values@.len(),
            forall|a: int| 0 <= a < out@.len() ==> #[trigger] out@[a] != 0,
            forall|a: int, b: int| 0 <= a < b < out@.len() ==> #[trigger] out@[a] != #[trigger] out@[b],
            forall|w: u64| #[trigger] out@.contains(w) <==> (w != 0 && occurs_before(values@, i as int, w)),
            out@ == first_appearances(values@, i as int),
        decreases values@.len() - i,
    {
        let v = values[i];
        let mut seen = false;
        let mut j: usize = 0;
        while j < out.len()
            invariant
                j <= out@.len(),
                seen <==> exists|a: int| 0 <= a < j && #[trigger] out@[a] == v,
            decreases out@.len() - j,
        {
            if out[j] == v {
                seen = true;
            }
            j = j + 1;
        }
        let ghost before = out@;
        proof {
            if seen {
                let a = choose|a: int| 0 <= a < j && #[trigger] out@[a] == v;
                assert(out@.contains(v));
            } else {
                assert(!out@.contains(v));
            }
        }
        if v != 0 && !seen {
            out.push(v);
        }
        proof {
            assert forall|w: u64| #[trigger] out@.contains(w) <==> (w != 0 && occurs_before(
                values@,
                i as int + 1,
                w,
            )) by {
                lemma_occurs_before_step(values@, i as int, w);
                if v != 0 && !seen {
                    lemma_push_contains(before, v, w);
                } else if w == v && w != 0 {
                    let a = choose|a: int| 0 <= a < before.len() && #[trigger] before[a] == v;
                    assert(before.contains(w));
                }
            }
            if v != 0 && !seen {
                assert forall|a: int| 0 <= a < before.len() implies #[trigger] before[a] != v by {}
            }
        }
        i = i + 1;
    }
    proof {
        assert forall|w: u64| #[trigger] out@.contains(w) <==> (w != 0 && values@.contains(w)) by {
            if values@.contains(w) {
                let k = choose|k: int| 0 <= k < values@.len() && values@[k] == w;
                assert(occurs_before(values@, values@.len() as int, w));
            }
            if occurs_before(values@, values@.len() as int, w) {
                let k = choose|k: int| 0 <= k < values@.len() && #[trigger] values@[k] == w;
                assert(values@.contains(w));
            }
        }
    }
    out
}

/// Kernel-authored metadata for one process-local handle.
#[derive(Clone, Copy, Debug, Eq, PartialEq, Structural)]
pub struct HandleInfo {
    pub kind: ObjectKind,
    pub rights: Rights,
    pub flags: u32,
}

/// A successful handle-info query reports a declared kind other than `none`
/// and rights within the ABI mask.
pub open spec fn handle_info_valid(status: Status, record: HyperNativeHandleInfo) -> bool {
    &&& status.0 == HYPER_NATIVE_STATUS_OK
    &&& record.object_kind != HYPER_NATIVE_OBJECT_NONE
    &&& record.rights & !HYPER_NATIVE_RIGHTS_MASK == 0
}

/// Decodes the kernel's answer to one handle-info query.
pub fn decode_handle_info(status: Status, record: HyperNativeHandleInfo) -> (r: Result<
    HandleInfo,
    Error,
>)
    ensures
        r is Ok <==> handle_info_valid(status, record),
        r matches Ok(info) ==> info.kind@ == record.object_kind && info.rights@ == record.rights
            && info.flags == record.flags,
        r matches Err(e) ==> if status.0 != HYPER_NATIVE_STATUS_OK {
            e == Error::Status(status)
        } else {
            e == Error::InvalidResponse
        },
{
    let checked = status.into_result();
    if let Err(e) = checked {
        return Err(e);
    }
    if record.object_kind == HYPER_NATIVE_OBJECT_NONE {
        return Err(Error::InvalidResponse);
    }
    let rights = match Rights::from_bits(record.rights) {
        Some(rights) => rights,
        None => {
            return Err(Error::InvalidResponse);
        },
    };
    let kind = match ObjectKind::from_kernel(record.object_kind) {
        Ok(kind) => kind,
        Err(e) => {
            return Err(e);
        },
    };
    Ok(HandleInfo { kind, rights, flags: record.flags })
}


// ---------------------------------------------------------------------------
// Owners and borrows.

/// Exclusive userspace ownership of one process-local Native handle.
///
/// This type is deliberately neither `Copy` nor `Clone`; another owner comes
/// only from a kernel duplication.
pub struct OwnedHandle<T: ObjectType> {
    raw: u64,
    _type: PhantomData<T>,
}

impl<T: ObjectType> View for OwnedHandle<T> {
    type V = u64;

    closed spec fn view(&self) -> u64 {
        self.raw
    }
}

impl<T: ObjectType> OwnedHandle<T> {
    #[verifier::type_invariant]
    spec fn is_live(self) -> bool {
        self.raw != 0
    }

    /// Assumes exclusive ownership of one live, nonzero raw process handle.
    pub fn from_raw_owned(raw: u64) -> (h: OwnedHandle<T>)
        requires
            raw != 0,
        ensures
            h@ == raw,
    {
        OwnedHandle { raw, _type: PhantomData }
    }

    /// Borrows this handle without acquiring another kernel capability.
    pub fn as_handle_ref(&self) -> (r: HandleRef<'_, T>)
        ensures
            r@ == self@,
    {
        proof {
            use_type_invariant(self);
        }
        HandleRef { raw: self.raw, _owner: PhantomData }
    }

    /// Relinquishes ownership without closing the process handle.
    pub fn into_raw(self) -> (r: u64)
        ensures
            r == self@,
            r != 0,
    {
        proof {
            use_type_invariant(&self);
        }
        self.raw
    }

    /// Erases only the compile-time object kind; ownership is unchanged.
    pub fn erase(self) -> (r: OwnedHandle<AnyObject>)
        ensures
            r@ == self@,
    {
        proof {
            use_type_invariant(&self);
        }
        OwnedHandle { raw: self.raw, _type: PhantomData }
    }

    /// Metadata of this handle, from the kernel's answer to the handle-info
    /// query; no authority is acquired or consumed.
    pub fn info(&self, status: Status, record: HyperNativeHandleInfo) -> (r: Result<
        HandleInfo,
        Error,
    >)
        ensures
            r is Ok <==> handle_info_valid(status, record),
            r matches Ok(info) ==> info.kind@ == record.object_kind && info.rights@ == record.rights
                && info.flags == record.flags,
            r matches Err(e) ==> if status.0 != HYPER_NATIVE_STATUS_OK {
                e == Error::Status(status)
            } else {
                e == Error::InvalidResponse
            },
    {
        decode_handle_info(status, record)
    }

    /// Adopts the new owner published by a successful duplication.
    pub fn duplicate(&self, result: CallResult) -> (r: Result<OwnedHandle<T>, Error>)
        ensures
            r is Ok <==> result.status == HYPER_NATIVE_STATUS_OK && result.value0 != 0,
            r matches Ok(h) ==> h@ == result.value0,
            r matches Err(e) ==> if result.status != HYPER_NATIVE_STATUS_OK {
                e == Error::Status(Status(result.status))
            } else {
                e == Error::InvalidResponse
            },
    {
        let checked = Status::from_raw(result.status).into_result();
        if let Err(e) = checked {
            return Err(e);
        }
        if result.value0 == 0 {
            return Err(Error::InvalidResponse);
        }
        Ok(OwnedHandle { raw: result.value0, _type: PhantomData })
    }

    /// Settles a replacement: a rejected call returns this owner; a success
    /// consumes it, even when the reported replacement is malformed.
    pub fn replace(self, result: CallResult) -> (r: Result<
        OwnedHandle<T>,
        ReplaceFailure<T>,
    >)
        ensures
            r is Ok <==> result.status == HYPER_NATIVE_STATUS_OK && result.value0 != 0,
            r matches Ok(h) ==> h@ == result.value0,
            result.status != HYPER_NATIVE_STATUS_OK ==> (r matches Err(ReplaceFailure::Rejected(f))
                && f.error == Error::Status(Status(result.status)) && f.handle@ == self@),
            result.status == HYPER_NATIVE_STATUS_OK && result.value0 == 0 ==> (r matches Err(
                ReplaceFailure::Committed(e),
            ) && e == Error::InvalidResponse),
    {
        let status = Status::from_raw(result.status);
        if status.0 != HYPER_NATIVE_STATUS_OK {
            return Err(
                ReplaceFailure::Rejected(HandleFailure { error: Error::Status(status), handle: self }),
            );
        }
        if result.value0 == 0 {
            return Err(ReplaceFailure::Committed(Error::InvalidResponse));
        }
        Ok(OwnedHandle { raw: result.value0, _type: PhantomData })
    }

    /// Settles an explicit close, preserving ownership on rejection.
    pub fn try_close(self, status: Status) -> (r: Result<(), HandleFailure<T>>)
        ensures
            r is Ok <==> status.0 == HYPER_NATIVE_STATUS_OK,
            r matches Err(f) ==> f.error == Error::Status(status) && f.handle@ == self@,
    {
        if status.0 == HYPER_NATIVE_STATUS_OK {
            Ok(())
        } else {
            Err(HandleFailure { error: Error::Status(status), handle: self })
        }
    }
}

impl OwnedHandle<AnyObject> {
    /// Narrows this erased owner to one exact object kind, given the result of
    /// querying its metadata. A failed query or kind mismatch returns the
    /// unchanged erased owner.
    pub fn downcast<T: TypedObject>(self, info: Result<HandleInfo, Error>) -> (r: Result<
        OwnedHandle<T>,
        HandleFailure<AnyObject>,
    >)
        ensures
            r is Ok <==> (info matches Ok(i) && i.kind@ == T::kind_value()),
            r matches Ok(h) ==> h@ == self@,
            r matches Err(f) ==> f.handle@ == self@ && match info {
                Ok(i) => f.error == Error::UnexpectedObjectKind {
                    expected: T::kind_value(),
                    actual: i.kind@,
                },
                Err(e) => f.error == e,
            },
    {
        proof {
            use_type_invariant(&self);
        }
        let info = match info {
            Ok(info) => info,
            Err(error) => {
                return Err(HandleFailure { error, handle: self });
            },
        };
        let expected = T::kind();
        if info.kind.as_raw() != expected.as_raw() {
            return Err(
                HandleFailure {
                    error: Error::UnexpectedObjectKind {
                        expected: expected.as_raw(),
                        actual: info.kind.as_raw(),
                    },
                    handle: self,
                },
            );
        }
        Ok(OwnedHandle { raw: self.raw, _type: PhantomData })
    }
}

/// Copyable borrow of a handle whose owner remains live.
pub struct HandleRef<'owner, T: ObjectType> {
    raw: u64,
    _owner: PhantomData<&'owner T>,
}

impl<'owner, T: ObjectType> View for HandleRef<'owner, T> {
    type V = u64;

    closed spec fn view(&self) -> u64 {
        self.raw
    }
}

impl<'owner, T: ObjectType> HandleRef<'owner, T> {
    /// Creates a borrow of a live raw handle owned outside this library.
    pub fn from_raw_borrowed(raw: u64) -> (r: HandleRef<'owner, T>)
        requires
            raw != 0,
        ensures
            r@ == raw,
    {
        HandleRef { raw, _owner: PhantomData }
    }

    /// The raw process-local handle value.
    pub fn raw(&self) -> (r: u64)
        ensures
            r == self@,
    {
        self.raw
    }

    /// Metadata of the borrowed handle, from the kernel's answer to the
    /// handle-info query.
    pub fn info(&self, status: Status, record: HyperNativeHandleInfo) -> (r: Result<
        HandleInfo,
        Error,
    >)
        ensures
            r is Ok <==> handle_info_valid(status, record),
            r matches Ok(info) ==> info.kind@ == record.object_kind && info.rights@ == record.rights
                && info.flags == record.flags,
            r matches Err(e) ==> if status.0 != HYPER_NATIVE_STATUS_OK {
                e == Error::Status(status)
            } else {
                e == Error::InvalidResponse
            },
    {
        decode_handle_info(status, record)
    }

    /// Erases only the borrowed compile-time object kind.
    pub fn erase(self) -> (r: HandleRef<'owner, AnyObject>)
        ensures
            r@ == self@,
    {
        HandleRef { raw: self.raw, _owner: PhantomData }
    }

    /// Copies this borrow.
    pub fn copied(&self) -> (r: HandleRef<'owner, T>)
        ensures
            r@ == self@,
    {
        HandleRef { raw: self.raw, _owner: PhantomData }
    }
}

/// A rejected consuming operation together with the still-owned handle.
pub struct HandleFailure<T: ObjectType> {
    pub error: Error,
    pub handle: OwnedHandle<T>,
}

impl<T: ObjectType> HandleFailure<T> {
    pub fn error(&self) -> (r: Error)
        ensures
            r == self.error,
    {
        self.error
    }

    pub fn into_handle(self) -> (r: OwnedHandle<T>)
        ensures
            r == self.handle,
    {
        self.handle
    }

    pub fn into_parts(self) -> (r: (Error, OwnedHandle<T>))
        ensures
            r.0 == self.error,
            r.1 == self.handle,
    {
        (self.error, self.handle)
    }
}

/// Failure from a replacement which may already have consumed its source.
pub enum ReplaceFailure<T: ObjectType> {
    Rejected(HandleFailure<T>),
    Committed(Error),
}

} // verus!
