//! Capability-scoped task and kernel-object observation.
//!
//! KOIDs and scan cursors are diagnostic values only; nothing here turns an
//! observed identifier into authority.

use vstd::prelude::*;
use vstd::array::array_as_slice;
use vstd::slice::slice_subrange;
use vstd::utf8::{decode_utf8, valid_utf8};
use crate::abi::{
    HYPER_NATIVE_OBJECT_OBJECT_INSPECTOR,
    HYPER_NATIVE_OBJECT_TASK_INSPECTOR,
    HYPER_NATIVE_OBJECT_HANDLE_STATE_ACTIVE,
    HYPER_NATIVE_OBJECT_HANDLE_STATE_RETIRED,
    HYPER_NATIVE_OBJECT_HANDLE_STATE_UNPUBLISHED,
    HYPER_NATIVE_OBJECT_NONE,
    HYPER_NATIVE_PROCESS_PHASE_CREATED,
    HYPER_NATIVE_PROCESS_PHASE_PREPARED,
    HYPER_NATIVE_PROCESS_PHASE_RETIRED,
    HYPER_NATIVE_PROCESS_PHASE_RETIRING,
    HYPER_NATIVE_PROCESS_PHASE_RUNNING,
    HYPER_NATIVE_PROCESS_PHASE_STOPPED,
    HYPER_NATIVE_PROCESS_PHASE_STOPPING,
    HYPER_NATIVE_PROCESS_TERMINAL_FAULT,
    HYPER_NATIVE_PROCESS_TERMINAL_LAST_THREAD_EXITED,
    HYPER_NATIVE_PROCESS_TERMINAL_NONE,
    HYPER_NATIVE_PROCESS_TERMINAL_PROCESS_EXITED,
    HYPER_NATIVE_PROCESS_TERMINAL_REQUESTED,
    HYPER_NATIVE_PROCESS_TERMINAL_TASK_GROUP_STOP,
    HYPER_NATIVE_PROCESS_TERMINAL_THREAD_EXITED,
    HYPER_NATIVE_RIGHTS_MASK,
    HYPER_NATIVE_RIGHT_DERIVE,
    HYPER_NATIVE_RIGHT_DUPLICATE,
    HYPER_NATIVE_RIGHT_INSPECT,
    HYPER_NATIVE_RIGHT_TRANSFER,
    HYPER_NATIVE_STATUS_OK,
    HYPER_NATIVE_THREAD_REGISTRY_RESIDENT,
    HYPER_NATIVE_THREAD_REGISTRY_RETIRING,
    HYPER_NATIVE_THREAD_ROLE_BOOTSTRAP,
    HYPER_NATIVE_THREAD_ROLE_IDLE,
    HYPER_NATIVE_THREAD_ROLE_KERNEL,
    HYPER_NATIVE_THREAD_ROLE_USER,
    HYPER_NATIVE_THREAD_ROLE_VCPU,
    HyperNativeHandleInspection,
    HyperNativeObjectInspection,
    HyperNativeTaskProcess,
    HyperNativeTaskThread,
};
use crate::os::error::Error;
use crate::os::handle::{
    HandleInfo, HandleRef, ObjectInspectorObject, ObjectKind, OwnedHandle, Rights,
    TaskInspectorObject, TypedObject,
};
use crate::os::status::{CallResult, Status};

verus! {

/// Entries in one process scan page.
pub const PROCESS_PAGE_CAPACITY: usize = 8;

/// Entries in one thread scan page.
pub const THREAD_PAGE_CAPACITY: usize = 8;

/// Entries in one object scan page.
pub const OBJECT_PAGE_CAPACITY: usize = 8;

/// Entries in one handle scan page.
pub const HANDLE_PAGE_CAPACITY: usize = 8;

/// Bytes of storage in one task name.
pub const TASK_NAME_CAPACITY: usize = 64;

/// `core::str::from_utf8`: the text that `bytes` encode, when they are valid
/// UTF-8 (the `Utf8Error` is dropped).
#[verifier::external_body]
pub(crate) fn utf8_text(bytes: &[u8]) -> (r: Option<&str>)
    ensures
        r is Some <==> valid_utf8(bytes@),
        r matches Some(s) ==> s@ == decode_utf8(bytes@),
{
    core::str::from_utf8(bytes).ok()
}

// ---------------------------------------------------------------------------
// Identities and names.

/// Stable observation identity which never grants object authority.
#[derive(Clone, Copy, Debug, Eq, Hash, PartialEq, Structural)]
pub struct Koid(u64);

impl View for Koid {
    type V = u64;

    closed spec fn view(&self) -> u64 {
        self.0
    }
}

impl Koid {
    /// Accepts every nonzero identity.
    pub fn from_raw(raw: u64) -> (r: Result<Koid, Error>)
        ensures
            r is Ok <==> raw != 0,
            r matches Ok(k) ==> k@ == raw,
            r matches Err(e) ==> e == Error::InvalidResponse,
    {
        if raw == 0 {
            Err(Error::InvalidResponse)
        } else {
            Ok(Koid(raw))
        }
    }

    pub fn get(self) -> (r: u64)
        ensures
            r == self@,
    {
        self.0
    }
}

/// A reported name is valid when it fits the buffer, its prefix is UTF-8 and
/// every byte after it is zero.
pub open spec fn task_name_valid(bytes: Seq<u8>, length: u32) -> bool {
    &&& length <= TASK_NAME_CAPACITY
    &&& valid_utf8(bytes.take(length as int))
    &&& forall|i: int| length <= i < bytes.len() ==> #[trigger] bytes[i] == 0
}

/// Validated immutable task name returned by an inspector scan.
#[derive(Clone, Copy, Debug, Eq, PartialEq)]
pub struct TaskName {
    bytes: [u8; 64],
    len: u8,
}

impl View for TaskName {
    type V = Seq<u8>;

    /// The name's UTF-8 bytes.
    closed spec fn view(&self) -> Seq<u8> {
        self.bytes@.take(self.len as int)
    }
}

impl TaskName {
    #[verifier::type_invariant]
    spec fn fits(self) -> bool {
        self.len <= TASK_NAME_CAPACITY
    }

    /// Validates one kernel-reported name buffer and its length.
    pub fn decode(bytes: [u8; 64], length: u32) -> (r: Result<TaskName, Error>)
        ensures
            r is Ok <==> task_name_valid(bytes@, length),
            r matches Ok(name) ==> name@ == bytes@.take(length as int),
            r matches Err(e) ==> e == Error::InvalidResponse,
    {
        let len = length as usize;
        if len > TASK_NAME_CAPACITY {
            return Err(Error::InvalidResponse);
        }
        let all = array_as_slice(&bytes);
        let value = slice_subrange(all, 0, len);
        assert(value@ == bytes@.take(len as int));
        if utf8_text(value).is_none() {
            return Err(Error::InvalidResponse);
        }
        let mut i: usize = len;
        while i < TASK_NAME_CAPACITY
            invariant
                len == length,
                len <= i <= TASK_NAME_CAPACITY,
                all@ == bytes@,
                bytes@.len() == TASK_NAME_CAPACITY,
                forall|k: int| len <= k < i ==> #[trigger] bytes@[k] == 0,
            decreases TASK_NAME_CAPACITY - i,
        {
            if all[i] != 0 {
                assert(bytes@[i as int] != 0);
                return Err(Error::InvalidResponse);
            }
            i = i + 1;
        }
        Ok(TaskName { bytes, len: len as u8 })
    }

    /// The name as text; an invalid encoding, which `decode` never accepts,
    /// reads as empty.
    pub fn as_str(&self) -> (r: &str)
        ensures
            valid_utf8(self@) ==> r@ == decode_utf8(self@),
    {
        proof {
            use_type_invariant(self);
        }
        let all = array_as_slice(&self.bytes);
        let value = slice_subrange(all, 0, self.len as usize);
        match utf8_text(value) {
            Some(name) => name,
            None => "",
        }
    }
}

// ---------------------------------------------------------------------------
// Declared enumerations.

#[derive(Clone, Copy, Debug, Eq, PartialEq, Structural)]
pub enum ProcessPhase {
    Prepared,
    Created,
    Running,
    Stopping,
    Stopped,
    Retiring,
    Retired,
}

pub open spec fn process_phase_value(raw: u32) -> Option<ProcessPhase> {
    if raw == HYPER_NATIVE_PROCESS_PHASE_PREPARED {
        Some(ProcessPhase::Prepared)
    } else if raw == HYPER_NATIVE_PROCESS_PHASE_CREATED {
        Some(ProcessPhase::Created)
    } else if raw == HYPER_NATIVE_PROCESS_PHASE_RUNNING {
        Some(ProcessPhase::Running)
    } else if raw == HYPER_NATIVE_PROCESS_PHASE_STOPPING {
        Some(ProcessPhase::Stopping)
    } else if raw == HYPER_NATIVE_PROCESS_PHASE_STOPPED {
        Some(ProcessPhase::Stopped)
    } else if raw == HYPER_NATIVE_PROCESS_PHASE_RETIRING {
        Some(ProcessPhase::Retiring)
    } else if raw == HYPER_NATIVE_PROCESS_PHASE_RETIRED {
        Some(ProcessPhase::Retired)
    } else {
        None
    }
}

impl ProcessPhase {
    /// Accepts only the declared phase values.
    pub fn decode(raw: u32) -> (r: Result<ProcessPhase, Error>)
        ensures
            r is Ok <==> process_phase_value(raw) is Some,
            r matches Ok(p) ==> process_phase_value(raw) == Some(p),
            r matches Ok(p) ==> Some(process_phase_name(p)) == abi_process_phase_name(raw),
            r matches Err(e) ==> e == Error::InvalidResponse,
    {
        proof {
            decoded_process_phase_is_the_declared_one(raw, raw);
        }
        let value = raw as u64;
        if value == HYPER_NATIVE_PROCESS_PHASE_PREPARED {
            Ok(ProcessPhase::Prepared)
        } else if value == HYPER_NATIVE_PROCESS_PHASE_CREATED {
            Ok(ProcessPhase::Created)
        } else if value == HYPER_NATIVE_PROCESS_PHASE_RUNNING {
            Ok(ProcessPhase::Running)
        } else if value == HYPER_NATIVE_PROCESS_PHASE_STOPPING {
            Ok(ProcessPhase::Stopping)
        } else if value == HYPER_NATIVE_PROCESS_PHASE_STOPPED {
            Ok(ProcessPhase::Stopped)
        } else if value == HYPER_NATIVE_PROCESS_PHASE_RETIRING {
            Ok(ProcessPhase::Retiring)
        } else if value == HYPER_NATIVE_PROCESS_PHASE_RETIRED {
            Ok(ProcessPhase::Retired)
        } else {
            Err(Error::InvalidResponse)
        }
    }

    pub fn name(self) -> (r: &'static str)
        ensures
            r@ == process_phase_name(self),
            r@ == match self {
                ProcessPhase::Prepared => "prepared"@,
                ProcessPhase::Created => "created"@,
                ProcessPhase::Running => "running"@,
                ProcessPhase::Stopping => "stopping"@,
                ProcessPhase::Stopped => "stopped"@,
                ProcessPhase::Retiring => "retiring"@,
                ProcessPhase::Retired => "retired"@,
            },
    {
        match self {
            ProcessPhase::Prepared => "prepared",
            ProcessPhase::Created => "created",
            ProcessPhase::Running => "running",
            ProcessPhase::Stopping => "stopping",
            ProcessPhase::Stopped => "stopped",
            ProcessPhase::Retiring => "retiring",
            ProcessPhase::Retired => "retired",
        }
    }
}

#[derive(Clone, Copy, Debug, Eq, PartialEq, Structural)]
pub enum TerminalReason {
    Requested,
    ThreadExited,
    ProcessExited,
    LastThreadExited,
    Fault,
    TaskGroupStop,
}

/// `Some(None)` for a live process, `Some(Some(reason))` for a declared
/// terminal reason, `None` for an undeclared value.
pub open spec fn terminal_reason_value(raw: u32) -> Option<Option<TerminalReason>> {
    if raw == HYPER_NATIVE_PROCESS_TERMINAL_NONE {
        Some(None)
    } else if raw == HYPER_NATIVE_PROCESS_TERMINAL_REQUESTED {
        Some(Some(TerminalReason::Requested))
    } else if raw == HYPER_NATIVE_PROCESS_TERMINAL_THREAD_EXITED {
        Some(Some(TerminalReason::ThreadExited))
    } else if raw == HYPER_NATIVE_PROCESS_TERMINAL_PROCESS_EXITED {
        Some(Some(TerminalReason::ProcessExited))
    } else if raw == HYPER_NATIVE_PROCESS_TERMINAL_LAST_THREAD_EXITED {
        Some(Some(TerminalReason::LastThreadExited))
    } else if raw == HYPER_NATIVE_PROCESS_TERMINAL_FAULT {
        Some(Some(TerminalReason::Fault))
    } else if raw == HYPER_NATIVE_PROCESS_TERMINAL_TASK_GROUP_STOP {
        Some(Some(TerminalReason::TaskGroupStop))
    } else {
        None
    }
}

impl TerminalReason {
    /// Accepts only the declared terminal values; zero means "not terminal".
    pub fn decode(raw: u32) -> (r: Result<Option<TerminalReason>, Error>)
        ensures
            r is Ok <==> terminal_reason_value(raw) is Some,
            r matches Ok(p) ==> terminal_reason_value(raw) == Some(p),
            r matches Err(e) ==> e == Error::InvalidResponse,
    {
        let value = raw as u64;
        if value == HYPER_NATIVE_PROCESS_TERMINAL_NONE {
            Ok(None)
        } else if value == HYPER_NATIVE_PROCESS_TERMINAL_REQUESTED {
            Ok(Some(TerminalReason::Requested))
        } else if value == HYPER_NATIVE_PROCESS_TERMINAL_THREAD_EXITED {
            Ok(Some(TerminalReason::ThreadExited))
        } else if value == HYPER_NATIVE_PROCESS_TERMINAL_PROCESS_EXITED {
            Ok(Some(TerminalReason::ProcessExited))
        } else if value == HYPER_NATIVE_PROCESS_TERMINAL_LAST_THREAD_EXITED {
            Ok(Some(TerminalReason::LastThreadExited))
        } else if value == HYPER_NATIVE_PROCESS_TERMINAL_FAULT {
            Ok(Some(TerminalReason::Fault))
        } else if value == HYPER_NATIVE_PROCESS_TERMINAL_TASK_GROUP_STOP {
            Ok(Some(TerminalReason::TaskGroupStop))
        } else {
            Err(Error::InvalidResponse)
        }
    }

    pub fn name(self) -> (r: &'static str)
        ensures
            r@ == terminal_reason_name(self),
            r@ == match self {
                TerminalReason::Requested => "requested"@,
                TerminalReason::ThreadExited => "thread-exited"@,
                TerminalReason::ProcessExited => "process-exited"@,
                TerminalReason::LastThreadExited => "last-thread-exited"@,
                TerminalReason::Fault => "fault"@,
                TerminalReason::TaskGroupStop => "task-group-stop"@,
            },
    {
        match self {
            TerminalReason::Requested => "requested",
            TerminalReason::ThreadExited => "thread-exited",
            TerminalReason::ProcessExited => "process-exited",
            TerminalReason::LastThreadExited => "last-thread-exited",
            TerminalReason::Fault => "fault",
            TerminalReason::TaskGroupStop => "task-group-stop",
        }
    }
}

#[derive(Clone, Copy, Debug, Eq, PartialEq, Structural)]
pub enum ThreadRole {
    Bootstrap,
    Idle,
    Kernel,
    User,
    Vcpu,
}

pub open spec fn thread_role_value(raw: u32) -> Option<ThreadRole> {
    if raw == HYPER_NATIVE_THREAD_ROLE_BOOTSTRAP {
        Some(ThreadRole::Bootstrap)
    } else if raw == HYPER_NATIVE_THREAD_ROLE_IDLE {
        Some(ThreadRole::Idle)
    } else if raw == HYPER_NATIVE_THREAD_ROLE_KERNEL {
        Some(ThreadRole::Kernel)
    } else if raw == HYPER_NATIVE_THREAD_ROLE_USER {
        Some(ThreadRole::User)
    } else if raw == HYPER_NATIVE_THREAD_ROLE_VCPU {
        Some(ThreadRole::Vcpu)
    } else {
        None
    }
}

impl ThreadRole {
    /// Accepts only the declared thread roles.
    pub fn decode(raw: u32) -> (r: Result<ThreadRole, Error>)
        ensures
            r is Ok <==> thread_role_value(raw) is Some,
            r matches Ok(p) ==> thread_role_value(raw) == Some(p),
            r matches Err(e) ==> e == Error::InvalidResponse,
    {
        let value = raw as u64;
        if value == HYPER_NATIVE_THREAD_ROLE_BOOTSTRAP {
            Ok(ThreadRole::Bootstrap)
        } else if value == HYPER_NATIVE_THREAD_ROLE_IDLE {
            Ok(ThreadRole::Idle)
        } else if value == HYPER_NATIVE_THREAD_ROLE_KERNEL {
            Ok(ThreadRole::Kernel)
        } else if value == HYPER_NATIVE_THREAD_ROLE_USER {
            Ok(ThreadRole::User)
        } else if value == HYPER_NATIVE_THREAD_ROLE_VCPU {
            Ok(ThreadRole::Vcpu)
        } else {
            Err(Error::InvalidResponse)
        }
    }

    pub fn name(self) -> (r: &'static str)
        ensures
            r@ == thread_role_name(self),
            r@ == match self {
                ThreadRole::Bootstrap => "bootstrap"@,
                ThreadRole::Idle => "idle"@,
                ThreadRole::Kernel => "kernel"@,
                ThreadRole::User => "user"@,
                ThreadRole::Vcpu => "vcpu"@,
            },
    {
        match self {
            ThreadRole::Bootstrap => "bootstrap",
            ThreadRole::Idle => "idle",
            ThreadRole::Kernel => "kernel",
            ThreadRole::User => "user",
            ThreadRole::Vcpu => "vcpu",
        }
    }
}

#[derive(Clone, Copy, Debug, Eq, PartialEq, Structural)]
pub enum ThreadRegistryPhase {
    Resident,
    Retiring,
}

pub open spec fn registry_phase_value(raw: u32) -> Option<ThreadRegistryPhase> {
    if raw == HYPER_NATIVE_THREAD_REGISTRY_RESIDENT {
        Some(ThreadRegistryPhase::Resident)
    } else if raw == HYPER_NATIVE_THREAD_REGISTRY_RETIRING {
        Some(ThreadRegistryPhase::Retiring)
    } else {
        None
    }
}

impl ThreadRegistryPhase {
    /// Accepts only the declared registry phases.
    pub fn decode(raw: u32) -> (r: Result<ThreadRegistryPhase, Error>)
        ensures
            r is Ok <==> registry_phase_value(raw) is Some,
            r matches Ok(p) ==> registry_phase_value(raw) == Some(p),
            r matches Err(e) ==> e == Error::InvalidResponse,
    {
        let value = raw as u64;
        if value == HYPER_NATIVE_THREAD_REGISTRY_RESIDENT {
            Ok(ThreadRegistryPhase::Resident)
        } else if value == HYPER_NATIVE_THREAD_REGISTRY_RETIRING {
            Ok(ThreadRegistryPhase::Retiring)
        } else {
            Err(Error::InvalidResponse)
        }
    }

    pub fn name(self) -> (r: &'static str)
        ensures
            r@ == registry_phase_name(self),
            r@ == match self {
                ThreadRegistryPhase::Resident => "resident"@,
                ThreadRegistryPhase::Retiring => "retiring"@,
            },
    {
        match self {
            ThreadRegistryPhase::Resident => "resident",
            ThreadRegistryPhase::Retiring => "retiring",
        }
    }
}


// ---------------------------------------------------------------------------
// What the decoded task enumerations mean.

/// The name of a process phase.
pub open spec fn process_phase_name(p: ProcessPhase) -> Seq<char> {
    match p {
        ProcessPhase::Prepared => "prepared"@,
        ProcessPhase::Created => "created"@,
        ProcessPhase::Running => "running"@,
        ProcessPhase::Stopping => "stopping"@,
        ProcessPhase::Stopped => "stopped"@,
        ProcessPhase::Retiring => "retiring"@,
        ProcessPhase::Retired => "retired"@,
    }
}

/// The name the ABI gives each declared process-phase value.
pub open spec fn abi_process_phase_name(raw: u32) -> Option<Seq<char>> {
    if raw == HYPER_NATIVE_PROCESS_PHASE_PREPARED {
        Some("prepared"@)
    } else if raw == HYPER_NATIVE_PROCESS_PHASE_CREATED {
        Some("created"@)
    } else if raw == HYPER_NATIVE_PROCESS_PHASE_RUNNING {
        Some("running"@)
    } else if raw == HYPER_NATIVE_PROCESS_PHASE_STOPPING {
        Some("stopping"@)
    } else if raw == HYPER_NATIVE_PROCESS_PHASE_STOPPED {
        Some("stopped"@)
    } else if raw == HYPER_NATIVE_PROCESS_PHASE_RETIRING {
        Some("retiring"@)
    } else if raw == HYPER_NATIVE_PROCESS_PHASE_RETIRED {
        Some("retired"@)
    } else {
        None
    }
}

/// Decoding a process phase gives the phase that the value's ABI constant
/// names: a value decodes exactly when the ABI declares it, and the decoded
/// phase carries that constant's name. Distinct phases come from distinct
/// values.
pub proof fn decoded_process_phase_is_the_declared_one(raw: u32, other: u32)
    ensures
        process_phase_value(raw) is Some <==> abi_process_phase_name(raw) is Some,
        process_phase_value(raw) matches Some(p) ==> Some(process_phase_name(p))
            == abi_process_phase_name(raw),
        process_phase_value(raw) is Some && process_phase_value(raw) == process_phase_value(other)
            ==> raw == other,
{
    reveal_strlit("prepared");
    reveal_strlit("created");
    reveal_strlit("running");
    reveal_strlit("stopping");
    reveal_strlit("stopped");
    reveal_strlit("retiring");
    reveal_strlit("retired");
}

/// The name of a terminal reason.
pub open spec fn terminal_reason_name(t: TerminalReason) -> Seq<char> {
    match t {
        TerminalReason::Requested => "requested"@,
        TerminalReason::ThreadExited => "thread-exited"@,
        TerminalReason::ProcessExited => "process-exited"@,
        TerminalReason::LastThreadExited => "last-thread-exited"@,
        TerminalReason::Fault => "fault"@,
        TerminalReason::TaskGroupStop => "task-group-stop"@,
    }
}

/// The name the ABI gives each declared terminal-reason value; the "none"
/// value marks a live process.
pub open spec fn abi_terminal_reason_name(raw: u32) -> Option<Seq<char>> {
    if raw == HYPER_NATIVE_PROCESS_TERMINAL_NONE {
        Some("none"@)
    } else if raw == HYPER_NATIVE_PROCESS_TERMINAL_REQUESTED {
        Some("requested"@)
    } else if raw == HYPER_NATIVE_PROCESS_TERMINAL_THREAD_EXITED {
        Some("thread-exited"@)
    } else if raw == HYPER_NATIVE_PROCESS_TERMINAL_PROCESS_EXITED {
        Some("process-exited"@)
    } else if raw == HYPER_NATIVE_PROCESS_TERMINAL_LAST_THREAD_EXITED {
        Some("last-thread-exited"@)
    } else if raw == HYPER_NATIVE_PROCESS_TERMINAL_FAULT {
        Some("fault"@)
    } else if raw == HYPER_NATIVE_PROCESS_TERMINAL_TASK_GROUP_STOP {
        Some("task-group-stop"@)
    } else {
        None
    }
}

/// Decoding a terminal reason gives the reason that the value's ABI constant
/// names, and "none" exactly for the value of a live process.
pub proof fn decoded_terminal_reason_is_the_declared_one(raw: u32, other: u32)
    ensures
        terminal_reason_value(raw) is Some <==> abi_terminal_reason_name(raw) is Some,
        terminal_reason_value(raw) == Some(None::<TerminalReason>) <==> abi_terminal_reason_name(raw)
            == Some("none"@),
        terminal_reason_value(raw) matches Some(Some(t)) ==> Some(terminal_reason_name(t))
            == abi_terminal_reason_name(raw),
        terminal_reason_value(raw) is Some && terminal_reason_value(raw) == terminal_reason_value(
            other,
        ) ==> raw == other,
{
    reveal_strlit("none");
    reveal_strlit("requested");
    reveal_strlit("thread-exited");
    reveal_strlit("process-exited");
    reveal_strlit("last-thread-exited");
    reveal_strlit("fault");
    reveal_strlit("task-group-stop");
    assert("none"@[0] == 'n');
    assert("requested"@[0] == 'r');
    assert("thread-exited"@[0] == 't');
    assert("process-exited"@[0] == 'p');
    assert("last-thread-exited"@[0] == 'l');
    assert("fault"@[0] == 'f');
    assert("task-group-stop"@[0] == 't');
}

/// The name of a thread role.
pub open spec fn thread_role_name(t: ThreadRole) -> Seq<char> {
    match t {
        ThreadRole::Bootstrap => "bootstrap"@,
        ThreadRole::Idle => "idle"@,
        ThreadRole::Kernel => "kernel"@,
        ThreadRole::User => "user"@,
        ThreadRole::Vcpu => "vcpu"@,
    }
}

/// The name the ABI gives each declared thread-role value.
pub open spec fn abi_thread_role_name(raw: u32) -> Option<Seq<char>> {
    if raw == HYPER_NATIVE_THREAD_ROLE_BOOTSTRAP {
        Some("bootstrap"@)
    } else if raw == HYPER_NATIVE_THREAD_ROLE_IDLE {
        Some("idle"@)
    } else if raw == HYPER_NATIVE_THREAD_ROLE_KERNEL {
        Some("kernel"@)
    } else if raw == HYPER_NATIVE_THREAD_ROLE_USER {
        Some("user"@)
    } else if raw == HYPER_NATIVE_THREAD_ROLE_VCPU {
        Some("vcpu"@)
    } else {
        None
    }
}

/// Decoding a thread role gives the role that the value's ABI constant names.
pub proof fn decoded_thread_role_is_the_declared_one(raw: u32, other: u32)
    ensures
        thread_role_value(raw) is Some <==> abi_thread_role_name(raw) is Some,
        thread_role_value(raw) matches Some(t) ==> Some(thread_role_name(t)) == abi_thread_role_name(
            raw,
        ),
        thread_role_value(raw) is Some && thread_role_value(raw) == thread_role_value(other) ==> raw
            == other,
{
    reveal_strlit("bootstrap");
    reveal_strlit("idle");
    reveal_strlit("kernel");
    reveal_strlit("user");
    reveal_strlit("vcpu");
}

/// The name of a registry phase.
pub open spec fn registry_phase_name(p: ThreadRegistryPhase) -> Seq<char> {
    match p {
        ThreadRegistryPhase::Resident => "resident"@,
        ThreadRegistryPhase::Retiring => "retiring"@,
    }
}

/// The name the ABI gives each declared registry-phase value.
pub open spec fn abi_registry_phase_name(raw: u32) -> Option<Seq<char>> {
    if raw == HYPER_NATIVE_THREAD_REGISTRY_RESIDENT {
        Some("resident"@)
    } else if raw == HYPER_NATIVE_THREAD_REGISTRY_RETIRING {
        Some("retiring"@)
    } else {
        None
    }
}

/// Decoding a registry phase gives the phase that the value's ABI constant
/// names.
pub proof fn decoded_registry_phase_is_the_declared_one(raw: u32, other: u32)
    ensures
        registry_phase_value(raw) is Some <==> abi_registry_phase_name(raw) is Some,
        registry_phase_value(raw) matches Some(p) ==> Some(registry_phase_name(p))
            == abi_registry_phase_name(raw),
        registry_phase_value(raw) is Some && registry_phase_value(raw) == registry_phase_value(other)
            ==> raw == other,
{
    reveal_strlit("resident");
    reveal_strlit("retiring");
}

// ---------------------------------------------------------------------------
// Scan pages.

/// Opaque position in one weakly consistent inspector scan.
#[derive(Clone, Copy, Debug, Eq, PartialEq, Structural)]
pub struct ScanCursor(pub u64);

impl ScanCursor {
    /// The position before the first entry of a scan.
    pub fn start() -> (r: ScanCursor)
        ensures
            r.0 == 0,
    {
        ScanCursor(0)
    }
}

/// One bounded scan result of at most `N` entries.
pub struct InspectionPage<T: Copy, const N: usize> {
    entries: Vec<T>,
    next: Option<ScanCursor>,
}

impl<T: Copy, const N: usize> InspectionPage<T, N> {
    /// The entries, in scan order.
    pub closed spec fn spec_entries(&self) -> Seq<T> {
        self.entries@
    }

    /// Where the next page starts, when the scan continues.
    pub closed spec fn spec_next(&self) -> Option<ScanCursor> {
        self.next
    }

    fn empty(next: Option<ScanCursor>) -> (r: InspectionPage<T, N>)
        ensures
            r.spec_entries() == Seq::<T>::empty(),
            r.spec_next() == next,
    {
        InspectionPage { entries: Vec::new(), next }
    }

    fn push(&mut self, value: T) -> (r: Result<(), Error>)
        ensures
            final(self).spec_next() == old(self).spec_next(),
            r is Ok <==> old(self).spec_entries().len() < N,
            r is Ok ==> final(self).spec_entries() == old(self).spec_entries().push(value),
            r is Err ==> final(self).spec_entries() == old(self).spec_entries() && r
                == Err::<(), Error>(Error::InvalidResponse),
    {
        if self.entries.len() >= N {
            return Err(Error::InvalidResponse);
        }
        self.entries.push(value);
        Ok(())
    }

    pub fn entries(&self) -> (r: &[T])
        ensures
            r@ == self.spec_entries(),
    {
        self.entries.as_slice()
    }

    pub fn len(&self) -> (r: usize)
        ensures
            r == self.spec_entries().len(),
    {
        self.entries.len()
    }

    pub fn is_empty(&self) -> (r: bool)
        ensures
            r == (self.spec_entries().len() == 0),
    {
        self.entries.len() == 0
    }

    pub fn next(&self) -> (r: Option<ScanCursor>)
        ensures
            r == self.spec_next(),
    {
        self.next
    }
}

/// The entry count and continuation of one scan call: a successful call
/// reports at most `capacity` entries, and a nonzero cursor continues.
pub fn decode_scan_result(result: CallResult, capacity: usize) -> (r: Result<
    (usize, Option<ScanCursor>),
    Error,
>)
    ensures
        r is Ok <==> result.status == HYPER_NATIVE_STATUS_OK && result.value0 <= capacity,
        r matches Ok(p) ==> p.0 == result.value0 && p.1 == (if result.value1 != 0 {
            Some(ScanCursor(result.value1))
        } else {
            None::<ScanCursor>
        }),
        r matches Err(e) ==> if result.status != HYPER_NATIVE_STATUS_OK {
            e == Error::Status(Status(result.status))
        } else {
            e == Error::InvalidResponse
        },
{
    let checked = Status::from_raw(result.status).into_result();
    if let Err(e) = checked {
        return Err(e);
    }
    if result.value0 > usize::MAX as u64 {
        return Err(Error::InvalidResponse);
    }
    let count = result.value0 as usize;
    if count > capacity {
        return Err(Error::InvalidResponse);
    }
    let next = if result.value1 != 0 {
        Some(ScanCursor(result.value1))
    } else {
        None
    };
    Ok((count, next))
}

// ---------------------------------------------------------------------------
// Observations.

#[derive(Clone, Copy, Debug, Eq, PartialEq)]
pub struct ProcessObservation {
    pub koid: Koid,
    pub name: TaskName,
    pub phase: ProcessPhase,
    pub terminal_reason: Option<TerminalReason>,
    pub pending_threads: u32,
    pub active_threads: u32,
}

#[derive(Clone, Copy, Debug, Eq, PartialEq)]
pub struct ThreadObservation {
    pub koid: Koid,
    pub process_koid: Option<Koid>,
    pub name: TaskName,
    pub role: ThreadRole,
    pub registry_phase: ThreadRegistryPhase,
}

#[derive(Clone, Copy, Debug, Eq, PartialEq, Structural)]
pub enum ObjectHandleState {
    Unpublished,
    Active(u64),
    Retired,
}

#[derive(Clone, Copy, Debug, Eq, PartialEq, Structural)]
pub struct ObjectReferenceCounts {
    pub strong: u64,
    pub kernel_service: u64,
    pub scheduler: u64,
    pub operation: u64,
    pub user_authority: u64,
    pub publication: u64,
    pub diagnostic: u64,
    pub retirement: u64,
}

#[derive(Clone, Copy, Debug, Eq, PartialEq, Structural)]
pub struct ObjectObservation {
    pub koid: Koid,
    pub object_kind: ObjectKind,
    pub handles: ObjectHandleState,
    pub supported_rights: Rights,
    pub references: ObjectReferenceCounts,
}

#[derive(Clone, Copy, Debug, Eq, PartialEq, Structural)]
pub struct HandleObservation {
    pub process_koid: Koid,
    pub handle: u64,
    pub object_koid: Koid,
    pub rights: Rights,
    pub object_kind: ObjectKind,
    pub flags: u32,
}

/// A process record the kernel may report.
pub open spec fn process_record_valid(r: HyperNativeTaskProcess) -> bool {
    &&& r.koid != 0
    &&& task_name_valid(r.name@, r.name_length)
    &&& process_phase_value(r.phase) is Some
    &&& terminal_reason_value(r.terminal_reason) is Some
}

/// `o` is the observation of record `r`.
pub open spec fn process_observed(o: ProcessObservation, r: HyperNativeTaskProcess) -> bool {
    &&& o.koid@ == r.koid
    &&& o.name@ == r.name@.take(r.name_length as int)
    &&& process_phase_value(r.phase) == Some(o.phase)
    &&& terminal_reason_value(r.terminal_reason) == Some(o.terminal_reason)
    &&& o.pending_threads == r.pending_threads
    &&& o.active_threads == r.active_threads
}

fn decode_process(r: HyperNativeTaskProcess) -> (o: Result<ProcessObservation, Error>)
    ensures
        o is Ok <==> process_record_valid(r),
        o matches Ok(obs) ==> process_observed(obs, r),
        o matches Err(e) ==> e == Error::InvalidResponse,
{
    let koid = match Koid::from_raw(r.koid) {
        Ok(k) => k,
        Err(e) => {
            return Err(e);
        },
    };
    let name = match TaskName::decode(r.name, r.name_length) {
        Ok(n) => n,
        Err(e) => {
            return Err(e);
        },
    };
    let phase = match ProcessPhase::decode(r.phase) {
        Ok(p) => p,
        Err(e) => {
            return Err(e);
        },
    };
    let terminal_reason = match TerminalReason::decode(r.terminal_reason) {
        Ok(t) => t,
        Err(e) => {
            return Err(e);
        },
    };
    Ok(
        ProcessObservation {
            koid,
            name,
            phase,
            terminal_reason,
            pending_threads: r.pending_threads,
            active_threads: r.active_threads,
        },
    )
}

/// A thread record the kernel may report.
pub open spec fn thread_record_valid(r: HyperNativeTaskThread) -> bool {
    &&& r.koid != 0
    &&& task_name_valid(r.name@, r.name_length)
    &&& thread_role_value(r.role) is Some
    &&& registry_phase_value(r.registry_phase) is Some
}

pub open spec fn thread_observed(o: ThreadObservation, r: HyperNativeTaskThread) -> bool {
    &&& o.koid@ == r.koid
    &&& (if r.process_koid == 0 {
        o.process_koid is None
    } else {
        o.process_koid matches Some(k) && k@ == r.process_koid
    })
    &&& o.name@ == r.name@.take(r.name_length as int)
    &&& thread_role_value(r.role) == Some(o.role)
    &&& registry_phase_value(r.registry_phase) == Some(o.registry_phase)
}

fn decode_thread(r: HyperNativeTaskThread) -> (o: Result<ThreadObservation, Error>)
    ensures
        o is Ok <==> thread_record_valid(r),
        o matches Ok(obs) ==> thread_observed(obs, r),
        o matches Err(e) ==> e == Error::InvalidResponse,
{
    let koid = match Koid::from_raw(r.koid) {
        Ok(k) => k,
        Err(e) => {
            return Err(e);
        },
    };
    let process_koid = if r.process_koid == 0 {
        None
    } else {
        Some(Koid(r.process_koid))
    };
    let name = match TaskName::decode(r.name, r.name_length) {
        Ok(n) => n,
        Err(e) => {
            return Err(e);
        },
    };
    let role = match ThreadRole::decode(r.role) {
        Ok(p) => p,
        Err(e) => {
            return Err(e);
        },
    };
    let registry_phase = match ThreadRegistryPhase::decode(r.registry_phase) {
        Ok(p) => p,
        Err(e) => {
            return Err(e);
        },
    };
    Ok(ThreadObservation { koid, process_koid, name, role, registry_phase })
}

pub open spec fn handle_state_value(r: HyperNativeObjectInspection) -> Option<ObjectHandleState> {
    if r.handle_state == HYPER_NATIVE_OBJECT_HANDLE_STATE_UNPUBLISHED {
        Some(ObjectHandleState::Unpublished)
    } else if r.handle_state == HYPER_NATIVE_OBJECT_HANDLE_STATE_ACTIVE {
        Some(ObjectHandleState::Active(r.active_handles))
    } else if r.handle_state == HYPER_NATIVE_OBJECT_HANDLE_STATE_RETIRED {
        Some(ObjectHandleState::Retired)
    } else {
        None
    }
}

/// The ABI value that encodes a handle state.
pub open spec fn handle_state_code(s: ObjectHandleState) -> u64 {
    match s {
        ObjectHandleState::Unpublished => HYPER_NATIVE_OBJECT_HANDLE_STATE_UNPUBLISHED,
        ObjectHandleState::Active(_) => HYPER_NATIVE_OBJECT_HANDLE_STATE_ACTIVE,
        ObjectHandleState::Retired => HYPER_NATIVE_OBJECT_HANDLE_STATE_RETIRED,
    }
}

/// A decoded handle state is the one the record's ABI value encodes, and
/// only an active state carries the record's handle count; every declared
/// state value decodes.
pub proof fn decoded_handle_state_is_the_encoded_one(r: HyperNativeObjectInspection)
    ensures
        handle_state_value(r) matches Some(s) ==> handle_state_code(s) == r.handle_state,
        handle_state_value(r) matches Some(ObjectHandleState::Active(n)) ==> n == r.active_handles,
        (r.handle_state == HYPER_NATIVE_OBJECT_HANDLE_STATE_UNPUBLISHED || r.handle_state
            == HYPER_NATIVE_OBJECT_HANDLE_STATE_ACTIVE || r.handle_state
            == HYPER_NATIVE_OBJECT_HANDLE_STATE_RETIRED) <==> handle_state_value(r) is Some,
{
}

/// An object record the kernel may report.
pub open spec fn object_record_valid(r: HyperNativeObjectInspection) -> bool {
    &&& handle_state_value(r) is Some
    &&& r.koid != 0
    &&& r.object_kind != HYPER_NATIVE_OBJECT_NONE
    &&& r.supported_rights & !HYPER_NATIVE_RIGHTS_MASK == 0
}

pub open spec fn object_observed(o: ObjectObservation, r: HyperNativeObjectInspection) -> bool {
    &&& o.koid@ == r.koid
    &&& o.object_kind@ == r.object_kind
    &&& handle_state_value(r) == Some(o.handles)
    &&& o.supported_rights@ == r.supported_rights
    &&& o.references == ObjectReferenceCounts {
        strong: r.strong_references,
        kernel_service: r.kernel_service_references,
        scheduler: r.scheduler_references,
        operation: r.operation_references,
        user_authority: r.user_authority_references,
        publication: r.publication_references,
        diagnostic: r.diagnostic_references,
        retirement: r.retirement_references,
    }
}

fn decode_object(r: HyperNativeObjectInspection) -> (o: Result<ObjectObservation, Error>)
    ensures
        o is Ok <==> object_record_valid(r),
        o matches Ok(obs) ==> object_observed(obs, r),
        o matches Err(e) ==> e == Error::InvalidResponse,
{
    let state = r.handle_state as u64;
    let handles = if state == HYPER_NATIVE_OBJECT_HANDLE_STATE_UNPUBLISHED {
        ObjectHandleState::Unpublished
    } else if state == HYPER_NATIVE_OBJECT_HANDLE_STATE_ACTIVE {
        ObjectHandleState::Active(r.active_handles)
    } else if state == HYPER_NATIVE_OBJECT_HANDLE_STATE_RETIRED {
        ObjectHandleState::Retired
    } else {
        return Err(Error::InvalidResponse);
    };
    let koid = match Koid::from_raw(r.koid) {
        Ok(k) => k,
        Err(e) => {
            return Err(e);
        },
    };
    let object_kind = match ObjectKind::from_kernel(r.object_kind) {
        Ok(k) => k,
        Err(e) => {
            return Err(e);
        },
    };
    let supported_rights = match Rights::from_bits(r.supported_rights) {
        Some(rights) => rights,
        None => {
            return Err(Error::InvalidResponse);
        },
    };
    Ok(
        ObjectObservation {
            koid,
            object_kind,
            handles,
            supported_rights,
            references: ObjectReferenceCounts {
                strong: r.strong_references,
                kernel_service: r.kernel_service_references,
                scheduler: r.scheduler_references,
                operation: r.operation_references,
                user_authority: r.user_authority_references,
                publication: r.publication_references,
                diagnostic: r.diagnostic_references,
                retirement: r.retirement_references,
            },
        },
    )
}

/// A handle record the kernel may report.
pub open spec fn handle_record_valid(r: HyperNativeHandleInspection) -> bool {
    &&& r.process_koid != 0
    &&& r.object_koid != 0
    &&& r.rights & !HYPER_NATIVE_RIGHTS_MASK == 0
    &&& r.object_kind != HYPER_NATIVE_OBJECT_NONE
}

pub open spec fn handle_observed(o: HandleObservation, r: HyperNativeHandleInspection) -> bool {
    &&& o.process_koid@ == r.process_koid
    &&& o.handle == r.handle
    &&& o.object_koid@ == r.object_koid
    &&& o.rights@ == r.rights
    &&& o.object_kind@ == r.object_kind
    &&& o.flags == r.flags
}

fn decode_handle(r: HyperNativeHandleInspection) -> (o: Result<HandleObservation, Error>)
    ensures
        o is Ok <==> handle_record_valid(r),
        o matches Ok(obs) ==> handle_observed(obs, r),
        o matches Err(e) ==> e == Error::InvalidResponse,
{
    let process_koid = match Koid::from_raw(r.process_koid) {
        Ok(k) => k,
        Err(e) => {
            return Err(e);
        },
    };
    let object_koid = match Koid::from_raw(r.object_koid) {
        Ok(k) => k,
        Err(e) => {
            return Err(e);
        },
    };
    let rights = match Rights::from_bits(r.rights) {
        Some(rights) => rights,
        None => {
            return Err(Error::InvalidResponse);
        },
    };
    let object_kind = match ObjectKind::from_kernel(r.object_kind) {
        Ok(k) => k,
        Err(e) => {
            return Err(e);
        },
    };
    Ok(HandleObservation { process_koid, handle: r.handle, object_koid, rights, object_kind, flags: r.flags })
}


/// The continuation cursor of a scan: a nonzero cursor continues.
pub open spec fn scan_continuation(value: u64) -> Option<ScanCursor> {
    if value != 0 {
        Some(ScanCursor(value))
    } else {
        None
    }
}

/// Decodes the process page that one scan call wrote into `records`.
pub fn decode_process_page(result: CallResult, records: &[HyperNativeTaskProcess]) -> (r: Result<
    InspectionPage<ProcessObservation, PROCESS_PAGE_CAPACITY>,
    Error,
>)
    requires
        records@.len() == PROCESS_PAGE_CAPACITY,
    ensures
        r is Ok <==> result.status == HYPER_NATIVE_STATUS_OK && result.value0 <= PROCESS_PAGE_CAPACITY && forall|i: int|
            0 <= i < result.value0 ==> #[trigger] process_record_valid(records@[i]),
        r matches Ok(page) ==> {
            &&& page.spec_entries().len() == result.value0
            &&& forall|i: int|
                0 <= i < result.value0 ==> #[trigger] process_observed(page.spec_entries()[i], records@[i])
            &&& page.spec_next() == scan_continuation(result.value1)
        },
        r matches Err(e) ==> if result.status != HYPER_NATIVE_STATUS_OK {
            e == Error::Status(Status(result.status))
        } else {
            e == Error::InvalidResponse
        },
{
    let (count, next) = match decode_scan_result(result, PROCESS_PAGE_CAPACITY) {
        Ok(scan) => scan,
        Err(e) => {
            return Err(e);
        },
    };
    let mut page: InspectionPage<ProcessObservation, PROCESS_PAGE_CAPACITY> = InspectionPage::empty(next);
    let mut i: usize = 0;
    while i < count
        invariant
            count == result.value0,
            result.status == HYPER_NATIVE_STATUS_OK,
            count <= PROCESS_PAGE_CAPACITY,
            records@.len() == PROCESS_PAGE_CAPACITY,
            i <= count,
            page.spec_next() == scan_continuation(result.value1),
            page.spec_entries().len() == i,
            forall|k: int| 0 <= k < i ==> #[trigger] process_record_valid(records@[k]),
            forall|k: int| 0 <= k < i ==> #[trigger] process_observed(page.spec_entries()[k], records@[k]),
        decreases count - i,
    {
        let observation = match decode_process(records[i]) {
            Ok(o) => o,
            Err(e) => {
                return Err(e);
            },
        };
        let pushed = page.push(observation);
        assert(pushed is Ok);
        i = i + 1;
    }
    Ok(page)
}

/// Decodes the thread page that one scan call wrote into `records`.
pub fn decode_thread_page(result: CallResult, records: &[HyperNativeTaskThread]) -> (r: Result<
    InspectionPage<ThreadObservation, THREAD_PAGE_CAPACITY>,
    Error,
>)
    requires
        records@.len() == THREAD_PAGE_CAPACITY,
    ensures
        r is Ok <==> result.status == HYPER_NATIVE_STATUS_OK && result.value0 <= THREAD_PAGE_CAPACITY && forall|i: int|
            0 <= i < result.value0 ==> #[trigger] thread_record_valid(records@[i]),
        r matches Ok(page) ==> {
            &&& page.spec_entries().len() == result.value0
            &&& forall|i: int|
                0 <= i < result.value0 ==> #[trigger] thread_observed(page.spec_entries()[i], records@[i])
            &&& page.spec_next() == scan_continuation(result.value1)
        },
        r matches Err(e) ==> if result.status != HYPER_NATIVE_STATUS_OK {
            e == Error::Status(Status(result.status))
        } else {
            e == Error::InvalidResponse
        },
{
    let (count, next) = match decode_scan_result(result, THREAD_PAGE_CAPACITY) {
        Ok(scan) => scan,
        Err(e) => {
            return Err(e);
        },
    };
    let mut page: InspectionPage<ThreadObservation, THREAD_PAGE_CAPACITY> = InspectionPage::empty(next);
    let mut i: usize = 0;
    while i < count
        invariant
            count == result.value0,
            result.status == HYPER_NATIVE_STATUS_OK,
            count <= THREAD_PAGE_CAPACITY,
            records@.len() == THREAD_PAGE_CAPACITY,
            i <= count,
            page.spec_next() == scan_continuation(result.value1),
            page.spec_entries().len() == i,
            forall|k: int| 0 <= k < i ==> #[trigger] thread_record_valid(records@[k]),
            forall|k: int| 0 <= k < i ==> #[trigger] thread_observed(page.spec_entries()[k], records@[k]),
        decreases count - i,
    {
        let observation = match decode_thread(records[i]) {
            Ok(o) => o,
            Err(e) => {
                return Err(e);
            },
        };
        let pushed = page.push(observation);
        assert(pushed is Ok);
        i = i + 1;
    }
    Ok(page)
}

/// Decodes the object page that one scan call wrote into `records`.
pub fn decode_object_page(result: CallResult, records: &[HyperNativeObjectInspection]) -> (r: Result<
    InspectionPage<ObjectObservation, OBJECT_PAGE_CAPACITY>,
    Error,
>)
    requires
        records@.len() == OBJECT_PAGE_CAPACITY,
    ensures
        r is Ok <==> result.status == HYPER_NATIVE_STATUS_OK && result.value0 <= OBJECT_PAGE_CAPACITY && forall|i: int|
            0 <= i < result.value0 ==> #[trigger] object_record_valid(records@[i]),
        r matches Ok(page) ==> {
            &&& page.spec_entries().len() == result.value0
            &&& forall|i: int|
                0 <= i < result.value0 ==> #[trigger] object_observed(page.spec_entries()[i], records@[i])
            &&& page.spec_next() == scan_continuation(result.value1)
        },
        r matches Err(e) ==> if result.status != HYPER_NATIVE_STATUS_OK {
            e == Error::Status(Status(result.status))
        } else {
            e == Error::InvalidResponse
        },
{
    let (count, next) = match decode_scan_result(result, OBJECT_PAGE_CAPACITY) {
        Ok(scan) => scan,
        Err(e) => {
            return Err(e);
        },
    };
    let mut page: InspectionPage<ObjectObservation, OBJECT_PAGE_CAPACITY> = InspectionPage::empty(next);
    let mut i: usize = 0;
    while i < count
        invariant
            count == result.value0,
            result.status == HYPER_NATIVE_STATUS_OK,
            count <= OBJECT_PAGE_CAPACITY,
            records@.len() == OBJECT_PAGE_CAPACITY,
            i <= count,
            page.spec_next() == scan_continuation(result.value1),
            page.spec_entries().len() == i,
            forall|k: int| 0 <= k < i ==> #[trigger] object_record_valid(records@[k]),
            forall|k: int| 0 <= k < i ==> #[trigger] object_observed(page.spec_entries()[k], records@[k]),
        decreases count - i,
    {
        let observation = match decode_object(records[i]) {
            Ok(o) => o,
            Err(e) => {
                return Err(e);
            },
        };
        let pushed = page.push(observation);
        assert(pushed is Ok);
        i = i + 1;
    }
    Ok(page)
}

/// Decodes the handle page that one scan call wrote into `records`.
pub fn decode_handle_page(result: CallResult, records: &[HyperNativeHandleInspection]) -> (r: Result<
    InspectionPage<HandleObservation, HANDLE_PAGE_CAPACITY>,
    Error,
>)
    requires
        records@.len() == HANDLE_PAGE_CAPACITY,
    ensures
        r is Ok <==> result.status == HYPER_NATIVE_STATUS_OK && result.value0 <= HANDLE_PAGE_CAPACITY && forall|i: int|
            0 <= i < result.value0 ==> #[trigger] handle_record_valid(records@[i]),
        r matches Ok(page) ==> {
            &&& page.spec_entries().len() == result.value0
            &&& forall|i: int|
                0 <= i < result.value0 ==> #[trigger] handle_observed(page.spec_entries()[i], records@[i])
            &&& page.spec_next() == scan_continuation(result.value1)
        },
        r matches Err(e) ==> if result.status != HYPER_NATIVE_STATUS_OK {
            e == Error::Status(Status(result.status))
        } else {
            e == Error::InvalidResponse
        },
{
    let (count, next) = match decode_scan_result(result, HANDLE_PAGE_CAPACITY) {
        Ok(scan) => scan,
        Err(e) => {
            return Err(e);
        },
    };
    let mut page: InspectionPage<HandleObservation, HANDLE_PAGE_CAPACITY> = InspectionPage::empty(next);
    let mut i: usize = 0;
    while i < count
        invariant
            count == result.value0,
            result.status == HYPER_NATIVE_STATUS_OK,
            count <= HANDLE_PAGE_CAPACITY,
            records@.len() == HANDLE_PAGE_CAPACITY,
            i <= count,
            page.spec_next() == scan_continuation(result.value1),
            page.spec_entries().len() == i,
            forall|k: int| 0 <= k < i ==> #[trigger] handle_record_valid(records@[k]),
            forall|k: int| 0 <= k < i ==> #[trigger] handle_observed(page.spec_entries()[k], records@[k]),
        decreases count - i,
    {
        let observation = match decode_handle(records[i]) {
            Ok(o) => o,
            Err(e) => {
                return Err(e);
            },
        };
        let pushed = page.push(observation);
        assert(pushed is Ok);
        i = i + 1;
    }
    Ok(page)
}

// ---------------------------------------------------------------------------
// Inspectors.

/// Rights carried by every inspector handle.
pub open spec fn inspector_rights() -> u64 {
    HYPER_NATIVE_RIGHT_DUPLICATE | HYPER_NATIVE_RIGHT_TRANSFER | HYPER_NATIVE_RIGHT_INSPECT
        | HYPER_NATIVE_RIGHT_DERIVE
}

/// A derived inspector is adopted only when the kernel reports the expected
/// kind and exactly the inspector rights.
pub fn check_derived_inspector(info: Result<HandleInfo, Error>, expected_kind: u32) -> (r: Result<
    (),
    Error,
>)
    ensures
        r is Ok <==> (info matches Ok(i) && i.kind@ == expected_kind && i.rights@
            == inspector_rights()),
        r matches Err(e) ==> match info {
            Ok(_) => e == Error::InvalidResponse,
            Err(cause) => e == cause,
        },
{
    let info = match info {
        Ok(info) => info,
        Err(e) => {
            return Err(e);
        },
    };
    let rights = HYPER_NATIVE_RIGHT_DUPLICATE | HYPER_NATIVE_RIGHT_TRANSFER
        | HYPER_NATIVE_RIGHT_INSPECT | HYPER_NATIVE_RIGHT_DERIVE;
    if info.kind.as_raw() != expected_kind || info.rights.bits() != rights {
        return Err(Error::InvalidResponse);
    }
    Ok(())
}

/// A derivation answer is adopted when the call succeeded with a nonzero
/// handle whose queried metadata reports `expected_kind` and exactly the
/// inspector rights.
pub open spec fn derivation_accepted(
    result: CallResult,
    info: Result<HandleInfo, Error>,
    expected_kind: u32,
) -> bool {
    &&& result.status == HYPER_NATIVE_STATUS_OK
    &&& result.value0 != 0
    &&& info matches Ok(i) && i.kind@ == expected_kind && i.rights@ == inspector_rights()
}

/// The error a rejected derivation answer reports.
pub open spec fn derivation_error(result: CallResult, info: Result<HandleInfo, Error>) -> Error {
    if result.status != HYPER_NATIVE_STATUS_OK {
        Error::Status(Status(result.status))
    } else if result.value0 == 0 {
        Error::InvalidResponse
    } else {
        match info {
            Err(e) => e,
            Ok(_) => Error::InvalidResponse,
        }
    }
}

/// Adopts the inspector handle published by one derivation call, given the
/// metadata queried for the published handle.
fn adopt_derived<T: TypedObject>(result: CallResult, info: Result<HandleInfo, Error>) -> (r: Result<
    OwnedHandle<T>,
    Error,
>)
    ensures
        r is Ok <==> derivation_accepted(result, info, T::kind_value()),
        r matches Ok(h) ==> h@ == result.value0,
        r matches Err(e) ==> e == derivation_error(result, info),
{
    let checked = Status::from_raw(result.status).into_result();
    if let Err(e) = checked {
        return Err(e);
    }
    if result.value0 == 0 {
        return Err(Error::InvalidResponse);
    }
    let checked = check_derived_inspector(info, T::kind().as_raw());
    if let Err(e) = checked {
        return Err(e);
    }
    Ok(OwnedHandle::from_raw_owned(result.value0))
}

/// Immutable task-observation authority.
pub struct TaskInspector {
    handle: OwnedHandle<TaskInspectorObject>,
}

impl TaskInspector {
    pub fn from_handle(handle: OwnedHandle<TaskInspectorObject>) -> (r: TaskInspector)
        ensures
            r.handle() == handle,
    {
        TaskInspector { handle }
    }

    /// The owned inspector handle.
    pub closed spec fn handle(&self) -> OwnedHandle<TaskInspectorObject> {
        self.handle
    }

    /// One page of processes, from the kernel's answer to the scan call and
    /// the records it wrote.
    pub fn scan_processes(&self, result: CallResult, records: &[HyperNativeTaskProcess]) -> (r:
        Result<InspectionPage<ProcessObservation, PROCESS_PAGE_CAPACITY>, Error>)
        requires
            records@.len() == PROCESS_PAGE_CAPACITY,
        ensures
            r is Ok <==> result.status == HYPER_NATIVE_STATUS_OK && result.value0
                <= PROCESS_PAGE_CAPACITY && forall|i: int|
                0 <= i < result.value0 ==> #[trigger] process_record_valid(records@[i]),
            r matches Ok(page) ==> {
                &&& page.spec_entries().len() == result.value0
                &&& forall|i: int|
                    0 <= i < result.value0 ==> #[trigger] process_observed(
                        page.spec_entries()[i],
                        records@[i],
                    )
                &&& page.spec_next() == scan_continuation(result.value1)
            },
            r matches Err(e) ==> if result.status != HYPER_NATIVE_STATUS_OK {
                e == Error::Status(Status(result.status))
            } else {
                e == Error::InvalidResponse
            },
    {
        decode_process_page(result, records)
    }

    /// One page of threads, from the kernel's answer to the scan call and
    /// the records it wrote.
    pub fn scan_threads(&self, result: CallResult, records: &[HyperNativeTaskThread]) -> (r:
        Result<InspectionPage<ThreadObservation, THREAD_PAGE_CAPACITY>, Error>)
        requires
            records@.len() == THREAD_PAGE_CAPACITY,
        ensures
            r is Ok <==> result.status == HYPER_NATIVE_STATUS_OK && result.value0
                <= THREAD_PAGE_CAPACITY && forall|i: int|
                0 <= i < result.value0 ==> #[trigger] thread_record_valid(records@[i]),
            r matches Ok(page) ==> {
                &&& page.spec_entries().len() == result.value0
                &&& forall|i: int|
                    0 <= i < result.value0 ==> #[trigger] thread_observed(
                        page.spec_entries()[i],
                        records@[i],
                    )
                &&& page.spec_next() == scan_continuation(result.value1)
            },
            r matches Err(e) ==> if result.status != HYPER_NATIVE_STATUS_OK {
                e == Error::Status(Status(result.status))
            } else {
                e == Error::InvalidResponse
            },
    {
        decode_thread_page(result, records)
    }

    /// Narrows observation to one process, from the kernel's answer to the derivation call and the metadata
    /// queried for the published handle. A rejected answer adopts nothing;
    /// the caller closes any handle it published.
    pub fn derive_process(&self, result: CallResult, info: Result<HandleInfo, Error>) -> (r: Result<
        TaskInspector,
        Error,
    >)
        ensures
            r is Ok <==> derivation_accepted(result, info, HYPER_NATIVE_OBJECT_TASK_INSPECTOR),
            r matches Ok(inspector) ==> inspector.handle()@ == result.value0,
            r matches Err(e) ==> e == derivation_error(result, info),
    {
        match adopt_derived::<TaskInspectorObject>(result, info) {
            Ok(handle) => Ok(TaskInspector { handle }),
            Err(e) => Err(e),
        }
    }

    /// Narrows observation to one task group, from the kernel's answer to the derivation call and the metadata
    /// queried for the published handle. A rejected answer adopts nothing;
    /// the caller closes any handle it published.
    pub fn derive_task_group(&self, result: CallResult, info: Result<HandleInfo, Error>) -> (r: Result<
        TaskInspector,
        Error,
    >)
        ensures
            r is Ok <==> derivation_accepted(result, info, HYPER_NATIVE_OBJECT_TASK_INSPECTOR),
            r matches Ok(inspector) ==> inspector.handle()@ == result.value0,
            r matches Err(e) ==> e == derivation_error(result, info),
    {
        match adopt_derived::<TaskInspectorObject>(result, info) {
            Ok(handle) => Ok(TaskInspector { handle }),
            Err(e) => Err(e),
        }
    }

    /// Narrows observation to one resource domain, from the kernel's answer to the derivation call and the metadata
    /// queried for the published handle. A rejected answer adopts nothing;
    /// the caller closes any handle it published.
    pub fn derive_resource_domain(&self, result: CallResult, info: Result<HandleInfo, Error>) -> (r: Result<
        TaskInspector,
        Error,
    >)
        ensures
            r is Ok <==> derivation_accepted(result, info, HYPER_NATIVE_OBJECT_TASK_INSPECTOR),
            r matches Ok(inspector) ==> inspector.handle()@ == result.value0,
            r matches Err(e) ==> e == derivation_error(result, info),
    {
        match adopt_derived::<TaskInspectorObject>(result, info) {
            Ok(handle) => Ok(TaskInspector { handle }),
            Err(e) => Err(e),
        }
    }

    pub fn as_handle_ref(&self) -> (r: HandleRef<'_, TaskInspectorObject>)
        ensures
            r@ == self.handle()@,
    {
        self.handle.as_handle_ref()
    }
}

/// Immutable kernel-object and Process-handle observation authority.
pub struct ObjectInspector {
    handle: OwnedHandle<ObjectInspectorObject>,
}

impl ObjectInspector {
    pub fn from_handle(handle: OwnedHandle<ObjectInspectorObject>) -> (r: ObjectInspector)
        ensures
            r.handle() == handle,
    {
        ObjectInspector { handle }
    }

    /// The owned inspector handle.
    pub closed spec fn handle(&self) -> OwnedHandle<ObjectInspectorObject> {
        self.handle
    }

    /// One page of kernel objects, from the kernel's answer to the scan call
    /// and the records it wrote.
    pub fn scan_objects(&self, result: CallResult, records: &[HyperNativeObjectInspection]) -> (r:
        Result<InspectionPage<ObjectObservation, OBJECT_PAGE_CAPACITY>, Error>)
        requires
            records@.len() == OBJECT_PAGE_CAPACITY,
        ensures
            r is Ok <==> result.status == HYPER_NATIVE_STATUS_OK && result.value0
                <= OBJECT_PAGE_CAPACITY && forall|i: int|
                0 <= i < result.value0 ==> #[trigger] object_record_valid(records@[i]),
            r matches Ok(page) ==> {
                &&& page.spec_entries().len() == result.value0
                &&& forall|i: int|
                    0 <= i < result.value0 ==> #[trigger] object_observed(
                        page.spec_entries()[i],
                        records@[i],
                    )
                &&& page.spec_next() == scan_continuation(result.value1)
            },
            r matches Err(e) ==> if result.status != HYPER_NATIVE_STATUS_OK {
                e == Error::Status(Status(result.status))
            } else {
                e == Error::InvalidResponse
            },
    {
        decode_object_page(result, records)
    }

    /// One page of process handles, from the kernel's answer to the scan
    /// call and the records it wrote.
    pub fn scan_handles(&self, result: CallResult, records: &[HyperNativeHandleInspection]) -> (r:
        Result<InspectionPage<HandleObservation, HANDLE_PAGE_CAPACITY>, Error>)
        requires
            records@.len() == HANDLE_PAGE_CAPACITY,
        ensures
            r is Ok <==> result.status == HYPER_NATIVE_STATUS_OK && result.value0
                <= HANDLE_PAGE_CAPACITY && forall|i: int|
                0 <= i < result.value0 ==> #[trigger] handle_record_valid(records@[i]),
            r matches Ok(page) ==> {
                &&& page.spec_entries().len() == result.value0
                &&& forall|i: int|
                    0 <= i < result.value0 ==> #[trigger] handle_observed(
                        page.spec_entries()[i],
                        records@[i],
                    )
                &&& page.spec_next() == scan_continuation(result.value1)
            },
            r matches Err(e) ==> if result.status != HYPER_NATIVE_STATUS_OK {
                e == Error::Status(Status(result.status))
            } else {
                e == Error::InvalidResponse
            },
    {
        decode_handle_page(result, records)
    }

    /// Narrows observation to one process, from the kernel's answer to the derivation call and the metadata
    /// queried for the published handle. A rejected answer adopts nothing;
    /// the caller closes any handle it published.
    pub fn derive_process(&self, result: CallResult, info: Result<HandleInfo, Error>) -> (r: Result<
        ObjectInspector,
        Error,
    >)
        ensures
            r is Ok <==> derivation_accepted(result, info, HYPER_NATIVE_OBJECT_OBJECT_INSPECTOR),
            r matches Ok(inspector) ==> inspector.handle()@ == result.value0,
            r matches Err(e) ==> e == derivation_error(result, info),
    {
        match adopt_derived::<ObjectInspectorObject>(result, info) {
            Ok(handle) => Ok(ObjectInspector { handle }),
            Err(e) => Err(e),
        }
    }

    /// Narrows observation to one task group, from the kernel's answer to the derivation call and the metadata
    /// queried for the published handle. A rejected answer adopts nothing;
    /// the caller closes any handle it published.
    pub fn derive_task_group(&self, result: CallResult, info: Result<HandleInfo, Error>) -> (r: Result<
        ObjectInspector,
        Error,
    >)
        ensures
            r is Ok <==> derivation_accepted(result, info, HYPER_NATIVE_OBJECT_OBJECT_INSPECTOR),
            r matches Ok(inspector) ==> inspector.handle()@ == result.value0,
            r matches Err(e) ==> e == derivation_error(result, info),
    {
        match adopt_derived::<ObjectInspectorObject>(result, info) {
            Ok(handle) => Ok(ObjectInspector { handle }),
            Err(e) => Err(e),
        }
    }

    /// Narrows observation to one resource domain, from the kernel's answer to the derivation call and the metadata
    /// queried for the published handle. A rejected answer adopts nothing;
    /// the caller closes any handle it published.
    pub fn derive_resource_domain(&self, result: CallResult, info: Result<HandleInfo, Error>) -> (r: Result<
        ObjectInspector,
        Error,
    >)
        ensures
            r is Ok <==> derivation_accepted(result, info, HYPER_NATIVE_OBJECT_OBJECT_INSPECTOR),
            r matches Ok(inspector) ==> inspector.handle()@ == result.value0,
            r matches Err(e) ==> e == derivation_error(result, info),
    {
        match adopt_derived::<ObjectInspectorObject>(result, info) {
            Ok(handle) => Ok(ObjectInspector { handle }),
            Err(e) => Err(e),
        }
    }

    pub fn as_handle_ref(&self) -> (r: HandleRef<'_, ObjectInspectorObject>)
        ensures
            r@ == self.handle()@,
    {
        self.handle.as_handle_ref()
    }
}

} // verus!
