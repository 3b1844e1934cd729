//! Typed description of the Native ABI: features, statuses, object kinds,
//! rights, signals, constants, records, syscalls and semantic rules.

use vstd::prelude::*;

verus! {

/// Number of machine argument registers available to one syscall.
pub const SYSCALL_ARGUMENT_REGISTERS: usize = 6;

/// Number of machine result registers available to one syscall.
pub const SYSCALL_RESULT_REGISTERS: usize = 2;

/// The transfer right bit as a mask.
pub const RIGHT_TRANSFER: u64 = 2;

/// The duplicate right bit as a mask.
pub const RIGHT_DUPLICATE: u64 = 1;

#[derive(Clone, Copy, Debug, Eq, PartialEq)]
pub struct AbiSchema {
    pub revision: u64,
    pub features: &'static [Feature],
    pub statuses: &'static [Status],
    pub object_kinds: &'static [ObjectKind],
    pub rights: &'static [Right],
    pub signals: &'static [Signal],
    pub constants: &'static [AbiConstant],
    pub records: &'static [Record],
    pub syscalls: &'static [Syscall],
    pub semantic_rules: &'static [&'static str],
}

#[derive(Clone, Copy, Debug, Eq, PartialEq)]
pub struct Status {
    pub value: i64,
    pub name: &'static str,
}

#[derive(Clone, Copy, Debug, Eq, PartialEq)]
pub struct Feature {
    pub bit: u8,
    pub name: &'static str,
}

#[derive(Clone, Copy, Debug, Eq, PartialEq)]
pub struct ObjectKind {
    pub value: u32,
    pub name: &'static str,
    pub transfer: TransferClass,
}

#[derive(Clone, Copy, Debug, Eq, PartialEq)]
pub enum TransferClass {
    Forbidden,
    General,
    RendezvousOnly,
}

#[derive(Clone, Copy, Debug, Eq, PartialEq)]
pub struct Right {
    pub bit: u8,
    pub name: &'static str,
}

#[derive(Clone, Copy, Debug, Eq, PartialEq)]
pub struct Signal {
    pub object: &'static str,
    pub bit: u8,
    pub name: &'static str,
}

#[derive(Clone, Copy, Debug, Eq, PartialEq)]
pub struct AbiConstant {
    pub name: &'static str,
    pub value: u64,
}

#[derive(Clone, Copy, Debug, Eq, PartialEq)]
pub struct Record {
    pub name: &'static str,
    pub fields: &'static [Field],
    /// Smallest prefix which preserves this record's published ABI contract.
    pub minimum_size: u16,
    pub size: u16,
    pub alignment: u8,
}

#[derive(Clone, Copy, Debug, Eq, PartialEq)]
pub struct Field {
    pub name: &'static str,
    pub kind: FieldKind,
    pub offset: u16,
}

#[derive(Clone, Copy, Debug, Eq, PartialEq)]
pub enum FieldKind {
    U32,
    U64,
    Bytes(u16),
}

/// Byte size of one field kind.
pub open spec fn field_size(kind: FieldKind) -> u16 {
    match kind {
        FieldKind::U32 => 4,
        FieldKind::U64 => 8,
        FieldKind::Bytes(size) => size,
    }
}

/// Alignment of one field kind.
pub open spec fn field_alignment(kind: FieldKind) -> u8 {
    match kind {
        FieldKind::U32 => 4,
        FieldKind::U64 => 8,
        FieldKind::Bytes(_) => 1,
    }
}

impl FieldKind {
    pub fn size(self) -> (r: u16)
        ensures
            r == field_size(self),
    {
        match self {
            FieldKind::U32 => 4,
            FieldKind::U64 => 8,
            FieldKind::Bytes(size) => size,
        }
    }

    pub fn alignment(self) -> (r: u8)
        ensures
            r == field_alignment(self),
    {
        match self {
            FieldKind::U32 => 4,
            FieldKind::U64 => 8,
            FieldKind::Bytes(_) => 1,
        }
    }
}

#[derive(Clone, Copy, Debug, Eq, PartialEq)]
pub struct Syscall {
    pub number: u32,
    pub name: &'static str,
    pub feature: FeatureGate,
    pub arguments: &'static [Argument],
    pub results: &'static [ResultValue],
    pub blocking: BlockingClass,
    pub cancellation: CancellationClass,
    pub restart: RestartClass,
    pub completion: CompletionClass,
    pub audit: AuditClass,
    pub flags: FlagPolicy,
    /// Auxiliary results which remain defined for specific failure statuses.
    pub failure_results: &'static [FailureResults],
}

#[derive(Clone, Copy, Debug, Eq, PartialEq)]
pub struct FailureResults {
    pub status: &'static str,
    pub results: &'static [&'static str],
}

#[derive(Clone, Copy, Debug, Eq, PartialEq)]
pub enum FeatureGate {
    Core,
    Named(&'static str),
}

#[derive(Clone, Copy, Debug, Eq, PartialEq)]
pub struct Argument {
    pub name: &'static str,
    pub kind: ValueKind,
    pub handle: Option<HandleArgument>,
    pub memory: Option<UserMemory>,
}

#[derive(Clone, Copy, Debug, Eq, PartialEq)]
pub struct ResultValue {
    pub name: &'static str,
    pub kind: ValueKind,
    pub handle: Option<ProducedHandle>,
}

#[derive(Clone, Copy, Debug, Eq, PartialEq)]
pub enum ValueKind {
    U32,
    U64,
    I64,
    Handle,
    UserAddress,
    ByteCount,
    ElementCount,
    Rights,
}

#[derive(Clone, Copy, Debug, Eq, PartialEq)]
pub struct HandleArgument {
    pub object: ObjectConstraint,
    pub required_rights: u64,
    pub disposition: HandleDisposition,
}

#[derive(Clone, Copy, Debug, Eq, PartialEq)]
pub enum ObjectConstraint {
    Any,
    Kind(&'static str),
}

#[derive(Clone, Copy, Debug, Eq, PartialEq)]
pub enum HandleDisposition {
    Borrow,
    ConsumeOnCommit,
    ByOperation { argument: &'static str, operations: &'static [HandleOperation] },
}

#[derive(Clone, Copy, Debug, Eq, PartialEq)]
pub struct HandleOperation {
    pub name: &'static str,
    pub value: u32,
    pub disposition: OperationDisposition,
    /// Rights required in addition to the handle argument's common rights.
    pub additional_rights: u64,
}

#[derive(Clone, Copy, Debug, Eq, PartialEq)]
pub enum OperationDisposition {
    Borrow,
    ConsumeOnCommit,
}

#[derive(Clone, Copy, Debug, Eq, PartialEq)]
pub struct ProducedHandle {
    pub object: ProducedObject,
    pub rights: ProducedRights,
}

#[derive(Clone, Copy, Debug, Eq, PartialEq)]
pub enum ProducedObject {
    SameAsArgument(&'static str),
    Kind(&'static str),
}

#[derive(Clone, Copy, Debug, Eq, PartialEq)]
pub enum ProducedRights {
    RequestedSubsetOf(&'static str),
    ExactRequested {
        argument: &'static str,
        allowed_rights: u64,
        /// Optional source handle which must already carry every requested right.
        authority_source: Option<&'static str>,
    },
    Fixed(u64),
}

#[derive(Clone, Copy, Debug, Eq, PartialEq)]
pub struct UserMemory {
    pub direction: MemoryDirection,
    pub length: MemoryLength,
    pub record: Option<&'static str>,
    pub handles: Option<IndirectHandles>,
    pub validation_order: u8,
}

#[derive(Clone, Copy, Debug, Eq, PartialEq)]
pub enum MemoryLength {
    Bytes { argument: &'static str, maximum_bytes: u32 },
    Elements { argument: &'static str, maximum_elements: u32, element_size: u16 },
}

#[derive(Clone, Copy, Debug, Eq, PartialEq)]
pub enum IndirectHandles {
    /// Input records borrow handles for the duration of one syscall.
    BorrowRecords { handle_field: &'static str, required_rights: u64 },
    /// Input records describe conditional borrow-or-move operations which all
    /// commit together only when the syscall returns `OK`.
    ConsumeRecords {
        handle_field: &'static str,
        rights_field: &'static str,
        expected_kind_field: &'static str,
        operation_field: &'static str,
        common_rights: u64,
        operations: &'static [HandleOperation],
        commit: CapabilityCommit,
    },
    /// In/out records declare exact receive authority before the kernel
    /// publishes transferred handles into them.
    ProduceTransferred {
        handle_field: &'static str,
        rights_field: &'static str,
        expected_kind_field: &'static str,
        flags_field: &'static str,
        commit: CapabilityCommit,
    },
}

#[derive(Clone, Copy, Debug, Eq, PartialEq)]
pub enum CapabilityCommit {
    /// Capability ownership and live-handle publication commit only on `OK`.
    AtomicOnOk,
}

#[derive(Clone, Copy, Debug, Eq, PartialEq)]
pub enum MemoryDirection {
    Read,
    Write,
    ReadWrite,
}

#[derive(Clone, Copy, Debug, Eq, PartialEq)]
pub enum BlockingClass {
    Never,
    MayBlock,
}

#[derive(Clone, Copy, Debug, Eq, PartialEq)]
pub enum CancellationClass {
    /// Rendered as `None` in the reference.
    NotCancellable,
    Explicit,
}

#[derive(Clone, Copy, Debug, Eq, PartialEq)]
pub enum RestartClass {
    Never,
}

#[derive(Clone, Copy, Debug, Eq, PartialEq)]
pub enum CompletionClass {
    Returns,
    NoReturn,
}

#[derive(Clone, Copy, Debug, Eq, PartialEq)]
pub enum AuditClass {
    Abi,
    Capability,
    Object,
    Task,
}

#[derive(Clone, Copy, Debug, Eq, PartialEq)]
pub enum FlagPolicy {
    /// Rendered as `None` in the reference.
    NoFlags,
    Strict,
    Flexible,
}

} // verus!
