//! Validation of syscall declarations: arguments, user memory, indirect
//! handles, handle operations, produced handles and failure results.

use vstd::prelude::*;
use crate::schema::{
    AbiSchema, Argument, CompletionClass, FailureResults, FeatureGate, Field, FieldKind,
    HandleArgument, HandleDisposition, HandleOperation, IndirectHandles, MemoryDirection,
    MemoryLength, ObjectConstraint, OperationDisposition, ProducedHandle, ProducedObject,
    ProducedRights, Record, ResultValue, Syscall, UserMemory, ValueKind, RIGHT_DUPLICATE,
    RIGHT_TRANSFER, SYSCALL_ARGUMENT_REGISTERS, SYSCALL_RESULT_REGISTERS,
};
use crate::text::{check_identifier, dec, is_identifier, push_dec, push_str, str_eq};
use crate::validate::{
    contains_str, contains_u64, find_object_kind, identifier_error, identifier_message, invalid, reports, names_object_kind, text2, text3, text4, text5, Error,
};

verus! {

// ---------------------------------------------------------------------------
// Specification.

/// Some argument of the syscall has this name and value kind.
pub open spec fn has_argument(args: Seq<Argument>, name: Seq<char>, kind: ValueKind) -> bool {
    exists|k: int| 0 <= k < args.len() && (#[trigger] args[k]).name@ == name && args[k].kind == kind
}

/// Some field of the record has this name and kind.
pub open spec fn has_field(record: Record, name: Seq<char>, kind: FieldKind) -> bool {
    exists|k: int|
        0 <= k < record.fields@.len() && (#[trigger] record.fields@[k]).name@ == name
            && record.fields@[k].kind == kind
}

pub open spec fn operation_set_valid(ops: Seq<HandleOperation>, mask: u64) -> bool {
    &&& ops.len() > 0
    &&& forall|i: int|
        0 <= i < ops.len() ==> is_identifier((#[trigger] ops[i]).name@) && ops[i].additional_rights
            & !mask == 0
    &&& forall|i: int, j: int|
        0 <= i < j < ops.len() ==> (#[trigger] ops[i]).name@ != (#[trigger] ops[j]).name@
    &&& forall|i: int, j: int|
        0 <= i < j < ops.len() ==> (#[trigger] ops[i]).value != (#[trigger] ops[j]).value
}

pub open spec fn transfer_operations_valid(common_rights: u64, ops: Seq<HandleOperation>) -> bool {
    &&& common_rights & RIGHT_TRANSFER != 0
    &&& exists|i: int|
        0 <= i < ops.len() && (#[trigger] ops[i]).name@ == "move"@ && ops[i].value == 0
            && ops[i].disposition == OperationDisposition::ConsumeOnCommit
    &&& exists|i: int|
        0 <= i < ops.len() && (#[trigger] ops[i]).name@ == "duplicate"@ && ops[i].value == 1
            && ops[i].disposition == OperationDisposition::Borrow && ops[i].additional_rights
            & RIGHT_DUPLICATE != 0
}

pub open spec fn handle_argument_ok(
    schema: AbiSchema,
    sc: Syscall,
    h: HandleArgument,
    mask: u64,
) -> bool {
    &&& h.required_rights & !mask == 0
    &&& (h.object matches ObjectConstraint::Kind(k) ==> names_object_kind(
        schema.object_kinds@,
        k@,
    ))
    &&& (h.disposition matches HandleDisposition::ByOperation { argument, operations } ==> {
        &&& has_argument(sc.arguments@, argument@, ValueKind::U32)
        &&& operation_set_valid(operations@, mask)
        &&& transfer_operations_valid(h.required_rights, operations@)
    })
}

/// The memory length argument's name, expected kind, byte bound and element size.
pub open spec fn length_argument(m: UserMemory) -> Seq<char> {
    match m.length {
        MemoryLength::Bytes { argument, .. } => argument@,
        MemoryLength::Elements { argument, .. } => argument@,
    }
}

pub open spec fn length_kind(m: UserMemory) -> ValueKind {
    match m.length {
        MemoryLength::Bytes { .. } => ValueKind::ByteCount,
        MemoryLength::Elements { .. } => ValueKind::ElementCount,
    }
}

pub open spec fn maximum_bytes(m: UserMemory) -> int {
    match m.length {
        MemoryLength::Bytes { maximum_bytes, .. } => maximum_bytes as int,
        MemoryLength::Elements { maximum_elements, element_size, .. } => maximum_elements
            * element_size,
    }
}

pub open spec fn length_bound_ok(m: UserMemory) -> bool {
    match m.length {
        MemoryLength::Bytes { maximum_bytes, .. } => maximum_bytes != 0,
        MemoryLength::Elements { maximum_elements, element_size, .. } => maximum_elements != 0
            && element_size != 0 && maximum_elements * element_size <= u32::MAX,
    }
}

/// The record may hold the memory range and matches its element stride.
pub open spec fn record_fits(m: UserMemory, r: Record) -> bool {
    &&& r.size <= maximum_bytes(m)
    &&& (m.length matches MemoryLength::Elements { element_size, .. } ==> element_size == r.size)
}

pub open spec fn indirect_handles_ok(
    m: UserMemory,
    h: IndirectHandles,
    record: Option<Record>,
    mask: u64,
) -> bool {
    &&& m.length is Elements
    &&& match h {
        IndirectHandles::BorrowRecords { handle_field, required_rights } => {
            &&& m.direction == MemoryDirection::Read
            &&& required_rights & !mask == 0
            &&& record is Some
            &&& has_field(record->0, handle_field@, FieldKind::U64)
        },
        IndirectHandles::ConsumeRecords {
            handle_field,
            rights_field,
            expected_kind_field,
            operation_field,
            common_rights,
            operations,
            ..
        } => {
            &&& m.direction == MemoryDirection::Read
            &&& common_rights & !mask == 0
            &&& record is Some
            &&& has_field(record->0, handle_field@, FieldKind::U64)
            &&& has_field(record->0, rights_field@, FieldKind::U64)
            &&& has_field(record->0, expected_kind_field@, FieldKind::U32)
            &&& has_field(record->0, operation_field@, FieldKind::U32)
            &&& distinct4(handle_field@, rights_field@, expected_kind_field@, operation_field@)
            &&& operation_set_valid(operations@, mask)
            &&& transfer_operations_valid(common_rights, operations@)
        },
        IndirectHandles::ProduceTransferred {
            handle_field,
            rights_field,
            expected_kind_field,
            flags_field,
            ..
        } => {
            &&& m.direction == MemoryDirection::ReadWrite
            &&& record is Some
            &&& has_field(record->0, handle_field@, FieldKind::U64)
            &&& has_field(record->0, rights_field@, FieldKind::U64)
            &&& has_field(record->0, expected_kind_field@, FieldKind::U32)
            &&& has_field(record->0, flags_field@, FieldKind::U32)
            &&& distinct4(handle_field@, rights_field@, expected_kind_field@, flags_field@)
        },
    }
}

pub open spec fn distinct4(a: Seq<char>, b: Seq<char>, c: Seq<char>, d: Seq<char>) -> bool {
    a != b && a != c && a != d && b != c && b != d && c != d
}

/// The memory description with the record it names (if any) already selected.
pub open spec fn memory_with_record_ok(m: UserMemory, record: Option<Record>, mask: u64) -> bool {
    &&& (record matches Some(r) ==> record_fits(m, r))
    &&& (m.handles matches Some(h) ==> indirect_handles_ok(m, h, record, mask))
}

pub open spec fn memory_ok(schema: AbiSchema, sc: Syscall, m: UserMemory, mask: u64) -> bool {
    &&& length_bound_ok(m)
    &&& has_argument(sc.arguments@, length_argument(m), length_kind(m))
    &&& match m.record {
        None => memory_with_record_ok(m, None, mask),
        Some(name) => exists|k: int|
            0 <= k < schema.records@.len() && (#[trigger] schema.records@[k]).name@ == name@
                && memory_with_record_ok(m, Some(schema.records@[k]), mask),
    }
}

pub open spec fn argument_ok(schema: AbiSchema, sc: Syscall, a: Argument, mask: u64) -> bool {
    &&& is_identifier(a.name@)
    &&& argument_metadata_ok(schema, sc, a, mask)
    &&& (a.memory matches Some(m) ==> memory_ok(schema, sc, m, mask))
}

/// Number of arguments which describe user memory.
pub open spec fn memory_count(args: Seq<Argument>) -> nat
    decreases args.len(),
{
    if args.len() == 0 {
        0
    } else {
        memory_count(args.drop_last()) + (if args.last().memory is Some {
            1nat
        } else {
            0nat
        })
    }
}

pub open spec fn has_memory_order(args: Seq<Argument>, order: int) -> bool {
    exists|k: int|
        0 <= k < args.len() && (#[trigger] args[k]).memory is Some
            && args[k].memory->0.validation_order == order
}

/// No two arguments share a name.
pub open spec fn argument_names_distinct(args: Seq<Argument>) -> bool {
    forall|i: int, j: int|
        0 <= i < j < args.len() ==> (#[trigger] args[i]).name@ != (#[trigger] args[j]).name@
}

pub open spec fn arguments_valid(schema: AbiSchema, sc: Syscall, mask: u64) -> bool {
    let args = sc.arguments@;
    &&& forall|i: int| 0 <= i < args.len() ==> #[trigger] argument_ok(schema, sc, args[i], mask)
    &&& argument_names_distinct(args)
    &&& forall|i: int, j: int|
        0 <= i < j < args.len() && (#[trigger] args[i]).memory is Some
            && (#[trigger] args[j]).memory is Some ==> args[i].memory->0.validation_order
            != args[j].memory->0.validation_order
    &&& forall|n: int| 0 <= n < memory_count(args) ==> #[trigger] has_memory_order(args, n)
}

pub open spec fn produced_handle_ok(
    schema: AbiSchema,
    sc: Syscall,
    h: ProducedHandle,
    mask: u64,
) -> bool {
    let args = sc.arguments@;
    &&& match h.object {
        ProducedObject::SameAsArgument(a) => has_argument(args, a@, ValueKind::Handle),
        ProducedObject::Kind(k) => names_object_kind(schema.object_kinds@, k@),
    }
    &&& match h.rights {
        ProducedRights::RequestedSubsetOf(a) => has_argument(args, a@, ValueKind::Rights),
        ProducedRights::ExactRequested { argument, allowed_rights, authority_source } => {
            &&& has_argument(args, argument@, ValueKind::Rights)
            &&& allowed_rights != 0
            &&& allowed_rights & !mask == 0
            &&& (authority_source matches Some(s) ==> has_argument(args, s@, ValueKind::Handle))
        },
        ProducedRights::Fixed(rights) => rights & !mask == 0,
    }
}

pub open spec fn result_ok(schema: AbiSchema, sc: Syscall, r: ResultValue, mask: u64) -> bool {
    &&& is_identifier(r.name@)
    &&& (r.handle is Some) == (r.kind == ValueKind::Handle)
    &&& (r.handle matches Some(h) ==> produced_handle_ok(schema, sc, h, mask))
}

pub open spec fn names_failure_status(schema: AbiSchema, name: Seq<char>) -> bool {
    exists|k: int|
        0 <= k < schema.statuses@.len() && (#[trigger] schema.statuses@[k]).name@ == name
            && schema.statuses@[k].value != 0
}

pub open spec fn names_result(sc: Syscall, name: Seq<char>) -> bool {
    exists|k: int| 0 <= k < sc.results@.len() && (#[trigger] sc.results@[k]).name@ == name
}

pub open spec fn failure_ok(schema: AbiSchema, sc: Syscall, f: FailureResults) -> bool {
    let names = f.results@;
    &&& is_identifier(f.status@)
    &&& names_failure_status(schema, f.status@)
    &&& names.len() > 0
    &&& forall|i: int, j: int|
        0 <= i < j < names.len() ==> (#[trigger] names[i])@ != (#[trigger] names[j])@
    &&& forall|i: int| 0 <= i < names.len() ==> names_result(sc, (#[trigger] names[i])@)
}

pub open spec fn results_valid(schema: AbiSchema, sc: Syscall, mask: u64) -> bool {
    let rs = sc.results@;
    let fs = sc.failure_results@;
    &&& forall|i: int| 0 <= i < rs.len() ==> #[trigger] result_ok(schema, sc, rs[i], mask)
    &&& forall|i: int, j: int|
        0 <= i < j < rs.len() ==> (#[trigger] rs[i]).name@ != (#[trigger] rs[j]).name@
    &&& forall|i: int| 0 <= i < fs.len() ==> #[trigger] failure_ok(schema, sc, fs[i])
    &&& forall|i: int, j: int|
        0 <= i < j < fs.len() ==> (#[trigger] fs[i]).status@ != (#[trigger] fs[j]).status@
}

pub open spec fn feature_gate_ok(schema: AbiSchema, gate: FeatureGate) -> bool {
    match gate {
        FeatureGate::Core => true,
        FeatureGate::Named(name) => exists|k: int|
            0 <= k < schema.features@.len() && (#[trigger] schema.features@[k]).name@ == name@,
    }
}

pub open spec fn syscall_ok(schema: AbiSchema, sc: Syscall, mask: u64) -> bool {
    &&& is_identifier(sc.name@)
    &&& feature_gate_ok(schema, sc.feature)
    &&& sc.arguments@.len() <= SYSCALL_ARGUMENT_REGISTERS
    &&& sc.results@.len() <= SYSCALL_RESULT_REGISTERS
    &&& (sc.completion == CompletionClass::NoReturn ==> sc.results@.len() == 0)
    &&& arguments_valid(schema, sc, mask)
    &&& results_valid(schema, sc, mask)
}

pub open spec fn syscalls_valid(schema: AbiSchema, mask: u64) -> bool {
    let cs = schema.syscalls@;
    &&& forall|i: int| 0 <= i < cs.len() ==> #[trigger] syscall_ok(schema, cs[i], mask)
    &&& forall|i: int, j: int|
        0 <= i < j < cs.len() ==> (#[trigger] cs[i]).name@ != (#[trigger] cs[j]).name@
    &&& forall|i: int, j: int|
        0 <= i < j < cs.len() ==> (#[trigger] cs[i]).number < (#[trigger] cs[j]).number
}

/// Record names are unique, so "the record named n" is well defined.
pub open spec fn record_names_distinct(schema: AbiSchema) -> bool {
    forall|i: int, j: int|
        0 <= i < j < schema.records@.len() ==> (#[trigger] schema.records@[i]).name@
            != (#[trigger] schema.records@[j]).name@
}


// ---------------------------------------------------------------------------
// Diagnostics: the message of the first rule that a declaration breaks.

/// The first of two diagnostics.
pub open spec fn first_of(a: Option<Seq<char>>, b: Option<Seq<char>>) -> Option<Seq<char>> {
    if a is Some {
        a
    } else {
        b
    }
}

/// `syscall S memory argument A`.
pub open spec fn memory_prefix(sc: Syscall, a: Argument) -> Seq<char> {
    "syscall "@ + sc.name@ + " memory argument "@ + a.name@
}

/// `syscall S argument A`.
pub open spec fn argument_prefix(sc: Syscall, a: Argument) -> Seq<char> {
    "syscall "@ + sc.name@ + " argument "@ + a.name@
}

/// `syscall S result R`.
pub open spec fn result_prefix(sc: Syscall, r: ResultValue) -> Seq<char> {
    "syscall "@ + sc.name@ + " result "@ + r.name@
}

pub open spec fn record_field_diagnostic(
    record: Record,
    field: Seq<char>,
    kind: FieldKind,
    sc: Syscall,
    a: Argument,
) -> Option<Seq<char>> {
    if has_field(record, field, kind) {
        None
    } else {
        Some(memory_prefix(sc, a) + " names invalid "@ + record.name@ + " field "@ + field)
    }
}

pub open spec fn distinct_fields_diagnostic(
    sc: Syscall,
    a: Argument,
    f1: Seq<char>,
    f2: Seq<char>,
    f3: Seq<char>,
    f4: Seq<char>,
) -> Option<Seq<char>> {
    if distinct4(f1, f2, f3, f4) {
        None
    } else {
        Some(memory_prefix(sc, a) + " repeats transactional record fields"@)
    }
}

/// The diagnostic of handle operation `i`, given the operations before it.
pub open spec fn operation_diagnostic(
    syscall: Seq<char>,
    argument: Seq<char>,
    ops: Seq<HandleOperation>,
    mask: u64,
    i: int,
) -> Option<Seq<char>> {
    let op = ops[i];
    if !is_identifier(op.name@) {
        Some(identifier_message("handle operation"@, op.name@))
    } else if exists|k: int|
        0 <= k < i && ((#[trigger] ops[k]).name@ == op.name@ || ops[k].value == op.value) {
        Some("syscall "@ + syscall + " handle "@ + argument + " repeats a handle operation"@)
    } else if op.additional_rights & !mask != 0 {
        Some(
            "syscall "@ + syscall + " handle "@ + argument + " operation "@ + op.name@
                + " requires undeclared rights"@,
        )
    } else {
        None
    }
}

pub open spec fn operations_diagnostic_from(
    syscall: Seq<char>,
    argument: Seq<char>,
    ops: Seq<HandleOperation>,
    mask: u64,
    i: int,
) -> Option<Seq<char>>
    decreases ops.len() - i,
{
    if 0 <= i < ops.len() {
        if operation_diagnostic(syscall, argument, ops, mask, i) is Some {
            operation_diagnostic(syscall, argument, ops, mask, i)
        } else {
            operations_diagnostic_from(syscall, argument, ops, mask, i + 1)
        }
    } else {
        None
    }
}

pub open spec fn handle_operations_diagnostic(
    syscall: Seq<char>,
    argument: Seq<char>,
    ops: Seq<HandleOperation>,
    mask: u64,
) -> Option<Seq<char>> {
    if ops.len() == 0 {
        Some("syscall "@ + syscall + " handle "@ + argument + " has no operations"@)
    } else {
        operations_diagnostic_from(syscall, argument, ops, mask, 0)
    }
}

pub open spec fn transfer_operations_diagnostic(
    sc: Syscall,
    a: Argument,
    common_rights: u64,
    ops: Seq<HandleOperation>,
) -> Option<Seq<char>> {
    if !(common_rights & RIGHT_TRANSFER != 0 && exists|i: int|
        0 <= i < ops.len() && (#[trigger] ops[i]).name@ == "move"@ && ops[i].value == 0
            && ops[i].disposition == OperationDisposition::ConsumeOnCommit) {
        Some(argument_prefix(sc, a) + " has an invalid move operation"@)
    } else if !(exists|i: int|
        0 <= i < ops.len() && (#[trigger] ops[i]).name@ == "duplicate"@ && ops[i].value == 1
            && ops[i].disposition == OperationDisposition::Borrow && ops[i].additional_rights
            & RIGHT_DUPLICATE != 0) {
        Some(argument_prefix(sc, a) + " has an invalid duplicate operation"@)
    } else {
        None
    }
}

pub open spec fn indirect_handles_diagnostic(
    sc: Syscall,
    a: Argument,
    m: UserMemory,
    h: IndirectHandles,
    record: Option<Record>,
    mask: u64,
) -> Option<Seq<char>> {
    if !(m.length is Elements) {
        Some(memory_prefix(sc, a) + " describes handles without element length"@)
    } else {
        match h {
            IndirectHandles::BorrowRecords { handle_field, required_rights } => {
                if m.direction != MemoryDirection::Read {
                    Some(
                        "syscall "@ + sc.name@ + " borrowed-handle argument "@ + a.name@
                            + " is not input memory"@,
                    )
                } else if required_rights & !mask != 0 {
                    Some(argument_prefix(sc, a) + " indirectly requires undeclared rights"@)
                } else if record is None {
                    Some(
                        "syscall "@ + sc.name@ + " borrowed-handle argument "@ + a.name@
                            + " has no record"@,
                    )
                } else {
                    record_field_diagnostic(record->0, handle_field@, FieldKind::U64, sc, a)
                }
            },
            IndirectHandles::ConsumeRecords {
                handle_field,
                rights_field,
                expected_kind_field,
                operation_field,
                common_rights,
                operations,
                ..
            } => {
                if m.direction != MemoryDirection::Read {
                    Some(
                        "syscall "@ + sc.name@ + " consumed-handle argument "@ + a.name@
                            + " is not input memory"@,
                    )
                } else if common_rights & !mask != 0 {
                    Some(argument_prefix(sc, a) + " indirectly requires undeclared rights"@)
                } else if record is None {
                    Some(
                        "syscall "@ + sc.name@ + " consumed-handle argument "@ + a.name@
                            + " has no record"@,
                    )
                } else {
                    let r = record->0;
                    first_of(
                        record_field_diagnostic(r, handle_field@, FieldKind::U64, sc, a),
                        first_of(
                            record_field_diagnostic(r, rights_field@, FieldKind::U64, sc, a),
                            first_of(
                                record_field_diagnostic(r, expected_kind_field@, FieldKind::U32, sc, a),
                                first_of(
                                    record_field_diagnostic(r, operation_field@, FieldKind::U32, sc, a),
                                    first_of(
                                        distinct_fields_diagnostic(
                                            sc,
                                            a,
                                            handle_field@,
                                            rights_field@,
                                            expected_kind_field@,
                                            operation_field@,
                                        ),
                                        first_of(
                                            handle_operations_diagnostic(
                                                sc.name@,
                                                a.name@,
                                                operations@,
                                                mask,
                                            ),
                                            transfer_operations_diagnostic(
                                                sc,
                                                a,
                                                common_rights,
                                                operations@,
                                            ),
                                        ),
                                    ),
                                ),
                            ),
                        ),
                    )
                }
            },
            IndirectHandles::ProduceTransferred {
                handle_field,
                rights_field,
                expected_kind_field,
                flags_field,
                ..
            } => {
                if m.direction != MemoryDirection::ReadWrite {
                    Some(
                        "syscall "@ + sc.name@ + " transferred-handle output "@ + a.name@
                            + " must be in/out memory"@,
                    )
                } else if record is None {
                    Some(
                        "syscall "@ + sc.name@ + " transferred-handle output "@ + a.name@
                            + " has no record"@,
                    )
                } else {
                    let r = record->0;
                    first_of(
                        record_field_diagnostic(r, handle_field@, FieldKind::U64, sc, a),
                        first_of(
                            record_field_diagnostic(r, rights_field@, FieldKind::U64, sc, a),
                            first_of(
                                record_field_diagnostic(r, expected_kind_field@, FieldKind::U32, sc, a),
                                first_of(
                                    record_field_diagnostic(r, flags_field@, FieldKind::U32, sc, a),
                                    distinct_fields_diagnostic(
                                        sc,
                                        a,
                                        handle_field@,
                                        rights_field@,
                                        expected_kind_field@,
                                        flags_field@,
                                    ),
                                ),
                            ),
                        ),
                    )
                }
            },
        }
    }
}

pub open spec fn object_kind_name_diagnostic(schema: AbiSchema, syscall: Seq<char>, kind: Seq<char>) -> Option<
    Seq<char>,
> {
    if names_object_kind(schema.object_kinds@, kind) {
        None
    } else {
        Some("syscall "@ + syscall + " names unknown object kind "@ + kind)
    }
}

pub open spec fn handle_argument_diagnostic(
    schema: AbiSchema,
    sc: Syscall,
    a: Argument,
    h: HandleArgument,
    mask: u64,
) -> Option<Seq<char>> {
    if h.required_rights & !mask != 0 {
        Some(argument_prefix(sc, a) + " requires undeclared rights"@)
    } else {
        first_of(
            match h.object {
                ObjectConstraint::Kind(k) => object_kind_name_diagnostic(schema, sc.name@, k@),
                _ => None,
            },
            match h.disposition {
                HandleDisposition::ByOperation { argument, operations } => {
                    if !has_argument(sc.arguments@, argument@, ValueKind::U32) {
                        Some(
                            "syscall "@ + sc.name@ + " handle "@ + a.name@
                                + " names invalid operation argument "@ + argument@,
                        )
                    } else {
                        first_of(
                            handle_operations_diagnostic(sc.name@, a.name@, operations@, mask),
                            transfer_operations_diagnostic(sc, a, h.required_rights, operations@),
                        )
                    }
                },
                _ => None,
            },
        )
    }
}

/// The first argument named `name` has value kind `kind`.
pub open spec fn first_named_has_kind(args: Seq<Argument>, name: Seq<char>, kind: ValueKind) -> bool {
    exists|k: int|
        0 <= k < args.len() && (#[trigger] args[k]).name@ == name && args[k].kind == kind
            && forall|j: int| 0 <= j < k ==> (#[trigger] args[j]).name@ != name
}

/// The record named `name`, when one is declared.
pub open spec fn record_named(schema: AbiSchema, name: Seq<char>) -> Option<Record> {
    if exists|k: int| 0 <= k < schema.records@.len() && (#[trigger] schema.records@[k]).name@ == name {
        Some(
            schema.records@[choose|k: int|
                0 <= k < schema.records@.len() && (#[trigger] schema.records@[k]).name@ == name],
        )
    } else {
        None
    }
}

/// Bytes of one element of the memory range (one for a byte range).
pub open spec fn one_element(m: UserMemory) -> int {
    match m.length {
        MemoryLength::Elements { element_size, .. } => element_size as int,
        MemoryLength::Bytes { .. } => 1,
    }
}

pub open spec fn memory_tail_diagnostic(
    sc: Syscall,
    a: Argument,
    m: UserMemory,
    record: Option<Record>,
    mask: u64,
) -> Option<Seq<char>> {
    if one_element(m) > maximum_bytes(m) {
        Some(memory_prefix(sc, a) + " cannot contain one element"@)
    } else {
        match m.handles {
            Some(h) => indirect_handles_diagnostic(sc, a, m, h, record, mask),
            None => None,
        }
    }
}

pub open spec fn memory_record_diagnostic(
    schema: AbiSchema,
    sc: Syscall,
    a: Argument,
    m: UserMemory,
    mask: u64,
) -> Option<Seq<char>> {
    match m.record {
        Some(name) => match record_named(schema, name@) {
            None => Some(memory_prefix(sc, a) + " names unknown record "@ + name@),
            Some(r) => if r.size > maximum_bytes(m) {
                Some(memory_prefix(sc, a) + " cannot contain record "@ + name@)
            } else if m.length matches MemoryLength::Elements { element_size, .. }
                && element_size != r.size {
                Some(memory_prefix(sc, a) + " element size does not match record "@ + name@)
            } else {
                memory_tail_diagnostic(sc, a, m, Some(r), mask)
            },
        },
        None => memory_tail_diagnostic(sc, a, m, None, mask),
    }
}

pub open spec fn memory_diagnostic(
    schema: AbiSchema,
    sc: Syscall,
    a: Argument,
    m: UserMemory,
    mask: u64,
) -> Option<Seq<char>> {
    match m.length {
        MemoryLength::Bytes { maximum_bytes, .. } if maximum_bytes == 0 => Some(
            argument_prefix(sc, a) + " has an unbounded zero byte maximum"@,
        ),
        MemoryLength::Elements { maximum_elements, element_size, .. } if maximum_elements == 0
            || element_size == 0 => Some(argument_prefix(sc, a) + " has an invalid element bound"@),
        MemoryLength::Elements { maximum_elements, element_size, .. } if maximum_elements
            * element_size > u32::MAX => Some(argument_prefix(sc, a) + " element range overflows"@),
        _ => if !first_named_has_kind(sc.arguments@, length_argument(m), length_kind(m)) {
            Some(memory_prefix(sc, a) + " has no matching length argument"@)
        } else {
            memory_record_diagnostic(schema, sc, a, m, mask)
        },
    }
}

pub open spec fn argument_metadata_diagnostic(
    schema: AbiSchema,
    sc: Syscall,
    a: Argument,
    mask: u64,
) -> Option<Seq<char>> {
    if (a.handle is Some) != (a.kind == ValueKind::Handle) {
        Some(argument_prefix(sc, a) + " has inconsistent handle metadata"@)
    } else if (a.memory is Some) != (a.kind == ValueKind::UserAddress) {
        Some(argument_prefix(sc, a) + " has inconsistent memory metadata"@)
    } else {
        match a.handle {
            Some(h) => handle_argument_diagnostic(schema, sc, a, h, mask),
            None => None,
        }
    }
}

/// The diagnostic of argument `i` of `sc`, given the arguments before it.
pub open spec fn argument_diagnostic(schema: AbiSchema, sc: Syscall, mask: u64, i: int) -> Option<
    Seq<char>,
> {
    let args = sc.arguments@;
    let a = args[i];
    if !is_identifier(a.name@) {
        Some(identifier_message("argument"@, a.name@))
    } else if exists|k: int| 0 <= k < i && (#[trigger] args[k]).name@ == a.name@ {
        Some("syscall "@ + sc.name@ + " repeats argument "@ + a.name@)
    } else if argument_metadata_diagnostic(schema, sc, a, mask) is Some {
        argument_metadata_diagnostic(schema, sc, a, mask)
    } else {
        match a.memory {
            Some(m) => if memory_order_before(args, i, m.validation_order as int) {
                Some(
                    "syscall "@ + sc.name@ + " repeats memory validation order "@ + dec(
                        m.validation_order as nat,
                    ),
                )
            } else {
                memory_diagnostic(schema, sc, a, m, mask)
            },
            None => None,
        }
    }
}

pub open spec fn arguments_diagnostic_from(schema: AbiSchema, sc: Syscall, mask: u64, i: int) -> Option<
    Seq<char>,
>
    decreases sc.arguments@.len() - i,
{
    if 0 <= i < sc.arguments@.len() {
        if argument_diagnostic(schema, sc, mask, i) is Some {
            argument_diagnostic(schema, sc, mask, i)
        } else {
            arguments_diagnostic_from(schema, sc, mask, i + 1)
        }
    } else {
        None
    }
}

/// The first missing memory validation position from `n` on.
pub open spec fn memory_order_diagnostic_from(sc: Syscall, n: int) -> Option<Seq<char>>
    decreases memory_count(sc.arguments@) - n,
{
    if 0 <= n < memory_count(sc.arguments@) {
        if !has_memory_order(sc.arguments@, n) {
            Some("syscall "@ + sc.name@ + " memory validation order is not contiguous"@)
        } else {
            memory_order_diagnostic_from(sc, n + 1)
        }
    } else {
        None
    }
}

pub open spec fn arguments_diagnostic(schema: AbiSchema, sc: Syscall, mask: u64) -> Option<Seq<char>> {
    first_of(arguments_diagnostic_from(schema, sc, mask, 0), memory_order_diagnostic_from(sc, 0))
}

pub open spec fn produced_handle_diagnostic(
    schema: AbiSchema,
    sc: Syscall,
    r: ResultValue,
    h: ProducedHandle,
    mask: u64,
) -> Option<Seq<char>> {
    let args = sc.arguments@;
    first_of(
        match h.object {
            ProducedObject::SameAsArgument(a) => if !has_argument(args, a@, ValueKind::Handle) {
                Some(result_prefix(sc, r) + " names invalid source handle "@ + a@)
            } else {
                None
            },
            ProducedObject::Kind(k) => object_kind_name_diagnostic(schema, sc.name@, k@),
        },
        match h.rights {
            ProducedRights::RequestedSubsetOf(a) => if !has_argument(args, a@, ValueKind::Rights) {
                Some(result_prefix(sc, r) + " names invalid rights argument "@ + a@)
            } else {
                None
            },
            ProducedRights::ExactRequested { argument, allowed_rights, authority_source } => {
                if !has_argument(args, argument@, ValueKind::Rights) {
                    Some(result_prefix(sc, r) + " names invalid exact-rights argument "@ + argument@)
                } else if allowed_rights == 0 || allowed_rights & !mask != 0 {
                    Some(result_prefix(sc, r) + " allows undeclared or empty object rights"@)
                } else if authority_source matches Some(s) && !has_argument(
                    args,
                    s@,
                    ValueKind::Handle,
                ) {
                    Some(
                        result_prefix(sc, r) + " names invalid authority source handle "@
                            + authority_source->0@,
                    )
                } else {
                    None
                }
            },
            ProducedRights::Fixed(rights) => if rights & !mask != 0 {
                Some(result_prefix(sc, r) + " produces undeclared rights"@)
            } else {
                None
            },
        },
    )
}

/// The diagnostic of result `i` of `sc`, given the results before it.
pub open spec fn result_diagnostic(schema: AbiSchema, sc: Syscall, mask: u64, i: int) -> Option<
    Seq<char>,
> {
    let rs = sc.results@;
    let r = rs[i];
    if !is_identifier(r.name@) {
        Some(identifier_message("result"@, r.name@))
    } else if exists|k: int| 0 <= k < i && (#[trigger] rs[k]).name@ == r.name@ {
        Some("syscall "@ + sc.name@ + " repeats result "@ + r.name@)
    } else if (r.handle is Some) != (r.kind == ValueKind::Handle) {
        Some(result_prefix(sc, r) + " has inconsistent handle metadata"@)
    } else {
        match r.handle {
            Some(h) => produced_handle_diagnostic(schema, sc, r, h, mask),
            None => None,
        }
    }
}

pub open spec fn results_diagnostic_from(schema: AbiSchema, sc: Syscall, mask: u64, i: int) -> Option<
    Seq<char>,
>
    decreases sc.results@.len() - i,
{
    if 0 <= i < sc.results@.len() {
        if result_diagnostic(schema, sc, mask, i) is Some {
            result_diagnostic(schema, sc, mask, i)
        } else {
            results_diagnostic_from(schema, sc, mask, i + 1)
        }
    } else {
        None
    }
}

pub open spec fn failure_status_diagnostic(schema: AbiSchema, sc: Syscall, f: FailureResults) -> Option<
    Seq<char>,
> {
    if !is_identifier(f.status@) {
        Some(identifier_message("failure-result status"@, f.status@))
    } else if !names_failure_status(schema, f.status@) {
        Some("syscall "@ + sc.name@ + " names unknown failure-result status "@ + f.status@)
    } else {
        None
    }
}

/// The diagnostic of result name `i` of a failure declaration.
pub open spec fn failure_name_diagnostic(sc: Syscall, names: Seq<&'static str>, i: int) -> Option<
    Seq<char>,
> {
    if (exists|k: int| 0 <= k < i && (#[trigger] names[k])@ == names[i]@) || !names_result(
        sc,
        names[i]@,
    ) {
        Some("syscall "@ + sc.name@ + " names invalid failure result "@ + names[i]@)
    } else {
        None
    }
}

pub open spec fn failure_names_diagnostic_from(sc: Syscall, names: Seq<&'static str>, i: int) -> Option<
    Seq<char>,
>
    decreases names.len() - i,
{
    if 0 <= i < names.len() {
        if failure_name_diagnostic(sc, names, i) is Some {
            failure_name_diagnostic(sc, names, i)
        } else {
            failure_names_diagnostic_from(sc, names, i + 1)
        }
    } else {
        None
    }
}

pub open spec fn failure_names_diagnostic(sc: Syscall, f: FailureResults) -> Option<Seq<char>> {
    if f.results@.len() == 0 {
        Some("syscall "@ + sc.name@ + " exposes no results for failure status "@ + f.status@)
    } else {
        failure_names_diagnostic_from(sc, f.results@, 0)
    }
}

/// The diagnostic of failure declaration `j` of `sc`, given those before it.
pub open spec fn failure_diagnostic(schema: AbiSchema, sc: Syscall, j: int) -> Option<Seq<char>> {
    let fs = sc.failure_results@;
    let f = fs[j];
    if failure_status_diagnostic(schema, sc, f) is Some {
        failure_status_diagnostic(schema, sc, f)
    } else if exists|k: int| 0 <= k < j && (#[trigger] fs[k]).status@ == f.status@ {
        Some("syscall "@ + sc.name@ + " repeats failure-result status "@ + f.status@)
    } else {
        failure_names_diagnostic(sc, f)
    }
}

pub open spec fn failures_diagnostic_from(schema: AbiSchema, sc: Syscall, j: int) -> Option<Seq<char>>
    decreases sc.failure_results@.len() - j,
{
    if 0 <= j < sc.failure_results@.len() {
        if failure_diagnostic(schema, sc, j) is Some {
            failure_diagnostic(schema, sc, j)
        } else {
            failures_diagnostic_from(schema, sc, j + 1)
        }
    } else {
        None
    }
}

pub open spec fn results_diagnostic(schema: AbiSchema, sc: Syscall, mask: u64) -> Option<Seq<char>> {
    first_of(results_diagnostic_from(schema, sc, mask, 0), failures_diagnostic_from(schema, sc, 0))
}

/// The diagnostic of the checks on one syscall that need no other syscall.
pub open spec fn syscall_diagnostic(schema: AbiSchema, sc: Syscall, mask: u64) -> Option<Seq<char>> {
    if sc.feature matches FeatureGate::Named(name) && !feature_gate_ok(schema, sc.feature) {
        Some("syscall "@ + sc.name@ + " names unknown feature "@ + sc.feature->Named_0@)
    } else if sc.arguments@.len() > SYSCALL_ARGUMENT_REGISTERS {
        Some("syscall "@ + sc.name@ + " exceeds the machine argument registers"@)
    } else if sc.results@.len() > SYSCALL_RESULT_REGISTERS {
        Some("syscall "@ + sc.name@ + " exceeds the machine result registers"@)
    } else if sc.completion == CompletionClass::NoReturn && sc.results@.len() != 0 {
        Some("no-return syscall "@ + sc.name@ + " declares results"@)
    } else {
        first_of(arguments_diagnostic(schema, sc, mask), results_diagnostic(schema, sc, mask))
    }
}

/// The diagnostic of syscall `i`, given the syscalls declared before it.
pub open spec fn syscall_entry_diagnostic(schema: AbiSchema, mask: u64, i: int) -> Option<Seq<char>> {
    let cs = schema.syscalls@;
    let c = cs[i];
    if !is_identifier(c.name@) {
        Some(identifier_message("syscall"@, c.name@))
    } else if exists|k: int| 0 <= k < i && (#[trigger] cs[k]).name@ == c.name@ {
        Some("syscall "@ + c.name@ + " is declared more than once"@)
    } else if exists|k: int| 0 <= k < i && #[trigger] cs[k].number == c.number {
        Some("syscall number "@ + dec(c.number as nat) + " is declared more than once"@)
    } else if i > 0 && c.number <= cs[i - 1].number {
        Some("syscall declarations must be ordered by number"@)
    } else {
        syscall_diagnostic(schema, c, mask)
    }
}

/// The diagnostic of the syscall rules: the first syscall that breaks one.
pub open spec fn syscalls_diagnostic_from(schema: AbiSchema, mask: u64, i: int) -> Option<Seq<char>>
    decreases schema.syscalls@.len() - i,
{
    if 0 <= i < schema.syscalls@.len() {
        if syscall_entry_diagnostic(schema, mask, i) is Some {
            syscall_entry_diagnostic(schema, mask, i)
        } else {
            syscalls_diagnostic_from(schema, mask, i + 1)
        }
    } else {
        None
    }
}

/// What every syscall of a schema whose syscall rules hold keeps, stated on
/// its declarations: numbers strictly increase and names are distinct; no
/// syscall uses more than six argument or two result registers, and a
/// no-return syscall has no results; every handle argument is a handle that
/// requires only declared rights; every user-memory argument is an address
/// whose length is carried by an argument of the matching count kind; and
/// every produced handle is a handle result whose fixed rights are declared.
pub proof fn accepted_syscalls_keep_the_call_rules(schema: AbiSchema, mask: u64, i: int, a: int, r: int)
    requires
        syscalls_valid(schema, mask),
        0 <= i < schema.syscalls@.len(),
    ensures
        forall|j: int|
            0 <= j < schema.syscalls@.len() && i < j ==> schema.syscalls@[i].number < (
            #[trigger] schema.syscalls@[j]).number && schema.syscalls@[i].name@
                != schema.syscalls@[j].name@,
        schema.syscalls@[i].arguments@.len() <= 6,
        schema.syscalls@[i].results@.len() <= 2,
        schema.syscalls@[i].completion == CompletionClass::NoReturn ==> schema.syscalls@[i].results@.len()
            == 0,
        0 <= a < schema.syscalls@[i].arguments@.len() ==> ({
            let arg = schema.syscalls@[i].arguments@[a];
            &&& (arg.handle is Some <==> arg.kind == ValueKind::Handle)
            &&& (arg.handle matches Some(h) ==> h.required_rights & !mask == 0)
            &&& (arg.memory is Some <==> arg.kind == ValueKind::UserAddress)
            &&& (arg.memory matches Some(m) ==> exists|k: int|
                0 <= k < schema.syscalls@[i].arguments@.len() && (#[trigger] schema.syscalls@[i].arguments@[k]).name@
                    == (match m.length {
                    MemoryLength::Bytes { argument, .. } => argument@,
                    MemoryLength::Elements { argument, .. } => argument@,
                }) && schema.syscalls@[i].arguments@[k].kind == (match m.length {
                    MemoryLength::Bytes { .. } => ValueKind::ByteCount,
                    MemoryLength::Elements { .. } => ValueKind::ElementCount,
                }))
        }),
        0 <= r < schema.syscalls@[i].results@.len() ==> ({
            let res = schema.syscalls@[i].results@[r];
            &&& (res.handle is Some <==> res.kind == ValueKind::Handle)
            &&& (res.handle matches Some(h) ==> (h.rights matches ProducedRights::Fixed(fixed) ==> fixed
                & !mask == 0))
        }),
{
    let sc = schema.syscalls@[i];
    assert(syscall_ok(schema, sc, mask));
    if 0 <= a < sc.arguments@.len() {
        assert(argument_ok(schema, sc, sc.arguments@[a], mask));
    }
    if 0 <= r < sc.results@.len() {
        assert(result_ok(schema, sc, sc.results@[r], mask));
    }
}

// ---------------------------------------------------------------------------
// Executable checks.

pub open spec fn value_kind_code(k: ValueKind) -> u8 {
    match k {
        ValueKind::U32 => 0,
        ValueKind::U64 => 1,
        ValueKind::I64 => 2,
        ValueKind::Handle => 3,
        ValueKind::UserAddress => 4,
        ValueKind::ByteCount => 5,
        ValueKind::ElementCount => 6,
        ValueKind::Rights => 7,
    }
}

pub(crate) fn value_kind_eq(a: ValueKind, b: ValueKind) -> (r: bool)
    ensures
        r == (a == b),
{
    let ca: u8 = match a {
        ValueKind::U32 => 0,
        ValueKind::U64 => 1,
        ValueKind::I64 => 2,
        ValueKind::Handle => 3,
        ValueKind::UserAddress => 4,
        ValueKind::ByteCount => 5,
        ValueKind::ElementCount => 6,
        ValueKind::Rights => 7,
    };
    let cb: u8 = match b {
        ValueKind::U32 => 0,
        ValueKind::U64 => 1,
        ValueKind::I64 => 2,
        ValueKind::Handle => 3,
        ValueKind::UserAddress => 4,
        ValueKind::ByteCount => 5,
        ValueKind::ElementCount => 6,
        ValueKind::Rights => 7,
    };
    assert(ca == value_kind_code(a) && cb == value_kind_code(b));
    ca == cb
}

pub(crate) fn field_kind_eq(a: FieldKind, b: FieldKind) -> (r: bool)
    ensures
        r == (a == b),
{
    match (a, b) {
        (FieldKind::U32, FieldKind::U32) => true,
        (FieldKind::U64, FieldKind::U64) => true,
        (FieldKind::Bytes(x), FieldKind::Bytes(y)) => x == y,
        _ => false,
    }
}

/// Index of the first argument named `name`.
pub(crate) fn find_argument(args: &'static [Argument], name: &str) -> (r: Option<usize>)
    ensures
        r matches Some(k) ==> k < args@.len() && args@[k as int].name@ == name@ && forall|j: int|
            0 <= j < k ==> (#[trigger] args@[j]).name@ != name@,
        r is None ==> forall|j: int| 0 <= j < args@.len() ==> (#[trigger] args@[j]).name@ != name@,
{
    let mut k: usize = 0;
    while k < args.len()
        invariant
            k <= args@.len(),
            forall|j: int| 0 <= j < k ==> (#[trigger] args@[j]).name@ != name@,
        decreases args@.len() - k,
    {
        if str_eq(args[k].name, name) {
            return Some(k);
        }
        k = k + 1;
    }
    None
}

pub(crate) fn has_argument_of_kind(args: &'static [Argument], name: &str, kind: ValueKind) -> (r:
    bool)
    ensures
        r == has_argument(args@, name@, kind),
{
    let mut k: usize = 0;
    while k < args.len()
        invariant
            k <= args@.len(),
            forall|j: int|
                0 <= j < k ==> !((#[trigger] args@[j]).name@ == name@ && args@[j].kind == kind),
        decreases args@.len() - k,
    {
        if str_eq(args[k].name, name) && value_kind_eq(args[k].kind, kind) {
            return true;
        }
        k = k + 1;
    }
    false
}

/// Index of the first record named `name`.
fn find_record(schema: &AbiSchema, name: &str) -> (r: Option<usize>)
    ensures
        r matches Some(k) ==> k < schema.records@.len() && schema.records@[k as int].name@
            == name@,
        r is None ==> forall|j: int|
            0 <= j < schema.records@.len() ==> (#[trigger] schema.records@[j]).name@ != name@,
{
    let rs = schema.records;
    let mut k: usize = 0;
    while k < rs.len()
        invariant
            rs@ == schema.records@,
            k <= rs@.len(),
            forall|j: int| 0 <= j < k ==> (#[trigger] rs@[j]).name@ != name@,
        decreases rs@.len() - k,
    {
        if str_eq(rs[k].name, name) {
            return Some(k);
        }
        k = k + 1;
    }
    None
}

fn record_has_field(record: &Record, name: &str, kind: FieldKind) -> (r: bool)
    ensures
        r == has_field(*record, name@, kind),
{
    let fields = record.fields;
    let mut k: usize = 0;
    while k < fields.len()
        invariant
            fields@ == record.fields@,
            k <= fields@.len(),
            forall|j: int|
                0 <= j < k ==> !((#[trigger] fields@[j]).name@ == name@ && fields@[j].kind == kind),
        decreases fields@.len() - k,
    {
        if str_eq(fields[k].name, name) && field_kind_eq(fields[k].kind, kind) {
            return true;
        }
        k = k + 1;
    }
    false
}

fn require_record_field(
    record: &Record,
    field: &str,
    kind: FieldKind,
    syscall: &Syscall,
    argument: &Argument,
) -> (r: Result<(), Error>)
    ensures
        r is Ok <==> has_field(*record, field@, kind),
        r matches Err(e) ==> e is InvalidSchema,
        reports(r, record_field_diagnostic(*record, field@, kind, *syscall, *argument)),
{
    if record_has_field(record, field, kind) {
        Ok(())
    } else {
        let mut m = text4("syscall ", syscall.name, " memory argument ", argument.name);
        push_str(&mut m, " names invalid ");
        push_str(&mut m, record.name);
        push_str(&mut m, " field ");
        push_str(&mut m, field);
        invalid(m)
    }
}

fn validate_distinct_fields(
    syscall: &Syscall,
    argument: &Argument,
    a: &str,
    b: &str,
    c: &str,
    d: &str,
) -> (r: Result<(), Error>)
    ensures
        r is Ok <==> distinct4(a@, b@, c@, d@),
        r matches Err(e) ==> e is InvalidSchema,
        reports(r, distinct_fields_diagnostic(*syscall, *argument, a@, b@, c@, d@)),
{
    if !str_eq(a, b) && !str_eq(a, c) && !str_eq(a, d) && !str_eq(b, c) && !str_eq(b, d) && !str_eq(
        c,
        d,
    ) {
        Ok(())
    } else {
        let mut m = text4("syscall ", syscall.name, " memory argument ", argument.name);
        push_str(&mut m, " repeats transactional record fields");
        invalid(m)
    }
}

fn validate_handle_operations(
    syscall: &str,
    argument: &str,
    operations: &'static [HandleOperation],
    supported_rights: u64,
) -> (r: Result<(), Error>)
    ensures
        r is Ok <==> operation_set_valid(operations@, supported_rights),
        r matches Err(e) ==> e is InvalidSchema,
        reports(r, handle_operations_diagnostic(syscall@, argument@, operations@, supported_rights)),
{
    if operations.len() == 0 {
        return invalid(text5("syscall ", syscall, " handle ", argument, " has no operations"));
    }
    let mut i: usize = 0;
    while i < operations.len()
        invariant
            i <= operations@.len(),
            forall|k: int|
                0 <= k < i ==> is_identifier((#[trigger] operations@[k]).name@)
                    && operations@[k].additional_rights & !supported_rights == 0,
            forall|a: int, b: int|
                0 <= a < b < i ==> (#[trigger] operations@[a]).name@ != (
                #[trigger] operations@[b]).name@,
            forall|a: int, b: int|
                0 <= a < b < i ==> (#[trigger] operations@[a]).value != (
                #[trigger] operations@[b]).value,
            operations@.len() > 0,
            operations_diagnostic_from(syscall@, argument@, operations@, supported_rights, 0)
                == operations_diagnostic_from(syscall@, argument@, operations@, supported_rights, i as int),
        decreases operations@.len() - i,
    {
        let operation = operations[i];
        if !check_identifier(operation.name) {
            return Err(identifier_error("handle operation", operation.name));
        }
        let mut k: usize = 0;
        while k < i
            invariant
                i < operations@.len(),
                operation == operations@[i as int],
                k <= i,
                forall|j: int|
                    0 <= j < k ==> (#[trigger] operations@[j]).name@ != operation.name@
                        && operations@[j].value != operation.value,
                is_identifier(operation.name@),
                operations_diagnostic_from(syscall@, argument@, operations@, supported_rights, 0)
                    == operations_diagnostic_from(syscall@, argument@, operations@, supported_rights, i as int),
            decreases i - k,
        {
            if str_eq(operations[k].name, operation.name) || operations[k].value == operation.value {
                return invalid(
                    text5("syscall ", syscall, " handle ", argument, " repeats a handle operation"),
                );
            }
            k = k + 1;
        }
        if operation.additional_rights & !supported_rights != 0 {
            let mut m = text5("syscall ", syscall, " handle ", argument, " operation ");
            push_str(&mut m, operation.name);
            push_str(&mut m, " requires undeclared rights");
            return invalid(m);
        }
        assert(operation_diagnostic(syscall@, argument@, operations@, supported_rights, i as int) is None);
        i = i + 1;
    }
    Ok(())
}

fn find_operation(operations: &'static [HandleOperation], name: &str) -> (r: Option<usize>)
    ensures
        r matches Some(k) ==> k < operations@.len() && operations@[k as int].name@ == name@,
        r is None ==> forall|j: int|
            0 <= j < operations@.len() ==> (#[trigger] operations@[j]).name@ != name@,
{
    let mut k: usize = 0;
    while k < operations.len()
        invariant
            k <= operations@.len(),
            forall|j: int| 0 <= j < k ==> (#[trigger] operations@[j]).name@ != name@,
        decreases operations@.len() - k,
    {
        if str_eq(operations[k].name, name) {
            return Some(k);
        }
        k = k + 1;
    }
    None
}

fn validate_transfer_operations(
    syscall: &Syscall,
    argument: &Argument,
    common_rights: u64,
    operations: &'static [HandleOperation],
) -> (r: Result<(), Error>)
    requires
        forall|a: int, b: int|
            0 <= a < b < operations@.len() ==> (#[trigger] operations@[a]).name@ != (
            #[trigger] operations@[b]).name@,
    ensures
        r is Ok <==> transfer_operations_valid(common_rights, operations@),
        r matches Err(e) ==> e is InvalidSchema,
        reports(r, transfer_operations_diagnostic(*syscall, *argument, common_rights, operations@)),
{
    let move_index = find_operation(operations, "move");
    let move_ok = match move_index {
        Some(k) => operations[k].value == 0 && matches!(
            operations[k].disposition,
            OperationDisposition::ConsumeOnCommit
        ),
        None => false,
    };
    if !move_ok || common_rights & RIGHT_TRANSFER == 0 {
        proof {
            if let Some(k) = move_index {
                assert forall|j: int|
                    0 <= j < operations@.len() && (#[trigger] operations@[j]).name@
                        == "move"@ implies j == k by {
                    if j < k {
                        assert(operations@[j].name@ != operations@[k as int].name@);
                    } else if j > k {
                        assert(operations@[k as int].name@ != operations@[j].name@);
                    }
                }
            }
        }
        let mut m = text4("syscall ", syscall.name, " argument ", argument.name);
        push_str(&mut m, " has an invalid move operation");
        return invalid(m);
    }
    let duplicate_index = find_operation(operations, "duplicate");
    let duplicate_ok = match duplicate_index {
        Some(k) => operations[k].value == 1 && matches!(
            operations[k].disposition,
            OperationDisposition::Borrow
        ) && operations[k].additional_rights & RIGHT_DUPLICATE != 0,
        None => false,
    };
    if !duplicate_ok {
        proof {
            if let Some(k) = duplicate_index {
                assert forall|j: int|
                    0 <= j < operations@.len() && (#[trigger] operations@[j]).name@
                        == "duplicate"@ implies j == k by {
                    if j < k {
                        assert(operations@[j].name@ != operations@[k as int].name@);
                    } else if j > k {
                        assert(operations@[k as int].name@ != operations@[j].name@);
                    }
                }
            }
        }
        let mut m = text4("syscall ", syscall.name, " argument ", argument.name);
        push_str(&mut m, " has an invalid duplicate operation");
        return invalid(m);
    }
    Ok(())
}


fn validate_indirect_handles(
    syscall: &Syscall,
    argument: &Argument,
    memory: UserMemory,
    handles: IndirectHandles,
    record: Option<Record>,
    supported_rights: u64,
) -> (r: Result<(), Error>)
    ensures
        r is Ok <==> indirect_handles_ok(memory, handles, record, supported_rights),
        r matches Err(e) ==> e is InvalidSchema,
        reports(r, indirect_handles_diagnostic(*syscall, *argument, memory, handles, record, supported_rights)),
{
    if !matches!(memory.length, MemoryLength::Elements { .. }) {
        let mut m = text4("syscall ", syscall.name, " memory argument ", argument.name);
        push_str(&mut m, " describes handles without element length");
        return invalid(m);
    }
    match handles {
        IndirectHandles::BorrowRecords { handle_field, required_rights } => {
            if !matches!(memory.direction, MemoryDirection::Read) {
                let mut m = text4("syscall ", syscall.name, " borrowed-handle argument ", argument.name);
                push_str(&mut m, " is not input memory");
                return invalid(m);
            }
            if required_rights & !supported_rights != 0 {
                let mut m = text4("syscall ", syscall.name, " argument ", argument.name);
                push_str(&mut m, " indirectly requires undeclared rights");
                return invalid(m);
            }
            let record = match record {
                Some(record) => record,
                None => {
                    let mut m = text4("syscall ", syscall.name, " borrowed-handle argument ", argument.name);
                    push_str(&mut m, " has no record");
                    return invalid(m);
                },
            };
            require_record_field(&record, handle_field, FieldKind::U64, syscall, argument)
        },
        IndirectHandles::ConsumeRecords {
            handle_field,
            rights_field,
            expected_kind_field,
            operation_field,
            common_rights,
            operations,
            ..
        } => {
            if !matches!(memory.direction, MemoryDirection::Read) {
                let mut m = text4("syscall ", syscall.name, " consumed-handle argument ", argument.name);
                push_str(&mut m, " is not input memory");
                return invalid(m);
            }
            if common_rights & !supported_rights != 0 {
                let mut m = text4("syscall ", syscall.name, " argument ", argument.name);
                push_str(&mut m, " indirectly requires undeclared rights");
                return invalid(m);
            }
            let record = match record {
                Some(record) => record,
                None => {
                    let mut m = text4("syscall ", syscall.name, " consumed-handle argument ", argument.name);
                    push_str(&mut m, " has no record");
                    return invalid(m);
                },
            };
            let checked = require_record_field(&record, handle_field, FieldKind::U64, syscall, argument);
            if checked.is_err() {
                return checked;
            }
            let checked = require_record_field(&record, rights_field, FieldKind::U64, syscall, argument);
            if checked.is_err() {
                return checked;
            }
            let checked = require_record_field(&record, expected_kind_field, FieldKind::U32, syscall, argument);
            if checked.is_err() {
                return checked;
            }
            let checked = require_record_field(&record, operation_field, FieldKind::U32, syscall, argument);
            if checked.is_err() {
                return checked;
            }
            let checked = validate_distinct_fields(
                syscall,
                argument,
                handle_field,
                rights_field,
                expected_kind_field,
                operation_field,
            );
            if checked.is_err() {
                return checked;
            }
            let checked = validate_handle_operations(syscall.name, argument.name, operations, supported_rights);
            if checked.is_err() {
                return checked;
            }
            validate_transfer_operations(syscall, argument, common_rights, operations)
        },
        IndirectHandles::ProduceTransferred {
            handle_field,
            rights_field,
            expected_kind_field,
            flags_field,
            ..
        } => {
            if !matches!(memory.direction, MemoryDirection::ReadWrite) {
                let mut m = text4("syscall ", syscall.name, " transferred-handle output ", argument.name);
                push_str(&mut m, " must be in/out memory");
                return invalid(m);
            }
            let record = match record {
                Some(record) => record,
                None => {
                    let mut m = text4("syscall ", syscall.name, " transferred-handle output ", argument.name);
                    push_str(&mut m, " has no record");
                    return invalid(m);
                },
            };
            let checked = require_record_field(&record, handle_field, FieldKind::U64, syscall, argument);
            if checked.is_err() {
                return checked;
            }
            let checked = require_record_field(&record, rights_field, FieldKind::U64, syscall, argument);
            if checked.is_err() {
                return checked;
            }
            let checked = require_record_field(&record, expected_kind_field, FieldKind::U32, syscall, argument);
            if checked.is_err() {
                return checked;
            }
            let checked = require_record_field(&record, flags_field, FieldKind::U32, syscall, argument);
            if checked.is_err() {
                return checked;
            }
            validate_distinct_fields(
                syscall,
                argument,
                handle_field,
                rights_field,
                expected_kind_field,
                flags_field,
            )
        },
    }
}


fn require_object_kind(schema: &AbiSchema, syscall: &str, kind: &str) -> (r: Result<(), Error>)
    ensures
        r is Ok <==> names_object_kind(schema.object_kinds@, kind@),
        r matches Err(e) ==> e is InvalidSchema,
        reports(r, object_kind_name_diagnostic(*schema, syscall@, kind@)),
{
    if find_object_kind(schema.object_kinds, kind) {
        Ok(())
    } else {
        invalid(text4("syscall ", syscall, " names unknown object kind ", kind))
    }
}

fn validate_handle_argument(
    schema: &AbiSchema,
    syscall: &Syscall,
    argument: &Argument,
    handle: HandleArgument,
    supported_rights: u64,
) -> (r: Result<(), Error>)
    ensures
        r is Ok <==> handle_argument_ok(*schema, *syscall, handle, supported_rights),
        r matches Err(e) ==> e is InvalidSchema,
        reports(r, handle_argument_diagnostic(*schema, *syscall, *argument, handle, supported_rights)),
{
    if handle.required_rights & !supported_rights != 0 {
        let mut m = text4("syscall ", syscall.name, " argument ", argument.name);
        push_str(&mut m, " requires undeclared rights");
        return invalid(m);
    }
    if let ObjectConstraint::Kind(kind) = handle.object {
        let checked = require_object_kind(schema, syscall.name, kind);
        if checked.is_err() {
            return checked;
        }
    }
    match handle.disposition {
        HandleDisposition::ByOperation { argument: operation_argument, operations } => {
            if !has_argument_of_kind(syscall.arguments, operation_argument, ValueKind::U32) {
                let mut m = text4("syscall ", syscall.name, " handle ", argument.name);
                push_str(&mut m, " names invalid operation argument ");
                push_str(&mut m, operation_argument);
                return invalid(m);
            }
            let checked = validate_handle_operations(
                syscall.name,
                argument.name,
                operations,
                supported_rights,
            );
            if checked.is_err() {
                return checked;
            }
            validate_transfer_operations(syscall, argument, handle.required_rights, operations)
        },
        _ => Ok(()),
    }
}

/// The memory error prefix `syscall S memory argument A`.
fn memory_message(syscall: &Syscall, argument: &Argument, tail: &str) -> (m: String)
    ensures
        m@ == "syscall "@ + syscall.name@ + " memory argument "@ + argument.name@ + tail@,
{
    let mut m = text4("syscall ", syscall.name, " memory argument ", argument.name);
    push_str(&mut m, tail);
    m
}

/// The argument error prefix `syscall S argument A`.
fn argument_message(syscall: &Syscall, argument: &Argument, tail: &str) -> (m: String)
    ensures
        m@ == "syscall "@ + syscall.name@ + " argument "@ + argument.name@ + tail@,
{
    let mut m = text4("syscall ", syscall.name, " argument ", argument.name);
    push_str(&mut m, tail);
    m
}

/// Checks one user-memory description.  A failure either breaks `memory_ok`
/// or comes from a length argument whose name is declared twice.
#[verifier::spinoff_prover]
#[verifier::rlimit(80)]
fn validate_memory(
    schema: &AbiSchema,
    syscall: &Syscall,
    argument: &Argument,
    memory: UserMemory,
    supported_rights: u64,
) -> (r: Result<(), Error>)
    requires
        record_names_distinct(*schema),
    ensures
        r is Ok ==> memory_ok(*schema, *syscall, memory, supported_rights),
        r is Err ==> !memory_ok(*schema, *syscall, memory, supported_rights)
            || !argument_names_distinct(syscall.arguments@),
        r matches Err(e) ==> e is InvalidSchema,
        reports(r, memory_diagnostic(*schema, *syscall, *argument, memory, supported_rights)),
{
    let (length_name_str, expected_kind, capacity, element_size): (
        &str,
        ValueKind,
        u32,
        Option<u16>,
    ) = match memory.length {
        MemoryLength::Bytes { argument: length_name, maximum_bytes } => {
            if maximum_bytes == 0 {
                return invalid(argument_message(syscall, argument, " has an unbounded zero byte maximum"));
            }
            (length_name, ValueKind::ByteCount, maximum_bytes, None)
        },
        MemoryLength::Elements { argument: length_name, maximum_elements, element_size } => {
            if maximum_elements == 0 || element_size == 0 {
                return invalid(argument_message(syscall, argument, " has an invalid element bound"));
            }
            let bytes = match maximum_elements.checked_mul(element_size as u32) {
                Some(bytes) => bytes,
                None => {
                    return invalid(argument_message(syscall, argument, " element range overflows"));
                },
            };
            assert(bytes >= element_size) by (nonlinear_arith)
                requires
                    bytes == maximum_elements * element_size,
                    maximum_elements >= 1,
            ;
            (length_name, ValueKind::ElementCount, bytes, Some(element_size))
        },
    };
    assert(length_bound_ok(memory));
    assert(capacity == maximum_bytes(memory));
    assert(length_name_str@ == length_argument(memory) && expected_kind == length_kind(memory));
    assert(element_size matches Some(size) ==> size <= capacity);
    let args = syscall.arguments;
    let length_index = find_argument(args, length_name_str);
    let length_ok = match length_index {
        Some(k) => value_kind_eq(args[k].kind, expected_kind),
        None => false,
    };
    if !length_ok {
        proof {
            if has_argument(args@, length_name_str@, expected_kind) && argument_names_distinct(args@) {
                let j = choose|j: int|
                    0 <= j < args@.len() && (#[trigger] args@[j]).name@ == length_name_str@
                        && args@[j].kind == expected_kind;
                let k = length_index->0;
                if j < k {
                } else if j > k {
                    assert(args@[k as int].name@ != args@[j].name@);
                }
            }
        }
        return invalid(memory_message(syscall, argument, " has no matching length argument"));
    }
    let mut selected: Option<Record> = None;
    if let Some(record_name) = memory.record {
        let record = match find_record(schema, record_name) {
            Some(k) => schema.records[k],
            None => {
                let mut m = memory_message(syscall, argument, " names unknown record ");
                push_str(&mut m, record_name);
                return invalid(m);
            },
        };
        assert(exists|k: int|
            0 <= k < schema.records@.len() && schema.records@[k] == record
                && (#[trigger] schema.records@[k]).name@ == record_name@);
        proof {
            let k = choose|k: int|
                0 <= k < schema.records@.len() && schema.records@[k] == record
                    && (#[trigger] schema.records@[k]).name@ == record_name@;
            assert forall|j: int|
                0 <= j < schema.records@.len() && (#[trigger] schema.records@[j]).name@
                    == record_name@ implies schema.records@[j] == record by {
                if j < k {
                    assert(schema.records@[j].name@ != schema.records@[k].name@);
                } else if j > k {
                    assert(schema.records@[k].name@ != schema.records@[j].name@);
                }
            }
        }
        if (record.size as u32) > capacity {
            let mut m = memory_message(syscall, argument, " cannot contain record ");
            push_str(&mut m, record_name);
            return invalid(m);
        }
        if let Some(size) = element_size {
            if size != record.size {
                let mut m = memory_message(syscall, argument, " element size does not match record ");
                push_str(&mut m, record_name);
                return invalid(m);
            }
        }
        selected = Some(record);
    }
    let one: u16 = match element_size {
        Some(size) => size,
        None => 1,
    };
    if (one as u32) > capacity {
        return invalid(memory_message(syscall, argument, " cannot contain one element"));
    }
    match memory.handles {
        Some(handles) => validate_indirect_handles(
            syscall,
            argument,
            memory,
            handles,
            selected,
            supported_rights,
        ),
        None => Ok(()),
    }
}


/// Some argument before `end` describes memory validated at position `order`.
pub open spec fn memory_order_before(args: Seq<Argument>, end: int, order: int) -> bool {
    exists|a: int|
        0 <= a < end && (#[trigger] args[a]).memory is Some
            && args[a].memory->0.validation_order == order
}

fn find_memory_order(args: &'static [Argument], end: usize, order: u64) -> (r: bool)
    requires
        end <= args@.len(),
    ensures
        r == memory_order_before(args@, end as int, order as int),
{
    let mut a: usize = 0;
    while a < end
        invariant
            end <= args@.len(),
            a <= end,
            forall|j: int|
                0 <= j < a ==> !((#[trigger] args@[j]).memory is Some
                    && args@[j].memory->0.validation_order == order),
        decreases end - a,
    {
        if let Some(memory) = args[a].memory {
            if memory.validation_order as u64 == order {
                return true;
            }
        }
        a = a + 1;
    }
    false
}

/// Kind consistency of an argument's metadata, and its handle description.
pub open spec fn argument_metadata_ok(schema: AbiSchema, sc: Syscall, a: Argument, mask: u64) -> bool {
    &&& (a.handle is Some) == (a.kind == ValueKind::Handle)
    &&& (a.memory is Some) == (a.kind == ValueKind::UserAddress)
    &&& (a.handle matches Some(h) ==> handle_argument_ok(schema, sc, h, mask))
}

fn validate_argument_metadata(
    schema: &AbiSchema,
    syscall: &Syscall,
    argument: &Argument,
    supported_rights: u64,
) -> (r: Result<(), Error>)
    ensures
        r is Ok <==> argument_metadata_ok(*schema, *syscall, *argument, supported_rights),
        r matches Err(e) ==> e is InvalidSchema,
        reports(r, argument_metadata_diagnostic(*schema, *syscall, *argument, supported_rights)),
{
    let is_handle = value_kind_eq(argument.kind, ValueKind::Handle);
    if argument.handle.is_some() != is_handle {
        return invalid(argument_message(syscall, argument, " has inconsistent handle metadata"));
    }
    let is_address = value_kind_eq(argument.kind, ValueKind::UserAddress);
    if argument.memory.is_some() != is_address {
        return invalid(argument_message(syscall, argument, " has inconsistent memory metadata"));
    }
    match argument.handle {
        Some(handle) => validate_handle_argument(schema, syscall, argument, handle, supported_rights),
        None => Ok(()),
    }
}

#[verifier::spinoff_prover]
#[verifier::rlimit(80)]
fn validate_arguments(schema: &AbiSchema, syscall: &Syscall, supported_rights: u64) -> (r: Result<
    (),
    Error,
>)
    requires
        record_names_distinct(*schema),
        syscall.arguments@.len() <= SYSCALL_ARGUMENT_REGISTERS,
    ensures
        r is Ok <==> arguments_valid(*schema, *syscall, supported_rights),
        r matches Err(e) ==> e is InvalidSchema,
        reports(r, arguments_diagnostic(*schema, *syscall, supported_rights)),
{
    let args = syscall.arguments;
    let mut names: Vec<&'static str> = Vec::new();
    let mut memory_total: usize = 0;
    let mut i: usize = 0;
    while i < args.len()
        invariant
            record_names_distinct(*schema),
            args@ == syscall.arguments@,
            i <= args@.len(),
            names@.len() == i,
            forall|k: int| 0 <= k < i ==> (#[trigger] names@[k])@ == args@[k].name@,
            forall|k: int|
                0 <= k < i ==> #[trigger] argument_ok(*schema, *syscall, args@[k], supported_rights),
            forall|a: int, b: int|
                0 <= a < b < i ==> (#[trigger] args@[a]).name@ != (#[trigger] args@[b]).name@,
            forall|a: int, b: int|
                0 <= a < b < i && (#[trigger] args@[a]).memory is Some
                    && (#[trigger] args@[b]).memory is Some ==> args@[a].memory->0.validation_order
                    != args@[b].memory->0.validation_order,
            memory_total == memory_count(args@.take(i as int)),
            memory_total <= i,
            arguments_diagnostic_from(*schema, *syscall, supported_rights, 0)
                == arguments_diagnostic_from(*schema, *syscall, supported_rights, i as int),
        decreases args@.len() - i,
    {
        let argument = args[i];
        assert(args@.take(i + 1).drop_last() == args@.take(i as int));
        if !check_identifier(argument.name) {
            assert(!argument_ok(*schema, *syscall, args@[i as int], supported_rights));
            return Err(identifier_error("argument", argument.name));
        }
        if contains_str(&names, argument.name) {
            proof {
                let k = choose|k: int| 0 <= k < names@.len() && (#[trigger] names@[k])@ == argument.name@;
                assert(args@[k].name@ == args@[i as int].name@);
            }
            return invalid(text4("syscall ", syscall.name, " repeats argument ", argument.name));
        }
        assert forall|a: int| 0 <= a < i implies args@[a].name@ != args@[i as int].name@ by {
            assert(names@[a]@ == args@[a].name@);
        }
        let checked = validate_argument_metadata(schema, syscall, &argument, supported_rights);
        if checked.is_err() {
            assert(!argument_ok(*schema, *syscall, args@[i as int], supported_rights));
            return checked;
        }
        if let Some(memory) = argument.memory {
            memory_total = memory_total + 1;
            let order = memory.validation_order as u64;
            if find_memory_order(args, i, order) {
                proof {
                    let a = choose|a: int|
                        0 <= a < i && (#[trigger] args@[a]).memory is Some
                            && args@[a].memory->0.validation_order == order;
                    assert(args@[a].memory->0.validation_order == args@[i as int].memory->0.validation_order);
                }
                let mut m = text3("syscall ", syscall.name, " repeats memory validation order ");
                push_dec(&mut m, order);
                return invalid(m);
            }
            let checked = validate_memory(schema, syscall, &argument, memory, supported_rights);
            if checked.is_err() {
                assert(!argument_ok(*schema, *syscall, args@[i as int], supported_rights)
                    || !argument_names_distinct(args@));
                return checked;
            }
        }
        assert(argument_ok(*schema, *syscall, args@[i as int], supported_rights));
        assert forall|a: int| 0 <= a < i implies args@[a].name@ != args@[i as int].name@ by {
            assert(names@[a]@ == args@[a].name@);
        }
        assert(argument_diagnostic(*schema, *syscall, supported_rights, i as int) is None);
        names.push(argument.name);
        i = i + 1;
    }
    assert(args@.take(args@.len() as int) == args@);
    let mut order: usize = 0;
    while order < memory_total
        invariant
            args@ == syscall.arguments@,
            memory_total == memory_count(args@),
            memory_total <= args@.len(),
            args@.len() <= SYSCALL_ARGUMENT_REGISTERS,
            order <= memory_total,
            forall|n: int| 0 <= n < order ==> #[trigger] has_memory_order(args@, n),
            arguments_diagnostic_from(*schema, *syscall, supported_rights, 0) is None,
            memory_order_diagnostic_from(*syscall, 0) == memory_order_diagnostic_from(
                *syscall,
                order as int,
            ),
        decreases memory_total - order,
    {
        if !find_memory_order(args, args.len(), order as u64) {
            assert(!has_memory_order(args@, order as int));
            return invalid(text3("syscall ", syscall.name, " memory validation order is not contiguous"));
        }
        order = order + 1;
    }
    Ok(())
}


fn result_message(syscall: &Syscall, result: &ResultValue, tail: &str) -> (m: String)
    ensures
        m@ == "syscall "@ + syscall.name@ + " result "@ + result.name@ + tail@,
{
    let mut m = text4("syscall ", syscall.name, " result ", result.name);
    push_str(&mut m, tail);
    m
}

fn validate_produced_handle(
    schema: &AbiSchema,
    syscall: &Syscall,
    result: &ResultValue,
    handle: ProducedHandle,
    supported_rights: u64,
) -> (r: Result<(), Error>)
    ensures
        r is Ok <==> produced_handle_ok(*schema, *syscall, handle, supported_rights),
        r matches Err(e) ==> e is InvalidSchema,
        reports(r, produced_handle_diagnostic(*schema, *syscall, *result, handle, supported_rights)),
{
    let args = syscall.arguments;
    match handle.object {
        ProducedObject::SameAsArgument(argument) => {
            if !has_argument_of_kind(args, argument, ValueKind::Handle) {
                let mut m = result_message(syscall, result, " names invalid source handle ");
                push_str(&mut m, argument);
                return invalid(m);
            }
        },
        ProducedObject::Kind(kind) => {
            let checked = require_object_kind(schema, syscall.name, kind);
            if checked.is_err() {
                return checked;
            }
        },
    }
    match handle.rights {
        ProducedRights::RequestedSubsetOf(argument) => {
            if !has_argument_of_kind(args, argument, ValueKind::Rights) {
                let mut m = result_message(syscall, result, " names invalid rights argument ");
                push_str(&mut m, argument);
                return invalid(m);
            }
        },
        ProducedRights::ExactRequested { argument, allowed_rights, authority_source } => {
            if !has_argument_of_kind(args, argument, ValueKind::Rights) {
                let mut m = result_message(syscall, result, " names invalid exact-rights argument ");
                push_str(&mut m, argument);
                return invalid(m);
            }
            if allowed_rights == 0 || allowed_rights & !supported_rights != 0 {
                return invalid(
                    result_message(syscall, result, " allows undeclared or empty object rights"),
                );
            }
            if let Some(source) = authority_source {
                if !has_argument_of_kind(args, source, ValueKind::Handle) {
                    let mut m = result_message(
                        syscall,
                        result,
                        " names invalid authority source handle ",
                    );
                    push_str(&mut m, source);
                    return invalid(m);
                }
            }
        },
        ProducedRights::Fixed(rights) => {
            if rights & !supported_rights != 0 {
                return invalid(result_message(syscall, result, " produces undeclared rights"));
            }
        },
    }
    Ok(())
}

fn is_failure_status(schema: &AbiSchema, name: &str) -> (r: bool)
    ensures
        r == names_failure_status(*schema, name@),
{
    let ss = schema.statuses;
    let mut k: usize = 0;
    while k < ss.len()
        invariant
            ss@ == schema.statuses@,
            k <= ss@.len(),
            forall|j: int|
                0 <= j < k ==> !((#[trigger] ss@[j]).name@ == name@ && ss@[j].value != 0),
        decreases ss@.len() - k,
    {
        if str_eq(ss[k].name, name) && ss[k].value != 0 {
            return true;
        }
        k = k + 1;
    }
    false
}

fn is_result_name(syscall: &Syscall, name: &str) -> (r: bool)
    ensures
        r == names_result(*syscall, name@),
{
    let rs = syscall.results;
    let mut k: usize = 0;
    while k < rs.len()
        invariant
            rs@ == syscall.results@,
            k <= rs@.len(),
            forall|j: int| 0 <= j < k ==> (#[trigger] rs@[j]).name@ != name@,
        decreases rs@.len() - k,
    {
        if str_eq(rs[k].name, name) {
            return true;
        }
        k = k + 1;
    }
    false
}

fn validate_failure(schema: &AbiSchema, syscall: &Syscall, failure: FailureResults) -> (r: Result<
    (),
    Error,
>)
    ensures
        r is Ok <==> is_identifier(failure.status@) && names_failure_status(*schema, failure.status@),
        r matches Err(e) ==> e is InvalidSchema,
        reports(r, failure_status_diagnostic(*schema, *syscall, failure)),
{
    if !check_identifier(failure.status) {
        return Err(identifier_error("failure-result status", failure.status));
    }
    if !is_failure_status(schema, failure.status) {
        return invalid(
            text4("syscall ", syscall.name, " names unknown failure-result status ", failure.status),
        );
    }
    Ok(())
}

fn validate_failure_names(syscall: &Syscall, failure: FailureResults) -> (r: Result<(), Error>)
    ensures
        r is Ok <==> {
            &&& failure.results@.len() > 0
            &&& forall|i: int, j: int|
                0 <= i < j < failure.results@.len() ==> (#[trigger] failure.results@[i])@ != (
                #[trigger] failure.results@[j])@
            &&& forall|i: int|
                0 <= i < failure.results@.len() ==> names_result(
                    *syscall,
                    (#[trigger] failure.results@[i])@,
                )
        },
        r matches Err(e) ==> e is InvalidSchema,
        reports(r, failure_names_diagnostic(*syscall, failure)),
{
    let names = failure.results;
    if names.len() == 0 {
        return invalid(
            text4("syscall ", syscall.name, " exposes no results for failure status ", failure.status),
        );
    }
    let mut seen: Vec<&'static str> = Vec::new();
    let mut i: usize = 0;
    while i < names.len()
        invariant
            names@ == failure.results@,
            i <= names@.len(),
            seen@.len() == i,
            forall|k: int| 0 <= k < i ==> (#[trigger] seen@[k])@ == names@[k]@,
            forall|a: int, b: int| 0 <= a < b < i ==> (#[trigger] names@[a])@ != (#[trigger] names@[b])@,
            forall|k: int| 0 <= k < i ==> names_result(*syscall, (#[trigger] names@[k])@),
            names@.len() > 0,
            failure_names_diagnostic_from(*syscall, names@, 0) == failure_names_diagnostic_from(
                *syscall,
                names@,
                i as int,
            ),
        decreases names@.len() - i,
    {
        let name = names[i];
        let repeated = contains_str(&seen, name);
        if repeated || !is_result_name(syscall, name) {
            proof {
                if repeated {
                    let k = choose|k: int| 0 <= k < seen@.len() && (#[trigger] seen@[k])@ == name@;
                    assert(names@[k]@ == names@[i as int]@);
                }
            }
            return invalid(text4("syscall ", syscall.name, " names invalid failure result ", name));
        }
        assert forall|a: int| 0 <= a < i implies names@[a]@ != names@[i as int]@ by {
            assert(seen@[a]@ == names@[a]@);
        }
        assert(failure_name_diagnostic(*syscall, names@, i as int) is None);
        seen.push(name);
        i = i + 1;
    }
    Ok(())
}

fn validate_results(schema: &AbiSchema, syscall: &Syscall, supported_rights: u64) -> (r: Result<
    (),
    Error,
>)
    ensures
        r is Ok <==> results_valid(*schema, *syscall, supported_rights),
        r matches Err(e) ==> e is InvalidSchema,
        reports(r, results_diagnostic(*schema, *syscall, supported_rights)),
{
    let rs = syscall.results;
    let mut names: Vec<&'static str> = Vec::new();
    let mut i: usize = 0;
    while i < rs.len()
        invariant
            rs@ == syscall.results@,
            i <= rs@.len(),
            names@.len() == i,
            forall|k: int| 0 <= k < i ==> (#[trigger] names@[k])@ == rs@[k].name@,
            forall|k: int| 0 <= k < i ==> #[trigger] result_ok(*schema, *syscall, rs@[k], supported_rights),
            forall|a: int, b: int| 0 <= a < b < i ==> (#[trigger] rs@[a]).name@ != (#[trigger] rs@[b]).name@,
            results_diagnostic_from(*schema, *syscall, supported_rights, 0)
                == results_diagnostic_from(*schema, *syscall, supported_rights, i as int),
        decreases rs@.len() - i,
    {
        let result = rs[i];
        if !check_identifier(result.name) {
            assert(!result_ok(*schema, *syscall, rs@[i as int], supported_rights));
            return Err(identifier_error("result", result.name));
        }
        if contains_str(&names, result.name) {
            proof {
                let k = choose|k: int| 0 <= k < names@.len() && (#[trigger] names@[k])@ == result.name@;
                assert(rs@[k].name@ == rs@[i as int].name@);
            }
            return invalid(text4("syscall ", syscall.name, " repeats result ", result.name));
        }
        assert forall|a: int| 0 <= a < i implies rs@[a].name@ != rs@[i as int].name@ by {
            assert(names@[a]@ == rs@[a].name@);
        }
        let is_handle = value_kind_eq(result.kind, ValueKind::Handle);
        if result.handle.is_some() != is_handle {
            assert(!result_ok(*schema, *syscall, rs@[i as int], supported_rights));
            return invalid(result_message(syscall, &result, " has inconsistent handle metadata"));
        }
        if let Some(handle) = result.handle {
            let checked = validate_produced_handle(schema, syscall, &result, handle, supported_rights);
            if checked.is_err() {
                assert(!result_ok(*schema, *syscall, rs@[i as int], supported_rights));
                return checked;
            }
        }
        assert forall|a: int| 0 <= a < i implies rs@[a].name@ != rs@[i as int].name@ by {
            assert(names@[a]@ == rs@[a].name@);
        }
        assert(result_diagnostic(*schema, *syscall, supported_rights, i as int) is None);
        names.push(result.name);
        i = i + 1;
    }
    let fs = syscall.failure_results;
    let mut statuses: Vec<&'static str> = Vec::new();
    let mut j: usize = 0;
    while j < fs.len()
        invariant
            fs@ == syscall.failure_results@,
            rs@ == syscall.results@,
            forall|k: int| 0 <= k < rs@.len() ==> #[trigger] result_ok(*schema, *syscall, rs@[k], supported_rights),
            forall|a: int, b: int|
                0 <= a < b < rs@.len() ==> (#[trigger] rs@[a]).name@ != (#[trigger] rs@[b]).name@,
            j <= fs@.len(),
            statuses@.len() == j,
            forall|k: int| 0 <= k < j ==> (#[trigger] statuses@[k])@ == fs@[k].status@,
            forall|k: int| 0 <= k < j ==> #[trigger] failure_ok(*schema, *syscall, fs@[k]),
            forall|a: int, b: int|
                0 <= a < b < j ==> (#[trigger] fs@[a]).status@ != (#[trigger] fs@[b]).status@,
            results_diagnostic_from(*schema, *syscall, supported_rights, 0) is None,
            failures_diagnostic_from(*schema, *syscall, 0) == failures_diagnostic_from(
                *schema,
                *syscall,
                j as int,
            ),
        decreases fs@.len() - j,
    {
        let failure = fs[j];
        let checked = validate_failure(schema, syscall, failure);
        if checked.is_err() {
            assert(!failure_ok(*schema, *syscall, fs@[j as int]));
            return checked;
        }
        if contains_str(&statuses, failure.status) {
            proof {
                let k = choose|k: int| 0 <= k < statuses@.len() && (#[trigger] statuses@[k])@ == failure.status@;
                assert(fs@[k].status@ == fs@[j as int].status@);
            }
            return invalid(
                text4("syscall ", syscall.name, " repeats failure-result status ", failure.status),
            );
        }
        assert forall|a: int| 0 <= a < j implies fs@[a].status@ != fs@[j as int].status@ by {
            assert(statuses@[a]@ == fs@[a].status@);
        }
        let checked = validate_failure_names(syscall, failure);
        if checked.is_err() {
            assert(!failure_ok(*schema, *syscall, fs@[j as int]));
            return checked;
        }
        assert forall|a: int| 0 <= a < j implies fs@[a].status@ != fs@[j as int].status@ by {
            assert(statuses@[a]@ == fs@[a].status@);
        }
        assert(failure_diagnostic(*schema, *syscall, j as int) is None);
        statuses.push(failure.status);
        j = j + 1;
    }
    Ok(())
}


fn has_feature(schema: &AbiSchema, name: &str) -> (r: bool)
    ensures
        r == feature_gate_ok(*schema, FeatureGate::Named(name)),
{
    let fs = schema.features;
    let mut k: usize = 0;
    while k < fs.len()
        invariant
            fs@ == schema.features@,
            k <= fs@.len(),
            forall|j: int| 0 <= j < k ==> (#[trigger] fs@[j]).name@ != name@,
        decreases fs@.len() - k,
    {
        if str_eq(fs[k].name, name) {
            return true;
        }
        k = k + 1;
    }
    false
}

/// The checks on one syscall that need no other syscall.
fn validate_syscall(schema: &AbiSchema, syscall: &Syscall, supported_rights: u64) -> (r: Result<
    (),
    Error,
>)
    requires
        record_names_distinct(*schema),
    ensures
        r is Ok <==> {
            &&& feature_gate_ok(*schema, syscall.feature)
            &&& syscall.arguments@.len() <= SYSCALL_ARGUMENT_REGISTERS
            &&& syscall.results@.len() <= SYSCALL_RESULT_REGISTERS
            &&& (syscall.completion == CompletionClass::NoReturn ==> syscall.results@.len() == 0)
            &&& arguments_valid(*schema, *syscall, supported_rights)
            &&& results_valid(*schema, *syscall, supported_rights)
        },
        r matches Err(e) ==> e is InvalidSchema,
        reports(r, syscall_diagnostic(*schema, *syscall, supported_rights)),
{
    if let FeatureGate::Named(name) = syscall.feature {
        if !has_feature(schema, name) {
            return invalid(text4("syscall ", syscall.name, " names unknown feature ", name));
        }
    }
    if syscall.arguments.len() > SYSCALL_ARGUMENT_REGISTERS {
        return invalid(text3("syscall ", syscall.name, " exceeds the machine argument registers"));
    }
    if syscall.results.len() > SYSCALL_RESULT_REGISTERS {
        return invalid(text3("syscall ", syscall.name, " exceeds the machine result registers"));
    }
    if matches!(syscall.completion, CompletionClass::NoReturn) && syscall.results.len() != 0 {
        return invalid(text3("no-return syscall ", syscall.name, " declares results"));
    }
    let checked = validate_arguments(schema, syscall, supported_rights);
    if checked.is_err() {
        return checked;
    }
    validate_results(schema, syscall, supported_rights)
}

#[verifier::spinoff_prover]
#[verifier::rlimit(80)]
pub(crate) fn validate_syscalls(schema: &AbiSchema, supported_rights: u64) -> (r: Result<
    (),
    Error,
>)
    requires
        record_names_distinct(*schema),
    ensures
        r is Ok <==> syscalls_valid(*schema, supported_rights),
        r matches Err(e) ==> e is InvalidSchema,
        reports(r, syscalls_diagnostic_from(*schema, supported_rights, 0)),
{
    let cs = schema.syscalls;
    let mut names: Vec<&'static str> = Vec::new();
    let mut numbers: Vec<u64> = Vec::new();
    let mut previous: Option<u32> = None;
    let mut i: usize = 0;
    while i < cs.len()
        invariant
            record_names_distinct(*schema),
            cs@ == schema.syscalls@,
            i <= cs@.len(),
            names@.len() == i,
            numbers@.len() == i,
            forall|k: int| 0 <= k < i ==> (#[trigger] names@[k])@ == cs@[k].name@,
            forall|k: int| 0 <= k < i ==> #[trigger] numbers@[k] == cs@[k].number as u64,
            previous matches Some(p) ==> i > 0 && p == cs@[i - 1].number,
            previous is None ==> i == 0,
            forall|k: int| 0 <= k < i ==> #[trigger] syscall_ok(*schema, cs@[k], supported_rights),
            forall|a: int, b: int| 0 <= a < b < i ==> (#[trigger] cs@[a]).name@ != (#[trigger] cs@[b]).name@,
            forall|a: int, b: int| 0 <= a < b < i ==> (#[trigger] cs@[a]).number < (#[trigger] cs@[b]).number,
            syscalls_diagnostic_from(*schema, supported_rights, 0) == syscalls_diagnostic_from(
                *schema,
                supported_rights,
                i as int,
            ),
        decreases cs@.len() - i,
    {
        let syscall = cs[i];
        if !check_identifier(syscall.name) {
            assert(!syscall_ok(*schema, cs@[i as int], supported_rights));
            return Err(identifier_error("syscall", syscall.name));
        }
        if contains_str(&names, syscall.name) {
            proof {
                let k = choose|k: int| 0 <= k < names@.len() && (#[trigger] names@[k])@ == syscall.name@;
                assert(cs@[k].name@ == cs@[i as int].name@);
            }
            return invalid(text3("syscall ", syscall.name, " is declared more than once"));
        }
        assert forall|a: int| 0 <= a < i implies cs@[a].name@ != cs@[i as int].name@ by {
            assert(names@[a]@ == cs@[a].name@);
        }
        if contains_u64(&numbers, syscall.number as u64) {
            proof {
                let k = choose|k: int| 0 <= k < numbers@.len() && #[trigger] numbers@[k] == syscall.number as u64;
                assert(cs@[k].number == cs@[i as int].number);
            }
            let mut m = String::from_str("syscall number ");
            push_dec(&mut m, syscall.number as u64);
            push_str(&mut m, " is declared more than once");
            return invalid(m);
        }
        assert forall|a: int| 0 <= a < i implies cs@[a].number != cs@[i as int].number by {
            assert(numbers@[a] == cs@[a].number as u64);
        }
        if let Some(p) = previous {
            if syscall.number <= p {
                assert(!(cs@[i - 1].number < cs@[i as int].number));
                return invalid(String::from_str("syscall declarations must be ordered by number"));
            }
        }
        previous = Some(syscall.number);
        let checked = validate_syscall(schema, &syscall, supported_rights);
        if checked.is_err() {
            assert(!syscall_ok(*schema, cs@[i as int], supported_rights));
            return checked;
        }
        assert forall|a: int| 0 <= a < i implies cs@[a].name@ != cs@[i as int].name@
            && cs@[a].number < cs@[i as int].number by {
            assert(names@[a]@ == cs@[a].name@);
            if a < i - 1 {
                assert(cs@[a].number < cs@[i - 1].number);
            }
        }
        assert(syscall_entry_diagnostic(*schema, supported_rights, i as int) is None);
        names.push(syscall.name);
        numbers.push(syscall.number as u64);
        i = i + 1;
    }
    Ok(())
}

} // verus!
