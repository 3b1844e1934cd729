//! One-cell descriptions of syscall arguments, produced handles and user
//! memory, as the ABI reference prints them.

use vstd::prelude::*;
use crate::render::{direction_name, direction_text, join, push_joined, push_part, string_views};
use crate::schema::{
    CapabilityCommit, HandleArgument, HandleDisposition, HandleOperation, IndirectHandles,
    MemoryLength, ObjectConstraint, OperationDisposition, ProducedHandle, ProducedObject,
    ProducedRights, UserMemory,
};
use crate::text::{dec, hex, push_dec, push_hex, push_str};

verus! {

pub open spec fn disposition_name(d: OperationDisposition) -> Seq<char> {
    match d {
        OperationDisposition::Borrow => "Borrow"@,
        OperationDisposition::ConsumeOnCommit => "ConsumeOnCommit"@,
    }
}

pub open spec fn commit_name(c: CapabilityCommit) -> Seq<char> {
    match c {
        CapabilityCommit::AtomicOnOk => "AtomicOnOk"@,
    }
}

pub open spec fn operation_description(op: HandleOperation, common_rights: u64) -> Seq<char> {
    op.name@ + "="@ + dec(op.value as nat) + ":"@ + disposition_name(op.disposition)
        + "/rights=0x"@ + hex((common_rights | op.additional_rights) as nat)
}

/// The operations of a handle, joined with `+`.
pub open spec fn operations_description(ops: Seq<HandleOperation>, common_rights: u64) -> Seq<
    char,
> {
    join(ops.map_values(|op: HandleOperation| operation_description(op, common_rights)), "+"@)
}

pub open spec fn handle_object_description(object: ObjectConstraint) -> Seq<char> {
    match object {
        ObjectConstraint::Any => "any"@,
        ObjectConstraint::Kind(kind) => "kind="@ + kind@,
    }
}

pub open spec fn handle_argument_description(name: Seq<char>, h: HandleArgument) -> Seq<char> {
    match h.disposition {
        HandleDisposition::Borrow => "`"@ + name + ": Borrow, "@ + handle_object_description(
            h.object,
        ) + ", rights=0x"@ + hex(h.required_rights as nat) + "`"@,
        HandleDisposition::ConsumeOnCommit => "`"@ + name + ": ConsumeOnCommit, "@
            + handle_object_description(h.object) + ", rights=0x"@ + hex(h.required_rights as nat)
            + "`"@,
        HandleDisposition::ByOperation { argument, operations } => "`"@ + name + ": ByOperation("@
            + argument@ + ": "@ + operations_description(operations@, h.required_rights) + "), "@
            + handle_object_description(h.object) + ", common-rights=0x"@ + hex(
            h.required_rights as nat,
        ) + "`"@,
    }
}

pub open spec fn produced_object_description(object: ProducedObject) -> Seq<char> {
    match object {
        ProducedObject::SameAsArgument(argument) => "same-as("@ + argument@ + ")"@,
        ProducedObject::Kind(kind) => "kind="@ + kind@,
    }
}

pub open spec fn produced_rights_description(rights: ProducedRights) -> Seq<char> {
    match rights {
        ProducedRights::RequestedSubsetOf(argument) => "subset-from("@ + argument@ + ")"@,
        ProducedRights::ExactRequested { argument, allowed_rights, authority_source } => "exact-from("@
            + argument@ + "), allowed=0x"@ + hex(allowed_rights as nat) + match authority_source {
            Some(source) => ", required-from="@ + source@,
            None => Seq::empty(),
        },
        ProducedRights::Fixed(mask) => "fixed=0x"@ + hex(mask as nat),
    }
}

pub open spec fn produced_handle_description(name: Seq<char>, h: ProducedHandle) -> Seq<char> {
    "`"@ + name + ": produce, "@ + produced_object_description(h.object) + ", "@
        + produced_rights_description(h.rights) + "`"@
}

pub open spec fn memory_length_description(length: MemoryLength) -> Seq<char> {
    match length {
        MemoryLength::Bytes { argument, maximum_bytes } => "len="@ + argument@
            + " bytes, max-bytes="@ + dec(maximum_bytes as nat),
        MemoryLength::Elements { argument, maximum_elements, element_size } => "len="@ + argument@
            + " elements, max-elements="@ + dec(maximum_elements as nat) + ", element-size="@ + dec(
            element_size as nat,
        ),
    }
}

pub open spec fn memory_record_description(record: Option<&'static str>) -> Seq<char> {
    match record {
        Some(name) => ", record="@ + name@,
        None => Seq::empty(),
    }
}

pub open spec fn memory_handles_description(handles: Option<IndirectHandles>) -> Seq<char> {
    match handles {
        None => Seq::empty(),
        Some(IndirectHandles::BorrowRecords { handle_field, required_rights }) => ", borrowed-handles=("@
            + handle_field@ + "), required-rights=0x"@ + hex(required_rights as nat),
        Some(
            IndirectHandles::ConsumeRecords {
                handle_field,
                rights_field,
                expected_kind_field,
                operation_field,
                common_rights,
                operations,
                commit,
            },
        ) => ", transactional-handles=("@ + handle_field@ + ", "@ + rights_field@ + ", "@
            + expected_kind_field@ + ", "@ + operation_field@ + "), common-rights=0x"@ + hex(
            common_rights as nat,
        ) + ", operations=["@ + operations_description(operations@, common_rights) + "], commit="@
            + commit_name(commit),
        Some(
            IndirectHandles::ProduceTransferred {
                handle_field,
                rights_field,
                expected_kind_field,
                flags_field,
                commit,
            },
        ) => ", typed-receive-slots=("@ + handle_field@ + ", "@ + rights_field@ + ", "@
            + expected_kind_field@ + ", "@ + flags_field@
            + "), produce-transferred-handles, commit="@ + commit_name(commit),
    }
}

pub open spec fn user_memory_description(name: Seq<char>, m: UserMemory) -> Seq<char> {
    "`"@ + name + ": "@ + direction_name(m.direction) + ", "@ + memory_length_description(m.length)
        + memory_record_description(m.record) + memory_handles_description(m.handles)
        + "; order="@ + dec(m.validation_order as nat) + "`"@
}

// ---------------------------------------------------------------------------
// Executable descriptions.

fn push_disposition(out: &mut String, d: OperationDisposition)
    ensures
        final(out)@ == old(out)@ + disposition_name(d),
{
    match d {
        OperationDisposition::Borrow => push_str(out, "Borrow"),
        OperationDisposition::ConsumeOnCommit => push_str(out, "ConsumeOnCommit"),
    }
}

fn push_commit(out: &mut String, c: CapabilityCommit)
    ensures
        final(out)@ == old(out)@ + commit_name(c),
{
    match c {
        CapabilityCommit::AtomicOnOk => push_str(out, "AtomicOnOk"),
    }
}

fn push_operations(out: &mut String, ops: &'static [HandleOperation], common_rights: u64)
    ensures
        final(out)@ == old(out)@ + operations_description(ops@, common_rights),
{
    let mut parts: Vec<String> = Vec::new();
    let mut i: usize = 0;
    while i < ops.len()
        invariant
            i <= ops@.len(),
            string_views(parts@) == ops@.take(i as int).map_values(
                |op: HandleOperation| operation_description(op, common_rights),
            ),
        decreases ops@.len() - i,
    {
        let op = ops[i];
        let mut part = String::from_str(op.name);
        push_str(&mut part, "=");
        push_dec(&mut part, op.value as u64);
        push_str(&mut part, ":");
        push_disposition(&mut part, op.disposition);
        push_str(&mut part, "/rights=0x");
        push_hex(&mut part, common_rights | op.additional_rights);
        assert(part@ =~= operation_description(op, common_rights));
        push_part(&mut parts, part);
        assert(ops@.take(i + 1).map_values(
            |op: HandleOperation| operation_description(op, common_rights),
        ) =~= ops@.take(i as int).map_values(
            |op: HandleOperation| operation_description(op, common_rights),
        ).push(operation_description(op, common_rights)));
        i = i + 1;
    }
    assert(ops@.take(ops@.len() as int) == ops@);
    push_joined(out, &parts, "+");
}

fn push_handle_object(out: &mut String, object: ObjectConstraint)
    ensures
        final(out)@ == old(out)@ + handle_object_description(object),
{
    let ghost start = out@;
    match object {
        ObjectConstraint::Any => push_str(out, "any"),
        ObjectConstraint::Kind(kind) => {
            push_str(out, "kind=");
            push_str(out, kind);
            assert(out@ =~= start + handle_object_description(object));
        },
    }
}

/// The capability effect of one handle argument.
pub fn describe_handle_argument(name: &str, handle: HandleArgument) -> (r: String)
    ensures
        r@ == handle_argument_description(name@, handle),
{
    let mut out = String::from_str("`");
    push_str(&mut out, name);
    match handle.disposition {
        HandleDisposition::Borrow => {
            push_str(&mut out, ": Borrow, ");
            push_handle_object(&mut out, handle.object);
            push_str(&mut out, ", rights=0x");
            push_hex(&mut out, handle.required_rights);
            push_str(&mut out, "`");
        },
        HandleDisposition::ConsumeOnCommit => {
            push_str(&mut out, ": ConsumeOnCommit, ");
            push_handle_object(&mut out, handle.object);
            push_str(&mut out, ", rights=0x");
            push_hex(&mut out, handle.required_rights);
            push_str(&mut out, "`");
        },
        HandleDisposition::ByOperation { argument, operations } => {
            push_str(&mut out, ": ByOperation(");
            push_str(&mut out, argument);
            push_str(&mut out, ": ");
            push_operations(&mut out, operations, handle.required_rights);
            push_str(&mut out, "), ");
            push_handle_object(&mut out, handle.object);
            push_str(&mut out, ", common-rights=0x");
            push_hex(&mut out, handle.required_rights);
            push_str(&mut out, "`");
        },
    }
    assert(out@ =~= handle_argument_description(name@, handle));
    out
}

fn push_produced_object(out: &mut String, object: ProducedObject)
    ensures
        final(out)@ == old(out)@ + produced_object_description(object),
{
    let ghost start = out@;
    match object {
        ProducedObject::SameAsArgument(argument) => {
            push_str(out, "same-as(");
            push_str(out, argument);
            push_str(out, ")");
        },
        ProducedObject::Kind(kind) => {
            push_str(out, "kind=");
            push_str(out, kind);
        },
    }
    assert(out@ =~= start + produced_object_description(object));
}

fn push_produced_rights(out: &mut String, rights: ProducedRights)
    ensures
        final(out)@ == old(out)@ + produced_rights_description(rights),
{
    let ghost start = out@;
    match rights {
        ProducedRights::RequestedSubsetOf(argument) => {
            push_str(out, "subset-from(");
            push_str(out, argument);
            push_str(out, ")");
        },
        ProducedRights::ExactRequested { argument, allowed_rights, authority_source } => {
            push_str(out, "exact-from(");
            push_str(out, argument);
            push_str(out, "), allowed=0x");
            push_hex(out, allowed_rights);
            if let Some(source) = authority_source {
                push_str(out, ", required-from=");
                push_str(out, source);
            }
        },
        ProducedRights::Fixed(mask) => {
            push_str(out, "fixed=0x");
            push_hex(out, mask);
        },
    }
    assert(out@ =~= start + produced_rights_description(rights));
}

/// The capability effect of one produced handle.
pub fn describe_produced_handle(name: &str, handle: ProducedHandle) -> (r: String)
    ensures
        r@ == produced_handle_description(name@, handle),
{
    let mut out = String::from_str("`");
    push_str(&mut out, name);
    push_str(&mut out, ": produce, ");
    push_produced_object(&mut out, handle.object);
    push_str(&mut out, ", ");
    push_produced_rights(&mut out, handle.rights);
    push_str(&mut out, "`");
    assert(out@ =~= produced_handle_description(name@, handle));
    out
}

fn push_memory_length(out: &mut String, length: MemoryLength)
    ensures
        final(out)@ == old(out)@ + memory_length_description(length),
{
    let ghost start = out@;
    match length {
        MemoryLength::Bytes { argument, maximum_bytes } => {
            push_str(out, "len=");
            push_str(out, argument);
            push_str(out, " bytes, max-bytes=");
            push_dec(out, maximum_bytes as u64);
        },
        MemoryLength::Elements { argument, maximum_elements, element_size } => {
            push_str(out, "len=");
            push_str(out, argument);
            push_str(out, " elements, max-elements=");
            push_dec(out, maximum_elements as u64);
            push_str(out, ", element-size=");
            push_dec(out, element_size as u64);
        },
    }
    assert(out@ =~= start + memory_length_description(length));
}

fn push_memory_handles(out: &mut String, handles: Option<IndirectHandles>)
    ensures
        final(out)@ == old(out)@ + memory_handles_description(handles),
{
    let ghost start = out@;
    match handles {
        None => {
            assert(out@ =~= start + memory_handles_description(handles));
        },
        Some(IndirectHandles::BorrowRecords { handle_field, required_rights }) => {
            push_str(out, ", borrowed-handles=(");
            push_str(out, handle_field);
            push_str(out, "), required-rights=0x");
            push_hex(out, required_rights);
            assert(out@ =~= start + memory_handles_description(handles));
        },
        Some(
            IndirectHandles::ConsumeRecords {
                handle_field,
                rights_field,
                expected_kind_field,
                operation_field,
                common_rights,
                operations,
                commit,
            },
        ) => {
            push_str(out, ", transactional-handles=(");
            push_str(out, handle_field);
            push_str(out, ", ");
            push_str(out, rights_field);
            push_str(out, ", ");
            push_str(out, expected_kind_field);
            push_str(out, ", ");
            push_str(out, operation_field);
            push_str(out, "), common-rights=0x");
            push_hex(out, common_rights);
            push_str(out, ", operations=[");
            push_operations(out, operations, common_rights);
            push_str(out, "], commit=");
            push_commit(out, commit);
            assert(out@ =~= start + memory_handles_description(handles));
        },
        Some(
            IndirectHandles::ProduceTransferred {
                handle_field,
                rights_field,
                expected_kind_field,
                flags_field,
                commit,
            },
        ) => {
            push_str(out, ", typed-receive-slots=(");
            push_str(out, handle_field);
            push_str(out, ", ");
            push_str(out, rights_field);
            push_str(out, ", ");
            push_str(out, expected_kind_field);
            push_str(out, ", ");
            push_str(out, flags_field);
            push_str(out, "), produce-transferred-handles, commit=");
            push_commit(out, commit);
            assert(out@ =~= start + memory_handles_description(handles));
        },
    }
}

/// The user-memory contract of one memory argument.
pub fn describe_user_memory(name: &str, memory: UserMemory) -> (r: String)
    ensures
        r@ == user_memory_description(name@, memory),
{
    let mut out = String::from_str("`");
    push_str(&mut out, name);
    push_str(&mut out, ": ");
    push_str(&mut out, direction_text(memory.direction));
    push_str(&mut out, ", ");
    push_memory_length(&mut out, memory.length);
    let ghost before_record = out@;
    if let Some(record) = memory.record {
        push_str(&mut out, ", record=");
        push_str(&mut out, record);
    }
    assert(out@ =~= before_record + memory_record_description(memory.record));
    push_memory_handles(&mut out, memory.handles);
    push_str(&mut out, "; order=");
    push_dec(&mut out, memory.validation_order as u64);
    push_str(&mut out, "`");
    assert(out@ =~= user_memory_description(name@, memory));
    out
}

} // verus!
