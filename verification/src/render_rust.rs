//! The Rust rendering of a validated schema: constants, the transfer-class
//! and failure-result lookup functions, and `#[repr(C)]` records.

use vstd::prelude::*;
use crate::render::{
    concat_map, concat_range, lemma_concat_map_step, lemma_take_all, transfer_class_constant,
    transfer_class_constant_text, trim_final_blank, trimmed_final_blank,
};
use crate::schema::{
    AbiConstant, AbiSchema, FailureResults, Feature, Field, FieldKind, ObjectKind, Record,
    ResultValue, Right, Signal, Status, Syscall, SYSCALL_ARGUMENT_REGISTERS,
    SYSCALL_RESULT_REGISTERS,
};
use crate::calls::{syscall_ok, syscalls_valid};
use crate::text::{
    dec, dec_signed, decimal_text_denotes_its_number, decimal_value, hex, hexadecimal_text_denotes_its_number,
    hexadecimal_value, lemma_payload, push_dec, push_dec_signed, push_hex, push_str, push_upper_snake,
    signed_decimal_text_denotes_its_number, signed_decimal_value, str_eq, upper_camel,
    upper_camel_spec, upper_snake_spec,
};
use crate::validate::{
    field_end, field_ok, previous_end, record_ok, records_valid, rights_mask, rights_valid,
    schema_valid,
};

verus! {

// ---------------------------------------------------------------------------
// Lines shared by several sections.

pub open spec fn rust_bit_line(prefix: Seq<char>, name: Seq<char>, bit: u8) -> Seq<char> {
    "pub const "@ + prefix + "_"@ + upper_snake_spec(name) + ": u64 = 1_u64 << "@ + dec(bit as nat)
        + ";\n"@
}

pub open spec fn rust_u64_line(prefix: Seq<char>, name: Seq<char>, value: u64) -> Seq<char> {
    "pub const "@ + prefix + "_"@ + upper_snake_spec(name) + ": u64 = "@ + dec(value as nat)
        + ";\n"@
}

pub open spec fn rust_u32_line(prefix: Seq<char>, name: Seq<char>, value: u32) -> Seq<char> {
    "pub const "@ + prefix + "_"@ + upper_snake_spec(name) + ": u32 = "@ + dec(value as nat)
        + ";\n"@
}

pub open spec fn rust_status_line(prefix: Seq<char>, name: Seq<char>, value: i64) -> Seq<char> {
    "pub const "@ + prefix + "_"@ + upper_snake_spec(name) + ": HyperNativeStatus = "@
        + dec_signed(value as int) + ";\n"@
}

/// `pub const <PREFIX>_<NAME>: `, the head of every constant line.
pub open spec fn rust_constant_head(prefix: Seq<char>, name: Seq<char>) -> Seq<char> {
    "pub const "@ + prefix + "_"@ + upper_snake_spec(name)
}

/// Every constant line of the Rust definitions declares the constant's name
/// with a literal that denotes the constant's value: a bit constant shifts
/// one left by its bit, unsigned constants are their decimal value, and a
/// status is its signed value, negative values included.
pub proof fn rust_constant_lines_denote_their_values(
    prefix: Seq<char>,
    name: Seq<char>,
    bit: u8,
    v64: u64,
    v32: u32,
    status: i64,
)
    ensures
        ({
            let h = rust_constant_head(prefix, name);
            let bit_head = h + ": u64 = 1_u64 << "@;
            let l = rust_bit_line(prefix, name, bit);
            &&& l.subrange(0, bit_head.len() as int) == bit_head
            &&& decimal_value(l.subrange(bit_head.len() as int, l.len() - 2)) == bit
        }),
        ({
            let h = rust_constant_head(prefix, name) + ": u64 = "@;
            let l = rust_u64_line(prefix, name, v64);
            &&& l.subrange(0, h.len() as int) == h
            &&& decimal_value(l.subrange(h.len() as int, l.len() - 2)) == v64
        }),
        ({
            let h = rust_constant_head(prefix, name) + ": u32 = "@;
            let l = rust_u32_line(prefix, name, v32);
            &&& l.subrange(0, h.len() as int) == h
            &&& decimal_value(l.subrange(h.len() as int, l.len() - 2)) == v32
        }),
        ({
            let h = rust_constant_head(prefix, name) + ": HyperNativeStatus = "@;
            let l = rust_status_line(prefix, name, status);
            &&& l.subrange(0, h.len() as int) == h
            &&& signed_decimal_value(l.subrange(h.len() as int, l.len() - 2)) == status
        }),
{
    reveal_strlit(";\n");
    let h = rust_constant_head(prefix, name);
    decimal_text_denotes_its_number(bit as nat);
    lemma_payload(h + ": u64 = 1_u64 << "@, dec(bit as nat), ";\n"@);
    decimal_text_denotes_its_number(v64 as nat);
    lemma_payload(h + ": u64 = "@, dec(v64 as nat), ";\n"@);
    decimal_text_denotes_its_number(v32 as nat);
    lemma_payload(h + ": u32 = "@, dec(v32 as nat), ";\n"@);
    signed_decimal_text_denotes_its_number(status as int);
    lemma_payload(h + ": HyperNativeStatus = "@, dec_signed(status as int), ";\n"@);
}

/// The rights mask of the Rust definitions is written in hexadecimal and
/// denotes the union of every declared right's bit.
pub proof fn rust_rights_mask_denotes_the_declared_rights(schema: AbiSchema)
    ensures
        ({
            let head = concat_map(
                schema.rights@,
                |r: Right| rust_bit_line("HYPER_NATIVE_RIGHT"@, r.name@, r.bit),
            ) + "\n"@ + "pub const HYPER_NATIVE_RIGHTS_MASK: u64 = 0x"@;
            let t = rust_rights(schema);
            &&& t.subrange(0, head.len() as int) == head
            &&& hexadecimal_value(t.subrange(head.len() as int, t.len() - 3)) == rights_mask(
                schema.rights@,
            )
        }),
{
    reveal_strlit(";\n\n");
    let head = concat_map(
        schema.rights@,
        |r: Right| rust_bit_line("HYPER_NATIVE_RIGHT"@, r.name@, r.bit),
    ) + "\n"@ + "pub const HYPER_NATIVE_RIGHTS_MASK: u64 = 0x"@;
    hexadecimal_text_denotes_its_number(rights_mask(schema.rights@) as nat);
    lemma_payload(head, hex(rights_mask(schema.rights@) as nat), ";\n\n"@);
}

fn push_rust_bit_line(out: &mut String, prefix: &str, name: &str, bit: u8)
    ensures
        final(out)@ == old(out)@ + rust_bit_line(prefix@, name@, bit),
{
    let ghost start = out@;
    push_str(out, "pub const ");
    push_str(out, prefix);
    push_str(out, "_");
    push_upper_snake(out, name);
    push_str(out, ": u64 = 1_u64 << ");
    push_dec(out, bit as u64);
    push_str(out, ";\n");
    assert(out@ =~= start + rust_bit_line(prefix@, name@, bit));
}

fn push_rust_u64_line(out: &mut String, prefix: &str, name: &str, value: u64)
    ensures
        final(out)@ == old(out)@ + rust_u64_line(prefix@, name@, value),
{
    let ghost start = out@;
    push_str(out, "pub const ");
    push_str(out, prefix);
    push_str(out, "_");
    push_upper_snake(out, name);
    push_str(out, ": u64 = ");
    push_dec(out, value);
    push_str(out, ";\n");
    assert(out@ =~= start + rust_u64_line(prefix@, name@, value));
}

fn push_rust_u32_line(out: &mut String, prefix: &str, name: &str, value: u32)
    ensures
        final(out)@ == old(out)@ + rust_u32_line(prefix@, name@, value),
{
    let ghost start = out@;
    push_str(out, "pub const ");
    push_str(out, prefix);
    push_str(out, "_");
    push_upper_snake(out, name);
    push_str(out, ": u32 = ");
    push_dec(out, value as u64);
    push_str(out, ";\n");
    assert(out@ =~= start + rust_u32_line(prefix@, name@, value));
}

fn push_rust_status_line(out: &mut String, prefix: &str, name: &str, value: i64)
    ensures
        final(out)@ == old(out)@ + rust_status_line(prefix@, name@, value),
{
    let ghost start = out@;
    push_str(out, "pub const ");
    push_str(out, prefix);
    push_str(out, "_");
    push_upper_snake(out, name);
    push_str(out, ": HyperNativeStatus = ");
    push_dec_signed(out, value);
    push_str(out, ";\n");
    assert(out@ =~= start + rust_status_line(prefix@, name@, value));
}

// ---------------------------------------------------------------------------
// Failure-result masks.

/// Index of the first result named `name`.
pub open spec fn result_position(results: Seq<ResultValue>, name: Seq<char>) -> Option<nat>
    decreases results.len(),
{
    if results.len() == 0 {
        None
    } else {
        match result_position(results.drop_last(), name) {
            Some(i) => Some(i),
            None => if results.last().name@ == name {
                Some((results.len() - 1) as nat)
            } else {
                None
            },
        }
    }
}

/// Bit `i` is set when result `i` stays defined on failure: the union of
/// the bits of the first results named by `names`.
pub open spec fn failure_mask(results: Seq<ResultValue>, names: Seq<&'static str>) -> u64
    decreases names.len(),
{
    if names.len() == 0 {
        0
    } else {
        let rest = failure_mask(results, names.drop_last());
        match result_position(results, names.last()@) {
            Some(i) => rest | (1u64 << (i as u64)),
            None => rest,
        }
    }
}

proof fn lemma_result_position_bound(results: Seq<ResultValue>, name: Seq<char>)
    ensures
        result_position(results, name) matches Some(i) ==> i < results.len(),
    decreases results.len(),
{
    if results.len() > 0 {
        lemma_result_position_bound(results.drop_last(), name);
    }
}

fn find_result_position(results: &'static [ResultValue], name: &str) -> (r: Option<usize>)
    ensures
        r matches Some(i) ==> result_position(results@, name@) == Some(i as nat),
        r is None ==> result_position(results@, name@) is None,
{
    let mut k: usize = 0;
    while k < results.len()
        invariant
            k <= results@.len(),
            result_position(results@.take(k as int), name@) is None,
        decreases results@.len() - k,
    {
        assert(results@.take(k + 1).drop_last() == results@.take(k as int));
        if str_eq(results[k].name, name) {
            proof {
                prefix_position(results@, k as int + 1, name@);
            }
            return Some(k);
        }
        proof {
            prefix_position(results@, k as int + 1, name@);
        }
        k = k + 1;
    }
    proof {
        lemma_take_all(results@);
    }
    None
}

/// The first match in a prefix is the first match overall.
proof fn prefix_position(results: Seq<ResultValue>, n: int, name: Seq<char>)
    requires
        0 <= n <= results.len(),
    ensures
        result_position(results.take(n), name) matches Some(i) ==> result_position(results, name)
            == Some(i),
    decreases results.len() - n,
{
    if n < results.len() {
        prefix_position(results, n + 1, name);
        assert(results.take(n + 1).drop_last() == results.take(n));
    } else {
        lemma_take_all(results);
    }
}

pub(crate) fn compute_failure_mask(results: &'static [ResultValue], names: &'static [&'static str]) -> (r: u64)
    requires
        results@.len() <= 64,
    ensures
        r == failure_mask(results@, names@),
{
    let mut mask: u64 = 0;
    let mut k: usize = 0;
    while k < names.len()
        invariant
            results@.len() <= 64,
            k <= names@.len(),
            mask == failure_mask(results@, names@.take(k as int)),
        decreases names@.len() - k,
    {
        assert(names@.take(k + 1).drop_last() == names@.take(k as int));
        let position = find_result_position(results, names[k]);
        proof {
            lemma_result_position_bound(results@, names@[k as int]@);
        }
        if let Some(index) = position {
            mask = mask | (1u64 << (index as u64));
        }
        k = k + 1;
    }
    proof {
        lemma_take_all(names@);
    }
    mask
}

pub open spec fn rust_failure_line(syscall: Syscall, failure: FailureResults) -> Seq<char> {
    "        (HYPER_NATIVE_SYS_"@ + upper_snake_spec(syscall.name@) + ", HYPER_NATIVE_STATUS_"@
        + upper_snake_spec(failure.status@) + ") => "@ + dec(
        failure_mask(syscall.results@, failure.results@) as nat,
    ) + ",\n"@
}

pub open spec fn rust_failure_lines(syscall: Syscall) -> Seq<char> {
    concat_map(syscall.failure_results@, |f: FailureResults| rust_failure_line(syscall, f))
}

pub open spec fn rust_failure_result_mask(schema: AbiSchema) -> Seq<char> {
    "pub const fn hyper_native_failure_result_mask(\n    syscall_number: u64,\n    status: HyperNativeStatus,\n) -> u64 {\n    match (syscall_number, status) {\n"@
        + concat_map(schema.syscalls@, |c: Syscall| rust_failure_lines(c))
        + "        _ => 0,\n    }\n}\n\n"@
}

fn push_rust_failure_lines(out: &mut String, syscall: &Syscall)
    requires
        syscall.results@.len() <= 64,
    ensures
        final(out)@ == old(out)@ + rust_failure_lines(*syscall),
{
    let ghost start = out@;
    let fs = syscall.failure_results;
    let mut i: usize = 0;
    while i < fs.len()
        invariant
            fs@ == syscall.failure_results@,
            syscall.results@.len() <= 64,
            i <= fs@.len(),
            out@ == start + concat_map(
                fs@.take(i as int),
                |f: FailureResults| rust_failure_line(*syscall, f),
            ),
        decreases fs@.len() - i,
    {
        let failure = fs[i];
        let ghost before = out@;
        let mask = compute_failure_mask(syscall.results, failure.results);
        push_str(out, "        (HYPER_NATIVE_SYS_");
        push_upper_snake(out, syscall.name);
        push_str(out, ", HYPER_NATIVE_STATUS_");
        push_upper_snake(out, failure.status);
        push_str(out, ") => ");
        push_dec(out, mask);
        push_str(out, ",\n");
        proof {
            assert(out@ =~= before + rust_failure_line(*syscall, failure));
            lemma_concat_map_step(fs@, i as int, |f: FailureResults| rust_failure_line(*syscall, f));
        }
        i = i + 1;
    }
    proof {
        lemma_take_all(fs@);
    }
}

fn push_rust_failure_result_mask(out: &mut String, schema: &AbiSchema)
    requires
        forall|k: int| 0 <= k < schema.syscalls@.len() ==> (#[trigger] schema.syscalls@[k]).results@.len() <= 64,
    ensures
        final(out)@ == old(out)@ + rust_failure_result_mask(*schema),
{
    let ghost start = out@;
    push_str(
        out,
        "pub const fn hyper_native_failure_result_mask(\n    syscall_number: u64,\n    status: HyperNativeStatus,\n) -> u64 {\n    match (syscall_number, status) {\n",
    );
    let ghost head = out@;
    let cs = schema.syscalls;
    let mut i: usize = 0;
    while i < cs.len()
        invariant
            cs@ == schema.syscalls@,
            forall|k: int| 0 <= k < cs@.len() ==> (#[trigger] cs@[k]).results@.len() <= 64,
            i <= cs@.len(),
            out@ == head + concat_map(cs@.take(i as int), |c: Syscall| rust_failure_lines(c)),
        decreases cs@.len() - i,
    {
        let syscall = cs[i];
        assert(cs@[i as int].results@.len() <= 64);
        push_rust_failure_lines(out, &syscall);
        proof {
            lemma_concat_map_step(cs@, i as int, |c: Syscall| rust_failure_lines(c));
        }
        i = i + 1;
    }
    proof {
        lemma_take_all(cs@);
    }
    push_str(out, "        _ => 0,\n    }\n}\n\n");
    assert(out@ =~= start + rust_failure_result_mask(*schema));
}


// ---------------------------------------------------------------------------
// Constant sections.

pub open spec fn rust_header(schema: AbiSchema) -> Seq<char> {
    "// SPDX-FileCopyrightText: 2026 roolrz\n// SPDX-License-Identifier: Apache-2.0\n\n// Generated from schema/native.rs. Do not edit.\n\n"@
        + "pub const HYPER_NATIVE_ABI_REVISION: u64 = "@ + dec(schema.revision as nat) + ";\n"@
        + "pub const HYPER_NATIVE_SYSCALL_ARGUMENT_REGISTERS: usize = "@ + dec(
        SYSCALL_ARGUMENT_REGISTERS as nat,
    ) + ";\n"@ + "pub const HYPER_NATIVE_SYSCALL_RESULT_REGISTERS: usize = "@ + dec(
        SYSCALL_RESULT_REGISTERS as nat,
    ) + ";\n"@ + "pub type HyperNativeHandle = u64;\npub type HyperNativeStatus = i64;\n\n"@
}

pub open spec fn rust_features(schema: AbiSchema) -> Seq<char> {
    concat_map(
        schema.features@,
        |f: Feature| rust_bit_line("HYPER_NATIVE_FEATURE"@, f.name@, f.bit),
    ) + "\n"@
}

pub open spec fn rust_statuses(schema: AbiSchema) -> Seq<char> {
    concat_map(
        schema.statuses@,
        |s: Status| rust_status_line("HYPER_NATIVE_STATUS"@, s.name@, s.value),
    ) + "\n"@
}

pub open spec fn rust_objects(schema: AbiSchema) -> Seq<char> {
    concat_map(
        schema.object_kinds@,
        |o: ObjectKind| rust_u32_line("HYPER_NATIVE_OBJECT"@, o.name@, o.value),
    ) + "\n"@
}

pub open spec fn rust_transfer_arm(o: ObjectKind) -> Seq<char> {
    "        HYPER_NATIVE_OBJECT_"@ + upper_snake_spec(o.name@) + " => "@ + transfer_class_constant(
        o.transfer,
    ) + ",\n"@
}

pub open spec fn rust_transfer_classes(schema: AbiSchema) -> Seq<char> {
    "pub const HYPER_NATIVE_TRANSFER_CLASS_FORBIDDEN: u32 = 0;\n"@
        + "pub const HYPER_NATIVE_TRANSFER_CLASS_GENERAL: u32 = 1;\n"@
        + "pub const HYPER_NATIVE_TRANSFER_CLASS_RENDEZVOUS_ONLY: u32 = 2;\n\n"@
        + "pub const fn hyper_native_object_transfer_class(object_kind: u32) -> u32 {\n"@
        + "    match object_kind {\n"@ + concat_map(
        schema.object_kinds@,
        |o: ObjectKind| rust_transfer_arm(o),
    ) + "        _ => HYPER_NATIVE_TRANSFER_CLASS_FORBIDDEN,\n"@ + "    }\n"@ + "}\n\n"@
}

pub open spec fn rust_rights(schema: AbiSchema) -> Seq<char> {
    concat_map(schema.rights@, |r: Right| rust_bit_line("HYPER_NATIVE_RIGHT"@, r.name@, r.bit))
        + "\n"@ + "pub const HYPER_NATIVE_RIGHTS_MASK: u64 = 0x"@ + hex(
        rights_mask(schema.rights@) as nat,
    ) + ";\n\n"@
}

pub open spec fn rust_signal_line(s: Signal) -> Seq<char> {
    "pub const HYPER_NATIVE_SIGNAL_"@ + upper_snake_spec(s.object@) + "_"@ + upper_snake_spec(
        s.name@,
    ) + ": u64 = 1_u64 << "@ + dec(s.bit as nat) + ";\n"@
}

pub open spec fn rust_signals(schema: AbiSchema) -> Seq<char> {
    concat_map(schema.signals@, |s: Signal| rust_signal_line(s)) + if schema.signals@.len() > 0 {
        "\n"@
    } else {
        Seq::empty()
    }
}

pub open spec fn rust_constants(schema: AbiSchema) -> Seq<char> {
    concat_map(
        schema.constants@,
        |c: AbiConstant| rust_u64_line("HYPER_NATIVE"@, c.name@, c.value),
    ) + "\n"@
}

pub open spec fn rust_syscall_numbers(schema: AbiSchema) -> Seq<char> {
    concat_map(
        schema.syscalls@,
        |c: Syscall| rust_u64_line("HYPER_NATIVE_SYS"@, c.name@, c.number as u64),
    ) + "\n"@
}

fn push_rust_header(out: &mut String, schema: &AbiSchema)
    ensures
        final(out)@ == old(out)@ + rust_header(*schema),
{
    let ghost start = out@;
    push_str(
        out,
        "// SPDX-FileCopyrightText: 2026 roolrz\n// SPDX-License-Identifier: Apache-2.0\n\n// Generated from schema/native.rs. Do not edit.\n\n",
    );
    push_str(out, "pub const HYPER_NATIVE_ABI_REVISION: u64 = ");
    push_dec(out, schema.revision);
    push_str(out, ";\n");
    push_str(out, "pub const HYPER_NATIVE_SYSCALL_ARGUMENT_REGISTERS: usize = ");
    push_dec(out, SYSCALL_ARGUMENT_REGISTERS as u64);
    push_str(out, ";\n");
    push_str(out, "pub const HYPER_NATIVE_SYSCALL_RESULT_REGISTERS: usize = ");
    push_dec(out, SYSCALL_RESULT_REGISTERS as u64);
    push_str(out, ";\n");
    push_str(out, "pub type HyperNativeHandle = u64;\npub type HyperNativeStatus = i64;\n\n");
    assert(out@ =~= start + rust_header(*schema));
}

fn push_rust_features(out: &mut String, schema: &AbiSchema)
    ensures
        final(out)@ == old(out)@ + rust_features(*schema),
{
    let ghost start = out@;
    let fs = schema.features;
    let mut i: usize = 0;
    while i < fs.len()
        invariant
            fs@ == schema.features@,
            i <= fs@.len(),
            out@ == start + concat_map(
                fs@.take(i as int),
                |f: Feature| rust_bit_line("HYPER_NATIVE_FEATURE"@, f.name@, f.bit),
            ),
        decreases fs@.len() - i,
    {
        push_rust_bit_line(out, "HYPER_NATIVE_FEATURE", fs[i].name, fs[i].bit);
        proof {
            lemma_concat_map_step(
                fs@,
                i as int,
                |f: Feature| rust_bit_line("HYPER_NATIVE_FEATURE"@, f.name@, f.bit),
            );
        }
        i = i + 1;
    }
    proof {
        lemma_take_all(fs@);
    }
    push_str(out, "\n");
}

fn push_rust_statuses(out: &mut String, schema: &AbiSchema)
    ensures
        final(out)@ == old(out)@ + rust_statuses(*schema),
{
    let ghost start = out@;
    let ss = schema.statuses;
    let mut i: usize = 0;
    while i < ss.len()
        invariant
            ss@ == schema.statuses@,
            i <= ss@.len(),
            out@ == start + concat_map(
                ss@.take(i as int),
                |s: Status| rust_status_line("HYPER_NATIVE_STATUS"@, s.name@, s.value),
            ),
        decreases ss@.len() - i,
    {
        push_rust_status_line(out, "HYPER_NATIVE_STATUS", ss[i].name, ss[i].value);
        proof {
            lemma_concat_map_step(
                ss@,
                i as int,
                |s: Status| rust_status_line("HYPER_NATIVE_STATUS"@, s.name@, s.value),
            );
        }
        i = i + 1;
    }
    proof {
        lemma_take_all(ss@);
    }
    push_str(out, "\n");
}

fn push_rust_objects(out: &mut String, schema: &AbiSchema)
    ensures
        final(out)@ == old(out)@ + rust_objects(*schema),
{
    let ghost start = out@;
    let os = schema.object_kinds;
    let mut i: usize = 0;
    while i < os.len()
        invariant
            os@ == schema.object_kinds@,
            i <= os@.len(),
            out@ == start + concat_map(
                os@.take(i as int),
                |o: ObjectKind| rust_u32_line("HYPER_NATIVE_OBJECT"@, o.name@, o.value),
            ),
        decreases os@.len() - i,
    {
        push_rust_u32_line(out, "HYPER_NATIVE_OBJECT", os[i].name, os[i].value);
        proof {
            lemma_concat_map_step(
                os@,
                i as int,
                |o: ObjectKind| rust_u32_line("HYPER_NATIVE_OBJECT"@, o.name@, o.value),
            );
        }
        i = i + 1;
    }
    proof {
        lemma_take_all(os@);
    }
    push_str(out, "\n");
}

fn push_rust_transfer_classes(out: &mut String, schema: &AbiSchema)
    ensures
        final(out)@ == old(out)@ + rust_transfer_classes(*schema),
{
    let ghost start = out@;
    push_str(out, "pub const HYPER_NATIVE_TRANSFER_CLASS_FORBIDDEN: u32 = 0;\n");
    push_str(out, "pub const HYPER_NATIVE_TRANSFER_CLASS_GENERAL: u32 = 1;\n");
    push_str(out, "pub const HYPER_NATIVE_TRANSFER_CLASS_RENDEZVOUS_ONLY: u32 = 2;\n\n");
    push_str(out, "pub const fn hyper_native_object_transfer_class(object_kind: u32) -> u32 {\n");
    push_str(out, "    match object_kind {\n");
    let ghost head = out@;
    let os = schema.object_kinds;
    let mut i: usize = 0;
    while i < os.len()
        invariant
            os@ == schema.object_kinds@,
            i <= os@.len(),
            out@ == head + concat_map(os@.take(i as int), |o: ObjectKind| rust_transfer_arm(o)),
        decreases os@.len() - i,
    {
        let ghost before = out@;
        push_str(out, "        HYPER_NATIVE_OBJECT_");
        push_upper_snake(out, os[i].name);
        push_str(out, " => ");
        push_str(out, transfer_class_constant_text(os[i].transfer));
        push_str(out, ",\n");
        proof {
            assert(out@ =~= before + rust_transfer_arm(os@[i as int]));
            lemma_concat_map_step(os@, i as int, |o: ObjectKind| rust_transfer_arm(o));
        }
        i = i + 1;
    }
    proof {
        lemma_take_all(os@);
    }
    push_str(out, "        _ => HYPER_NATIVE_TRANSFER_CLASS_FORBIDDEN,\n");
    push_str(out, "    }\n");
    push_str(out, "}\n\n");
    assert(out@ =~= start + rust_transfer_classes(*schema));
}

pub(crate) fn compute_rights_mask(schema: &AbiSchema) -> (r: u64)
    requires
        rights_valid(schema.rights@),
    ensures
        r == rights_mask(schema.rights@),
{
    let rs = schema.rights;
    let mut mask: u64 = 0;
    let mut i: usize = 0;
    while i < rs.len()
        invariant
            rs@ == schema.rights@,
            rights_valid(rs@),
            i <= rs@.len(),
            mask == rights_mask(rs@.take(i as int)),
        decreases rs@.len() - i,
    {
        assert(rs@.take(i + 1).drop_last() == rs@.take(i as int));
        assert(crate::validate::right_ok(rs@[i as int]));
        mask = mask | (1u64 << rs[i].bit);
        i = i + 1;
    }
    proof {
        lemma_take_all(rs@);
    }
    mask
}

fn push_rust_rights(out: &mut String, schema: &AbiSchema)
    requires
        rights_valid(schema.rights@),
    ensures
        final(out)@ == old(out)@ + rust_rights(*schema),
{
    let ghost start = out@;
    let rs = schema.rights;
    let mut i: usize = 0;
    while i < rs.len()
        invariant
            rs@ == schema.rights@,
            i <= rs@.len(),
            out@ == start + concat_map(
                rs@.take(i as int),
                |r: Right| rust_bit_line("HYPER_NATIVE_RIGHT"@, r.name@, r.bit),
            ),
        decreases rs@.len() - i,
    {
        push_rust_bit_line(out, "HYPER_NATIVE_RIGHT", rs[i].name, rs[i].bit);
        proof {
            lemma_concat_map_step(
                rs@,
                i as int,
                |r: Right| rust_bit_line("HYPER_NATIVE_RIGHT"@, r.name@, r.bit),
            );
        }
        i = i + 1;
    }
    proof {
        lemma_take_all(rs@);
    }
    push_str(out, "\n");
    let mask = compute_rights_mask(schema);
    push_str(out, "pub const HYPER_NATIVE_RIGHTS_MASK: u64 = 0x");
    push_hex(out, mask);
    push_str(out, ";\n\n");
    assert(out@ =~= start + rust_rights(*schema));
}

fn push_rust_signals(out: &mut String, schema: &AbiSchema)
    ensures
        final(out)@ == old(out)@ + rust_signals(*schema),
{
    let ghost start = out@;
    let ss = schema.signals;
    let mut i: usize = 0;
    while i < ss.len()
        invariant
            ss@ == schema.signals@,
            i <= ss@.len(),
            out@ == start + concat_map(ss@.take(i as int), |s: Signal| rust_signal_line(s)),
        decreases ss@.len() - i,
    {
        let ghost before = out@;
        push_str(out, "pub const HYPER_NATIVE_SIGNAL_");
        push_upper_snake(out, ss[i].object);
        push_str(out, "_");
        push_upper_snake(out, ss[i].name);
        push_str(out, ": u64 = 1_u64 << ");
        push_dec(out, ss[i].bit as u64);
        push_str(out, ";\n");
        proof {
            assert(out@ =~= before + rust_signal_line(ss@[i as int]));
            lemma_concat_map_step(ss@, i as int, |s: Signal| rust_signal_line(s));
        }
        i = i + 1;
    }
    proof {
        lemma_take_all(ss@);
    }
    if ss.len() > 0 {
        push_str(out, "\n");
    } else {
        assert(out@ =~= start + rust_signals(*schema));
    }
}

fn push_rust_constants(out: &mut String, schema: &AbiSchema)
    ensures
        final(out)@ == old(out)@ + rust_constants(*schema),
{
    let ghost start = out@;
    let cs = schema.constants;
    let mut i: usize = 0;
    while i < cs.len()
        invariant
            cs@ == schema.constants@,
            i <= cs@.len(),
            out@ == start + concat_map(
                cs@.take(i as int),
                |c: AbiConstant| rust_u64_line("HYPER_NATIVE"@, c.name@, c.value),
            ),
        decreases cs@.len() - i,
    {
        push_rust_u64_line(out, "HYPER_NATIVE", cs[i].name, cs[i].value);
        proof {
            lemma_concat_map_step(
                cs@,
                i as int,
                |c: AbiConstant| rust_u64_line("HYPER_NATIVE"@, c.name@, c.value),
            );
        }
        i = i + 1;
    }
    proof {
        lemma_take_all(cs@);
    }
    push_str(out, "\n");
}

fn push_rust_syscall_numbers(out: &mut String, schema: &AbiSchema)
    ensures
        final(out)@ == old(out)@ + rust_syscall_numbers(*schema),
{
    let ghost start = out@;
    let cs = schema.syscalls;
    let mut i: usize = 0;
    while i < cs.len()
        invariant
            cs@ == schema.syscalls@,
            i <= cs@.len(),
            out@ == start + concat_map(
                cs@.take(i as int),
                |c: Syscall| rust_u64_line("HYPER_NATIVE_SYS"@, c.name@, c.number as u64),
            ),
        decreases cs@.len() - i,
    {
        push_rust_u64_line(out, "HYPER_NATIVE_SYS", cs[i].name, cs[i].number as u64);
        proof {
            lemma_concat_map_step(
                cs@,
                i as int,
                |c: Syscall| rust_u64_line("HYPER_NATIVE_SYS"@, c.name@, c.number as u64),
            );
        }
        i = i + 1;
    }
    proof {
        lemma_take_all(cs@);
    }
    push_str(out, "\n");
}


// ---------------------------------------------------------------------------
// Records.

/// Number of padding members emitted before field `i`: one for every earlier
/// field that starts after the end of its predecessor.
pub open spec fn gap_count(fields: Seq<Field>, i: int) -> nat
    decreases i,
{
    if i <= 0 {
        0
    } else {
        gap_count(fields, i - 1) + if fields[i - 1].offset > previous_end(fields, i - 1) {
            1nat
        } else {
            0nat
        }
    }
}

pub proof fn lemma_gap_count_bound(fields: Seq<Field>, i: int)
    requires
        0 <= i,
    ensures
        gap_count(fields, i) <= i,
    decreases i,
{
    if i > 0 {
        lemma_gap_count_bound(fields, i - 1);
    }
}

pub open spec fn rust_field_type(kind: FieldKind) -> Seq<char> {
    match kind {
        FieldKind::U32 => "u32"@,
        FieldKind::U64 => "u64"@,
        FieldKind::Bytes(size) => "[u8; "@ + dec(size as nat) + "]"@,
    }
}

pub open spec fn rust_padding_line(index: nat, size: nat) -> Seq<char> {
    "    pub _padding"@ + dec(index) + ": [u8; "@ + dec(size) + "],\n"@
}

pub open spec fn rust_field_lines(fields: Seq<Field>, i: int) -> Seq<char> {
    (if fields[i].offset > previous_end(fields, i) {
        rust_padding_line(gap_count(fields, i), (fields[i].offset - previous_end(fields, i)) as nat)
    } else {
        Seq::empty()
    }) + "    pub "@ + fields[i].name@ + ": "@ + rust_field_type(fields[i].kind) + ",\n"@
}

pub open spec fn rust_tail_padding(r: Record) -> Seq<char> {
    if r.size > previous_end(r.fields@, r.fields@.len() as int) {
        rust_padding_line(
            gap_count(r.fields@, r.fields@.len() as int),
            (r.size - previous_end(r.fields@, r.fields@.len() as int)) as nat,
        )
    } else {
        Seq::empty()
    }
}

pub open spec fn rust_offset_assertion(camel: Seq<char>, f: Field) -> Seq<char> {
    "assert!(core::mem::offset_of!(HyperNative"@ + camel + ", "@ + f.name@ + ") == "@ + dec(
        f.offset as nat,
    ) + ");"@
}

/// One offset assertion, wrapped when the line would exceed one hundred columns.
pub open spec fn rust_offset_line(camel: Seq<char>, f: Field) -> Seq<char> {
    if "const _: () = "@.len() + rust_offset_assertion(camel, f).len() <= 100 {
        "const _: () = "@ + rust_offset_assertion(camel, f) + "\n"@
    } else {
        "const _: () =\n    "@ + rust_offset_assertion(camel, f) + "\n"@
    }
}

pub open spec fn rust_record(r: Record) -> Seq<char> {
    rust_record_head(r) + rust_record_layout(r) + concat_map(
        r.fields@,
        |f: Field| rust_offset_line(upper_camel_spec(r.name@), f),
    ) + "\n"@
}

/// The struct definition of one record.
pub open spec fn rust_record_head(r: Record) -> Seq<char> {
    "#[repr(C)]\n#[derive(Clone, Copy, Debug, Eq, PartialEq)]\n"@ + "pub struct HyperNative"@
        + upper_camel_spec(r.name@) + " {\n"@ + rust_members(r) + "}\n"@
}

/// The size and alignment assertions of one record.
pub open spec fn rust_record_layout(r: Record) -> Seq<char> {
    "const _: () = assert!(core::mem::size_of::<HyperNative"@ + upper_camel_spec(r.name@)
        + ">() == "@ + dec(r.size as nat) + ");\n"@
        + "const _: () = assert!(core::mem::align_of::<HyperNative"@ + upper_camel_spec(r.name@)
        + ">() == "@ + dec(r.alignment as nat) + ");\n"@
}

fn push_rust_field_type(out: &mut String, kind: FieldKind)
    ensures
        final(out)@ == old(out)@ + rust_field_type(kind),
{
    let ghost start = out@;
    match kind {
        FieldKind::U32 => push_str(out, "u32"),
        FieldKind::U64 => push_str(out, "u64"),
        FieldKind::Bytes(size) => {
            push_str(out, "[u8; ");
            push_dec(out, size as u64);
            push_str(out, "]");
            assert(out@ =~= start + rust_field_type(kind));
        },
    }
}

fn push_rust_padding_line(out: &mut String, index: usize, size: u16)
    ensures
        final(out)@ == old(out)@ + rust_padding_line(index as nat, size as nat),
{
    let ghost start = out@;
    push_str(out, "    pub _padding");
    push_dec(out, index as u64);
    push_str(out, ": [u8; ");
    push_dec(out, size as u64);
    push_str(out, "],\n");
    assert(out@ =~= start + rust_padding_line(index as nat, size as nat));
}

fn push_rust_offset_line(out: &mut String, camel: &str, field: Field)
    ensures
        final(out)@ == old(out)@ + rust_offset_line(camel@, field),
{
    let ghost start = out@;
    let mut assertion = String::from_str("assert!(core::mem::offset_of!(HyperNative");
    push_str(&mut assertion, camel);
    push_str(&mut assertion, ", ");
    push_str(&mut assertion, field.name);
    push_str(&mut assertion, ") == ");
    push_dec(&mut assertion, field.offset as u64);
    push_str(&mut assertion, ");");
    assert(assertion@ =~= rust_offset_assertion(camel@, field));
    let prefix_len = "const _: () = ".unicode_len();
    let assertion_len = assertion.as_str().unicode_len();
    if prefix_len <= 100 && assertion_len <= 100 - prefix_len {
        push_str(out, "const _: () = ");
    } else {
        push_str(out, "const _: () =\n    ");
    }
    push_str(out, assertion.as_str());
    push_str(out, "\n");
    assert(out@ =~= start + rust_offset_line(camel@, field));
}

/// The members of one record struct, padding included.
pub open spec fn rust_members(r: Record) -> Seq<char> {
    concat_range(r.fields@.len(), |i: int| rust_field_lines(r.fields@, i)) + rust_tail_padding(r)
}

fn push_rust_members(out: &mut String, record: &Record)
    requires
        record_ok(*record),
    ensures
        final(out)@ == old(out)@ + rust_members(*record),
{
    let ghost head = out@;
    let fields = record.fields;
    let mut cursor: u16 = 0;
    let mut padding: usize = 0;
    let mut i: usize = 0;
    while i < fields.len()
        invariant
            fields@ == record.fields@,
            record_ok(*record),
            i <= fields@.len(),
            cursor == previous_end(fields@, i as int),
            padding == gap_count(fields@, i as int),
            padding <= i,
            out@ == head + concat_range(i as nat, |k: int| rust_field_lines(record.fields@, k)),
        decreases fields@.len() - i,
    {
        let field = fields[i];
        let ghost before = out@;
        assert(field_ok(*record, fields@, i as int));
        if field.offset > cursor {
            push_rust_padding_line(out, padding, field.offset - cursor);
            padding = padding + 1;
        }
        push_str(out, "    pub ");
        push_str(out, field.name);
        push_str(out, ": ");
        push_rust_field_type(out, field.kind);
        push_str(out, ",\n");
        proof {
            assert(out@ =~= before + rust_field_lines(record.fields@, i as int));
        }
        cursor = field.offset + field.kind.size();
        i = i + 1;
    }
    let ghost body = out@;
    if record.size > cursor {
        push_rust_padding_line(out, padding, record.size - cursor);
    }
    assert(out@ =~= body + rust_tail_padding(*record));
}

fn push_rust_offset_lines(out: &mut String, camel: &str, record: &Record)
    requires
        camel@ == upper_camel_spec(record.name@),
    ensures
        final(out)@ == old(out)@ + concat_map(
            record.fields@,
            |f: Field| rust_offset_line(upper_camel_spec(record.name@), f),
        ),
{
    let ghost middle = out@;
    let fields = record.fields;
    let mut j: usize = 0;
    while j < fields.len()
        invariant
            fields@ == record.fields@,
            camel@ == upper_camel_spec(record.name@),
            j <= fields@.len(),
            out@ == middle + concat_map(
                fields@.take(j as int),
                |f: Field| rust_offset_line(upper_camel_spec(record.name@), f),
            ),
        decreases fields@.len() - j,
    {
        push_rust_offset_line(out, camel, fields[j]);
        proof {
            lemma_concat_map_step(
                fields@,
                j as int,
                |f: Field| rust_offset_line(upper_camel_spec(record.name@), f),
            );
        }
        j = j + 1;
    }
    proof {
        lemma_take_all(fields@);
    }
}

fn push_rust_record_head(out: &mut String, camel: &str, record: &Record)
    requires
        record_ok(*record),
        camel@ == upper_camel_spec(record.name@),
    ensures
        final(out)@ == old(out)@ + rust_record_head(*record),
{
    let ghost start = out@;
    push_str(out, "#[repr(C)]\n#[derive(Clone, Copy, Debug, Eq, PartialEq)]\n");
    push_str(out, "pub struct HyperNative");
    push_str(out, camel);
    push_str(out, " {\n");
    push_rust_members(out, record);
    push_str(out, "}\n");
    assert(out@ =~= start + rust_record_head(*record));
}

fn push_rust_record_layout(out: &mut String, camel: &str, record: &Record)
    requires
        camel@ == upper_camel_spec(record.name@),
    ensures
        final(out)@ == old(out)@ + rust_record_layout(*record),
{
    let ghost start = out@;
    push_str(out, "const _: () = assert!(core::mem::size_of::<HyperNative");
    push_str(out, camel);
    push_str(out, ">() == ");
    push_dec(out, record.size as u64);
    push_str(out, ");\n");
    push_str(out, "const _: () = assert!(core::mem::align_of::<HyperNative");
    push_str(out, camel);
    push_str(out, ">() == ");
    push_dec(out, record.alignment as u64);
    push_str(out, ");\n");
    assert(out@ =~= start + rust_record_layout(*record));
}

fn push_rust_record(out: &mut String, record: &Record)
    requires
        record_ok(*record),
    ensures
        final(out)@ == old(out)@ + rust_record(*record),
{
    let ghost start = out@;
    let camel = upper_camel(record.name);
    push_rust_record_head(out, camel.as_str(), record);
    push_rust_record_layout(out, camel.as_str(), record);
    push_rust_offset_lines(out, camel.as_str(), record);
    push_str(out, "\n");
    assert(out@ =~= start + rust_record(*record));
}

fn push_rust_records(out: &mut String, schema: &AbiSchema)
    requires
        records_valid(schema.records@),
    ensures
        final(out)@ == old(out)@ + concat_map(schema.records@, |r: Record| rust_record(r)),
{
    let ghost start = out@;
    let rs = schema.records;
    let mut i: usize = 0;
    while i < rs.len()
        invariant
            rs@ == schema.records@,
            records_valid(rs@),
            i <= rs@.len(),
            out@ == start + concat_map(rs@.take(i as int), |r: Record| rust_record(r)),
        decreases rs@.len() - i,
    {
        assert(record_ok(rs@[i as int]));
        push_rust_record(out, &rs[i]);
        proof {
            lemma_concat_map_step(rs@, i as int, |r: Record| rust_record(r));
        }
        i = i + 1;
    }
    proof {
        lemma_take_all(rs@);
    }
}

// ---------------------------------------------------------------------------
// The whole file.

/// The generated Rust source for `schema`.
pub open spec fn rust_source(schema: AbiSchema) -> Seq<char> {
    trim_final_blank(
        rust_header(schema) + rust_features(schema) + rust_statuses(schema) + rust_objects(schema)
            + rust_transfer_classes(schema) + rust_rights(schema) + rust_signals(schema)
            + rust_constants(schema) + rust_syscall_numbers(schema) + rust_failure_result_mask(
            schema,
        ) + concat_map(schema.records@, |r: Record| rust_record(r)),
    )
}

/// Renders the Rust definitions of a validated schema.
pub fn render_rust(schema: &AbiSchema) -> (r: String)
    requires
        schema_valid(*schema),
    ensures
        r@ == rust_source(*schema),
{
    assert forall|k: int| 0 <= k < schema.syscalls@.len() implies (
    #[trigger] schema.syscalls@[k]).results@.len() <= 64 by {
        assert(syscall_ok(*schema, schema.syscalls@[k], rights_mask(schema.rights@)));
    }
    let mut out = String::new();
    let ghost empty = out@;
    push_rust_header(&mut out, schema);
    push_rust_features(&mut out, schema);
    push_rust_statuses(&mut out, schema);
    push_rust_objects(&mut out, schema);
    push_rust_transfer_classes(&mut out, schema);
    push_rust_rights(&mut out, schema);
    push_rust_signals(&mut out, schema);
    push_rust_constants(&mut out, schema);
    push_rust_syscall_numbers(&mut out, schema);
    push_rust_failure_result_mask(&mut out, schema);
    push_rust_records(&mut out, schema);
    assert(empty == Seq::<char>::empty());
    assert(out@ =~= rust_header(*schema) + rust_features(*schema) + rust_statuses(*schema)
        + rust_objects(*schema) + rust_transfer_classes(*schema) + rust_rights(*schema)
        + rust_signals(*schema) + rust_constants(*schema) + rust_syscall_numbers(*schema)
        + rust_failure_result_mask(*schema) + concat_map(schema.records@, |r: Record| rust_record(r)));
    trimmed_final_blank(out)
}

} // verus!
