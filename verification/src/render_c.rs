//! The C header rendering of a validated schema.

use vstd::prelude::*;
use crate::render::{
    concat_map, concat_range, lemma_concat_map_at, lemma_concat_map_step, lemma_take_all, transfer_class_constant,
    transfer_class_constant_text,
};
use crate::render_rust::{compute_failure_mask, compute_rights_mask, failure_mask, gap_count};
use crate::schema::{
    AbiConstant, AbiSchema, FailureResults, Feature, Field, FieldKind, ObjectKind, Record, Right,
    Signal, Status, Syscall, SYSCALL_ARGUMENT_REGISTERS, SYSCALL_RESULT_REGISTERS,
};
use crate::calls::syscall_ok;
use crate::text::{
    dec, decimal_text_denotes_its_number, decimal_value, hex, hexadecimal_text_denotes_its_number,
    hexadecimal_value, is_decimal_digit, lemma_payload, push_dec, push_hex, push_str,
    push_upper_snake, upper_snake_spec,
};
use crate::validate::{
    field_ok, previous_end, record_ok, records_valid, rights_mask, rights_valid, schema_valid,
};

verus! {

pub open spec fn c_bit_line(prefix: Seq<char>, name: Seq<char>, bit: u8) -> Seq<char> {
    "#define "@ + prefix + "_"@ + upper_snake_spec(name) + " (UINT64_C(1) << "@ + dec(bit as nat)
        + ")\n"@
}

pub open spec fn c_u64_line(prefix: Seq<char>, name: Seq<char>, value: u64) -> Seq<char> {
    "#define "@ + prefix + "_"@ + upper_snake_spec(name) + " UINT64_C("@ + dec(value as nat)
        + ")\n"@
}

pub open spec fn c_u32_line(prefix: Seq<char>, name: Seq<char>, value: u32) -> Seq<char> {
    "#define "@ + prefix + "_"@ + upper_snake_spec(name) + " UINT32_C("@ + dec(value as nat)
        + ")\n"@
}

/// A signed value as a C constant expression; negative values keep their magnitude.
pub open spec fn c_i64_value(value: i64) -> Seq<char> {
    if value < 0 {
        "(-INT64_C("@ + dec((-value) as nat) + "))"@
    } else {
        "INT64_C("@ + dec(value as nat) + ")"@
    }
}

/// The value of a C literal `INT64_C(d)` for a run `d` of decimal digits.
pub open spec fn c_int64_literal_value(t: Seq<char>) -> Option<int> {
    if t.len() >= 10 && t.subrange(0, 8) == "INT64_C("@ && t[t.len() - 1] == ')' && forall|i: int|
        8 <= i < t.len() - 1 ==> #[trigger] is_decimal_digit(t[i]) {
        Some(decimal_value(t.subrange(8, t.len() - 1)))
    } else {
        None
    }
}

/// The value of a C constant expression that is either a literal
/// `INT64_C(d)` or its negation `(-INT64_C(d))`.
pub open spec fn c_int64_expression_value(t: Seq<char>) -> Option<int> {
    if t.len() >= 3 && t[0] == '(' && t[1] == '-' && t[t.len() - 1] == ')' {
        match c_int64_literal_value(t.subrange(2, t.len() - 1)) {
            Some(v) => Some(-v),
            None => None,
        }
    } else {
        c_int64_literal_value(t)
    }
}

proof fn lemma_int64_literal(d: Seq<char>)
    requires
        d.len() > 0,
        forall|i: int| 0 <= i < d.len() ==> #[trigger] is_decimal_digit(d[i]),
    ensures
        c_int64_literal_value("INT64_C("@ + d + ")"@) == Some(decimal_value(d)),
{
    reveal_strlit("INT64_C(");
    reveal_strlit(")");
    let t = "INT64_C("@ + d + ")"@;
    assert(t.len() == d.len() + 9);
    assert(t.subrange(0, 8) =~= "INT64_C("@);
    assert(t.subrange(8, t.len() - 1) =~= d);
    assert(t[t.len() - 1] == ')');
    assert forall|i: int| 8 <= i < t.len() - 1 implies #[trigger] is_decimal_digit(t[i]) by {
        assert(t[i] == d[i - 8]);
    }
}

/// Every signed constant of the C header denotes its schema value: a
/// negative value is the negation of the literal of its magnitude, and any
/// other value is its own literal.
pub proof fn c_signed_constants_denote_their_values(value: i64)
    ensures
        c_int64_expression_value(c_i64_value(value)) == Some(value as int),
{
    reveal_strlit("(-INT64_C(");
    reveal_strlit("))");
    reveal_strlit("INT64_C(");
    reveal_strlit(")");
    if value < 0 {
        let d = dec((-value) as nat);
        decimal_text_denotes_its_number((-value) as nat);
        lemma_int64_literal(d);
        let t = "(-INT64_C("@ + d + "))"@;
        assert(t.len() == d.len() + 12);
        assert(t[0] == '(' && t[1] == '-' && t[t.len() - 1] == ')');
        assert(t.subrange(2, t.len() - 1) =~= "INT64_C("@ + d + ")"@);
    } else {
        let d = dec(value as nat);
        decimal_text_denotes_its_number(value as nat);
        lemma_int64_literal(d);
        let t = "INT64_C("@ + d + ")"@;
        assert(t[0] == 'I');
    }
}

pub open spec fn c_i64_line(prefix: Seq<char>, name: Seq<char>, value: i64) -> Seq<char> {
    "#define "@ + prefix + "_"@ + upper_snake_spec(name) + " "@ + c_i64_value(value) + "\n"@
}

/// Each signed constant line of the C header defines its constant's name as
/// an expression that denotes the constant's value.
pub proof fn c_signed_lines_define_their_values(prefix: Seq<char>, name: Seq<char>, value: i64)
    ensures
        ({
            let head = "#define "@ + prefix + "_"@ + upper_snake_spec(name) + " "@;
            let line = c_i64_line(prefix, name, value);
            &&& line.subrange(0, head.len() as int) == head
            &&& line[line.len() - 1] == '\n'
            &&& c_int64_expression_value(line.subrange(head.len() as int, line.len() - 1)) == Some(
                value as int,
            )
        }),
{
    reveal_strlit("\n");
    c_signed_constants_denote_their_values(value);
    let head = "#define "@ + prefix + "_"@ + upper_snake_spec(name) + " "@;
    let line = c_i64_line(prefix, name, value);
    assert(line =~= head + c_i64_value(value) + "\n"@);
    assert(line.subrange(0, head.len() as int) =~= head);
    assert(line.subrange(head.len() as int, line.len() - 1) =~= c_i64_value(value));
}

/// `#define <PREFIX>_<NAME>`, the head of every constant line.
pub open spec fn c_constant_head(prefix: Seq<char>, name: Seq<char>) -> Seq<char> {
    "#define "@ + prefix + "_"@ + upper_snake_spec(name)
}

/// Every unsigned constant line of the C header defines the constant's name
/// as a literal that denotes the constant's value: a bit constant shifts
/// one left by its bit, and 64- and 32-bit constants are their decimal
/// value.
pub proof fn c_unsigned_lines_denote_their_values(
    prefix: Seq<char>,
    name: Seq<char>,
    bit: u8,
    v64: u64,
    v32: u32,
)
    ensures
        ({
            let h = c_constant_head(prefix, name) + " (UINT64_C(1) << "@;
            let l = c_bit_line(prefix, name, bit);
            &&& l.subrange(0, h.len() as int) == h
            &&& decimal_value(l.subrange(h.len() as int, l.len() - 2)) == bit
        }),
        ({
            let h = c_constant_head(prefix, name) + " UINT64_C("@;
            let l = c_u64_line(prefix, name, v64);
            &&& l.subrange(0, h.len() as int) == h
            &&& decimal_value(l.subrange(h.len() as int, l.len() - 2)) == v64
        }),
        ({
            let h = c_constant_head(prefix, name) + " UINT32_C("@;
            let l = c_u32_line(prefix, name, v32);
            &&& l.subrange(0, h.len() as int) == h
            &&& decimal_value(l.subrange(h.len() as int, l.len() - 2)) == v32
        }),
{
    reveal_strlit(")\n");
    let h = c_constant_head(prefix, name);
    decimal_text_denotes_its_number(bit as nat);
    lemma_payload(h + " (UINT64_C(1) << "@, dec(bit as nat), ")\n"@);
    decimal_text_denotes_its_number(v64 as nat);
    lemma_payload(h + " UINT64_C("@, dec(v64 as nat), ")\n"@);
    decimal_text_denotes_its_number(v32 as nat);
    lemma_payload(h + " UINT32_C("@, dec(v32 as nat), ")\n"@);
}

/// The rights mask of the C header is written in hexadecimal and denotes the
/// union of every declared right's bit.
pub proof fn c_rights_mask_denotes_the_declared_rights(schema: AbiSchema)
    ensures
        ({
            let head = concat_map(
                schema.rights@,
                |r: Right| c_bit_line("HYPER_NATIVE_RIGHT"@, r.name@, r.bit),
            ) + "\n"@ + "#define HYPER_NATIVE_RIGHTS_MASK UINT64_C(0x"@;
            let t = c_rights(schema);
            &&& t.subrange(0, head.len() as int) == head
            &&& hexadecimal_value(t.subrange(head.len() as int, t.len() - 3)) == rights_mask(
                schema.rights@,
            )
        }),
{
    reveal_strlit(")\n\n");
    let head = concat_map(
        schema.rights@,
        |r: Right| c_bit_line("HYPER_NATIVE_RIGHT"@, r.name@, r.bit),
    ) + "\n"@ + "#define HYPER_NATIVE_RIGHTS_MASK UINT64_C(0x"@;
    hexadecimal_text_denotes_its_number(rights_mask(schema.rights@) as nat);
    lemma_payload(head, hex(rights_mask(schema.rights@) as nat), ")\n\n"@);
}

fn push_c_bit_line(out: &mut String, prefix: &str, name: &str, bit: u8)
    ensures
        final(out)@ == old(out)@ + c_bit_line(prefix@, name@, bit),
{
    let ghost start = out@;
    push_str(out, "#define ");
    push_str(out, prefix);
    push_str(out, "_");
    push_upper_snake(out, name);
    push_str(out, " (UINT64_C(1) << ");
    push_dec(out, bit as u64);
    push_str(out, ")\n");
    assert(out@ =~= start + c_bit_line(prefix@, name@, bit));
}

fn push_c_u64_line(out: &mut String, prefix: &str, name: &str, value: u64)
    ensures
        final(out)@ == old(out)@ + c_u64_line(prefix@, name@, value),
{
    let ghost start = out@;
    push_str(out, "#define ");
    push_str(out, prefix);
    push_str(out, "_");
    push_upper_snake(out, name);
    push_str(out, " UINT64_C(");
    push_dec(out, value);
    push_str(out, ")\n");
    assert(out@ =~= start + c_u64_line(prefix@, name@, value));
}

fn push_c_u32_line(out: &mut String, prefix: &str, name: &str, value: u32)
    ensures
        final(out)@ == old(out)@ + c_u32_line(prefix@, name@, value),
{
    let ghost start = out@;
    push_str(out, "#define ");
    push_str(out, prefix);
    push_str(out, "_");
    push_upper_snake(out, name);
    push_str(out, " UINT32_C(");
    push_dec(out, value as u64);
    push_str(out, ")\n");
    assert(out@ =~= start + c_u32_line(prefix@, name@, value));
}

fn push_c_i64_line(out: &mut String, prefix: &str, name: &str, value: i64)
    ensures
        final(out)@ == old(out)@ + c_i64_line(prefix@, name@, value),
{
    let ghost start = out@;
    push_str(out, "#define ");
    push_str(out, prefix);
    push_str(out, "_");
    push_upper_snake(out, name);
    push_str(out, " ");
    if value < 0 {
        let magnitude: u64 = if value == i64::MIN {
            9223372036854775808u64
        } else {
            (-value) as u64
        };
        push_str(out, "(-INT64_C(");
        push_dec(out, magnitude);
        push_str(out, "))");
    } else {
        push_str(out, "INT64_C(");
        push_dec(out, value as u64);
        push_str(out, ")");
    }
    push_str(out, "\n");
    assert(out@ =~= start + c_i64_line(prefix@, name@, value));
}

// ---------------------------------------------------------------------------
// Sections.

pub open spec fn c_header(schema: AbiSchema) -> Seq<char> {
    "/* SPDX-FileCopyrightText: 2026 roolrz\n * SPDX-License-Identifier: Apache-2.0\n *\n * Generated from schema/native.rs. Do not edit.\n */\n\n#ifndef HYPER_NATIVE_H\n#define HYPER_NATIVE_H\n\n#include <stddef.h>\n#include <stdint.h>\n\n#if defined(__cplusplus)\n#define HYPER_ABI_STATIC_ASSERT static_assert\n#define HYPER_ABI_ALIGNOF alignof\n#else\n#define HYPER_ABI_STATIC_ASSERT _Static_assert\n#define HYPER_ABI_ALIGNOF _Alignof\n#endif\n\n"@
        + "#define HYPER_NATIVE_ABI_REVISION UINT64_C("@ + dec(schema.revision as nat) + ")\n"@
        + "#define HYPER_NATIVE_SYSCALL_ARGUMENT_REGISTERS UINT32_C("@ + dec(
        SYSCALL_ARGUMENT_REGISTERS as nat,
    ) + ")\n"@ + "#define HYPER_NATIVE_SYSCALL_RESULT_REGISTERS UINT32_C("@ + dec(
        SYSCALL_RESULT_REGISTERS as nat,
    ) + ")\n"@ + "\ntypedef uint64_t hyper_native_handle_t;\ntypedef int64_t hyper_native_status_t;\n\n"@
}

fn push_c_header(out: &mut String, schema: &AbiSchema)
    ensures
        final(out)@ == old(out)@ + c_header(*schema),
{
    let ghost start = out@;
    push_str(
        out,
        "/* SPDX-FileCopyrightText: 2026 roolrz\n * SPDX-License-Identifier: Apache-2.0\n *\n * Generated from schema/native.rs. Do not edit.\n */\n\n#ifndef HYPER_NATIVE_H\n#define HYPER_NATIVE_H\n\n#include <stddef.h>\n#include <stdint.h>\n\n#if defined(__cplusplus)\n#define HYPER_ABI_STATIC_ASSERT static_assert\n#define HYPER_ABI_ALIGNOF alignof\n#else\n#define HYPER_ABI_STATIC_ASSERT _Static_assert\n#define HYPER_ABI_ALIGNOF _Alignof\n#endif\n\n",
    );
    push_str(out, "#define HYPER_NATIVE_ABI_REVISION UINT64_C(");
    push_dec(out, schema.revision);
    push_str(out, ")\n");
    push_str(out, "#define HYPER_NATIVE_SYSCALL_ARGUMENT_REGISTERS UINT32_C(");
    push_dec(out, SYSCALL_ARGUMENT_REGISTERS as u64);
    push_str(out, ")\n");
    push_str(out, "#define HYPER_NATIVE_SYSCALL_RESULT_REGISTERS UINT32_C(");
    push_dec(out, SYSCALL_RESULT_REGISTERS as u64);
    push_str(out, ")\n");
    push_str(out, "\ntypedef uint64_t hyper_native_handle_t;\ntypedef int64_t hyper_native_status_t;\n\n");
    assert(out@ =~= start + c_header(*schema));
}

pub open spec fn c_features(schema: AbiSchema) -> Seq<char> {
    concat_map(schema.features@, |f: Feature| c_bit_line("HYPER_NATIVE_FEATURE"@, f.name@, f.bit))
        + "\n"@
}

fn push_c_features(out: &mut String, schema: &AbiSchema)
    ensures
        final(out)@ == old(out)@ + c_features(*schema),
{
    let ghost start = out@;
    let fs = schema.features;
    let mut i: usize = 0;
    while i < fs.len()
        invariant
            fs@ == schema.features@,
            i <= fs@.len(),
            out@ == start + concat_map(
                fs@.take(i as int),
                |f: Feature| c_bit_line("HYPER_NATIVE_FEATURE"@, f.name@, f.bit),
            ),
        decreases fs@.len() - i,
    {
        push_c_bit_line(out, "HYPER_NATIVE_FEATURE", fs[i].name, fs[i].bit);
        proof {
            lemma_concat_map_step(
                fs@,
                i as int,
                |f: Feature| c_bit_line("HYPER_NATIVE_FEATURE"@, f.name@, f.bit),
            );
        }
        i = i + 1;
    }
    proof {
        lemma_take_all(fs@);
    }
    push_str(out, "\n");
}

pub open spec fn c_statuses(schema: AbiSchema) -> Seq<char> {
    concat_map(schema.statuses@, |s: Status| c_i64_line("HYPER_NATIVE_STATUS"@, s.name@, s.value))
        + "\n"@
}

/// The status section of the C header holds, in schema order, one line per
/// status that defines `HYPER_NATIVE_STATUS_<NAME>` as an expression whose
/// value is the status value, negative values included.
pub proof fn c_status_lines_define_status_values(schema: AbiSchema, i: int)
    requires
        0 <= i < schema.statuses@.len(),
    ensures
        c_statuses(schema) == concat_map(
            schema.statuses@.take(i),
            |s: Status| c_i64_line("HYPER_NATIVE_STATUS"@, s.name@, s.value),
        ) + c_i64_line("HYPER_NATIVE_STATUS"@, schema.statuses@[i].name@, schema.statuses@[i].value)
            + concat_map(
            schema.statuses@.skip(i + 1),
            |s: Status| c_i64_line("HYPER_NATIVE_STATUS"@, s.name@, s.value),
        ) + "\n"@,
        c_int64_expression_value(c_i64_value(schema.statuses@[i].value)) == Some(
            schema.statuses@[i].value as int,
        ),
{
    lemma_concat_map_at(
        schema.statuses@,
        i,
        |s: Status| c_i64_line("HYPER_NATIVE_STATUS"@, s.name@, s.value),
    );
    c_signed_constants_denote_their_values(schema.statuses@[i].value);
}

fn push_c_statuses(out: &mut String, schema: &AbiSchema)
    ensures
        final(out)@ == old(out)@ + c_statuses(*schema),
{
    let ghost start = out@;
    let ss = schema.statuses;
    let mut i: usize = 0;
    while i < ss.len()
        invariant
            ss@ == schema.statuses@,
            i <= ss@.len(),
            out@ == start + concat_map(
                ss@.take(i as int),
                |s: Status| c_i64_line("HYPER_NATIVE_STATUS"@, s.name@, s.value),
            ),
        decreases ss@.len() - i,
    {
        push_c_i64_line(out, "HYPER_NATIVE_STATUS", ss[i].name, ss[i].value);
        proof {
            lemma_concat_map_step(
                ss@,
                i as int,
                |s: Status| c_i64_line("HYPER_NATIVE_STATUS"@, s.name@, s.value),
            );
        }
        i = i + 1;
    }
    proof {
        lemma_take_all(ss@);
    }
    push_str(out, "\n");
}

pub open spec fn c_objects(schema: AbiSchema) -> Seq<char> {
    concat_map(
        schema.object_kinds@,
        |o: ObjectKind| c_u32_line("HYPER_NATIVE_OBJECT"@, o.name@, o.value),
    ) + "\n"@
}

fn push_c_objects(out: &mut String, schema: &AbiSchema)
    ensures
        final(out)@ == old(out)@ + c_objects(*schema),
{
    let ghost start = out@;
    let os = schema.object_kinds;
    let mut i: usize = 0;
    while i < os.len()
        invariant
            os@ == schema.object_kinds@,
            i <= os@.len(),
            out@ == start + concat_map(
                os@.take(i as int),
                |o: ObjectKind| c_u32_line("HYPER_NATIVE_OBJECT"@, o.name@, o.value),
            ),
        decreases os@.len() - i,
    {
        push_c_u32_line(out, "HYPER_NATIVE_OBJECT", os[i].name, os[i].value);
        proof {
            lemma_concat_map_step(
                os@,
                i as int,
                |o: ObjectKind| c_u32_line("HYPER_NATIVE_OBJECT"@, o.name@, o.value),
            );
        }
        i = i + 1;
    }
    proof {
        lemma_take_all(os@);
    }
    push_str(out, "\n");
}

pub open spec fn c_transfer_case(o: ObjectKind) -> Seq<char> {
    "        case HYPER_NATIVE_OBJECT_"@ + upper_snake_spec(o.name@) + ": return "@
        + transfer_class_constant(o.transfer) + ";\n"@
}

pub open spec fn c_transfer_classes(schema: AbiSchema) -> Seq<char> {
    "#define HYPER_NATIVE_TRANSFER_CLASS_FORBIDDEN UINT32_C(0)\n#define HYPER_NATIVE_TRANSFER_CLASS_GENERAL UINT32_C(1)\n#define HYPER_NATIVE_TRANSFER_CLASS_RENDEZVOUS_ONLY UINT32_C(2)\n\nstatic inline uint32_t hyper_native_object_transfer_class(uint32_t object_kind) {\n    switch (object_kind) {\n"@
        + concat_map(schema.object_kinds@, |o: ObjectKind| c_transfer_case(o))
        + "        default: return HYPER_NATIVE_TRANSFER_CLASS_FORBIDDEN;\n    }\n}\n\n"@
}

fn push_c_transfer_classes(out: &mut String, schema: &AbiSchema)
    ensures
        final(out)@ == old(out)@ + c_transfer_classes(*schema),
{
    let ghost start = out@;
    push_str(
        out,
        "#define HYPER_NATIVE_TRANSFER_CLASS_FORBIDDEN UINT32_C(0)\n#define HYPER_NATIVE_TRANSFER_CLASS_GENERAL UINT32_C(1)\n#define HYPER_NATIVE_TRANSFER_CLASS_RENDEZVOUS_ONLY UINT32_C(2)\n\nstatic inline uint32_t hyper_native_object_transfer_class(uint32_t object_kind) {\n    switch (object_kind) {\n",
    );
    let ghost head = out@;
    let os = schema.object_kinds;
    let mut i: usize = 0;
    while i < os.len()
        invariant
            os@ == schema.object_kinds@,
            i <= os@.len(),
            out@ == head + concat_map(os@.take(i as int), |o: ObjectKind| c_transfer_case(o)),
        decreases os@.len() - i,
    {
        let ghost before = out@;
        push_str(out, "        case HYPER_NATIVE_OBJECT_");
        push_upper_snake(out, os[i].name);
        push_str(out, ": return ");
        push_str(out, transfer_class_constant_text(os[i].transfer));
        push_str(out, ";\n");
        proof {
            assert(out@ =~= before + c_transfer_case(os@[i as int]));
            lemma_concat_map_step(os@, i as int, |o: ObjectKind| c_transfer_case(o));
        }
        i = i + 1;
    }
    proof {
        lemma_take_all(os@);
    }
    push_str(out, "        default: return HYPER_NATIVE_TRANSFER_CLASS_FORBIDDEN;\n    }\n}\n\n");
    assert(out@ =~= start + c_transfer_classes(*schema));
}

pub open spec fn c_rights(schema: AbiSchema) -> Seq<char> {
    concat_map(schema.rights@, |r: Right| c_bit_line("HYPER_NATIVE_RIGHT"@, r.name@, r.bit))
        + "\n"@ + "#define HYPER_NATIVE_RIGHTS_MASK UINT64_C(0x"@ + hex(
        rights_mask(schema.rights@) as nat,
    ) + ")\n\n"@
}

fn push_c_rights(out: &mut String, schema: &AbiSchema)
    requires
        rights_valid(schema.rights@),
    ensures
        final(out)@ == old(out)@ + c_rights(*schema),
{
    let ghost start = out@;
    let rs = schema.rights;
    let mut i: usize = 0;
    while i < rs.len()
        invariant
            rs@ == schema.rights@,
            i <= rs@.len(),
            out@ == start + concat_map(
                rs@.take(i as int),
                |r: Right| c_bit_line("HYPER_NATIVE_RIGHT"@, r.name@, r.bit),
            ),
        decreases rs@.len() - i,
    {
        push_c_bit_line(out, "HYPER_NATIVE_RIGHT", rs[i].name, rs[i].bit);
        proof {
            lemma_concat_map_step(
                rs@,
                i as int,
                |r: Right| c_bit_line("HYPER_NATIVE_RIGHT"@, r.name@, r.bit),
            );
        }
        i = i + 1;
    }
    proof {
        lemma_take_all(rs@);
    }
    push_str(out, "\n");
    let mask = compute_rights_mask(schema);
    push_str(out, "#define HYPER_NATIVE_RIGHTS_MASK UINT64_C(0x");
    push_hex(out, mask);
    push_str(out, ")\n\n");
    assert(out@ =~= start + c_rights(*schema));
}

pub open spec fn c_signal_line(s: Signal) -> Seq<char> {
    "#define HYPER_NATIVE_SIGNAL_"@ + upper_snake_spec(s.object@) + "_"@ + upper_snake_spec(s.name@)
        + " (UINT64_C(1) << "@ + dec(s.bit as nat) + ")\n"@
}

pub open spec fn c_signals(schema: AbiSchema) -> Seq<char> {
    concat_map(schema.signals@, |s: Signal| c_signal_line(s)) + if schema.signals@.len() > 0 {
        "\n"@
    } else {
        Seq::empty()
    }
}

fn push_c_signals(out: &mut String, schema: &AbiSchema)
    ensures
        final(out)@ == old(out)@ + c_signals(*schema),
{
    let ghost start = out@;
    let ss = schema.signals;
    let mut i: usize = 0;
    while i < ss.len()
        invariant
            ss@ == schema.signals@,
            i <= ss@.len(),
            out@ == start + concat_map(ss@.take(i as int), |s: Signal| c_signal_line(s)),
        decreases ss@.len() - i,
    {
        let ghost before = out@;
        push_str(out, "#define HYPER_NATIVE_SIGNAL_");
        push_upper_snake(out, ss[i].object);
        push_str(out, "_");
        push_upper_snake(out, ss[i].name);
        push_str(out, " (UINT64_C(1) << ");
        push_dec(out, ss[i].bit as u64);
        push_str(out, ")\n");
        proof {
            assert(out@ =~= before + c_signal_line(ss@[i as int]));
            lemma_concat_map_step(ss@, i as int, |s: Signal| c_signal_line(s));
        }
        i = i + 1;
    }
    proof {
        lemma_take_all(ss@);
    }
    if ss.len() > 0 {
        push_str(out, "\n");
    } else {
        assert(out@ =~= start + c_signals(*schema));
    }
}

pub open spec fn c_constants(schema: AbiSchema) -> Seq<char> {
    concat_map(schema.constants@, |c: AbiConstant| c_u64_line("HYPER_NATIVE"@, c.name@, c.value))
        + "\n"@
}

fn push_c_constants(out: &mut String, schema: &AbiSchema)
    ensures
        final(out)@ == old(out)@ + c_constants(*schema),
{
    let ghost start = out@;
    let cs = schema.constants;
    let mut i: usize = 0;
    while i < cs.len()
        invariant
            cs@ == schema.constants@,
            i <= cs@.len(),
            out@ == start + concat_map(
                cs@.take(i as int),
                |c: AbiConstant| c_u64_line("HYPER_NATIVE"@, c.name@, c.value),
            ),
        decreases cs@.len() - i,
    {
        push_c_u64_line(out, "HYPER_NATIVE", cs[i].name, cs[i].value);
        proof {
            lemma_concat_map_step(
                cs@,
                i as int,
                |c: AbiConstant| c_u64_line("HYPER_NATIVE"@, c.name@, c.value),
            );
        }
        i = i + 1;
    }
    proof {
        lemma_take_all(cs@);
    }
    push_str(out, "\n");
}

pub open spec fn c_syscall_numbers(schema: AbiSchema) -> Seq<char> {
    concat_map(
        schema.syscalls@,
        |c: Syscall| c_u64_line("HYPER_NATIVE_SYS"@, c.name@, c.number as u64),
    ) + "\n"@
}

fn push_c_syscall_numbers(out: &mut String, schema: &AbiSchema)
    ensures
        final(out)@ == old(out)@ + c_syscall_numbers(*schema),
{
    let ghost start = out@;
    let cs = schema.syscalls;
    let mut i: usize = 0;
    while i < cs.len()
        invariant
            cs@ == schema.syscalls@,
            i <= cs@.len(),
            out@ == start + concat_map(
                cs@.take(i as int),
                |c: Syscall| c_u64_line("HYPER_NATIVE_SYS"@, c.name@, c.number as u64),
            ),
        decreases cs@.len() - i,
    {
        push_c_u64_line(out, "HYPER_NATIVE_SYS", cs[i].name, cs[i].number as u64);
        proof {
            lemma_concat_map_step(
                cs@,
                i as int,
                |c: Syscall| c_u64_line("HYPER_NATIVE_SYS"@, c.name@, c.number as u64),
            );
        }
        i = i + 1;
    }
    proof {
        lemma_take_all(cs@);
    }
    push_str(out, "\n");
}


// ---------------------------------------------------------------------------
// Failure-result masks.

pub open spec fn c_failure_case(syscall: Syscall, failure: FailureResults) -> Seq<char> {
    "    if (syscall_number == HYPER_NATIVE_SYS_"@ + upper_snake_spec(syscall.name@)
        + " &&\n        status == HYPER_NATIVE_STATUS_"@ + upper_snake_spec(failure.status@)
        + ") {\n        return UINT64_C("@ + dec(failure_mask(syscall.results@, failure.results@) as nat)
        + ");\n    }"@ + "\n"@
}

pub open spec fn c_failure_cases(syscall: Syscall) -> Seq<char> {
    concat_map(syscall.failure_results@, |f: FailureResults| c_failure_case(syscall, f))
}

pub open spec fn c_failure_result_mask(schema: AbiSchema) -> Seq<char> {
    "static inline uint64_t hyper_native_failure_result_mask(\n    uint64_t syscall_number, hyper_native_status_t status)\n{\n"@
        + concat_map(schema.syscalls@, |c: Syscall| c_failure_cases(c))
        + "    return UINT64_C(0);\n}\n\n"@
}

fn push_c_failure_cases(out: &mut String, syscall: &Syscall)
    requires
        syscall.results@.len() <= 64,
    ensures
        final(out)@ == old(out)@ + c_failure_cases(*syscall),
{
    let ghost start = out@;
    let fs = syscall.failure_results;
    let mut i: usize = 0;
    while i < fs.len()
        invariant
            fs@ == syscall.failure_results@,
            syscall.results@.len() <= 64,
            i <= fs@.len(),
            out@ == start + concat_map(
                fs@.take(i as int),
                |f: FailureResults| c_failure_case(*syscall, f),
            ),
        decreases fs@.len() - i,
    {
        let failure = fs[i];
        let ghost before = out@;
        let mask = compute_failure_mask(syscall.results, failure.results);
        push_str(out, "    if (syscall_number == HYPER_NATIVE_SYS_");
        push_upper_snake(out, syscall.name);
        push_str(out, " &&\n        status == HYPER_NATIVE_STATUS_");
        push_upper_snake(out, failure.status);
        push_str(out, ") {\n        return UINT64_C(");
        push_dec(out, mask);
        push_str(out, ");\n    }");
        push_str(out, "\n");
        proof {
            assert(out@ =~= before + c_failure_case(*syscall, failure));
            lemma_concat_map_step(fs@, i as int, |f: FailureResults| c_failure_case(*syscall, f));
        }
        i = i + 1;
    }
    proof {
        lemma_take_all(fs@);
    }
}

fn push_c_failure_result_mask(out: &mut String, schema: &AbiSchema)
    requires
        forall|k: int| 0 <= k < schema.syscalls@.len() ==> (#[trigger] schema.syscalls@[k]).results@.len() <= 64,
    ensures
        final(out)@ == old(out)@ + c_failure_result_mask(*schema),
{
    let ghost start = out@;
    push_str(
        out,
        "static inline uint64_t hyper_native_failure_result_mask(\n    uint64_t syscall_number, hyper_native_status_t status)\n{\n",
    );
    let ghost head = out@;
    let cs = schema.syscalls;
    let mut i: usize = 0;
    while i < cs.len()
        invariant
            cs@ == schema.syscalls@,
            forall|k: int| 0 <= k < cs@.len() ==> (#[trigger] cs@[k]).results@.len() <= 64,
            i <= cs@.len(),
            out@ == head + concat_map(cs@.take(i as int), |c: Syscall| c_failure_cases(c)),
        decreases cs@.len() - i,
    {
        let syscall = cs[i];
        assert(cs@[i as int].results@.len() <= 64);
        push_c_failure_cases(out, &syscall);
        proof {
            lemma_concat_map_step(cs@, i as int, |c: Syscall| c_failure_cases(c));
        }
        i = i + 1;
    }
    proof {
        lemma_take_all(cs@);
    }
    push_str(out, "    return UINT64_C(0);\n}\n\n");
    assert(out@ =~= start + c_failure_result_mask(*schema));
}

// ---------------------------------------------------------------------------
// Records.

pub open spec fn c_padding_line(index: nat, size: nat) -> Seq<char> {
    "    uint8_t _padding"@ + dec(index) + "["@ + dec(size) + "];\n"@
}

pub open spec fn c_scalar_field_type(kind: FieldKind) -> Seq<char> {
    match kind {
        FieldKind::U32 => "uint32_t"@,
        _ => "uint64_t"@,
    }
}

pub open spec fn c_field_declaration(f: Field) -> Seq<char> {
    match f.kind {
        FieldKind::Bytes(size) => "    uint8_t "@ + f.name@ + "["@ + dec(size as nat) + "];\n"@,
        _ => "    "@ + c_scalar_field_type(f.kind) + " "@ + f.name@ + ";\n"@,
    }
}

pub open spec fn c_field_lines(fields: Seq<Field>, i: int) -> Seq<char> {
    (if fields[i].offset > previous_end(fields, i) {
        c_padding_line(gap_count(fields, i), (fields[i].offset - previous_end(fields, i)) as nat)
    } else {
        Seq::empty()
    }) + c_field_declaration(fields[i])
}

pub open spec fn c_tail_padding(r: Record) -> Seq<char> {
    if r.size > previous_end(r.fields@, r.fields@.len() as int) {
        c_padding_line(
            gap_count(r.fields@, r.fields@.len() as int),
            (r.size - previous_end(r.fields@, r.fields@.len() as int)) as nat,
        )
    } else {
        Seq::empty()
    }
}

/// The members of one C record, padding included.
pub open spec fn c_members(r: Record) -> Seq<char> {
    concat_range(r.fields@.len(), |i: int| c_field_lines(r.fields@, i)) + c_tail_padding(r)
}

pub open spec fn c_offset_line(record: Seq<char>, f: Field) -> Seq<char> {
    "HYPER_ABI_STATIC_ASSERT(offsetof(hyper_native_"@ + record + "_t, "@ + f.name@ + ") == "@
        + dec(f.offset as nat) + ", \""@ + record + "."@ + f.name@ + " offset\");\n"@
}

pub open spec fn c_record(r: Record) -> Seq<char> {
    "typedef struct hyper_native_"@ + r.name@ + "_t {\n"@ + c_members(r) + "} hyper_native_"@
        + r.name@ + "_t;\n"@ + "HYPER_ABI_STATIC_ASSERT(sizeof(hyper_native_"@ + r.name@
        + "_t) == "@ + dec(r.size as nat) + ", \""@ + r.name@ + " size\");\n"@
        + "HYPER_ABI_STATIC_ASSERT(HYPER_ABI_ALIGNOF(hyper_native_"@ + r.name@ + "_t) == "@ + dec(
        r.alignment as nat,
    ) + ", \""@ + r.name@ + " alignment\");\n"@ + concat_map(
        r.fields@,
        |f: Field| c_offset_line(r.name@, f),
    ) + "\n"@
}

fn push_c_padding_line(out: &mut String, index: usize, size: u16)
    ensures
        final(out)@ == old(out)@ + c_padding_line(index as nat, size as nat),
{
    let ghost start = out@;
    push_str(out, "    uint8_t _padding");
    push_dec(out, index as u64);
    push_str(out, "[");
    push_dec(out, size as u64);
    push_str(out, "];\n");
    assert(out@ =~= start + c_padding_line(index as nat, size as nat));
}

fn push_c_field_declaration(out: &mut String, field: Field)
    ensures
        final(out)@ == old(out)@ + c_field_declaration(field),
{
    let ghost start = out@;
    match field.kind {
        FieldKind::Bytes(size) => {
            push_str(out, "    uint8_t ");
            push_str(out, field.name);
            push_str(out, "[");
            push_dec(out, size as u64);
            push_str(out, "];\n");
        },
        FieldKind::U32 => {
            push_str(out, "    ");
            push_str(out, "uint32_t");
            push_str(out, " ");
            push_str(out, field.name);
            push_str(out, ";\n");
        },
        FieldKind::U64 => {
            push_str(out, "    ");
            push_str(out, "uint64_t");
            push_str(out, " ");
            push_str(out, field.name);
            push_str(out, ";\n");
        },
    }
    assert(out@ =~= start + c_field_declaration(field));
}

fn push_c_members(out: &mut String, record: &Record)
    requires
        record_ok(*record),
    ensures
        final(out)@ == old(out)@ + c_members(*record),
{
    let ghost head = out@;
    let fields = record.fields;
    let mut cursor: u16 = 0;
    let mut padding: usize = 0;
    let mut i: usize = 0;
    while i < fields.len()
        invariant
            fields@ == record.fields@,
            record_ok(*record),
            i <= fields@.len(),
            cursor == previous_end(fields@, i as int),
            padding == gap_count(fields@, i as int),
            padding <= i,
            out@ == head + concat_range(i as nat, |k: int| c_field_lines(record.fields@, k)),
        decreases fields@.len() - i,
    {
        let field = fields[i];
        let ghost before = out@;
        assert(field_ok(*record, fields@, i as int));
        if field.offset > cursor {
            push_c_padding_line(out, padding, field.offset - cursor);
            padding = padding + 1;
        }
        push_c_field_declaration(out, field);
        proof {
            assert(out@ =~= before + c_field_lines(record.fields@, i as int));
        }
        cursor = field.offset + field.kind.size();
        i = i + 1;
    }
    let ghost body = out@;
    if record.size > cursor {
        push_c_padding_line(out, padding, record.size - cursor);
    }
    assert(out@ =~= body + c_tail_padding(*record));
}

fn push_c_offset_lines(out: &mut String, record: &Record)
    ensures
        final(out)@ == old(out)@ + concat_map(record.fields@, |f: Field| c_offset_line(record.name@, f)),
{
    let ghost middle = out@;
    let fields = record.fields;
    let mut j: usize = 0;
    while j < fields.len()
        invariant
            fields@ == record.fields@,
            j <= fields@.len(),
            out@ == middle + concat_map(
                fields@.take(j as int),
                |f: Field| c_offset_line(record.name@, f),
            ),
        decreases fields@.len() - j,
    {
        let ghost before = out@;
        let field = fields[j];
        push_str(out, "HYPER_ABI_STATIC_ASSERT(offsetof(hyper_native_");
        push_str(out, record.name);
        push_str(out, "_t, ");
        push_str(out, field.name);
        push_str(out, ") == ");
        push_dec(out, field.offset as u64);
        push_str(out, ", \"");
        push_str(out, record.name);
        push_str(out, ".");
        push_str(out, field.name);
        push_str(out, " offset\");\n");
        proof {
            assert(out@ =~= before + c_offset_line(record.name@, field));
            lemma_concat_map_step(fields@, j as int, |f: Field| c_offset_line(record.name@, f));
        }
        j = j + 1;
    }
    proof {
        lemma_take_all(fields@);
    }
}

#[verifier::rlimit(60)]
fn push_c_record(out: &mut String, record: &Record)
    requires
        record_ok(*record),
    ensures
        final(out)@ == old(out)@ + c_record(*record),
{
    let ghost start = out@;
    let r = *record;
    push_str(out, "typedef struct hyper_native_");
    push_str(out, record.name);
    push_str(out, "_t {\n");
    push_c_members(out, record);
    push_str(out, "} hyper_native_");
    push_str(out, record.name);
    push_str(out, "_t;\n");
    let ghost part1 = "typedef struct hyper_native_"@ + r.name@ + "_t {\n"@ + c_members(r)
        + "} hyper_native_"@ + r.name@ + "_t;\n"@;
    assert(out@ =~= start + part1);
    push_str(out, "HYPER_ABI_STATIC_ASSERT(sizeof(hyper_native_");
    push_str(out, record.name);
    push_str(out, "_t) == ");
    push_dec(out, record.size as u64);
    push_str(out, ", \"");
    push_str(out, record.name);
    push_str(out, " size\");\n");
    let ghost part2 = part1 + "HYPER_ABI_STATIC_ASSERT(sizeof(hyper_native_"@ + r.name@
        + "_t) == "@ + dec(r.size as nat) + ", \""@ + r.name@ + " size\");\n"@;
    assert(out@ =~= start + part2);
    push_str(out, "HYPER_ABI_STATIC_ASSERT(HYPER_ABI_ALIGNOF(hyper_native_");
    push_str(out, record.name);
    push_str(out, "_t) == ");
    push_dec(out, record.alignment as u64);
    push_str(out, ", \"");
    push_str(out, record.name);
    push_str(out, " alignment\");\n");
    let ghost part3 = part2 + "HYPER_ABI_STATIC_ASSERT(HYPER_ABI_ALIGNOF(hyper_native_"@ + r.name@
        + "_t) == "@ + dec(r.alignment as nat) + ", \""@ + r.name@ + " alignment\");\n"@;
    assert(out@ =~= start + part3);
    push_c_offset_lines(out, record);
    push_str(out, "\n");
    assert(out@ =~= start + c_record(*record));
}

fn push_c_records(out: &mut String, schema: &AbiSchema)
    requires
        records_valid(schema.records@),
    ensures
        final(out)@ == old(out)@ + concat_map(schema.records@, |r: Record| c_record(r)),
{
    let ghost start = out@;
    let rs = schema.records;
    let mut i: usize = 0;
    while i < rs.len()
        invariant
            rs@ == schema.records@,
            records_valid(rs@),
            i <= rs@.len(),
            out@ == start + concat_map(rs@.take(i as int), |r: Record| c_record(r)),
        decreases rs@.len() - i,
    {
        assert(record_ok(rs@[i as int]));
        push_c_record(out, &rs[i]);
        proof {
            lemma_concat_map_step(rs@, i as int, |r: Record| c_record(r));
        }
        i = i + 1;
    }
    proof {
        lemma_take_all(rs@);
    }
}

// ---------------------------------------------------------------------------
// The whole header.

/// The generated C header for `schema`.
pub open spec fn c_source(schema: AbiSchema) -> Seq<char> {
    c_header(schema) + c_features(schema) + c_statuses(schema) + c_objects(schema)
        + c_transfer_classes(schema) + c_rights(schema) + c_signals(schema) + c_constants(schema)
        + c_syscall_numbers(schema) + c_failure_result_mask(schema) + concat_map(
        schema.records@,
        |r: Record| c_record(r),
    ) + "#undef HYPER_ABI_ALIGNOF\n#undef HYPER_ABI_STATIC_ASSERT\n\n"@
        + "#endif /* HYPER_NATIVE_H */\n"@
}

/// Renders the C header of a validated schema.
pub fn render_c(schema: &AbiSchema) -> (r: String)
    requires
        schema_valid(*schema),
    ensures
        r@ == c_source(*schema),
{
    assert forall|k: int| 0 <= k < schema.syscalls@.len() implies (
    #[trigger] schema.syscalls@[k]).results@.len() <= 64 by {
        assert(syscall_ok(*schema, schema.syscalls@[k], rights_mask(schema.rights@)));
    }
    let mut out = String::new();
    let ghost empty = out@;
    push_c_header(&mut out, schema);
    push_c_features(&mut out, schema);
    push_c_statuses(&mut out, schema);
    push_c_objects(&mut out, schema);
    push_c_transfer_classes(&mut out, schema);
    push_c_rights(&mut out, schema);
    push_c_signals(&mut out, schema);
    push_c_constants(&mut out, schema);
    push_c_syscall_numbers(&mut out, schema);
    push_c_failure_result_mask(&mut out, schema);
    push_c_records(&mut out, schema);
    push_str(&mut out, "#undef HYPER_ABI_ALIGNOF\n#undef HYPER_ABI_STATIC_ASSERT\n\n");
    push_str(&mut out, "#endif /* HYPER_NATIVE_H */\n");
    assert(empty == Seq::<char>::empty());
    assert(out@ =~= c_source(*schema));
    out
}

} // verus!
