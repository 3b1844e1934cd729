//! The Markdown reference rendering of a validated schema.

use vstd::prelude::*;
use crate::describe::{
    describe_handle_argument, describe_produced_handle, describe_user_memory,
    handle_argument_description, produced_handle_description, user_memory_description,
};
use crate::render::{
    lemma_concat_map_at,
    audit_name, audit_text, blocking_name, blocking_text, cancellation_name, cancellation_text,
    completion_name, completion_text, concat_map, field_kind_name, flags_name, flags_text, join,
    joined_values, lemma_concat_map_step, lemma_take_all, push_field_kind_name, push_joined,
    push_joined_values, push_part, restart_name, restart_text, string_views,
    transfer_class_name, transfer_class_text, value_kind_name, value_kind_text,
};
use crate::schema::{
    AbiConstant, AbiSchema, Argument, FailureResults, Field, ObjectKind, Record, ResultValue,
    Signal, Status, Syscall,
};
use crate::text::{dec, dec_signed, push_dec, push_dec_signed, push_str, str_eq};
use crate::validate::schema_valid;

verus! {

// ---------------------------------------------------------------------------
// Simple tables.

pub open spec fn reference_header(schema: AbiSchema) -> Seq<char> {
    "<!--\nSPDX-FileCopyrightText: 2026 roolrz\nSPDX-License-Identifier: Apache-2.0\n-->\n\n# HypeR Native ABI reference\n\nThis file is generated from `schema/native.rs`. Do not edit it directly.\n\n"@
        + "ABI revision: `"@ + dec(schema.revision as nat) + "`.\n\n"@
}

pub open spec fn status_row(s: Status) -> Seq<char> {
    "| "@ + dec_signed(s.value as int) + " | `"@ + s.name@ + "` |\n"@
}

pub open spec fn object_row(o: ObjectKind) -> Seq<char> {
    "| "@ + dec(o.value as nat) + " | `"@ + o.name@ + "` | `"@ + transfer_class_name(o.transfer)
        + "` |\n"@
}

pub open spec fn signal_row(s: Signal) -> Seq<char> {
    "| `"@ + s.object@ + "` | "@ + dec(s.bit as nat) + " | `"@ + s.name@ + "` |\n"@
}

pub open spec fn constant_row(c: AbiConstant) -> Seq<char> {
    "| `"@ + c.name@ + "` | `"@ + dec(c.value as nat) + "` |\n"@
}

pub open spec fn rule_item(rule: &'static str) -> Seq<char> {
    "- "@ + rule@ + "\n"@
}

pub open spec fn reference_tables(schema: AbiSchema) -> Seq<char> {
    "## Status values\n\n| Value | Name |\n| ---: | --- |\n"@ + concat_map(
        schema.statuses@,
        |s: Status| status_row(s),
    ) + "\n"@ + "## Object kinds\n\n| Value | Name | Transfer |\n| ---: | --- | --- |\n"@
        + concat_map(schema.object_kinds@, |o: ObjectKind| object_row(o)) + "\n"@
        + "## Object signals\n\n| Object | Bit | Name |\n| --- | ---: | --- |\n"@ + concat_map(
        schema.signals@,
        |s: Signal| signal_row(s),
    ) + "\n"@ + "## Constants\n\n| Name | Value |\n| --- | ---: |\n"@ + concat_map(
        schema.constants@,
        |c: AbiConstant| constant_row(c),
    ) + "\n"@ + "## Semantic rules\n\n"@ + concat_map(
        schema.semantic_rules@,
        |r: &'static str| rule_item(r),
    ) + "\n"@
}

fn push_status_rows(out: &mut String, schema: &AbiSchema)
    ensures
        final(out)@ == old(out)@ + concat_map(schema.statuses@, |s: Status| status_row(s)),
{
    let ghost start = out@;
    let ss = schema.statuses;
    let mut i: usize = 0;
    while i < ss.len()
        invariant
            ss@ == schema.statuses@,
            i <= ss@.len(),
            out@ == start + concat_map(ss@.take(i as int), |s: Status| status_row(s)),
        decreases ss@.len() - i,
    {
        let ghost before = out@;
        push_str(out, "| ");
        push_dec_signed(out, ss[i].value);
        push_str(out, " | `");
        push_str(out, ss[i].name);
        push_str(out, "` |\n");
        proof {
            assert(out@ =~= before + status_row(ss@[i as int]));
            lemma_concat_map_step(ss@, i as int, |s: Status| status_row(s));
        }
        i = i + 1;
    }
    proof {
        lemma_take_all(ss@);
    }
}

fn push_object_rows(out: &mut String, schema: &AbiSchema)
    ensures
        final(out)@ == old(out)@ + concat_map(schema.object_kinds@, |o: ObjectKind| object_row(o)),
{
    let ghost start = out@;
    let os = schema.object_kinds;
    let mut i: usize = 0;
    while i < os.len()
        invariant
            os@ == schema.object_kinds@,
            i <= os@.len(),
            out@ == start + concat_map(os@.take(i as int), |o: ObjectKind| object_row(o)),
        decreases os@.len() - i,
    {
        let ghost before = out@;
        push_str(out, "| ");
        push_dec(out, os[i].value as u64);
        push_str(out, " | `");
        push_str(out, os[i].name);
        push_str(out, "` | `");
        push_str(out, transfer_class_text(os[i].transfer));
        push_str(out, "` |\n");
        proof {
            assert(out@ =~= before + object_row(os@[i as int]));
            lemma_concat_map_step(os@, i as int, |o: ObjectKind| object_row(o));
        }
        i = i + 1;
    }
    proof {
        lemma_take_all(os@);
    }
}

fn push_signal_rows(out: &mut String, schema: &AbiSchema)
    ensures
        final(out)@ == old(out)@ + concat_map(schema.signals@, |s: Signal| signal_row(s)),
{
    let ghost start = out@;
    let ss = schema.signals;
    let mut i: usize = 0;
    while i < ss.len()
        invariant
            ss@ == schema.signals@,
            i <= ss@.len(),
            out@ == start + concat_map(ss@.take(i as int), |s: Signal| signal_row(s)),
        decreases ss@.len() - i,
    {
        let ghost before = out@;
        push_str(out, "| `");
        push_str(out, ss[i].object);
        push_str(out, "` | ");
        push_dec(out, ss[i].bit as u64);
        push_str(out, " | `");
        push_str(out, ss[i].name);
        push_str(out, "` |\n");
        proof {
            assert(out@ =~= before + signal_row(ss@[i as int]));
            lemma_concat_map_step(ss@, i as int, |s: Signal| signal_row(s));
        }
        i = i + 1;
    }
    proof {
        lemma_take_all(ss@);
    }
}

fn push_constant_rows(out: &mut String, schema: &AbiSchema)
    ensures
        final(out)@ == old(out)@ + concat_map(schema.constants@, |c: AbiConstant| constant_row(c)),
{
    let ghost start = out@;
    let cs = schema.constants;
    let mut i: usize = 0;
    while i < cs.len()
        invariant
            cs@ == schema.constants@,
            i <= cs@.len(),
            out@ == start + concat_map(cs@.take(i as int), |c: AbiConstant| constant_row(c)),
        decreases cs@.len() - i,
    {
        let ghost before = out@;
        push_str(out, "| `");
        push_str(out, cs[i].name);
        push_str(out, "` | `");
        push_dec(out, cs[i].value);
        push_str(out, "` |\n");
        proof {
            assert(out@ =~= before + constant_row(cs@[i as int]));
            lemma_concat_map_step(cs@, i as int, |c: AbiConstant| constant_row(c));
        }
        i = i + 1;
    }
    proof {
        lemma_take_all(cs@);
    }
}

fn push_rule_items(out: &mut String, schema: &AbiSchema)
    ensures
        final(out)@ == old(out)@ + concat_map(
            schema.semantic_rules@,
            |r: &'static str| rule_item(r),
        ),
{
    let ghost start = out@;
    let rules = schema.semantic_rules;
    let mut i: usize = 0;
    while i < rules.len()
        invariant
            rules@ == schema.semantic_rules@,
            i <= rules@.len(),
            out@ == start + concat_map(rules@.take(i as int), |r: &'static str| rule_item(r)),
        decreases rules@.len() - i,
    {
        let ghost before = out@;
        push_str(out, "- ");
        push_str(out, rules[i]);
        push_str(out, "\n");
        proof {
            assert(out@ =~= before + rule_item(rules@[i as int]));
            lemma_concat_map_step(rules@, i as int, |r: &'static str| rule_item(r));
        }
        i = i + 1;
    }
    proof {
        lemma_take_all(rules@);
    }
}

fn push_reference_tables(out: &mut String, schema: &AbiSchema)
    ensures
        final(out)@ == old(out)@ + reference_tables(*schema),
{
    let ghost start = out@;
    push_str(out, "## Status values\n\n| Value | Name |\n| ---: | --- |\n");
    push_status_rows(out, schema);
    push_str(out, "\n");
    push_str(out, "## Object kinds\n\n| Value | Name | Transfer |\n| ---: | --- | --- |\n");
    push_object_rows(out, schema);
    push_str(out, "\n");
    push_str(out, "## Object signals\n\n| Object | Bit | Name |\n| --- | ---: | --- |\n");
    push_signal_rows(out, schema);
    push_str(out, "\n");
    push_str(out, "## Constants\n\n| Name | Value |\n| --- | ---: |\n");
    push_constant_rows(out, schema);
    push_str(out, "\n");
    push_str(out, "## Semantic rules\n\n");
    push_rule_items(out, schema);
    push_str(out, "\n");
    assert(out@ =~= start + reference_tables(*schema));
}


// ---------------------------------------------------------------------------
// Syscall rows.

pub open spec fn argument_item(a: Argument) -> Seq<char> {
    "`"@ + a.name@ + ": "@ + value_kind_name(a.kind) + "`"@
}

/// Some name in `names` equals `name`.
pub open spec fn names_contain(names: Seq<&'static str>, name: Seq<char>) -> bool {
    exists|k: int| 0 <= k < names.len() && (#[trigger] names[k])@ == name
}

/// The statuses, in declaration order, on which result `name` stays defined.
pub open spec fn failure_statuses_for(fs: Seq<FailureResults>, name: Seq<char>) -> Seq<Seq<char>>
    decreases fs.len(),
{
    if fs.len() == 0 {
        Seq::empty()
    } else if names_contain(fs.last().results@, name) {
        failure_statuses_for(fs.drop_last(), name).push(fs.last().status@)
    } else {
        failure_statuses_for(fs.drop_last(), name)
    }
}

pub open spec fn also_on(sc: Syscall, name: Seq<char>) -> Seq<char> {
    if failure_statuses_for(sc.failure_results@, name).len() == 0 {
        Seq::empty()
    } else {
        "; also-on="@ + join(failure_statuses_for(sc.failure_results@, name), "+"@)
    }
}

pub open spec fn result_item(sc: Syscall, r: ResultValue) -> Seq<char> {
    "`"@ + r.name@ + ": "@ + value_kind_name(r.kind) + also_on(sc, r.name@) + "`"@
}

/// Capability effects of the handle arguments, in argument order.
pub open spec fn handle_effects(args: Seq<Argument>) -> Seq<Seq<char>>
    decreases args.len(),
{
    if args.len() == 0 {
        Seq::empty()
    } else {
        match args.last().handle {
            Some(h) => handle_effects(args.drop_last()).push(
                handle_argument_description(args.last().name@, h),
            ),
            None => handle_effects(args.drop_last()),
        }
    }
}

/// Capability effects of the produced handles, in result order.
pub open spec fn produced_effects(results: Seq<ResultValue>) -> Seq<Seq<char>>
    decreases results.len(),
{
    if results.len() == 0 {
        Seq::empty()
    } else {
        match results.last().handle {
            Some(h) => produced_effects(results.drop_last()).push(
                produced_handle_description(results.last().name@, h),
            ),
            None => produced_effects(results.drop_last()),
        }
    }
}

/// User-memory contracts of the memory arguments, in argument order.
pub open spec fn memory_effects(args: Seq<Argument>) -> Seq<Seq<char>>
    decreases args.len(),
{
    if args.len() == 0 {
        Seq::empty()
    } else {
        match args.last().memory {
            Some(m) => memory_effects(args.drop_last()).push(
                user_memory_description(args.last().name@, m),
            ),
            None => memory_effects(args.drop_last()),
        }
    }
}

pub open spec fn execution_cell(sc: Syscall) -> Seq<char> {
    "`blocking="@ + blocking_name(sc.blocking) + ", cancellation="@ + cancellation_name(
        sc.cancellation,
    ) + ", restart="@ + restart_name(sc.restart) + ", completion="@ + completion_name(
        sc.completion,
    ) + ", flags="@ + flags_name(sc.flags) + "`"@
}

pub open spec fn syscall_row(sc: Syscall) -> Seq<char> {
    "| "@ + dec(sc.number as nat) + " | `"@ + sc.name@ + "` | "@ + joined_values(
        sc.arguments@.map_values(|a: Argument| argument_item(a)),
    ) + " | "@ + joined_values(sc.results@.map_values(|r: ResultValue| result_item(sc, r)))
        + " | "@ + joined_values(handle_effects(sc.arguments@) + produced_effects(sc.results@))
        + " | "@ + joined_values(memory_effects(sc.arguments@)) + " | "@ + execution_cell(sc)
        + " | `"@ + audit_name(sc.audit) + "` |\n"@
}

fn contains_name(names: &'static [&'static str], name: &str) -> (r: bool)
    ensures
        r == names_contain(names@, name@),
{
    let mut k: usize = 0;
    while k < names.len()
        invariant
            k <= names@.len(),
            forall|j: int| 0 <= j < k ==> (#[trigger] names@[j])@ != name@,
        decreases names@.len() - k,
    {
        if str_eq(names[k], name) {
            return true;
        }
        k = k + 1;
    }
    false
}

fn push_also_on(out: &mut String, syscall: &Syscall, name: &str)
    ensures
        final(out)@ == old(out)@ + also_on(*syscall, name@),
{
    let fs = syscall.failure_results;
    let mut statuses: Vec<String> = Vec::new();
    let mut i: usize = 0;
    while i < fs.len()
        invariant
            fs@ == syscall.failure_results@,
            i <= fs@.len(),
            string_views(statuses@) == failure_statuses_for(fs@.take(i as int), name@),
        decreases fs@.len() - i,
    {
        assert(fs@.take(i + 1).drop_last() == fs@.take(i as int));
        if contains_name(fs[i].results, name) {
            push_part(&mut statuses, String::from_str(fs[i].status));
        }
        i = i + 1;
    }
    proof {
        lemma_take_all(fs@);
    }
    if statuses.len() != 0 {
        let ghost start = out@;
        push_str(out, "; also-on=");
        push_joined(out, &statuses, "+");
        assert(out@ =~= start + also_on(*syscall, name@));
    } else {
        assert(out@ =~= old(out)@ + also_on(*syscall, name@));
    }
}

fn argument_items(syscall: &Syscall) -> (r: Vec<String>)
    ensures
        string_views(r@) == syscall.arguments@.map_values(|a: Argument| argument_item(a)),
{
    let args = syscall.arguments;
    let mut parts: Vec<String> = Vec::new();
    let mut i: usize = 0;
    while i < args.len()
        invariant
            args@ == syscall.arguments@,
            i <= args@.len(),
            string_views(parts@) == args@.take(i as int).map_values(|a: Argument| argument_item(a)),
        decreases args@.len() - i,
    {
        let mut part = String::from_str("`");
        push_str(&mut part, args[i].name);
        push_str(&mut part, ": ");
        push_str(&mut part, value_kind_text(args[i].kind));
        push_str(&mut part, "`");
        assert(part@ =~= argument_item(args@[i as int]));
        push_part(&mut parts, part);
        assert(args@.take(i + 1).map_values(|a: Argument| argument_item(a)) =~= args@.take(
            i as int,
        ).map_values(|a: Argument| argument_item(a)).push(argument_item(args@[i as int])));
        i = i + 1;
    }
    proof {
        lemma_take_all(args@);
    }
    parts
}

fn result_items(syscall: &Syscall) -> (r: Vec<String>)
    ensures
        string_views(r@) == syscall.results@.map_values(|r: ResultValue| result_item(*syscall, r)),
{
    let rs = syscall.results;
    let mut parts: Vec<String> = Vec::new();
    let mut i: usize = 0;
    while i < rs.len()
        invariant
            rs@ == syscall.results@,
            i <= rs@.len(),
            string_views(parts@) == rs@.take(i as int).map_values(
                |r: ResultValue| result_item(*syscall, r),
            ),
        decreases rs@.len() - i,
    {
        let mut part = String::from_str("`");
        push_str(&mut part, rs[i].name);
        push_str(&mut part, ": ");
        push_str(&mut part, value_kind_text(rs[i].kind));
        push_also_on(&mut part, syscall, rs[i].name);
        push_str(&mut part, "`");
        assert(part@ =~= result_item(*syscall, rs@[i as int]));
        push_part(&mut parts, part);
        assert(rs@.take(i + 1).map_values(|r: ResultValue| result_item(*syscall, r)) =~= rs@.take(
            i as int,
        ).map_values(|r: ResultValue| result_item(*syscall, r)).push(
            result_item(*syscall, rs@[i as int]),
        ));
        i = i + 1;
    }
    proof {
        lemma_take_all(rs@);
    }
    parts
}

fn capability_effects(syscall: &Syscall) -> (r: Vec<String>)
    ensures
        string_views(r@) == handle_effects(syscall.arguments@) + produced_effects(syscall.results@),
{
    let args = syscall.arguments;
    let mut parts: Vec<String> = Vec::new();
    let mut i: usize = 0;
    while i < args.len()
        invariant
            args@ == syscall.arguments@,
            i <= args@.len(),
            string_views(parts@) == handle_effects(args@.take(i as int)),
        decreases args@.len() - i,
    {
        assert(args@.take(i + 1).drop_last() == args@.take(i as int));
        if let Some(handle) = args[i].handle {
            push_part(&mut parts, describe_handle_argument(args[i].name, handle));
        }
        i = i + 1;
    }
    proof {
        lemma_take_all(args@);
    }
    let ghost arguments_part = string_views(parts@);
    let rs = syscall.results;
    let mut j: usize = 0;
    while j < rs.len()
        invariant
            rs@ == syscall.results@,
            j <= rs@.len(),
            string_views(parts@) == arguments_part + produced_effects(rs@.take(j as int)),
        decreases rs@.len() - j,
    {
        assert(rs@.take(j + 1).drop_last() == rs@.take(j as int));
        let ghost before = string_views(parts@);
        if let Some(handle) = rs[j].handle {
            push_part(&mut parts, describe_produced_handle(rs[j].name, handle));
            assert(string_views(parts@) =~= arguments_part + produced_effects(
                rs@.take(j + 1),
            ));
        }
        j = j + 1;
    }
    proof {
        lemma_take_all(rs@);
    }
    parts
}

fn memory_items(syscall: &Syscall) -> (r: Vec<String>)
    ensures
        string_views(r@) == memory_effects(syscall.arguments@),
{
    let args = syscall.arguments;
    let mut parts: Vec<String> = Vec::new();
    let mut i: usize = 0;
    while i < args.len()
        invariant
            args@ == syscall.arguments@,
            i <= args@.len(),
            string_views(parts@) == memory_effects(args@.take(i as int)),
        decreases args@.len() - i,
    {
        assert(args@.take(i + 1).drop_last() == args@.take(i as int));
        if let Some(memory) = args[i].memory {
            push_part(&mut parts, describe_user_memory(args[i].name, memory));
        }
        i = i + 1;
    }
    proof {
        lemma_take_all(args@);
    }
    parts
}

fn push_execution_cell(out: &mut String, syscall: &Syscall)
    ensures
        final(out)@ == old(out)@ + execution_cell(*syscall),
{
    let ghost start = out@;
    push_str(out, "`blocking=");
    push_str(out, blocking_text(syscall.blocking));
    push_str(out, ", cancellation=");
    push_str(out, cancellation_text(syscall.cancellation));
    push_str(out, ", restart=");
    push_str(out, restart_text(syscall.restart));
    push_str(out, ", completion=");
    push_str(out, completion_text(syscall.completion));
    push_str(out, ", flags=");
    push_str(out, flags_text(syscall.flags));
    push_str(out, "`");
    assert(out@ =~= start + execution_cell(*syscall));
}

fn push_syscall_row(out: &mut String, syscall: &Syscall)
    ensures
        final(out)@ == old(out)@ + syscall_row(*syscall),
{
    let ghost start = out@;
    let arguments = argument_items(syscall);
    let results = result_items(syscall);
    let effects = capability_effects(syscall);
    let memory = memory_items(syscall);
    push_str(out, "| ");
    push_dec(out, syscall.number as u64);
    push_str(out, " | `");
    push_str(out, syscall.name);
    push_str(out, "` | ");
    push_joined_values(out, &arguments);
    push_str(out, " | ");
    push_joined_values(out, &results);
    push_str(out, " | ");
    push_joined_values(out, &effects);
    push_str(out, " | ");
    push_joined_values(out, &memory);
    push_str(out, " | ");
    push_execution_cell(out, syscall);
    push_str(out, " | `");
    push_str(out, audit_text(syscall.audit));
    push_str(out, "` |\n");
    assert(out@ =~= start + syscall_row(*syscall));
}

// ---------------------------------------------------------------------------
// Records.

pub open spec fn field_item(f: Field) -> Seq<char> {
    "`"@ + f.name@ + ": "@ + field_kind_name(f.kind) + " @ "@ + dec(f.offset as nat) + "`"@
}

pub open spec fn record_row(r: Record) -> Seq<char> {
    "| `"@ + r.name@ + "` | "@ + dec(r.size as nat) + " | "@ + dec(r.alignment as nat) + " | "@
        + joined_values(r.fields@.map_values(|f: Field| field_item(f))) + " |\n"@
}

fn push_record_row(out: &mut String, record: &Record)
    ensures
        final(out)@ == old(out)@ + record_row(*record),
{
    let ghost start = out@;
    let fields = record.fields;
    let mut parts: Vec<String> = Vec::new();
    let mut i: usize = 0;
    while i < fields.len()
        invariant
            fields@ == record.fields@,
            i <= fields@.len(),
            string_views(parts@) == fields@.take(i as int).map_values(|f: Field| field_item(f)),
        decreases fields@.len() - i,
    {
        let mut part = String::from_str("`");
        push_str(&mut part, fields[i].name);
        push_str(&mut part, ": ");
        push_field_kind_name(&mut part, fields[i].kind);
        push_str(&mut part, " @ ");
        push_dec(&mut part, fields[i].offset as u64);
        push_str(&mut part, "`");
        assert(part@ =~= field_item(fields@[i as int]));
        push_part(&mut parts, part);
        assert(fields@.take(i + 1).map_values(|f: Field| field_item(f)) =~= fields@.take(
            i as int,
        ).map_values(|f: Field| field_item(f)).push(field_item(fields@[i as int])));
        i = i + 1;
    }
    proof {
        lemma_take_all(fields@);
    }
    push_str(out, "| `");
    push_str(out, record.name);
    push_str(out, "` | ");
    push_dec(out, record.size as u64);
    push_str(out, " | ");
    push_dec(out, record.alignment as u64);
    push_str(out, " | ");
    push_joined_values(out, &parts);
    push_str(out, " |\n");
    assert(out@ =~= start + record_row(*record));
}

// ---------------------------------------------------------------------------
// The whole reference.

pub open spec fn syscalls_heading() -> Seq<char> {
    "## Syscalls\n\nAuxiliary result registers are defined only for `ok` unless a result is annotated with\n`also-on=<status>`. Element-count memory ranges are checked as count times the declared\nelement size before any user-memory access.\n\n| Number | Name | Arguments | Results | Capability effects | User memory | Execution | Audit |\n| ---: | --- | --- | --- | --- | --- | --- | --- |\n"@
}

pub open spec fn records_heading() -> Seq<char> {
    "\n## Public records\n\n| Name | Size | Alignment | Fields |\n| --- | ---: | ---: | --- |\n"@
}

/// The generated Markdown reference for `schema`.
pub open spec fn reference_source(schema: AbiSchema) -> Seq<char> {
    reference_header(schema) + reference_tables(schema) + syscalls_heading() + concat_map(
        schema.syscalls@,
        |c: Syscall| syscall_row(c),
    ) + records_heading() + concat_map(schema.records@, |r: Record| record_row(r))
}

proof fn lemma_regroup(
    a: Seq<char>,
    b: Seq<char>,
    c: Seq<char>,
    x: Seq<char>,
    y: Seq<char>,
    z: Seq<char>,
    d: Seq<char>,
    e: Seq<char>,
)
    ensures
        a + b + c + (x + y + z) + d + e == a + b + c + x + y + z + d + e,
{
    assert(a + b + c + (x + y + z) + d + e =~= a + b + c + x + y + z + d + e);
}

/// The reference is its header, which states the ABI revision, the simple
/// tables, then one row per syscall in schema order, then one row per record
/// in schema order: the row of syscall `i` stands right after the rows of
/// the syscalls declared before it, and the rows of the later syscalls
/// follow it.
#[verifier::spinoff_prover]
pub proof fn reference_lists_syscalls_in_schema_order(schema: AbiSchema, i: int)
    requires
        0 <= i < schema.syscalls@.len(),
    ensures
        reference_source(schema) == reference_header(schema) + reference_tables(schema)
            + syscalls_heading() + concat_map(schema.syscalls@.take(i), |c: Syscall| syscall_row(c))
            + syscall_row(schema.syscalls@[i]) + concat_map(
            schema.syscalls@.skip(i + 1),
            |c: Syscall| syscall_row(c),
        ) + records_heading() + concat_map(schema.records@, |r: Record| record_row(r)),
        reference_header(schema).subrange(
            reference_header(schema).len() - dec(schema.revision as nat).len() - 19,
            reference_header(schema).len() as int,
        ) == "ABI revision: `"@ + dec(schema.revision as nat) + "`.\n\n"@,
{
    lemma_concat_map_at(schema.syscalls@, i, |c: Syscall| syscall_row(c));
    lemma_regroup(
        reference_header(schema),
        reference_tables(schema),
        syscalls_heading(),
        concat_map(schema.syscalls@.take(i), |c: Syscall| syscall_row(c)),
        syscall_row(schema.syscalls@[i]),
        concat_map(schema.syscalls@.skip(i + 1), |c: Syscall| syscall_row(c)),
        records_heading(),
        concat_map(schema.records@, |r: Record| record_row(r)),
    );
    reveal_strlit("ABI revision: `");
    reveal_strlit("`.\n\n");
    let h = reference_header(schema);
    let tail = "ABI revision: `"@ + dec(schema.revision as nat) + "`.\n\n"@;
    assert(tail.len() == dec(schema.revision as nat).len() + 19);
    assert(h.subrange(h.len() - tail.len(), h.len() as int) =~= tail);
}

fn push_syscall_rows(out: &mut String, schema: &AbiSchema)
    ensures
        final(out)@ == old(out)@ + concat_map(schema.syscalls@, |c: Syscall| syscall_row(c)),
{
    let ghost start = out@;
    let cs = schema.syscalls;
    let mut i: usize = 0;
    while i < cs.len()
        invariant
            cs@ == schema.syscalls@,
            i <= cs@.len(),
            out@ == start + concat_map(cs@.take(i as int), |c: Syscall| syscall_row(c)),
        decreases cs@.len() - i,
    {
        push_syscall_row(out, &cs[i]);
        proof {
            lemma_concat_map_step(cs@, i as int, |c: Syscall| syscall_row(c));
        }
        i = i + 1;
    }
    proof {
        lemma_take_all(cs@);
    }
}

fn push_record_rows(out: &mut String, schema: &AbiSchema)
    ensures
        final(out)@ == old(out)@ + concat_map(schema.records@, |r: Record| record_row(r)),
{
    let ghost start = out@;
    let rs = schema.records;
    let mut i: usize = 0;
    while i < rs.len()
        invariant
            rs@ == schema.records@,
            i <= rs@.len(),
            out@ == start + concat_map(rs@.take(i as int), |r: Record| record_row(r)),
        decreases rs@.len() - i,
    {
        push_record_row(out, &rs[i]);
        proof {
            lemma_concat_map_step(rs@, i as int, |r: Record| record_row(r));
        }
        i = i + 1;
    }
    proof {
        lemma_take_all(rs@);
    }
}

/// Renders the Markdown reference of a validated schema.
pub fn render_reference(schema: &AbiSchema) -> (r: String)
    requires
        schema_valid(*schema),
    ensures
        r@ == reference_source(*schema),
{
    let mut out = String::from_str(
        "<!--\nSPDX-FileCopyrightText: 2026 roolrz\nSPDX-License-Identifier: Apache-2.0\n-->\n\n# HypeR Native ABI reference\n\nThis file is generated from `schema/native.rs`. Do not edit it directly.\n\n",
    );
    push_str(&mut out, "ABI revision: `");
    push_dec(&mut out, schema.revision);
    push_str(&mut out, "`.\n\n");
    assert(out@ =~= reference_header(*schema));
    push_reference_tables(&mut out, schema);
    push_str(
        &mut out,
        "## Syscalls\n\nAuxiliary result registers are defined only for `ok` unless a result is annotated with\n`also-on=<status>`. Element-count memory ranges are checked as count times the declared\nelement size before any user-memory access.\n\n| Number | Name | Arguments | Results | Capability effects | User memory | Execution | Audit |\n| ---: | --- | --- | --- | --- | --- | --- | --- |\n",
    );
    push_syscall_rows(&mut out, schema);
    push_str(
        &mut out,
        "\n## Public records\n\n| Name | Size | Alignment | Fields |\n| --- | ---: | ---: | --- |\n",
    );
    push_record_rows(&mut out, schema);
    out
}

} // verus!
