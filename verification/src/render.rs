//! Shared vocabulary of the renderers: concatenation over items, joined
//! lists, and the textual names of schema enumerations.

use vstd::prelude::*;
use crate::schema::{
    AuditClass, BlockingClass, CancellationClass, CompletionClass, FieldKind, FlagPolicy,
    MemoryDirection, RestartClass, TransferClass, ValueKind,
};
use crate::text::{dec, push_char, push_dec, push_str};

verus! {

/// The concatenation of `f(item)` over `items`, in order.
pub open spec fn concat_map<T>(items: Seq<T>, f: spec_fn(T) -> Seq<char>) -> Seq<char>
    decreases items.len(),
{
    if items.len() == 0 {
        Seq::empty()
    } else {
        concat_map(items.drop_last(), f) + f(items.last())
    }
}

/// The concatenation of `f(i)` for `i` in `0..n`, in order.
pub open spec fn concat_range(n: nat, f: spec_fn(int) -> Seq<char>) -> Seq<char>
    decreases n,
{
    if n == 0 {
        Seq::empty()
    } else {
        concat_range((n - 1) as nat, f) + f(n - 1)
    }
}

pub proof fn lemma_concat_map_step<T>(items: Seq<T>, i: int, f: spec_fn(T) -> Seq<char>)
    requires
        0 <= i < items.len(),
    ensures
        concat_map(items.take(i + 1), f) == concat_map(items.take(i), f) + f(items[i]),
{
    assert(items.take(i + 1).drop_last() == items.take(i));
}

/// Concatenating over two sequences in turn concatenates over their join.
pub proof fn lemma_concat_map_append<T>(a: Seq<T>, b: Seq<T>, f: spec_fn(T) -> Seq<char>)
    ensures
        concat_map(a + b, f) == concat_map(a, f) + concat_map(b, f),
    decreases b.len(),
{
    if b.len() == 0 {
        assert(a + b =~= a);
        assert(concat_map(a, f) + concat_map(b, f) =~= concat_map(a, f));
    } else {
        lemma_concat_map_append(a, b.drop_last(), f);
        assert((a + b).drop_last() =~= a + b.drop_last());
        assert((a + b).last() == b.last());
        assert(concat_map(a, f) + concat_map(b.drop_last(), f) + f(b.last()) =~= concat_map(a, f)
            + (concat_map(b.drop_last(), f) + f(b.last())));
    }
}

/// The item at `i` contributes its text right after the items before it,
/// and the items after it follow.
pub proof fn lemma_concat_map_at<T>(items: Seq<T>, i: int, f: spec_fn(T) -> Seq<char>)
    requires
        0 <= i < items.len(),
    ensures
        concat_map(items, f) == concat_map(items.take(i), f) + f(items[i]) + concat_map(
            items.skip(i + 1),
            f,
        ),
{
    let left = items.take(i + 1);
    let right = items.skip(i + 1);
    assert(items =~= left + right);
    lemma_concat_map_append(left, right, f);
    assert(left.drop_last() =~= items.take(i));
}

pub proof fn lemma_take_all<T>(items: Seq<T>)
    ensures
        items.take(items.len() as int) == items,
{
    assert(items.take(items.len() as int) =~= items);
}

/// `parts` separated by `sep`.
pub open spec fn join(parts: Seq<Seq<char>>, sep: Seq<char>) -> Seq<char>
    decreases parts.len(),
{
    if parts.len() == 0 {
        Seq::empty()
    } else if parts.len() == 1 {
        parts[0]
    } else {
        join(parts.drop_last(), sep) + sep + parts.last()
    }
}

/// A table cell listing `parts`, or an em dash when there are none.
pub open spec fn joined_values(parts: Seq<Seq<char>>) -> Seq<char> {
    if parts.len() == 0 {
        "—"@
    } else {
        join(parts, ", "@)
    }
}

pub open spec fn string_views(items: Seq<String>) -> Seq<Seq<char>> {
    items.map_values(|s: String| s@)
}

proof fn lemma_string_views_push(items: Seq<String>, s: String)
    ensures
        string_views(items.push(s)) == string_views(items).push(s@),
{
    assert(string_views(items.push(s)) =~= string_views(items).push(s@));
}

/// Appends `s` to a list of rendered parts.
pub fn push_part(parts: &mut Vec<String>, s: String)
    ensures
        string_views(final(parts)@) == string_views(old(parts)@).push(s@),
{
    let ghost before = parts@;
    parts.push(s);
    proof {
        lemma_string_views_push(before, s);
    }
}

/// Appends `parts` separated by `sep`.
pub fn push_joined(out: &mut String, parts: &Vec<String>, sep: &str)
    ensures
        final(out)@ == old(out)@ + join(string_views(parts@), sep@),
{
    let ghost start = out@;
    let ghost views = string_views(parts@);
    let mut i: usize = 0;
    while i < parts.len()
        invariant
            views == string_views(parts@),
            i <= parts@.len(),
            out@ == start + join(views.take(i as int), sep@),
        decreases parts@.len() - i,
    {
        let ghost before = out@;
        if i > 0 {
            push_str(out, sep);
        }
        push_str(out, parts[i].as_str());
        proof {
            let prefix = views.take(i + 1);
            assert(prefix.drop_last() == views.take(i as int));
            assert(prefix.last() == parts@[i as int]@);
            if i == 0 {
                assert(join(prefix, sep@) == prefix[0]);
                assert(join(views.take(0), sep@) == Seq::<char>::empty());
                assert(out@ =~= start + join(prefix, sep@));
            } else {
                assert(out@ =~= start + join(prefix, sep@));
            }
        }
        i = i + 1;
    }
    proof {
        lemma_take_all(views);
    }
}

/// Appends a table cell listing `parts`, or an em dash when there are none.
pub fn push_joined_values(out: &mut String, parts: &Vec<String>)
    ensures
        final(out)@ == old(out)@ + joined_values(string_views(parts@)),
{
    if parts.len() == 0 {
        push_str(out, "—");
    } else {
        push_joined(out, parts, ", ");
    }
}

/// Drops one final newline when the text ends in a blank line.
pub open spec fn trim_final_blank(s: Seq<char>) -> Seq<char> {
    if s.len() >= 2 && s[s.len() - 1] == '\n' && s[s.len() - 2] == '\n' {
        s.subrange(0, s.len() - 1)
    } else {
        s
    }
}

pub fn trimmed_final_blank(s: String) -> (r: String)
    ensures
        r@ == trim_final_blank(s@),
{
    let text = s.as_str();
    let n = text.unicode_len();
    if n >= 2 && text.get_char(n - 1) == '\n' && text.get_char(n - 2) == '\n' {
        text.substring_char(0, n - 1).to_owned()
    } else {
        s
    }
}

// ---------------------------------------------------------------------------
// Names of enumeration values.

pub open spec fn value_kind_name(kind: ValueKind) -> Seq<char> {
    match kind {
        ValueKind::U32 => "u32"@,
        ValueKind::U64 => "u64"@,
        ValueKind::I64 => "i64"@,
        ValueKind::Handle => "handle"@,
        ValueKind::UserAddress => "user_address"@,
        ValueKind::ByteCount => "byte_count"@,
        ValueKind::ElementCount => "element_count"@,
        ValueKind::Rights => "rights"@,
    }
}

pub fn value_kind_text(kind: ValueKind) -> (r: &'static str)
    ensures
        r@ == value_kind_name(kind),
{
    match kind {
        ValueKind::U32 => "u32",
        ValueKind::U64 => "u64",
        ValueKind::I64 => "i64",
        ValueKind::Handle => "handle",
        ValueKind::UserAddress => "user_address",
        ValueKind::ByteCount => "byte_count",
        ValueKind::ElementCount => "element_count",
        ValueKind::Rights => "rights",
    }
}

pub open spec fn field_kind_name(kind: FieldKind) -> Seq<char> {
    match kind {
        FieldKind::U32 => "u32"@,
        FieldKind::U64 => "u64"@,
        FieldKind::Bytes(size) => "bytes["@ + dec(size as nat) + "]"@,
    }
}

pub fn push_field_kind_name(out: &mut String, kind: FieldKind)
    ensures
        final(out)@ == old(out)@ + field_kind_name(kind),
{
    let ghost start = out@;
    match kind {
        FieldKind::U32 => push_str(out, "u32"),
        FieldKind::U64 => push_str(out, "u64"),
        FieldKind::Bytes(size) => {
            push_str(out, "bytes[");
            push_dec(out, size as u64);
            push_str(out, "]");
            assert(out@ =~= start + field_kind_name(kind));
        },
    }
}

pub open spec fn transfer_class_name(class: TransferClass) -> Seq<char> {
    match class {
        TransferClass::Forbidden => "forbidden"@,
        TransferClass::General => "general"@,
        TransferClass::RendezvousOnly => "rendezvous_only"@,
    }
}

pub fn transfer_class_text(class: TransferClass) -> (r: &'static str)
    ensures
        r@ == transfer_class_name(class),
{
    match class {
        TransferClass::Forbidden => "forbidden",
        TransferClass::General => "general",
        TransferClass::RendezvousOnly => "rendezvous_only",
    }
}

/// The generated constant that names a transfer class.
pub open spec fn transfer_class_constant(class: TransferClass) -> Seq<char> {
    match class {
        TransferClass::Forbidden => "HYPER_NATIVE_TRANSFER_CLASS_FORBIDDEN"@,
        TransferClass::General => "HYPER_NATIVE_TRANSFER_CLASS_GENERAL"@,
        TransferClass::RendezvousOnly => "HYPER_NATIVE_TRANSFER_CLASS_RENDEZVOUS_ONLY"@,
    }
}

pub fn transfer_class_constant_text(class: TransferClass) -> (r: &'static str)
    ensures
        r@ == transfer_class_constant(class),
{
    match class {
        TransferClass::Forbidden => "HYPER_NATIVE_TRANSFER_CLASS_FORBIDDEN",
        TransferClass::General => "HYPER_NATIVE_TRANSFER_CLASS_GENERAL",
        TransferClass::RendezvousOnly => "HYPER_NATIVE_TRANSFER_CLASS_RENDEZVOUS_ONLY",
    }
}

/// `Debug` names of the execution classes, as the reference prints them.
pub open spec fn blocking_name(value: BlockingClass) -> Seq<char> {
    match value {
        BlockingClass::Never => "Never"@,
        BlockingClass::MayBlock => "MayBlock"@,
    }
}

pub fn blocking_text(value: BlockingClass) -> (r: &'static str)
    ensures
        r@ == blocking_name(value),
{
    match value {
        BlockingClass::Never => "Never",
        BlockingClass::MayBlock => "MayBlock",
    }
}

pub open spec fn cancellation_name(value: CancellationClass) -> Seq<char> {
    match value {
        CancellationClass::NotCancellable => "None"@,
        CancellationClass::Explicit => "Explicit"@,
    }
}

pub fn cancellation_text(value: CancellationClass) -> (r: &'static str)
    ensures
        r@ == cancellation_name(value),
{
    match value {
        CancellationClass::NotCancellable => "None",
        CancellationClass::Explicit => "Explicit",
    }
}

pub open spec fn restart_name(value: RestartClass) -> Seq<char> {
    match value {
        RestartClass::Never => "Never"@,
    }
}

pub fn restart_text(value: RestartClass) -> (r: &'static str)
    ensures
        r@ == restart_name(value),
{
    match value {
        RestartClass::Never => "Never",
    }
}

pub open spec fn completion_name(value: CompletionClass) -> Seq<char> {
    match value {
        CompletionClass::Returns => "Returns"@,
        CompletionClass::NoReturn => "NoReturn"@,
    }
}

pub fn completion_text(value: CompletionClass) -> (r: &'static str)
    ensures
        r@ == completion_name(value),
{
    match value {
        CompletionClass::Returns => "Returns",
        CompletionClass::NoReturn => "NoReturn",
    }
}

pub open spec fn flags_name(value: FlagPolicy) -> Seq<char> {
    match value {
        FlagPolicy::NoFlags => "None"@,
        FlagPolicy::Strict => "Strict"@,
        FlagPolicy::Flexible => "Flexible"@,
    }
}

pub fn flags_text(value: FlagPolicy) -> (r: &'static str)
    ensures
        r@ == flags_name(value),
{
    match value {
        FlagPolicy::NoFlags => "None",
        FlagPolicy::Strict => "Strict",
        FlagPolicy::Flexible => "Flexible",
    }
}

pub open spec fn audit_name(value: AuditClass) -> Seq<char> {
    match value {
        AuditClass::Abi => "Abi"@,
        AuditClass::Capability => "Capability"@,
        AuditClass::Object => "Object"@,
        AuditClass::Task => "Task"@,
    }
}

pub fn audit_text(value: AuditClass) -> (r: &'static str)
    ensures
        r@ == audit_name(value),
{
    match value {
        AuditClass::Abi => "Abi",
        AuditClass::Capability => "Capability",
        AuditClass::Object => "Object",
        AuditClass::Task => "Task",
    }
}

pub open spec fn direction_name(value: MemoryDirection) -> Seq<char> {
    match value {
        MemoryDirection::Read => "Read"@,
        MemoryDirection::Write => "Write"@,
        MemoryDirection::ReadWrite => "ReadWrite"@,
    }
}

pub fn direction_text(value: MemoryDirection) -> (r: &'static str)
    ensures
        r@ == direction_name(value),
{
    match value {
        MemoryDirection::Read => "Read",
        MemoryDirection::Write => "Write",
        MemoryDirection::ReadWrite => "ReadWrite",
    }
}

} // verus!
