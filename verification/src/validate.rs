//! Validation of an ABI schema: every rule a schema must satisfy before it
//! can be rendered.

use vstd::prelude::*;
use crate::calls::{first_of, syscalls_diagnostic_from, syscalls_valid, validate_syscalls};
use crate::schema::{
    field_alignment, field_size, AbiConstant, AbiSchema, Feature, Field, FieldKind, ObjectKind,
    Record, Right, Signal, Status, Syscall, TransferClass,
};
use crate::text::{
    check_identifier, debug_quoted, debug_str, dec, dec_signed, hex, is_blank, is_identifier, is_unicode_whitespace, push_dec,
    push_dec_signed, push_str, push_upper_snake, str_eq, upper_snake_spec,
};

verus! {

/// Failure of schema validation, generation, or repository output handling.
#[derive(Debug)]
pub enum Error {
    /// The schema violates a structural rule; the message names the rule.
    InvalidSchema(String),
    /// A repository file could not be read or written.
    Io { path: String, source: String },
    /// A checked-in generated file differs from the freshly generated text.
    Drift { path: String },
}

/// A check's result reports diagnostic `d`: success when there is none,
/// else the schema error carrying exactly that message.
pub open spec fn reports<T>(r: Result<T, Error>, d: Option<Seq<char>>) -> bool {
    match r {
        Ok(_) => d is None,
        Err(Error::InvalidSchema(m)) => d == Some(m@),
        Err(_) => false,
    }
}

pub(crate) fn invalid<T>(message: String) -> (r: Result<T, Error>)
    ensures
        r matches Err(Error::InvalidSchema(m)) && m@ == message@,
{
    Err(Error::InvalidSchema(message))
}

pub(crate) fn text2(a: &str, b: &str) -> (m: String)
    ensures
        m@ == a@ + b@,
{
    let mut m = String::from_str(a);
    push_str(&mut m, b);
    m
}

pub(crate) fn text3(a: &str, b: &str, c: &str) -> (m: String)
    ensures
        m@ == a@ + b@ + c@,
{
    let mut m = text2(a, b);
    push_str(&mut m, c);
    m
}

pub(crate) fn text4(a: &str, b: &str, c: &str, d: &str) -> (m: String)
    ensures
        m@ == a@ + b@ + c@ + d@,
{
    let mut m = text3(a, b, c);
    push_str(&mut m, d);
    m
}

pub(crate) fn text5(a: &str, b: &str, c: &str, d: &str, e: &str) -> (m: String)
    ensures
        m@ == a@ + b@ + c@ + d@ + e@,
{
    let mut m = text4(a, b, c, d);
    push_str(&mut m, e);
    m
}

/// The diagnostic for an identifier of `domain` which is not lower snake case.
pub open spec fn identifier_message(domain: Seq<char>, identifier: Seq<char>) -> Seq<char> {
    if identifier.len() == 0 {
        domain + " name is empty"@
    } else {
        domain + " name "@ + debug_quoted(identifier) + " is not lower snake case"@
    }
}

/// The diagnostic for an identifier of `domain` which is not lower snake case.
pub(crate) fn identifier_error(domain: &str, identifier: &str) -> (e: Error)
    ensures
        e matches Error::InvalidSchema(m) && m@ == identifier_message(domain@, identifier@),
{
    if identifier.unicode_len() == 0 {
        Error::InvalidSchema(text2(domain, " name is empty"))
    } else {
        let quoted = debug_str(identifier);
        Error::InvalidSchema(text4(domain, " name ", quoted.as_str(), " is not lower snake case"))
    }
}

// ---------------------------------------------------------------------------
// Small membership helpers over the "already seen" prefixes of a scan.

/// Whether some element of `items` equals `s`.
pub(crate) fn contains_str(items: &Vec<&'static str>, s: &str) -> (r: bool)
    ensures
        r == (exists|k: int| 0 <= k < items@.len() && (#[trigger] items@[k])@ == s@),
{
    let mut k: usize = 0;
    while k < items.len()
        invariant
            k <= items@.len(),
            forall|j: int| 0 <= j < k ==> (#[trigger] items@[j])@ != s@,
        decreases items@.len() - k,
    {
        if str_eq(items[k], s) {
            return true;
        }
        k = k + 1;
    }
    false
}

/// Whether some element of `items` equals `v`.
pub(crate) fn contains_u64(items: &Vec<u64>, v: u64) -> (r: bool)
    ensures
        r == (exists|k: int| 0 <= k < items@.len() && #[trigger] items@[k] == v),
{
    let mut k: usize = 0;
    while k < items.len()
        invariant
            k <= items@.len(),
            forall|j: int| 0 <= j < k ==> #[trigger] items@[j] != v,
        decreases items@.len() - k,
    {
        if items[k] == v {
            return true;
        }
        k = k + 1;
    }
    false
}

// ---------------------------------------------------------------------------
// Features.

pub open spec fn feature_ok(f: Feature) -> bool {
    is_identifier(f.name@) && f.bit < 64
}

pub open spec fn features_valid(fs: Seq<Feature>) -> bool {
    &&& forall|i: int| 0 <= i < fs.len() ==> #[trigger] feature_ok(fs[i])
    &&& forall|i: int, j: int| 0 <= i < j < fs.len() ==> #[trigger] fs[i].bit != #[trigger] fs[j].bit
    &&& forall|i: int, j: int|
        0 <= i < j < fs.len() ==> (#[trigger] fs[i]).name@ != (#[trigger] fs[j]).name@
    &&& exists|i: int| 0 <= i < fs.len() && (#[trigger] fs[i]).name@ == "core"@
}

/// The diagnostic of feature `i`, given the features declared before it.
pub open spec fn feature_diagnostic(fs: Seq<Feature>, i: int) -> Option<Seq<char>> {
    let f = fs[i];
    if !is_identifier(f.name@) {
        Some(identifier_message("feature"@, f.name@))
    } else if f.bit >= 64 {
        Some("feature "@ + f.name@ + " uses bit "@ + dec(f.bit as nat) + " outside u64"@)
    } else if exists|k: int| 0 <= k < i && #[trigger] fs[k].bit == f.bit {
        Some("feature bit "@ + dec(f.bit as nat) + " is declared more than once"@)
    } else if exists|k: int| 0 <= k < i && (#[trigger] fs[k]).name@ == f.name@ {
        Some("feature "@ + f.name@ + " is declared more than once"@)
    } else {
        None
    }
}

/// The first diagnostic among the features from `i` on.
pub open spec fn features_diagnostic_from(fs: Seq<Feature>, i: int) -> Option<Seq<char>>
    decreases fs.len() - i,
{
    if 0 <= i < fs.len() {
        if feature_diagnostic(fs, i) is Some {
            feature_diagnostic(fs, i)
        } else {
            features_diagnostic_from(fs, i + 1)
        }
    } else {
        None
    }
}

/// The diagnostic of the feature rules: the first feature that breaks one,
/// else a missing core feature.
pub open spec fn features_diagnostic(fs: Seq<Feature>) -> Option<Seq<char>> {
    if features_diagnostic_from(fs, 0) is Some {
        features_diagnostic_from(fs, 0)
    } else if exists|k: int| 0 <= k < fs.len() && (#[trigger] fs[k]).name@ == "core"@ {
        None
    } else {
        Some("the core feature is missing"@)
    }
}

fn validate_features(schema: &AbiSchema) -> (r: Result<(), Error>)
    ensures
        r is Ok <==> features_valid(schema.features@),
        r is Ok ==> features_diagnostic(schema.features@) is None,
        r matches Err(e) ==> e matches Error::InvalidSchema(m) && features_diagnostic(
            schema.features@,
        ) == Some(m@),
{
    let fs = schema.features;
    let mut bits: Vec<u64> = Vec::new();
    let mut names: Vec<&'static str> = Vec::new();
    let mut i: usize = 0;
    while i < fs.len()
        invariant
            fs@ == schema.features@,
            i <= fs@.len(),
            bits@.len() == i,
            names@.len() == i,
            forall|k: int| 0 <= k < i ==> #[trigger] bits@[k] == fs@[k].bit as u64,
            forall|k: int| 0 <= k < i ==> (#[trigger] names@[k])@ == fs@[k].name@,
            forall|k: int| 0 <= k < i ==> #[trigger] feature_ok(fs@[k]),
            forall|a: int, b: int| 0 <= a < b < i ==> #[trigger] fs@[a].bit != #[trigger] fs@[b].bit,
            forall|a: int, b: int|
                0 <= a < b < i ==> (#[trigger] fs@[a]).name@ != (#[trigger] fs@[b]).name@,
            features_diagnostic_from(fs@, 0) == features_diagnostic_from(fs@, i as int),
        decreases fs@.len() - i,
    {
        let feature = fs[i];
        if !check_identifier(feature.name) {
            assert(!feature_ok(fs@[i as int]));
            return Err(identifier_error("feature", feature.name));
        }
        if feature.bit >= 64 {
            assert(!feature_ok(fs@[i as int]));
            let mut m = text3("feature ", feature.name, " uses bit ");
            push_dec(&mut m, feature.bit as u64);
            push_str(&mut m, " outside u64");
            return invalid(m);
        }
        if contains_u64(&bits, feature.bit as u64) {
            proof {
                let k = choose|k: int| 0 <= k < bits@.len() && #[trigger] bits@[k] == feature.bit as u64;
                assert(fs@[k].bit == fs@[i as int].bit);
            }
            let mut m = String::from_str("feature bit ");
            push_dec(&mut m, feature.bit as u64);
            push_str(&mut m, " is declared more than once");
            return invalid(m);
        }
        if contains_str(&names, feature.name) {
            proof {
                let k = choose|k: int| 0 <= k < names@.len() && (#[trigger] names@[k])@ == feature.name@;
                assert(fs@[k].name@ == fs@[i as int].name@);
                assert forall|j: int| 0 <= j < i implies fs@[j].bit != feature.bit by {
                    assert(bits@[j] == fs@[j].bit as u64);
                }
            }
            return invalid(text3("feature ", feature.name, " is declared more than once"));
        }
        assert forall|a: int| 0 <= a < i implies fs@[a].bit != fs@[i as int].bit && fs@[a].name@
            != fs@[i as int].name@ by {
            assert(bits@[a] == fs@[a].bit as u64);
            assert(names@[a]@ == fs@[a].name@);
        }
        assert(feature_diagnostic(fs@, i as int) is None);
        bits.push(feature.bit as u64);
        names.push(feature.name);
        i = i + 1;
    }
    if !contains_str(&names, "core") {
        assert forall|k: int| 0 <= k < fs@.len() implies (#[trigger] fs@[k]).name@ != "core"@ by {
            assert(names@[k]@ == fs@[k].name@);
        }
        return invalid(String::from_str("the core feature is missing"));
    }
    Ok(())
}


/// Whether some element of `items` equals `v`.
pub(crate) fn contains_i64(items: &Vec<i64>, v: i64) -> (r: bool)
    ensures
        r == (exists|k: int| 0 <= k < items@.len() && #[trigger] items@[k] == v),
{
    let mut k: usize = 0;
    while k < items.len()
        invariant
            k <= items@.len(),
            forall|j: int| 0 <= j < k ==> #[trigger] items@[j] != v,
        decreases items@.len() - k,
    {
        if items[k] == v {
            return true;
        }
        k = k + 1;
    }
    false
}

// ---------------------------------------------------------------------------
// Statuses.

pub open spec fn status_ok(s: Status) -> bool {
    is_identifier(s.name@) && s.value <= 0
}

pub open spec fn statuses_valid(ss: Seq<Status>) -> bool {
    &&& forall|i: int| 0 <= i < ss.len() ==> #[trigger] status_ok(ss[i])
    &&& forall|i: int, j: int|
        0 <= i < j < ss.len() ==> #[trigger] ss[i].value != #[trigger] ss[j].value
    &&& forall|i: int, j: int|
        0 <= i < j < ss.len() ==> (#[trigger] ss[i]).name@ != (#[trigger] ss[j]).name@
    &&& exists|i: int|
        0 <= i < ss.len() && (#[trigger] ss[i]).name@ == "ok"@ && ss[i].value == 0
}

/// The diagnostic of status `i`, given the statuses declared before it.
pub open spec fn status_diagnostic(ss: Seq<Status>, i: int) -> Option<Seq<char>> {
    let s = ss[i];
    if !is_identifier(s.name@) {
        Some(identifier_message("status"@, s.name@))
    } else if s.value > 0 {
        Some("status "@ + s.name@ + " uses positive value "@ + dec_signed(s.value as int))
    } else if exists|k: int| 0 <= k < i && #[trigger] ss[k].value == s.value {
        Some("status value "@ + dec_signed(s.value as int) + " is declared more than once"@)
    } else if exists|k: int| 0 <= k < i && (#[trigger] ss[k]).name@ == s.name@ {
        Some("status "@ + s.name@ + " is declared more than once"@)
    } else {
        None
    }
}

/// The first diagnostic among the statuses from `i` on.
pub open spec fn statuses_diagnostic_from(ss: Seq<Status>, i: int) -> Option<Seq<char>>
    decreases ss.len() - i,
{
    if 0 <= i < ss.len() {
        if status_diagnostic(ss, i) is Some {
            status_diagnostic(ss, i)
        } else {
            statuses_diagnostic_from(ss, i + 1)
        }
    } else {
        None
    }
}

/// The diagnostic of the `ok` status found from `k` on: it must keep value
/// zero, and it must exist.
pub open spec fn ok_status_diagnostic_from(ss: Seq<Status>, k: int) -> Option<Seq<char>>
    decreases ss.len() - k,
{
    if 0 <= k < ss.len() {
        if ss[k].name@ == "ok"@ {
            if ss[k].value == 0 {
                None
            } else {
                Some("the ok status must retain value zero"@)
            }
        } else {
            ok_status_diagnostic_from(ss, k + 1)
        }
    } else {
        Some("the ok status is missing"@)
    }
}

/// The diagnostic of the status rules.
pub open spec fn statuses_diagnostic(ss: Seq<Status>) -> Option<Seq<char>> {
    if statuses_diagnostic_from(ss, 0) is Some {
        statuses_diagnostic_from(ss, 0)
    } else {
        ok_status_diagnostic_from(ss, 0)
    }
}

#[verifier::loop_isolation(false)]
fn validate_statuses(schema: &AbiSchema) -> (r: Result<(), Error>)
    ensures
        r is Ok <==> statuses_valid(schema.statuses@),
        r is Ok ==> statuses_diagnostic(schema.statuses@) is None,
        r matches Err(e) ==> e matches Error::InvalidSchema(m) && statuses_diagnostic(
            schema.statuses@,
        ) == Some(m@),
{
    let ss = schema.statuses;
    let mut values: Vec<i64> = Vec::new();
    let mut names: Vec<&'static str> = Vec::new();
    let mut i: usize = 0;
    while i < ss.len()
        invariant
            ss@ == schema.statuses@,
            i <= ss@.len(),
            values@.len() == i,
            names@.len() == i,
            forall|k: int| 0 <= k < i ==> #[trigger] values@[k] == ss@[k].value,
            forall|k: int| 0 <= k < i ==> (#[trigger] names@[k])@ == ss@[k].name@,
            forall|k: int| 0 <= k < i ==> #[trigger] status_ok(ss@[k]),
            forall|a: int, b: int|
                0 <= a < b < i ==> #[trigger] ss@[a].value != #[trigger] ss@[b].value,
            forall|a: int, b: int|
                0 <= a < b < i ==> (#[trigger] ss@[a]).name@ != (#[trigger] ss@[b]).name@,
            statuses_diagnostic_from(ss@, 0) == statuses_diagnostic_from(ss@, i as int),
        decreases ss@.len() - i,
    {
        let status = ss[i];
        if !check_identifier(status.name) {
            assert(!status_ok(ss@[i as int]));
            return Err(identifier_error("status", status.name));
        }
        if status.value > 0 {
            assert(!status_ok(ss@[i as int]));
            let mut m = text3("status ", status.name, " uses positive value ");
            push_dec_signed(&mut m, status.value);
            return invalid(m);
        }
        if contains_i64(&values, status.value) {
            proof {
                let k = choose|k: int| 0 <= k < values@.len() && #[trigger] values@[k] == status.value;
                assert(ss@[k].value == ss@[i as int].value);
            }
            let mut m = String::from_str("status value ");
            push_dec_signed(&mut m, status.value);
            push_str(&mut m, " is declared more than once");
            return invalid(m);
        }
        if contains_str(&names, status.name) {
            proof {
                let k = choose|k: int| 0 <= k < names@.len() && (#[trigger] names@[k])@ == status.name@;
                assert(ss@[k].name@ == ss@[i as int].name@);
                assert forall|j: int| 0 <= j < i implies ss@[j].value != status.value by {
                    assert(values@[j] == ss@[j].value);
                }
            }
            return invalid(text3("status ", status.name, " is declared more than once"));
        }
        assert forall|a: int| 0 <= a < i implies ss@[a].value != ss@[i as int].value && ss@[a].name@
            != ss@[i as int].name@ by {
            assert(values@[a] == ss@[a].value);
            assert(names@[a]@ == ss@[a].name@);
        }
        assert(status_diagnostic(ss@, i as int) is None);
        values.push(status.value);
        names.push(status.name);
        i = i + 1;
    }
    let mut k: usize = 0;
    while k < ss.len()
        invariant
            ss@ == schema.statuses@,
            k <= ss@.len(),
            forall|j: int| 0 <= j < k ==> (#[trigger] ss@[j]).name@ != "ok"@,
            statuses_diagnostic_from(ss@, 0) is None,
            ok_status_diagnostic_from(ss@, 0) == ok_status_diagnostic_from(ss@, k as int),
        decreases ss@.len() - k,
    {
        if str_eq(ss[k].name, "ok") {
            if ss[k].value == 0 {
                return Ok(());
            }
            assert forall|j: int| 0 <= j < ss@.len() && (#[trigger] ss@[j]).name@ == "ok"@ implies ss@[j].value
                != 0 by {
                if j != k {
                    if j < k {
                    } else {
                        assert(ss@[k as int].name@ != ss@[j].name@);
                    }
                }
            }
            return invalid(String::from_str("the ok status must retain value zero"));
        }
        k = k + 1;
    }
    invalid(String::from_str("the ok status is missing"))
}

// ---------------------------------------------------------------------------
// Object kinds.

pub open spec fn object_kinds_valid(os: Seq<ObjectKind>) -> bool {
    &&& forall|i: int| 0 <= i < os.len() ==> is_identifier((#[trigger] os[i]).name@)
    &&& forall|i: int, j: int|
        0 <= i < j < os.len() ==> #[trigger] os[i].value != #[trigger] os[j].value
    &&& forall|i: int, j: int|
        0 <= i < j < os.len() ==> (#[trigger] os[i]).name@ != (#[trigger] os[j]).name@
    &&& exists|i: int|
        0 <= i < os.len() && (#[trigger] os[i]).name@ == "none"@ && os[i].value == 0
            && os[i].transfer == TransferClass::Forbidden
}

/// The diagnostic of object kind `i`, given the kinds declared before it.
pub open spec fn object_kind_diagnostic(os: Seq<ObjectKind>, i: int) -> Option<Seq<char>> {
    let o = os[i];
    if !is_identifier(o.name@) {
        Some(identifier_message("object kind"@, o.name@))
    } else if exists|k: int| 0 <= k < i && #[trigger] os[k].value == o.value {
        Some("object-kind value "@ + dec(o.value as nat) + " is declared more than once"@)
    } else if exists|k: int| 0 <= k < i && (#[trigger] os[k]).name@ == o.name@ {
        Some("object kind "@ + o.name@ + " is declared more than once"@)
    } else {
        None
    }
}

/// The first diagnostic among the object kinds from `i` on.
pub open spec fn object_kinds_diagnostic_from(os: Seq<ObjectKind>, i: int) -> Option<Seq<char>>
    decreases os.len() - i,
{
    if 0 <= i < os.len() {
        if object_kind_diagnostic(os, i) is Some {
            object_kind_diagnostic(os, i)
        } else {
            object_kinds_diagnostic_from(os, i + 1)
        }
    } else {
        None
    }
}

/// The diagnostic of the `none` object kind found from `k` on.
pub open spec fn none_kind_diagnostic_from(os: Seq<ObjectKind>, k: int) -> Option<Seq<char>>
    decreases os.len() - k,
{
    if 0 <= k < os.len() {
        if os[k].name@ == "none"@ {
            if os[k].value == 0 && os[k].transfer == TransferClass::Forbidden {
                None
            } else {
                Some("the none object kind must retain reserved value zero and forbidden transfer"@)
            }
        } else {
            none_kind_diagnostic_from(os, k + 1)
        }
    } else {
        Some("the reserved none object kind is missing"@)
    }
}

/// The diagnostic of the object-kind rules.
pub open spec fn object_kinds_diagnostic(os: Seq<ObjectKind>) -> Option<Seq<char>> {
    if object_kinds_diagnostic_from(os, 0) is Some {
        object_kinds_diagnostic_from(os, 0)
    } else {
        none_kind_diagnostic_from(os, 0)
    }
}

#[verifier::loop_isolation(false)]
fn validate_object_kinds(schema: &AbiSchema) -> (r: Result<(), Error>)
    ensures
        r is Ok <==> object_kinds_valid(schema.object_kinds@),
        r is Ok ==> object_kinds_diagnostic(schema.object_kinds@) is None,
        r matches Err(e) ==> e matches Error::InvalidSchema(m) && object_kinds_diagnostic(
            schema.object_kinds@,
        ) == Some(m@),
{
    let os = schema.object_kinds;
    let mut values: Vec<u64> = Vec::new();
    let mut names: Vec<&'static str> = Vec::new();
    let mut i: usize = 0;
    while i < os.len()
        invariant
            os@ == schema.object_kinds@,
            i <= os@.len(),
            values@.len() == i,
            names@.len() == i,
            forall|k: int| 0 <= k < i ==> #[trigger] values@[k] == os@[k].value as u64,
            forall|k: int| 0 <= k < i ==> (#[trigger] names@[k])@ == os@[k].name@,
            forall|k: int| 0 <= k < i ==> is_identifier((#[trigger] os@[k]).name@),
            forall|a: int, b: int|
                0 <= a < b < i ==> #[trigger] os@[a].value != #[trigger] os@[b].value,
            forall|a: int, b: int|
                0 <= a < b < i ==> (#[trigger] os@[a]).name@ != (#[trigger] os@[b]).name@,
            object_kinds_diagnostic_from(os@, 0) == object_kinds_diagnostic_from(os@, i as int),
        decreases os@.len() - i,
    {
        let object = os[i];
        if !check_identifier(object.name) {
            return Err(identifier_error("object kind", object.name));
        }
        if contains_u64(&values, object.value as u64) {
            proof {
                let k = choose|k: int|
                    0 <= k < values@.len() && #[trigger] values@[k] == object.value as u64;
                assert(os@[k].value == os@[i as int].value);
            }
            let mut m = String::from_str("object-kind value ");
            push_dec(&mut m, object.value as u64);
            push_str(&mut m, " is declared more than once");
            return invalid(m);
        }
        if contains_str(&names, object.name) {
            proof {
                let k = choose|k: int| 0 <= k < names@.len() && (#[trigger] names@[k])@ == object.name@;
                assert(os@[k].name@ == os@[i as int].name@);
                assert forall|j: int| 0 <= j < i implies os@[j].value != object.value by {
                    assert(values@[j] == os@[j].value as u64);
                }
            }
            return invalid(text3("object kind ", object.name, " is declared more than once"));
        }
        assert forall|a: int| 0 <= a < i implies os@[a].value != os@[i as int].value && os@[a].name@
            != os@[i as int].name@ by {
            assert(values@[a] == os@[a].value as u64);
            assert(names@[a]@ == os@[a].name@);
        }
        assert(object_kind_diagnostic(os@, i as int) is None);
        values.push(object.value as u64);
        names.push(object.name);
        i = i + 1;
    }
    let mut k: usize = 0;
    while k < os.len()
        invariant
            os@ == schema.object_kinds@,
            k <= os@.len(),
            forall|j: int| 0 <= j < k ==> (#[trigger] os@[j]).name@ != "none"@,
            object_kinds_diagnostic_from(os@, 0) is None,
            none_kind_diagnostic_from(os@, 0) == none_kind_diagnostic_from(os@, k as int),
        decreases os@.len() - k,
    {
        if str_eq(os[k].name, "none") {
            if os[k].value == 0 && matches!(os[k].transfer, TransferClass::Forbidden) {
                return Ok(());
            }
            assert forall|j: int| 0 <= j < os@.len() && (#[trigger] os@[j]).name@ == "none"@ implies !(
            os@[j].value == 0 && os@[j].transfer == TransferClass::Forbidden) by {
                if j != k {
                    if j > k {
                        assert(os@[k as int].name@ != os@[j].name@);
                    }
                }
            }
            return invalid(
                String::from_str(
                    "the none object kind must retain reserved value zero and forbidden transfer",
                ),
            );
        }
        k = k + 1;
    }
    invalid(String::from_str("the reserved none object kind is missing"))
}

// ---------------------------------------------------------------------------
// Rights.

pub open spec fn right_ok(r: Right) -> bool {
    is_identifier(r.name@) && r.bit < 64
}

pub open spec fn rights_valid(rs: Seq<Right>) -> bool {
    &&& forall|i: int| 0 <= i < rs.len() ==> #[trigger] right_ok(rs[i])
    &&& forall|i: int, j: int| 0 <= i < j < rs.len() ==> #[trigger] rs[i].bit != #[trigger] rs[j].bit
    &&& forall|i: int, j: int|
        0 <= i < j < rs.len() ==> (#[trigger] rs[i]).name@ != (#[trigger] rs[j]).name@
}

/// Union of the single-bit masks of every declared right.
pub open spec fn rights_mask(rs: Seq<Right>) -> u64
    decreases rs.len(),
{
    if rs.len() == 0 {
        0
    } else {
        rights_mask(rs.drop_last()) | (1u64 << rs.last().bit)
    }
}

proof fn lemma_or_single_bit(m: u64, c: u64, b: u64)
    requires
        c < 64,
        b < 64,
    ensures
        ((m | (1u64 << c)) >> b) & 1 == 1 <==> ((m >> b) & 1 == 1 || b == c),
{
    assert(((m | (1u64 << c)) >> b) & 1 == 1 <==> ((m >> b) & 1 == 1 || b == c)) by (bit_vector)
        requires
            c < 64,
            b < 64,
    ;
}

/// The rights mask holds exactly the declared rights: for rights that each
/// name a bit below 64, bit `b` of the mask is set exactly when some
/// declared right uses bit `b`.
pub proof fn rights_mask_holds_exactly_the_declared_bits(rs: Seq<Right>, b: u64)
    requires
        b < 64,
        forall|i: int| 0 <= i < rs.len() ==> (#[trigger] rs[i]).bit < 64,
    ensures
        (rights_mask(rs) >> b) & 1 == 1 <==> exists|i: int| 0 <= i < rs.len() && (#[trigger] rs[i]).bit
            == b,
    decreases rs.len(),
{
    if rs.len() == 0 {
        assert((0u64 >> b) & 1 == 0) by (bit_vector);
    } else {
        let rest = rs.drop_last();
        assert forall|i: int| 0 <= i < rest.len() implies (#[trigger] rest[i]).bit < 64 by {
            assert(rest[i] == rs[i]);
        }
        rights_mask_holds_exactly_the_declared_bits(rest, b);
        lemma_or_single_bit(rights_mask(rest), rs.last().bit as u64, b);
        if exists|i: int| 0 <= i < rs.len() && (#[trigger] rs[i]).bit == b {
            let i = choose|i: int| 0 <= i < rs.len() && (#[trigger] rs[i]).bit == b;
            if i < rest.len() {
                assert(rest[i] == rs[i]);
            }
        }
        if exists|i: int| 0 <= i < rest.len() && (#[trigger] rest[i]).bit == b {
            let i = choose|i: int| 0 <= i < rest.len() && (#[trigger] rest[i]).bit == b;
            assert(rs[i] == rest[i]);
        }
    }
}

/// The diagnostic of right `i`, given the rights declared before it.
pub open spec fn right_diagnostic(rs: Seq<Right>, i: int) -> Option<Seq<char>> {
    let r = rs[i];
    if !is_identifier(r.name@) {
        Some(identifier_message("right"@, r.name@))
    } else if r.bit >= 64 {
        Some("right "@ + r.name@ + " uses bit "@ + dec(r.bit as nat) + " outside u64"@)
    } else if exists|k: int| 0 <= k < i && #[trigger] rs[k].bit == r.bit {
        Some("right bit "@ + dec(r.bit as nat) + " is declared more than once"@)
    } else if exists|k: int| 0 <= k < i && (#[trigger] rs[k]).name@ == r.name@ {
        Some("right "@ + r.name@ + " is declared more than once"@)
    } else {
        None
    }
}

/// The diagnostic of the right rules: the first right that breaks one.
pub open spec fn rights_diagnostic_from(rs: Seq<Right>, i: int) -> Option<Seq<char>>
    decreases rs.len() - i,
{
    if 0 <= i < rs.len() {
        if right_diagnostic(rs, i) is Some {
            right_diagnostic(rs, i)
        } else {
            rights_diagnostic_from(rs, i + 1)
        }
    } else {
        None
    }
}

fn validate_rights(schema: &AbiSchema) -> (r: Result<u64, Error>)
    ensures
        r is Ok <==> rights_valid(schema.rights@),
        r matches Ok(mask) ==> mask == rights_mask(schema.rights@),
        r is Ok ==> rights_diagnostic_from(schema.rights@, 0) is None,
        r matches Err(e) ==> e matches Error::InvalidSchema(m) && rights_diagnostic_from(
            schema.rights@,
            0,
        ) == Some(m@),
{
    let rs = schema.rights;
    let mut bits: Vec<u64> = Vec::new();
    let mut names: Vec<&'static str> = Vec::new();
    let mut mask: u64 = 0;
    let mut i: usize = 0;
    while i < rs.len()
        invariant
            rs@ == schema.rights@,
            i <= rs@.len(),
            bits@.len() == i,
            names@.len() == i,
            mask == rights_mask(rs@.take(i as int)),
            forall|k: int| 0 <= k < i ==> #[trigger] bits@[k] == rs@[k].bit as u64,
            forall|k: int| 0 <= k < i ==> (#[trigger] names@[k])@ == rs@[k].name@,
            forall|k: int| 0 <= k < i ==> #[trigger] right_ok(rs@[k]),
            forall|a: int, b: int| 0 <= a < b < i ==> #[trigger] rs@[a].bit != #[trigger] rs@[b].bit,
            forall|a: int, b: int|
                0 <= a < b < i ==> (#[trigger] rs@[a]).name@ != (#[trigger] rs@[b]).name@,
            rights_diagnostic_from(rs@, 0) == rights_diagnostic_from(rs@, i as int),
        decreases rs@.len() - i,
    {
        let right = rs[i];
        if !check_identifier(right.name) {
            assert(!right_ok(rs@[i as int]));
            return Err(identifier_error("right", right.name));
        }
        if right.bit >= 64 {
            assert(!right_ok(rs@[i as int]));
            let mut m = text3("right ", right.name, " uses bit ");
            push_dec(&mut m, right.bit as u64);
            push_str(&mut m, " outside u64");
            return invalid(m);
        }
        if contains_u64(&bits, right.bit as u64) {
            proof {
                let k = choose|k: int| 0 <= k < bits@.len() && #[trigger] bits@[k] == right.bit as u64;
                assert(rs@[k].bit == rs@[i as int].bit);
            }
            let mut m = String::from_str("right bit ");
            push_dec(&mut m, right.bit as u64);
            push_str(&mut m, " is declared more than once");
            return invalid(m);
        }
        if contains_str(&names, right.name) {
            proof {
                let k = choose|k: int| 0 <= k < names@.len() && (#[trigger] names@[k])@ == right.name@;
                assert(rs@[k].name@ == rs@[i as int].name@);
                assert forall|j: int| 0 <= j < i implies rs@[j].bit != right.bit by {
                    assert(bits@[j] == rs@[j].bit as u64);
                }
            }
            return invalid(text3("right ", right.name, " is declared more than once"));
        }
        assert forall|a: int| 0 <= a < i implies rs@[a].bit != rs@[i as int].bit && rs@[a].name@
            != rs@[i as int].name@ by {
            assert(bits@[a] == rs@[a].bit as u64);
            assert(names@[a]@ == rs@[a].name@);
        }
        assert(rs@.take(i + 1).drop_last() == rs@.take(i as int));
        assert(right_diagnostic(rs@, i as int) is None);
        mask = mask | (1u64 << right.bit);
        bits.push(right.bit as u64);
        names.push(right.name);
        i = i + 1;
    }
    assert(rs@.take(rs@.len() as int) == rs@);
    Ok(mask)
}

// ---------------------------------------------------------------------------
// Signals.

pub open spec fn names_object_kind(os: Seq<ObjectKind>, name: Seq<char>) -> bool {
    exists|k: int| 0 <= k < os.len() && (#[trigger] os[k]).name@ == name
}

pub open spec fn signal_ok(s: Signal, os: Seq<ObjectKind>) -> bool {
    &&& is_identifier(s.object@)
    &&& is_identifier(s.name@)
    &&& s.bit < 64
    &&& s.object@ != "none"@
    &&& names_object_kind(os, s.object@)
}

pub open spec fn signals_valid(ss: Seq<Signal>, os: Seq<ObjectKind>) -> bool {
    &&& forall|i: int| 0 <= i < ss.len() ==> #[trigger] signal_ok(ss[i], os)
    &&& forall|i: int, j: int|
        0 <= i < j < ss.len() ==> !((#[trigger] ss[i]).object@ == (#[trigger] ss[j]).object@
            && ss[i].name@ == ss[j].name@)
    &&& forall|i: int, j: int|
        0 <= i < j < ss.len() ==> !((#[trigger] ss[i]).object@ == (#[trigger] ss[j]).object@
            && ss[i].bit == ss[j].bit)
}

/// Whether some object kind other than `none` carries `name`.
pub(crate) fn find_object_kind(os: &'static [ObjectKind], name: &str) -> (r: bool)
    ensures
        r == (exists|k: int| 0 <= k < os@.len() && (#[trigger] os@[k]).name@ == name@),
{
    let mut k: usize = 0;
    while k < os.len()
        invariant
            k <= os@.len(),
            forall|j: int| 0 <= j < k ==> (#[trigger] os@[j]).name@ != name@,
        decreases os@.len() - k,
    {
        if str_eq(os[k].name, name) {
            return true;
        }
        k = k + 1;
    }
    false
}

/// The diagnostic of a signal of the same object as signal `i` found among
/// the signals `k..i`: a repeated name, else a repeated bit.
pub open spec fn signal_repeat_from(ss: Seq<Signal>, i: int, k: int) -> Option<Seq<char>>
    decreases i - k,
{
    if 0 <= k < i {
        let s = ss[i];
        let o = ss[k];
        if o.object@ == s.object@ && o.name@ == s.name@ {
            Some("signal "@ + s.object@ + "."@ + s.name@ + " is declared more than once"@)
        } else if o.object@ == s.object@ && o.bit == s.bit {
            Some(
                "signal bit "@ + dec(s.bit as nat) + " is declared more than once for "@
                    + s.object@,
            )
        } else {
            signal_repeat_from(ss, i, k + 1)
        }
    } else {
        None
    }
}

/// The diagnostic of signal `i`, given the signals declared before it.
pub open spec fn signal_diagnostic(ss: Seq<Signal>, os: Seq<ObjectKind>, i: int) -> Option<
    Seq<char>,
> {
    let s = ss[i];
    if !is_identifier(s.object@) {
        Some(identifier_message("signal object"@, s.object@))
    } else if !is_identifier(s.name@) {
        Some(identifier_message("signal"@, s.name@))
    } else if s.bit >= 64 {
        Some("signal "@ + s.object@ + "."@ + s.name@ + " uses bit "@ + dec(s.bit as nat) + " outside u64"@)
    } else if s.object@ == "none"@ || !names_object_kind(os, s.object@) {
        Some("signal "@ + s.object@ + "."@ + s.name@ + " names unknown object kind"@)
    } else {
        signal_repeat_from(ss, i, 0)
    }
}

/// The diagnostic of the signal rules: the first signal that breaks one.
pub open spec fn signals_diagnostic_from(ss: Seq<Signal>, os: Seq<ObjectKind>, i: int) -> Option<
    Seq<char>,
>
    decreases ss.len() - i,
{
    if 0 <= i < ss.len() {
        if signal_diagnostic(ss, os, i) is Some {
            signal_diagnostic(ss, os, i)
        } else {
            signals_diagnostic_from(ss, os, i + 1)
        }
    } else {
        None
    }
}

fn validate_signals(schema: &AbiSchema) -> (r: Result<(), Error>)
    ensures
        r is Ok <==> signals_valid(schema.signals@, schema.object_kinds@),
        r is Ok ==> signals_diagnostic_from(schema.signals@, schema.object_kinds@, 0) is None,
        r matches Err(e) ==> e matches Error::InvalidSchema(m) && signals_diagnostic_from(
            schema.signals@,
            schema.object_kinds@,
            0,
        ) == Some(m@),
{
    let ss = schema.signals;
    let mut i: usize = 0;
    while i < ss.len()
        invariant
            ss@ == schema.signals@,
            i <= ss@.len(),
            forall|k: int| 0 <= k < i ==> #[trigger] signal_ok(ss@[k], schema.object_kinds@),
            forall|a: int, b: int|
                0 <= a < b < i ==> !((#[trigger] ss@[a]).object@ == (#[trigger] ss@[b]).object@
                    && ss@[a].name@ == ss@[b].name@),
            forall|a: int, b: int|
                0 <= a < b < i ==> !((#[trigger] ss@[a]).object@ == (#[trigger] ss@[b]).object@
                    && ss@[a].bit == ss@[b].bit),
            signals_diagnostic_from(ss@, schema.object_kinds@, 0) == signals_diagnostic_from(
                ss@,
                schema.object_kinds@,
                i as int,
            ),
        decreases ss@.len() - i,
    {
        let signal = ss[i];
        if !check_identifier(signal.object) {
            assert(!signal_ok(ss@[i as int], schema.object_kinds@));
            return Err(identifier_error("signal object", signal.object));
        }
        if !check_identifier(signal.name) {
            assert(!signal_ok(ss@[i as int], schema.object_kinds@));
            return Err(identifier_error("signal", signal.name));
        }
        if signal.bit >= 64 {
            assert(!signal_ok(ss@[i as int], schema.object_kinds@));
            let mut m = text5("signal ", signal.object, ".", signal.name, " uses bit ");
            push_dec(&mut m, signal.bit as u64);
            push_str(&mut m, " outside u64");
            return invalid(m);
        }
        if str_eq(signal.object, "none") || !find_object_kind(schema.object_kinds, signal.object) {
            assert(!signal_ok(ss@[i as int], schema.object_kinds@));
            return invalid(text5("signal ", signal.object, ".", signal.name, " names unknown object kind"));
        }
        let mut k: usize = 0;
        while k < i
            invariant
                ss@ == schema.signals@,
                i < ss@.len(),
                signal == ss@[i as int],
                k <= i,
                forall|j: int| 0 <= j < k ==> !((#[trigger] ss@[j]).object@ == signal.object@
                    && ss@[j].name@ == signal.name@),
                forall|j: int| 0 <= j < k ==> !((#[trigger] ss@[j]).object@ == signal.object@
                    && ss@[j].bit == signal.bit),
                signal_repeat_from(ss@, i as int, 0) == signal_repeat_from(ss@, i as int, k as int),
                signal_diagnostic(ss@, schema.object_kinds@, i as int) == signal_repeat_from(
                    ss@,
                    i as int,
                    0,
                ),
                signals_diagnostic_from(ss@, schema.object_kinds@, 0) == signals_diagnostic_from(
                    ss@,
                    schema.object_kinds@,
                    i as int,
                ),
            decreases i - k,
        {
            let other = ss[k];
            if str_eq(other.object, signal.object) {
                if str_eq(other.name, signal.name) {
                    return invalid(
                        text5("signal ", signal.object, ".", signal.name, " is declared more than once"),
                    );
                }
                if other.bit == signal.bit {
                    let mut m = String::from_str("signal bit ");
                    push_dec(&mut m, signal.bit as u64);
                    push_str(&mut m, " is declared more than once for ");
                    push_str(&mut m, signal.object);
                    return invalid(m);
                }
            }
            k = k + 1;
        }
        assert(signal_diagnostic(ss@, schema.object_kinds@, i as int) is None);
        i = i + 1;
    }
    Ok(())
}

// ---------------------------------------------------------------------------
// Free-form constants and semantic rules.

pub open spec fn constants_valid(cs: Seq<AbiConstant>) -> bool {
    &&& forall|i: int| 0 <= i < cs.len() ==> is_identifier((#[trigger] cs[i]).name@)
    &&& forall|i: int, j: int|
        0 <= i < j < cs.len() ==> (#[trigger] cs[i]).name@ != (#[trigger] cs[j]).name@
}

/// The diagnostic of constant `i`, given the constants declared before it.
pub open spec fn constant_diagnostic(cs: Seq<AbiConstant>, i: int) -> Option<Seq<char>> {
    let c = cs[i];
    if !is_identifier(c.name@) {
        Some(identifier_message("constant"@, c.name@))
    } else if exists|k: int| 0 <= k < i && (#[trigger] cs[k]).name@ == c.name@ {
        Some("constant "@ + c.name@ + " is declared more than once"@)
    } else {
        None
    }
}

/// The diagnostic of the constant rules: the first constant that breaks one.
pub open spec fn constants_diagnostic_from(cs: Seq<AbiConstant>, i: int) -> Option<Seq<char>>
    decreases cs.len() - i,
{
    if 0 <= i < cs.len() {
        if constant_diagnostic(cs, i) is Some {
            constant_diagnostic(cs, i)
        } else {
            constants_diagnostic_from(cs, i + 1)
        }
    } else {
        None
    }
}

fn validate_constants(schema: &AbiSchema) -> (r: Result<(), Error>)
    ensures
        r is Ok <==> constants_valid(schema.constants@),
        r is Ok ==> constants_diagnostic_from(schema.constants@, 0) is None,
        r matches Err(e) ==> e matches Error::InvalidSchema(m) && constants_diagnostic_from(
            schema.constants@,
            0,
        ) == Some(m@),
{
    let cs = schema.constants;
    let mut names: Vec<&'static str> = Vec::new();
    let mut i: usize = 0;
    while i < cs.len()
        invariant
            cs@ == schema.constants@,
            i <= cs@.len(),
            names@.len() == i,
            forall|k: int| 0 <= k < i ==> (#[trigger] names@[k])@ == cs@[k].name@,
            forall|k: int| 0 <= k < i ==> is_identifier((#[trigger] cs@[k]).name@),
            forall|a: int, b: int|
                0 <= a < b < i ==> (#[trigger] cs@[a]).name@ != (#[trigger] cs@[b]).name@,
            constants_diagnostic_from(cs@, 0) == constants_diagnostic_from(cs@, i as int),
        decreases cs@.len() - i,
    {
        let constant = cs[i];
        if !check_identifier(constant.name) {
            return Err(identifier_error("constant", constant.name));
        }
        if contains_str(&names, constant.name) {
            proof {
                let k = choose|k: int| 0 <= k < names@.len() && (#[trigger] names@[k])@ == constant.name@;
                assert(cs@[k].name@ == cs@[i as int].name@);
            }
            return invalid(text3("constant ", constant.name, " is declared more than once"));
        }
        assert forall|a: int| 0 <= a < i implies cs@[a].name@ != cs@[i as int].name@ by {
            assert(names@[a]@ == cs@[a].name@);
        }
        assert(constant_diagnostic(cs@, i as int) is None);
        names.push(constant.name);
        i = i + 1;
    }
    Ok(())
}

/// A semantic rule has at least one non-whitespace character.
pub open spec fn rule_ok(rule: Seq<char>) -> bool {
    exists|i: int| 0 <= i < rule.len() && !is_unicode_whitespace(#[trigger] rule[i])
}

pub open spec fn semantic_rules_valid(rules: Seq<&'static str>) -> bool {
    &&& forall|i: int| 0 <= i < rules.len() ==> #[trigger] rule_ok(rules[i]@)
    &&& forall|i: int, j: int|
        0 <= i < j < rules.len() ==> (#[trigger] rules[i])@ != (#[trigger] rules[j])@
}

/// The diagnostic of semantic rule `i`, given the rules before it.
pub open spec fn semantic_rule_diagnostic(rules: Seq<&'static str>, i: int) -> Option<Seq<char>> {
    if !rule_ok(rules[i]@) {
        Some("semantic rules must not be empty"@)
    } else if exists|k: int| 0 <= k < i && (#[trigger] rules[k])@ == rules[i]@ {
        Some("semantic rules must not be repeated"@)
    } else {
        None
    }
}

/// The diagnostic of the semantic-rule rules: the first rule that breaks one.
pub open spec fn semantic_rules_diagnostic_from(rules: Seq<&'static str>, i: int) -> Option<
    Seq<char>,
>
    decreases rules.len() - i,
{
    if 0 <= i < rules.len() {
        if semantic_rule_diagnostic(rules, i) is Some {
            semantic_rule_diagnostic(rules, i)
        } else {
            semantic_rules_diagnostic_from(rules, i + 1)
        }
    } else {
        None
    }
}

fn validate_semantic_rules(schema: &AbiSchema) -> (r: Result<(), Error>)
    ensures
        r is Ok <==> semantic_rules_valid(schema.semantic_rules@),
        r is Ok ==> semantic_rules_diagnostic_from(schema.semantic_rules@, 0) is None,
        r matches Err(e) ==> e matches Error::InvalidSchema(m) && semantic_rules_diagnostic_from(
            schema.semantic_rules@,
            0,
        ) == Some(m@),
{
    let rules = schema.semantic_rules;
    let mut seen: Vec<&'static str> = Vec::new();
    let mut i: usize = 0;
    while i < rules.len()
        invariant
            rules@ == schema.semantic_rules@,
            i <= rules@.len(),
            seen@.len() == i,
            forall|k: int| 0 <= k < i ==> (#[trigger] seen@[k])@ == rules@[k]@,
            forall|k: int| 0 <= k < i ==> #[trigger] rule_ok(rules@[k]@),
            forall|a: int, b: int| 0 <= a < b < i ==> (#[trigger] rules@[a])@ != (#[trigger] rules@[b])@,
            semantic_rules_diagnostic_from(rules@, 0) == semantic_rules_diagnostic_from(
                rules@,
                i as int,
            ),
        decreases rules@.len() - i,
    {
        let rule = rules[i];
        if is_blank(rule) {
            assert(!rule_ok(rules@[i as int]@));
            return invalid(String::from_str("semantic rules must not be empty"));
        }
        if contains_str(&seen, rule) {
            proof {
                let k = choose|k: int| 0 <= k < seen@.len() && (#[trigger] seen@[k])@ == rule@;
                assert(rules@[k]@ == rules@[i as int]@);
            }
            return invalid(String::from_str("semantic rules must not be repeated"));
        }
        assert forall|a: int| 0 <= a < i implies rules@[a]@ != rules@[i as int]@ by {
            assert(seen@[a]@ == rules@[a]@);
        }
        assert(semantic_rule_diagnostic(rules@, i as int) is None);
        seen.push(rule);
        i = i + 1;
    }
    Ok(())
}


// ---------------------------------------------------------------------------
// Records.

/// First byte after one field.
pub open spec fn field_end(f: Field) -> int {
    f.offset + field_size(f.kind)
}

/// End of the field preceding index `i` (zero for the first field).
pub open spec fn previous_end(fields: Seq<Field>, i: int) -> int {
    if i == 0 {
        0
    } else {
        field_end(fields[i - 1])
    }
}

pub open spec fn field_ok(record: Record, fields: Seq<Field>, i: int) -> bool {
    let f = fields[i];
    &&& is_identifier(f.name@)
    &&& f.kind != FieldKind::Bytes(0)
    &&& f.offset >= previous_end(fields, i)
    &&& f.offset % (field_alignment(f.kind) as u16) == 0
    &&& field_end(f) <= record.size
}

/// Largest field alignment, at least one.
pub open spec fn rendered_alignment(fields: Seq<Field>) -> u8
    decreases fields.len(),
{
    if fields.len() == 0 {
        1
    } else {
        let rest = rendered_alignment(fields.drop_last());
        let a = field_alignment(fields.last().kind);
        if rest >= a {
            rest
        } else {
            a
        }
    }
}

pub open spec fn record_ok(r: Record) -> bool {
    let fields = r.fields@;
    &&& is_identifier(r.name@)
    &&& (r.alignment == 1 || r.alignment == 2 || r.alignment == 4 || r.alignment == 8)
    &&& r.size != 0
    &&& r.alignment <= r.size
    &&& r.size % (r.alignment as u16) == 0
    &&& forall|i: int| 0 <= i < fields.len() ==> #[trigger] field_ok(r, fields, i)
    &&& forall|i: int, j: int|
        0 <= i < j < fields.len() ==> (#[trigger] fields[i]).name@ != (#[trigger] fields[j]).name@
    &&& r.alignment == rendered_alignment(fields)
}

pub open spec fn records_valid(rs: Seq<Record>) -> bool {
    &&& forall|i: int| 0 <= i < rs.len() ==> #[trigger] record_ok(rs[i])
    &&& forall|i: int, j: int|
        0 <= i < j < rs.len() ==> (#[trigger] rs[i]).name@ != (#[trigger] rs[j]).name@
}

fn is_empty_bytes(kind: FieldKind) -> (r: bool)
    ensures
        r == (kind == FieldKind::Bytes(0)),
{
    match kind {
        FieldKind::Bytes(n) => n == 0,
        _ => false,
    }
}

/// The diagnostic of field `i` of `record`, given the fields before it.
pub open spec fn field_diagnostic(record: Record, fields: Seq<Field>, i: int) -> Option<Seq<char>> {
    let f = fields[i];
    if !is_identifier(f.name@) {
        Some(identifier_message("field"@, f.name@))
    } else if f.kind == FieldKind::Bytes(0) {
        Some("record "@ + record.name@ + " field "@ + f.name@ + " has an empty byte array"@)
    } else if exists|k: int| 0 <= k < i && (#[trigger] fields[k]).name@ == f.name@ {
        Some("record "@ + record.name@ + " repeats field "@ + f.name@)
    } else if f.offset < previous_end(fields, i) {
        Some("record "@ + record.name@ + " fields overlap or are out of order"@)
    } else if f.offset % (field_alignment(f.kind) as u16) != 0 {
        Some("record "@ + record.name@ + " field "@ + f.name@ + " is misaligned"@)
    } else if field_end(f) > u16::MAX {
        Some("record "@ + record.name@ + " field range overflows"@)
    } else if field_end(f) > record.size {
        Some("record "@ + record.name@ + " field "@ + f.name@ + " exceeds its size"@)
    } else {
        None
    }
}

/// The first diagnostic among the fields of `record` from `i` on.
pub open spec fn fields_diagnostic_from(record: Record, fields: Seq<Field>, i: int) -> Option<
    Seq<char>,
>
    decreases fields.len() - i,
{
    if 0 <= i < fields.len() {
        if field_diagnostic(record, fields, i) is Some {
            field_diagnostic(record, fields, i)
        } else {
            fields_diagnostic_from(record, fields, i + 1)
        }
    } else {
        None
    }
}

/// The diagnostic of a record's fields: the first field that breaks a rule,
/// else a declared alignment other than the rendered one.
pub open spec fn record_fields_diagnostic(record: Record) -> Option<Seq<char>> {
    if fields_diagnostic_from(record, record.fields@, 0) is Some {
        fields_diagnostic_from(record, record.fields@, 0)
    } else if record.alignment != rendered_alignment(record.fields@) {
        Some(
            "record "@ + record.name@ + " declares alignment "@ + dec(record.alignment as nat)
                + " but its fields render alignment "@ + dec(
                rendered_alignment(record.fields@) as nat,
            ),
        )
    } else {
        None
    }
}

fn validate_record_fields(record: Record) -> (r: Result<(), Error>)
    ensures
        r is Ok ==> record_fields_diagnostic(record) is None,
        r matches Err(e) ==> e matches Error::InvalidSchema(m) && record_fields_diagnostic(record)
            == Some(m@),
        r is Ok <==> {
            &&& forall|i: int|
                0 <= i < record.fields@.len() ==> #[trigger] field_ok(record, record.fields@, i)
            &&& forall|i: int, j: int|
                0 <= i < j < record.fields@.len() ==> (#[trigger] record.fields@[i]).name@
                    != (#[trigger] record.fields@[j]).name@
            &&& record.alignment == rendered_alignment(record.fields@)
        },
        r matches Err(e) ==> e is InvalidSchema,
{
    let fields = record.fields;
    let mut names: Vec<&'static str> = Vec::new();
    let mut end: u16 = 0;
    let mut alignment: u8 = 1;
    let mut i: usize = 0;
    while i < fields.len()
        invariant
            fields@ == record.fields@,
            i <= fields@.len(),
            names@.len() == i,
            end == previous_end(fields@, i as int),
            alignment == rendered_alignment(fields@.take(i as int)),
            forall|k: int| 0 <= k < i ==> (#[trigger] names@[k])@ == fields@[k].name@,
            forall|k: int| 0 <= k < i ==> #[trigger] field_ok(record, fields@, k),
            forall|a: int, b: int|
                0 <= a < b < i ==> (#[trigger] fields@[a]).name@ != (#[trigger] fields@[b]).name@,
            fields_diagnostic_from(record, fields@, 0) == fields_diagnostic_from(
                record,
                fields@,
                i as int,
            ),
        decreases fields@.len() - i,
    {
        let field = fields[i];
        if !check_identifier(field.name) {
            assert(!field_ok(record, fields@, i as int));
            return Err(identifier_error("field", field.name));
        }
        if is_empty_bytes(field.kind) {
            assert(!field_ok(record, fields@, i as int));
            return invalid(text5("record ", record.name, " field ", field.name, " has an empty byte array"));
        }
        if contains_str(&names, field.name) {
            proof {
                let k = choose|k: int| 0 <= k < names@.len() && (#[trigger] names@[k])@ == field.name@;
                assert(fields@[k].name@ == fields@[i as int].name@);
            }
            return invalid(text4("record ", record.name, " repeats field ", field.name));
        }
        assert forall|a: int| 0 <= a < i implies fields@[a].name@ != fields@[i as int].name@ by {
            assert(names@[a]@ == fields@[a].name@);
        }
        if field.offset < end {
            assert(!field_ok(record, fields@, i as int));
            return invalid(text3("record ", record.name, " fields overlap or are out of order"));
        }
        let field_alignment_value = field.kind.alignment();
        if field.offset % (field_alignment_value as u16) != 0 {
            assert(!field_ok(record, fields@, i as int));
            return invalid(text5("record ", record.name, " field ", field.name, " is misaligned"));
        }
        assert(fields@.take(i + 1).drop_last() == fields@.take(i as int));
        if alignment < field_alignment_value {
            alignment = field_alignment_value;
        }
        let size = field.kind.size();
        if field.offset > u16::MAX - size {
            assert(!field_ok(record, fields@, i as int));
            return invalid(text3("record ", record.name, " field range overflows"));
        }
        end = field.offset + size;
        if end > record.size {
            assert(!field_ok(record, fields@, i as int));
            return invalid(text5("record ", record.name, " field ", field.name, " exceeds its size"));
        }
        assert forall|a: int| 0 <= a < i implies fields@[a].name@ != fields@[i as int].name@ by {
            assert(names@[a]@ == fields@[a].name@);
        }
        assert(field_diagnostic(record, fields@, i as int) is None);
        names.push(field.name);
        i = i + 1;
    }
    assert(fields@.take(fields@.len() as int) == fields@);
    if record.alignment != alignment {
        let mut m = text3("record ", record.name, " declares alignment ");
        push_dec(&mut m, record.alignment as u64);
        push_str(&mut m, " but its fields render alignment ");
        push_dec(&mut m, alignment as u64);
        return invalid(m);
    }
    Ok(())
}

/// The diagnostic of record `i`, given the records declared before it.
pub open spec fn record_diagnostic(rs: Seq<Record>, i: int) -> Option<Seq<char>> {
    let r = rs[i];
    if !is_identifier(r.name@) {
        Some(identifier_message("record"@, r.name@))
    } else if exists|k: int| 0 <= k < i && (#[trigger] rs[k]).name@ == r.name@ {
        Some("record "@ + r.name@ + " is declared more than once"@)
    } else if !(r.alignment == 1 || r.alignment == 2 || r.alignment == 4 || r.alignment == 8)
        || r.size == 0 {
        Some("record "@ + r.name@ + " has an invalid size or alignment"@)
    } else if r.alignment > r.size || r.size % (r.alignment as u16) != 0 {
        Some("record "@ + r.name@ + " size is not aligned"@)
    } else {
        record_fields_diagnostic(r)
    }
}

/// The diagnostic of the record rules: the first record that breaks one.
pub open spec fn records_diagnostic_from(rs: Seq<Record>, i: int) -> Option<Seq<char>>
    decreases rs.len() - i,
{
    if 0 <= i < rs.len() {
        if record_diagnostic(rs, i) is Some {
            record_diagnostic(rs, i)
        } else {
            records_diagnostic_from(rs, i + 1)
        }
    } else {
        None
    }
}

fn validate_records(schema: &AbiSchema) -> (r: Result<(), Error>)
    ensures
        r is Ok <==> records_valid(schema.records@),
        r is Ok ==> records_diagnostic_from(schema.records@, 0) is None,
        r matches Err(e) ==> e matches Error::InvalidSchema(m) && records_diagnostic_from(
            schema.records@,
            0,
        ) == Some(m@),
{
    let rs = schema.records;
    let mut names: Vec<&'static str> = Vec::new();
    let mut i: usize = 0;
    while i < rs.len()
        invariant
            rs@ == schema.records@,
            i <= rs@.len(),
            names@.len() == i,
            forall|k: int| 0 <= k < i ==> (#[trigger] names@[k])@ == rs@[k].name@,
            forall|k: int| 0 <= k < i ==> #[trigger] record_ok(rs@[k]),
            forall|a: int, b: int|
                0 <= a < b < i ==> (#[trigger] rs@[a]).name@ != (#[trigger] rs@[b]).name@,
            records_diagnostic_from(rs@, 0) == records_diagnostic_from(rs@, i as int),
        decreases rs@.len() - i,
    {
        let record = rs[i];
        if !check_identifier(record.name) {
            assert(!record_ok(rs@[i as int]));
            return Err(identifier_error("record", record.name));
        }
        if contains_str(&names, record.name) {
            proof {
                let k = choose|k: int| 0 <= k < names@.len() && (#[trigger] names@[k])@ == record.name@;
                assert(rs@[k].name@ == rs@[i as int].name@);
            }
            return invalid(text3("record ", record.name, " is declared more than once"));
        }
        assert forall|a: int| 0 <= a < i implies rs@[a].name@ != rs@[i as int].name@ by {
            assert(names@[a]@ == rs@[a].name@);
        }
        if !(record.alignment == 1 || record.alignment == 2 || record.alignment == 4
            || record.alignment == 8) || record.size == 0 {
            assert(!record_ok(rs@[i as int]));
            return invalid(text3("record ", record.name, " has an invalid size or alignment"));
        }
        if (record.alignment as u16) > record.size || record.size % (record.alignment as u16) != 0 {
            assert(!record_ok(rs@[i as int]));
            return invalid(text3("record ", record.name, " size is not aligned"));
        }
        let checked = validate_record_fields(record);
        if checked.is_err() {
            assert(!record_ok(rs@[i as int]));
            return checked;
        }
        assert forall|a: int| 0 <= a < i implies rs@[a].name@ != rs@[i as int].name@ by {
            assert(names@[a]@ == rs@[a].name@);
        }
        assert(record_diagnostic(rs@, i as int) is None);
        names.push(record.name);
        i = i + 1;
    }
    Ok(())
}


// ---------------------------------------------------------------------------
// Generated constant names.

/// Constant names that the renderers emit for every schema.
pub open spec fn reserved_constant_names() -> Seq<Seq<char>> {
    seq![
        "HYPER_NATIVE_ABI_REVISION"@,
        "HYPER_NATIVE_FEATURE_MASK"@,
        "HYPER_NATIVE_RIGHTS_MASK"@,
        "HYPER_NATIVE_TRANSFER_CLASS_FORBIDDEN"@,
        "HYPER_NATIVE_TRANSFER_CLASS_GENERAL"@,
        "HYPER_NATIVE_TRANSFER_CLASS_RENDEZVOUS_ONLY"@,
    ]
}

pub open spec fn feature_constant(f: Feature) -> Seq<char> {
    "HYPER_NATIVE_FEATURE_"@ + upper_snake_spec(f.name@)
}

pub open spec fn status_constant(s: Status) -> Seq<char> {
    "HYPER_NATIVE_STATUS_"@ + upper_snake_spec(s.name@)
}

pub open spec fn object_constant(o: ObjectKind) -> Seq<char> {
    "HYPER_NATIVE_OBJECT_"@ + upper_snake_spec(o.name@)
}

pub open spec fn right_constant(r: Right) -> Seq<char> {
    "HYPER_NATIVE_RIGHT_"@ + upper_snake_spec(r.name@)
}

pub open spec fn signal_constant(s: Signal) -> Seq<char> {
    "HYPER_NATIVE_SIGNAL_"@ + upper_snake_spec(s.object@) + "_"@ + upper_snake_spec(s.name@)
}

pub open spec fn free_constant(c: AbiConstant) -> Seq<char> {
    "HYPER_NATIVE_"@ + upper_snake_spec(c.name@)
}

pub open spec fn syscall_constant(c: Syscall) -> Seq<char> {
    "HYPER_NATIVE_SYS_"@ + upper_snake_spec(c.name@)
}

/// Every public constant name that rendering produces, in rendering order.
pub open spec fn generated_constant_names(schema: AbiSchema) -> Seq<Seq<char>> {
    reserved_constant_names() + schema.features@.map_values(|f: Feature| feature_constant(f))
        + schema.statuses@.map_values(|s: Status| status_constant(s))
        + schema.object_kinds@.map_values(|o: ObjectKind| object_constant(o))
        + schema.rights@.map_values(|r: Right| right_constant(r))
        + schema.signals@.map_values(|s: Signal| signal_constant(s))
        + schema.constants@.map_values(|c: AbiConstant| free_constant(c))
        + schema.syscalls@.map_values(|c: Syscall| syscall_constant(c))
}

pub open spec fn names_distinct(names: Seq<Seq<char>>) -> bool {
    forall|i: int, j: int| 0 <= i < j < names.len() ==> #[trigger] names[i] != #[trigger] names[j]
}

fn prefixed(prefix: &str, name: &str) -> (r: String)
    ensures
        r@ == prefix@ + upper_snake_spec(name@),
{
    let mut out = String::from_str(prefix);
    push_upper_snake(&mut out, name);
    out
}

pub open spec fn view_seq(items: Seq<String>) -> Seq<Seq<char>> {
    items.map_values(|s: String| s@)
}

proof fn lemma_view_push(items: Seq<String>, s: String)
    ensures
        view_seq(items.push(s)) == view_seq(items).push(s@),
{
    assert(view_seq(items.push(s)) =~= view_seq(items).push(s@));
}

fn all_generated_constant_names(schema: &AbiSchema) -> (r: Vec<String>)
    ensures
        view_seq(r@) == generated_constant_names(*schema),
{
    let mut all: Vec<String> = Vec::new();
    all.push(String::from_str("HYPER_NATIVE_ABI_REVISION"));
    all.push(String::from_str("HYPER_NATIVE_FEATURE_MASK"));
    all.push(String::from_str("HYPER_NATIVE_RIGHTS_MASK"));
    all.push(String::from_str("HYPER_NATIVE_TRANSFER_CLASS_FORBIDDEN"));
    all.push(String::from_str("HYPER_NATIVE_TRANSFER_CLASS_GENERAL"));
    all.push(String::from_str("HYPER_NATIVE_TRANSFER_CLASS_RENDEZVOUS_ONLY"));
    let ghost g0 = reserved_constant_names();
    assert(view_seq(all@) == g0);

    let fs = schema.features;
    let mut i: usize = 0;
    while i < fs.len()
        invariant
            i <= fs@.len(),
            view_seq(all@) == g0 + fs@.take(i as int).map_values(|f: Feature| feature_constant(f)),
        decreases fs@.len() - i,
    {
        let name = prefixed("HYPER_NATIVE_FEATURE_", fs[i].name);
        let ghost before = all@;
        all.push(name);
        proof {
            lemma_view_push(before, name);
        }
        assert(fs@.take(i + 1).map_values(|f: Feature| feature_constant(f)) == fs@.take(
            i as int,
        ).map_values(|f: Feature| feature_constant(f)).push(feature_constant(fs@[i as int])));
        i = i + 1;
    }
    assert(fs@.take(fs@.len() as int) == fs@);
    let ghost g1 = g0 + schema.features@.map_values(|f: Feature| feature_constant(f));
    assert(view_seq(all@) == g1);

    let ss = schema.statuses;
    let mut i: usize = 0;
    while i < ss.len()
        invariant
            i <= ss@.len(),
            view_seq(all@) == g1 + ss@.take(i as int).map_values(|s: Status| status_constant(s)),
        decreases ss@.len() - i,
    {
        let name = prefixed("HYPER_NATIVE_STATUS_", ss[i].name);
        let ghost before = all@;
        all.push(name);
        proof {
            lemma_view_push(before, name);
        }
        assert(ss@.take(i + 1).map_values(|s: Status| status_constant(s)) == ss@.take(
            i as int,
        ).map_values(|s: Status| status_constant(s)).push(status_constant(ss@[i as int])));
        i = i + 1;
    }
    assert(ss@.take(ss@.len() as int) == ss@);
    let ghost g2 = g1 + schema.statuses@.map_values(|s: Status| status_constant(s));
    assert(view_seq(all@) == g2);

    let os = schema.object_kinds;
    let mut i: usize = 0;
    while i < os.len()
        invariant
            i <= os@.len(),
            view_seq(all@) == g2 + os@.take(i as int).map_values(|o: ObjectKind| object_constant(o)),
        decreases os@.len() - i,
    {
        let name = prefixed("HYPER_NATIVE_OBJECT_", os[i].name);
        let ghost before = all@;
        all.push(name);
        proof {
            lemma_view_push(before, name);
        }
        assert(os@.take(i + 1).map_values(|o: ObjectKind| object_constant(o)) == os@.take(
            i as int,
        ).map_values(|o: ObjectKind| object_constant(o)).push(object_constant(os@[i as int])));
        i = i + 1;
    }
    assert(os@.take(os@.len() as int) == os@);
    let ghost g3 = g2 + schema.object_kinds@.map_values(|o: ObjectKind| object_constant(o));
    assert(view_seq(all@) == g3);

    let rs = schema.rights;
    let mut i: usize = 0;
    while i < rs.len()
        invariant
            i <= rs@.len(),
            view_seq(all@) == g3 + rs@.take(i as int).map_values(|r: Right| right_constant(r)),
        decreases rs@.len() - i,
    {
        let name = prefixed("HYPER_NATIVE_RIGHT_", rs[i].name);
        let ghost before = all@;
        all.push(name);
        proof {
            lemma_view_push(before, name);
        }
        assert(rs@.take(i + 1).map_values(|r: Right| right_constant(r)) == rs@.take(
            i as int,
        ).map_values(|r: Right| right_constant(r)).push(right_constant(rs@[i as int])));
        i = i + 1;
    }
    assert(rs@.take(rs@.len() as int) == rs@);
    let ghost g4 = g3 + schema.rights@.map_values(|r: Right| right_constant(r));
    assert(view_seq(all@) == g4);

    let sg = schema.signals;
    let mut i: usize = 0;
    while i < sg.len()
        invariant
            i <= sg@.len(),
            view_seq(all@) == g4 + sg@.take(i as int).map_values(|s: Signal| signal_constant(s)),
        decreases sg@.len() - i,
    {
        let mut name = prefixed("HYPER_NATIVE_SIGNAL_", sg[i].object);
        push_str(&mut name, "_");
        push_upper_snake(&mut name, sg[i].name);
        let ghost before = all@;
        all.push(name);
        proof {
            lemma_view_push(before, name);
        }
        assert(sg@.take(i + 1).map_values(|s: Signal| signal_constant(s)) == sg@.take(
            i as int,
        ).map_values(|s: Signal| signal_constant(s)).push(signal_constant(sg@[i as int])));
        i = i + 1;
    }
    assert(sg@.take(sg@.len() as int) == sg@);
    let ghost g5 = g4 + schema.signals@.map_values(|s: Signal| signal_constant(s));
    assert(view_seq(all@) == g5);

    let cs = schema.constants;
    let mut i: usize = 0;
    while i < cs.len()
        invariant
            i <= cs@.len(),
            view_seq(all@) == g5 + cs@.take(i as int).map_values(|c: AbiConstant| free_constant(c)),
        decreases cs@.len() - i,
    {
        let name = prefixed("HYPER_NATIVE_", cs[i].name);
        let ghost before = all@;
        all.push(name);
        proof {
            lemma_view_push(before, name);
        }
        assert(cs@.take(i + 1).map_values(|c: AbiConstant| free_constant(c)) == cs@.take(
            i as int,
        ).map_values(|c: AbiConstant| free_constant(c)).push(free_constant(cs@[i as int])));
        i = i + 1;
    }
    assert(cs@.take(cs@.len() as int) == cs@);
    let ghost g6 = g5 + schema.constants@.map_values(|c: AbiConstant| free_constant(c));
    assert(view_seq(all@) == g6);

    let ys = schema.syscalls;
    let mut i: usize = 0;
    while i < ys.len()
        invariant
            i <= ys@.len(),
            view_seq(all@) == g6 + ys@.take(i as int).map_values(|c: Syscall| syscall_constant(c)),
        decreases ys@.len() - i,
    {
        let name = prefixed("HYPER_NATIVE_SYS_", ys[i].name);
        let ghost before = all@;
        all.push(name);
        proof {
            lemma_view_push(before, name);
        }
        assert(ys@.take(i + 1).map_values(|c: Syscall| syscall_constant(c)) == ys@.take(
            i as int,
        ).map_values(|c: Syscall| syscall_constant(c)).push(syscall_constant(ys@[i as int])));
        i = i + 1;
    }
    assert(ys@.take(ys@.len() as int) == ys@);
    all
}

/// The diagnostic of the first generated name from `j` on that repeats an
/// earlier one.
pub open spec fn repeated_name_diagnostic_from(names: Seq<Seq<char>>, j: int) -> Option<Seq<char>>
    decreases names.len() - j,
{
    if 0 <= j < names.len() {
        if exists|k: int| 0 <= k < j && #[trigger] names[k] == names[j] {
            Some("generated constant "@ + names[j] + " is declared more than once"@)
        } else {
            repeated_name_diagnostic_from(names, j + 1)
        }
    } else {
        None
    }
}

fn validate_generated_constant_names(schema: &AbiSchema) -> (r: Result<(), Error>)
    ensures
        r is Ok <==> names_distinct(generated_constant_names(*schema)),
        r is Ok ==> repeated_name_diagnostic_from(generated_constant_names(*schema), 0) is None,
        r matches Err(e) ==> e matches Error::InvalidSchema(m) && repeated_name_diagnostic_from(
            generated_constant_names(*schema),
            0,
        ) == Some(m@),
{
    let all = all_generated_constant_names(schema);
    let ghost g = generated_constant_names(*schema);
    assert(g.len() == all@.len());
    assert(forall|k: int| 0 <= k < all@.len() ==> #[trigger] g[k] == all@[k]@);
    let mut j: usize = 0;
    while j < all.len()
        invariant
            g == generated_constant_names(*schema),
            g.len() == all@.len(),
            forall|k: int| 0 <= k < all@.len() ==> #[trigger] g[k] == all@[k]@,
            j <= all@.len(),
            forall|a: int, b: int| 0 <= a < b < j ==> #[trigger] g[a] != #[trigger] g[b],
            repeated_name_diagnostic_from(g, 0) == repeated_name_diagnostic_from(g, j as int),
        decreases all@.len() - j,
    {
        let mut k: usize = 0;
        while k < j
            invariant
                g == generated_constant_names(*schema),
                g.len() == all@.len(),
                forall|k: int| 0 <= k < all@.len() ==> #[trigger] g[k] == all@[k]@,
                j < all@.len(),
                k <= j,
                forall|a: int| 0 <= a < k ==> #[trigger] g[a] != g[j as int],
                repeated_name_diagnostic_from(g, 0) == repeated_name_diagnostic_from(g, j as int),
            decreases j - k,
        {
            if str_eq(all[k].as_str(), all[j].as_str()) {
                assert(g[k as int] == g[j as int]);
                return invalid(
                    text3("generated constant ", all[j].as_str(), " is declared more than once"),
                );
            }
            k = k + 1;
        }
        assert(!exists|k: int| 0 <= k < j && #[trigger] g[k] == g[j as int]);
        j = j + 1;
    }
    Ok(())
}

// ---------------------------------------------------------------------------
// The whole schema.

/// Every rule that a schema must satisfy before it can be rendered.
pub open spec fn schema_valid(schema: AbiSchema) -> bool {
    &&& schema.revision == 0
    &&& features_valid(schema.features@)
    &&& statuses_valid(schema.statuses@)
    &&& object_kinds_valid(schema.object_kinds@)
    &&& rights_valid(schema.rights@)
    &&& signals_valid(schema.signals@, schema.object_kinds@)
    &&& constants_valid(schema.constants@)
    &&& records_valid(schema.records@)
    &&& syscalls_valid(schema, rights_mask(schema.rights@))
    &&& semantic_rules_valid(schema.semantic_rules@)
    &&& names_distinct(generated_constant_names(schema))
}

/// The diagnostic of the first rule that `schema` breaks, the rules taken in
/// this order: the pre-release revision, features, statuses, object kinds,
/// rights, signals, constants, records, syscalls, semantic rules, and the
/// distinctness of every generated constant name.
pub open spec fn schema_diagnostic(schema: AbiSchema) -> Option<Seq<char>> {
    if schema.revision != 0 {
        Some("pre-release ABI revision must remain zero"@)
    } else {
        first_of(
            features_diagnostic(schema.features@),
            first_of(
                statuses_diagnostic(schema.statuses@),
                first_of(
                    object_kinds_diagnostic(schema.object_kinds@),
                    first_of(
                        rights_diagnostic_from(schema.rights@, 0),
                        first_of(
                            signals_diagnostic_from(schema.signals@, schema.object_kinds@, 0),
                            first_of(
                                constants_diagnostic_from(schema.constants@, 0),
                                first_of(
                                    records_diagnostic_from(schema.records@, 0),
                                    first_of(
                                        syscalls_diagnostic_from(
                                            schema,
                                            rights_mask(schema.rights@),
                                            0,
                                        ),
                                        first_of(
                                            semantic_rules_diagnostic_from(schema.semantic_rules@, 0),
                                            repeated_name_diagnostic_from(
                                                generated_constant_names(schema),
                                                0,
                                            ),
                                        ),
                                    ),
                                ),
                            ),
                        ),
                    ),
                ),
            ),
        )
    }
}

/// Whether every character of `s` is Unicode white space.
pub open spec fn is_blank_text(s: Seq<char>) -> bool {
    forall|k: int| 0 <= k < s.len() ==> #[trigger] is_unicode_whitespace(s[k])
}

/// What every accepted schema keeps, stated on its declarations: the
/// revision stays zero; statuses are never positive, distinct in value and
/// name, and `ok` has value zero; features and rights use distinct bits
/// below 64 and distinct names, and the `core` feature exists; object kinds
/// are distinct in value and name, and `none` keeps value zero and forbidden
/// transfer; each signal uses a bit below 64 of a declared object kind other
/// than `none`, and no object repeats a signal name or bit; constant names
/// and semantic rules are distinct, and every rule holds a non-whitespace
/// character.
pub proof fn accepted_schemas_keep_the_declaration_rules(schema: AbiSchema)
    requires
        schema_valid(schema),
    ensures
        schema.revision == 0,
        forall|i: int| 0 <= i < schema.statuses@.len() ==> (#[trigger] schema.statuses@[i]).value <= 0,
        forall|i: int, j: int|
            0 <= i < j < schema.statuses@.len() ==> (#[trigger] schema.statuses@[i]).value
                != (#[trigger] schema.statuses@[j]).value && schema.statuses@[i].name@
                != schema.statuses@[j].name@,
        exists|i: int|
            0 <= i < schema.statuses@.len() && (#[trigger] schema.statuses@[i]).name@ == "ok"@
                && schema.statuses@[i].value == 0,
        forall|i: int| 0 <= i < schema.features@.len() ==> (#[trigger] schema.features@[i]).bit < 64,
        forall|i: int, j: int|
            0 <= i < j < schema.features@.len() ==> (#[trigger] schema.features@[i]).bit
                != (#[trigger] schema.features@[j]).bit && schema.features@[i].name@
                != schema.features@[j].name@,
        exists|i: int| 0 <= i < schema.features@.len() && (#[trigger] schema.features@[i]).name@ == "core"@,
        forall|i: int| 0 <= i < schema.rights@.len() ==> (#[trigger] schema.rights@[i]).bit < 64,
        forall|i: int, j: int|
            0 <= i < j < schema.rights@.len() ==> (#[trigger] schema.rights@[i]).bit
                != (#[trigger] schema.rights@[j]).bit && schema.rights@[i].name@
                != schema.rights@[j].name@,
        forall|i: int, j: int|
            0 <= i < j < schema.object_kinds@.len() ==> (#[trigger] schema.object_kinds@[i]).value
                != (#[trigger] schema.object_kinds@[j]).value && schema.object_kinds@[i].name@
                != schema.object_kinds@[j].name@,
        exists|i: int|
            0 <= i < schema.object_kinds@.len() && (#[trigger] schema.object_kinds@[i]).name@
                == "none"@ && schema.object_kinds@[i].value == 0 && schema.object_kinds@[i].transfer
                == TransferClass::Forbidden,
        forall|i: int|
            0 <= i < schema.signals@.len() ==> (#[trigger] schema.signals@[i]).bit < 64
                && schema.signals@[i].object@ != "none"@ && exists|k: int|
                0 <= k < schema.object_kinds@.len() && (#[trigger] schema.object_kinds@[k]).name@
                    == schema.signals@[i].object@,
        forall|i: int, j: int|
            0 <= i < j < schema.signals@.len() && (#[trigger] schema.signals@[i]).object@ == (
            #[trigger] schema.signals@[j]).object@ ==> schema.signals@[i].name@
                != schema.signals@[j].name@ && schema.signals@[i].bit != schema.signals@[j].bit,
        forall|i: int, j: int|
            0 <= i < j < schema.constants@.len() ==> (#[trigger] schema.constants@[i]).name@ != (
            #[trigger] schema.constants@[j]).name@,
        forall|i: int, j: int|
            0 <= i < j < schema.semantic_rules@.len() ==> (#[trigger] schema.semantic_rules@[i])@ != (
            #[trigger] schema.semantic_rules@[j])@,
        forall|i: int|
            0 <= i < schema.semantic_rules@.len() ==> !is_blank_text(
                (#[trigger] schema.semantic_rules@[i])@,
            ),
{
    assert forall|i: int| 0 <= i < schema.statuses@.len() implies (#[trigger] schema.statuses@[i]).value
        <= 0 by {
        assert(status_ok(schema.statuses@[i]));
    }
    assert forall|i: int| 0 <= i < schema.features@.len() implies (#[trigger] schema.features@[i]).bit
        < 64 by {
        assert(feature_ok(schema.features@[i]));
    }
    assert forall|i: int| 0 <= i < schema.rights@.len() implies (#[trigger] schema.rights@[i]).bit
        < 64 by {
        assert(right_ok(schema.rights@[i]));
    }
    assert forall|i: int| 0 <= i < schema.signals@.len() implies (#[trigger] schema.signals@[i]).bit
        < 64 && schema.signals@[i].object@ != "none"@ && exists|k: int|
        0 <= k < schema.object_kinds@.len() && (#[trigger] schema.object_kinds@[k]).name@
            == schema.signals@[i].object@ by {
        assert(signal_ok(schema.signals@[i], schema.object_kinds@));
    }
    assert forall|i: int| 0 <= i < schema.semantic_rules@.len() implies !is_blank_text(
        (#[trigger] schema.semantic_rules@[i])@,
    ) by {
        assert(rule_ok(schema.semantic_rules@[i]@));
    }
}

/// Bytes a field of kind `kind` occupies in the rendered layouts.
pub open spec fn kind_bytes(kind: FieldKind) -> int {
    match kind {
        FieldKind::U32 => 4,
        FieldKind::U64 => 8,
        FieldKind::Bytes(n) => n as int,
    }
}

/// Every record of an accepted schema has a layout that `#[repr(C)]` and C
/// reproduce exactly: each field starts on a multiple of its natural
/// alignment (four for `u32`, eight for `u64`), occupies at least one byte,
/// starts no earlier than the end of the field before it, and ends within
/// the record, whose size is a nonzero multiple of its alignment of one,
/// two, four or eight bytes.
pub proof fn accepted_record_layouts_are_natural(schema: AbiSchema, i: int, j: int)
    requires
        schema_valid(schema),
        0 <= i < schema.records@.len(),
        0 <= j < schema.records@[i].fields@.len(),
    ensures
        ({
            let r = schema.records@[i];
            let fields = r.fields@;
            let f = fields[j];
            &&& f.kind == FieldKind::U32 ==> f.offset % 4 == 0
            &&& f.kind == FieldKind::U64 ==> f.offset % 8 == 0
            &&& kind_bytes(f.kind) > 0
            &&& f.offset + kind_bytes(f.kind) <= r.size
            &&& j > 0 ==> f.offset >= fields[j - 1].offset + kind_bytes(fields[j - 1].kind)
            &&& r.size > 0
            &&& (r.alignment == 1 || r.alignment == 2 || r.alignment == 4 || r.alignment == 8)
            &&& r.size % (r.alignment as u16) == 0
        }),
{
    let r = schema.records@[i];
    assert(record_ok(r));
    assert(field_ok(r, r.fields@, j));
}

/// Validates the whole schema; the error names the first rule that fails.
pub fn validate(schema: &AbiSchema) -> (r: Result<(), Error>)
    ensures
        r is Ok <==> schema_valid(*schema),
        r matches Err(e) ==> e is InvalidSchema,
        reports(r, schema_diagnostic(*schema)),
{
    if schema.revision != 0 {
        return invalid(String::from_str("pre-release ABI revision must remain zero"));
    }
    let checked = validate_features(schema);
    if checked.is_err() {
        return checked;
    }
    let checked = validate_statuses(schema);
    if checked.is_err() {
        return checked;
    }
    let checked = validate_object_kinds(schema);
    if checked.is_err() {
        return checked;
    }
    let supported_rights = match validate_rights(schema) {
        Ok(mask) => mask,
        Err(e) => {
            return Err(e);
        },
    };
    let checked = validate_signals(schema);
    if checked.is_err() {
        return checked;
    }
    let checked = validate_constants(schema);
    if checked.is_err() {
        return checked;
    }
    let checked = validate_records(schema);
    if checked.is_err() {
        return checked;
    }
    let checked = validate_syscalls(schema, supported_rights);
    if checked.is_err() {
        return checked;
    }
    let checked = validate_semantic_rules(schema);
    if checked.is_err() {
        return checked;
    }
    validate_generated_constant_names(schema)
}

} // verus!
