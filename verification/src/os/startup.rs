//! Process-startup capabilities: validation of the startup records, and the
//! linear claim that moves each handle out exactly once.

use vstd::prelude::*;
use core::marker::PhantomData;
use crate::abi::HyperNativeStartupHandle;
use crate::os::error::Error;
use crate::os::fs::Directory;
use crate::os::handle::{
    ConsoleObject, DirectoryObject, HandleInfo, HandleRef, ObjectType, OwnedHandle,
    ResourceDomainObject, TaskFactoryObject, TaskGroupObject, TypedObject,
};

verus! {

/// Most handles one process receives at startup.
pub const MAX_STARTUP_HANDLES: usize = 256;

/// Typed name of one capability supplied at process startup.
pub struct StartupPurpose<T: ObjectType> {
    value: u32,
    _type: PhantomData<T>,
}

impl<T: ObjectType> StartupPurpose<T> {
    pub closed spec fn spec_value(&self) -> u32 {
        self.value
    }

    /// A typed purpose declared by the ABI or a service SDK. The reported
    /// object kind is still checked when the handle is borrowed or taken, so
    /// an incorrect marker cannot forge a typed handle.
    pub fn new(value: u32) -> (r: StartupPurpose<T>)
        ensures
            r.spec_value() == value,
    {
        StartupPurpose { value, _type: PhantomData }
    }

    pub fn as_raw(&self) -> (r: u32)
        ensures
            r == self.spec_value(),
    {
        self.value
    }
}

/// The startup records are valid when there are at most
/// `MAX_STARTUP_HANDLES`, each names a nonzero purpose and handle with clear
/// flags, and no purpose or handle repeats.
pub open spec fn records_valid(records: Seq<HyperNativeStartupHandle>) -> bool {
    &&& records.len() <= MAX_STARTUP_HANDLES
    &&& forall|i: int| 0 <= i < records.len() ==> #[trigger] record_ok(records[i])
    &&& forall|i: int, j: int|
        0 <= i < j < records.len() ==> #[trigger] records_apart(records[i], records[j])
}

/// One record names a nonzero purpose and handle with clear flags.
pub open spec fn record_ok(record: HyperNativeStartupHandle) -> bool {
    record.purpose != 0 && record.flags == 0 && record.handle != 0
}

/// Two records share neither purpose nor handle.
pub open spec fn records_apart(a: HyperNativeStartupHandle, b: HyperNativeStartupHandle) -> bool {
    a.purpose != b.purpose && a.handle != b.handle
}

/// The index of the record naming `purpose`, if any.
pub open spec fn purpose_index(records: Seq<HyperNativeStartupHandle>, purpose: u32) -> Option<int> {
    if exists|i: int| 0 <= i < records.len() && #[trigger] records[i].purpose == purpose {
        Some(choose|i: int| 0 <= i < records.len() && #[trigger] records[i].purpose == purpose)
    } else {
        None
    }
}

/// Whether the record naming `purpose` is present and still unclaimed, so
/// that a take with matching metadata moves it out.
pub open spec fn takeable(records: Seq<HyperNativeStartupHandle>, claimed: Seq<bool>, purpose: u32)
    -> bool {
    &&& purpose != 0
    &&& purpose_index(records, purpose) matches Some(i)
    &&& !claimed[i]
}

/// A startup handle moves out at most once: once a take of `purpose`
/// succeeds and claims its record, that purpose is no longer takeable, and
/// every other record keeps its claim state.
pub proof fn startup_handles_are_taken_at_most_once(
    records: Seq<HyperNativeStartupHandle>,
    claimed: Seq<bool>,
    purpose: u32,
)
    requires
        claimed.len() == records.len(),
        takeable(records, claimed, purpose),
    ensures
        !takeable(records, claimed.update(purpose_index(records, purpose)->0, true), purpose),
        forall|j: int|
            0 <= j < claimed.len() && j != purpose_index(records, purpose)->0 ==> #[trigger] claimed.update(
                purpose_index(records, purpose)->0,
                true,
            )[j] == claimed[j],
{
    let i = purpose_index(records, purpose)->0;
    assert(0 <= i < records.len() && records[i].purpose == purpose);
}

/// The error a rejected take reports: a missing, zero or already claimed
/// purpose is an invalid startup request; otherwise the metadata check fails.
pub open spec fn take_error(
    records: Seq<HyperNativeStartupHandle>,
    claimed: Seq<bool>,
    purpose: u32,
    info: Result<HandleInfo, Error>,
    kind: u32,
) -> Error {
    if !takeable(records, claimed, purpose) {
        Error::InvalidStartup
    } else {
        match kind_check(info, kind) {
            Err(e) => e,
            Ok(_) => Error::InvalidStartup,
        }
    }
}

/// The typed check of a startup handle's reported metadata.
pub open spec fn kind_check(info: Result<HandleInfo, Error>, kind: u32) -> Result<(), Error> {
    match info {
        Err(e) => Err(e),
        Ok(i) => if i.kind@ == kind {
            Ok(())
        } else {
            Err(Error::UnexpectedObjectKind { expected: kind, actual: i.kind@ })
        },
    }
}

/// Exclusive owner of the process-startup capabilities: every handle begins
/// under its ownership and moves out at most once.
pub struct Startup {
    records: Vec<HyperNativeStartupHandle>,
    claimed: Vec<bool>,
    arguments: Vec<String>,
}

impl Startup {
    #[verifier::type_invariant]
    spec fn well_formed(self) -> bool {
        records_valid(self.records@) && self.claimed@.len() == self.records@.len()
    }

    pub closed spec fn spec_records(&self) -> Seq<HyperNativeStartupHandle> {
        self.records@
    }

    pub closed spec fn spec_claimed(&self) -> Seq<bool> {
        self.claimed@
    }

    pub closed spec fn spec_argument_count(&self) -> nat {
        self.arguments@.len()
    }

    /// The text of argument `i`.
    pub closed spec fn spec_argument(&self, i: int) -> Seq<char> {
        self.arguments@[i]@
    }

    /// Validates the startup records and takes ownership of them, with
    /// nothing claimed yet.
    pub fn from_records(records: Vec<HyperNativeStartupHandle>, arguments: Vec<String>) -> (r:
        Result<Startup, Error>)
        ensures
            r is Ok <==> records_valid(records@),
            r matches Ok(s) ==> s.spec_records() == records@ && s.spec_argument_count()
                == arguments@.len() && (forall|i: int|
                0 <= i < records@.len() ==> !#[trigger] s.spec_claimed()[i]) && forall|i: int|
                0 <= i < arguments@.len() ==> #[trigger] s.spec_argument(i) == arguments@[i]@,
            r matches Err(e) ==> e == Error::InvalidStartup,
    {
        if records.len() > MAX_STARTUP_HANDLES {
            return Err(Error::InvalidStartup);
        }
        let mut i: usize = 0;
        while i < records.len()
            invariant
                records@.len() <= MAX_STARTUP_HANDLES,
                i <= records@.len(),
                forall|a: int| 0 <= a < i ==> #[trigger] record_ok(records@[a]),
                forall|a: int, b: int|
                    0 <= a < b < i ==> #[trigger] records_apart(records@[a], records@[b]),
            decreases records@.len() - i,
        {
            let record = records[i];
            if record.purpose == 0 || record.flags != 0 || record.handle == 0 {
                proof {
                    assert(!record_ok(records@[i as int]));
                }
                return Err(Error::InvalidStartup);
            }
            let mut j: usize = 0;
            while j < i
                invariant
                    records@.len() <= MAX_STARTUP_HANDLES,
                    i < records@.len(),
                    record == records@[i as int],
                    record_ok(record),
                    forall|a: int| 0 <= a < i ==> #[trigger] record_ok(records@[a]),
                    forall|a: int, b: int|
                        0 <= a < b < i ==> #[trigger] records_apart(records@[a], records@[b]),
                    j <= i,
                    forall|a: int| 0 <= a < j ==> #[trigger] records_apart(records@[a], record),
                decreases i - j,
            {
                if records[j].purpose == record.purpose || records[j].handle == record.handle {
                    proof {
                        assert(!records_apart(records@[j as int], records@[i as int]));
                    }
                    return Err(Error::InvalidStartup);
                }
                j = j + 1;
            }
            i = i + 1;
        }
        let mut claimed: Vec<bool> = Vec::new();
        let mut k: usize = 0;
        while k < records.len()
            invariant
                k <= records@.len(),
                claimed@.len() == k,
                forall|a: int| 0 <= a < k ==> !#[trigger] claimed@[a],
            decreases records@.len() - k,
        {
            claimed.push(false);
            k = k + 1;
        }
        Ok(Startup { records, claimed, arguments })
    }

    /// The handles still owned here, in record order: those a teardown
    /// closes. Each is nonzero and listed once.
    pub fn unclaimed_handles(&self) -> (r: Vec<u64>)
        ensures
            forall|i: int| 0 <= i < r@.len() ==> #[trigger] r@[i] != 0,
            forall|i: int, j: int| 0 <= i < j < r@.len() ==> #[trigger] r@[i] != #[trigger] r@[j],
            forall|v: u64|
                #[trigger] r@.contains(v) <==> exists|k: int|
                    0 <= k < self.spec_records().len() && !self.spec_claimed()[k]
                        && #[trigger] self.spec_records()[k].handle == v,
    {
        proof {
            use_type_invariant(self);
        }
        let mut out: Vec<u64> = Vec::new();
        let ghost mut taken: Seq<int> = Seq::empty();
        let mut i: usize = 0;
        while i < self.records.len()
            invariant
                records_valid(self.records@),
                self.claimed@.len() == self.records@.len(),
                i <= self.records@.len(),
                out@.len() == taken.len(),
                forall|a: int| 0 <= a < taken.len() ==> 0 <= #[trigger] taken[a] < i,
                forall|a: int, b: int| 0 <= a < b < taken.len() ==> #[trigger] taken[a] < #[trigger] taken[b],
                forall|a: int|
                    0 <= a < taken.len() ==> out@[a] == self.records@[#[trigger] taken[a]].handle
                        && !self.claimed@[taken[a]],
                forall|k: int|
                    0 <= k < i && !self.claimed@[k] ==> exists|a: int|
                        0 <= a < taken.len() && #[trigger] taken[a] == k,
            decreases self.records@.len() - i,
        {
            let ghost old_taken = taken;
            if !self.claimed[i] {
                out.push(self.records[i].handle);
                proof {
                    taken = taken.push(i as int);
                    assert(taken[taken.len() - 1] == i as int);
                }
            }
            proof {
                assert forall|k: int| 0 <= k < i + 1 && !self.claimed@[k] implies exists|a: int|
                    0 <= a < taken.len() && #[trigger] taken[a] == k by {
                    if k < i {
                        let a = choose|a: int| 0 <= a < old_taken.len() && #[trigger] old_taken[a] == k;
                        assert(taken[a] == k);
                    } else {
                        assert(taken[taken.len() - 1] == k);
                    }
                }
            }
            i = i + 1;
        }
        proof {
            assert forall|a: int| 0 <= a < out@.len() implies #[trigger] out@[a] != 0 by {
                assert(record_ok(self.records@[taken[a]]));
            }
            assert forall|a: int, b: int| 0 <= a < b < out@.len() implies #[trigger] out@[a]
                != #[trigger] out@[b] by {
                assert(taken[a] < taken[b]);
                assert(records_apart(self.records@[taken[a]], self.records@[taken[b]]));
            }
            assert forall|v: u64|
                #[trigger] out@.contains(v) <==> exists|k: int|
                    0 <= k < self.spec_records().len() && !self.spec_claimed()[k]
                        && #[trigger] self.spec_records()[k].handle == v by {
                if out@.contains(v) {
                    let a = choose|a: int| 0 <= a < out@.len() && out@[a] == v;
                    let k = taken[a];
                    assert(self.spec_records()[k].handle == v);
                }
                if exists|k: int|
                    0 <= k < self.spec_records().len() && !self.spec_claimed()[k]
                        && #[trigger] self.spec_records()[k].handle == v {
                    let k = choose|k: int|
                        0 <= k < self.spec_records().len() && !self.spec_claimed()[k]
                            && #[trigger] self.spec_records()[k].handle == v;
                    let a = choose|a: int| 0 <= a < taken.len() && #[trigger] taken[a] == k;
                    assert(out@[a] == v);
                }
            }
        }
        out
    }

    /// The number of process arguments.
    pub fn argument_count(&self) -> (r: usize)
        ensures
            r == self.spec_argument_count(),
    {
        self.arguments.len()
    }

    /// One process argument.
    pub fn argument(&self, index: usize) -> (r: Result<&str, Error>)
        ensures
            r is Ok <==> index < self.spec_argument_count(),
            r matches Ok(a) ==> a@ == self.spec_argument(index as int),
            r matches Err(e) ==> e == Error::InvalidStartup,
    {
        if index >= self.arguments.len() {
            return Err(Error::InvalidStartup);
        }
        Ok(self.arguments[index].as_str())
    }

    /// Finds the record naming `purpose`: its index and handle.
    fn find(&self, purpose: u32) -> (r: Option<(usize, u64)>)
        ensures
            r is Some <==> purpose_index(self.spec_records(), purpose) is Some,
            r matches Some(found) ==> found.0 == purpose_index(self.spec_records(), purpose)->0
                && found.1 == self.spec_records()[found.0 as int].handle && found.1 != 0,
    {
        proof {
            use_type_invariant(self);
        }
        let mut i: usize = 0;
        while i < self.records.len()
            invariant
                records_valid(self.records@),
                i <= self.records@.len(),
                forall|a: int| 0 <= a < i ==> #[trigger] self.records@[a].purpose != purpose,
            decreases self.records@.len() - i,
        {
            if self.records[i].purpose == purpose {
                proof {
                    let chosen = purpose_index(self.records@, purpose)->0;
                    assert(self.records@[chosen].purpose == purpose);
                    assert(record_ok(self.records@[i as int]));
                    if chosen < i as int {
                        assert(records_apart(self.records@[chosen], self.records@[i as int]));
                    } else if chosen > i as int {
                        assert(records_apart(self.records@[i as int], self.records@[chosen]));
                    }
                }
                return Some((i, self.records[i].handle));
            }
            i = i + 1;
        }
        None
    }

    /// The raw handle the record naming `purpose` holds, for a metadata query
    /// before it is taken or borrowed.
    pub fn handle_for(&self, purpose: u32) -> (r: Option<u64>)
        ensures
            r is Some <==> purpose_index(self.spec_records(), purpose) is Some,
            r matches Some(raw) ==> raw == self.spec_records()[purpose_index(
                self.spec_records(),
                purpose,
            )->0].handle,
    {
        match self.find(purpose) {
            Some(found) => Some(found.1),
            None => None,
        }
    }

    /// Moves an optional typed startup capability out exactly once, given the
    /// metadata queried for its handle. A missing purpose is `None`; a zero
    /// purpose or an already claimed handle is rejected; a failed metadata
    /// check leaves the handle unclaimed.
    pub fn take_optional<T: TypedObject>(
        &mut self,
        purpose: StartupPurpose<T>,
        info: Result<HandleInfo, Error>,
    ) -> (r: Result<Option<OwnedHandle<T>>, Error>)
        ensures
            final(self).spec_records() == old(self).spec_records(),
            final(self).spec_argument_count() == old(self).spec_argument_count(),
            purpose.spec_value() == 0 ==> r == Err::<Option<OwnedHandle<T>>, Error>(
                Error::InvalidStartup,
            ) && final(self).spec_claimed() == old(self).spec_claimed(),
            purpose.spec_value() != 0 && purpose_index(old(self).spec_records(), purpose.spec_value())
                is None ==> (r matches Ok(None)) && final(self).spec_claimed()
                == old(self).spec_claimed(),
            purpose_index(old(self).spec_records(), purpose.spec_value()) matches Some(i) ==> (purpose.spec_value()
                != 0 ==> {
                &&& old(self).spec_claimed()[i] ==> r == Err::<Option<OwnedHandle<T>>, Error>(
                    Error::InvalidStartup,
                ) && final(self).spec_claimed() == old(self).spec_claimed()
                &&& !old(self).spec_claimed()[i] ==> match kind_check(info, T::kind_value()) {
                    Err(e) => r == Err::<Option<OwnedHandle<T>>, Error>(e)
                        && final(self).spec_claimed() == old(self).spec_claimed(),
                    Ok(_) => (r matches Ok(Some(h)) && h@ == old(self).spec_records()[i].handle)
                        && final(self).spec_claimed() == old(self).spec_claimed().update(i, true),
                }
            }),
    {
        proof {
            use_type_invariant(&*self);
        }
        if purpose.as_raw() == 0 {
            return Err(Error::InvalidStartup);
        }
        let (index, raw) = match self.find(purpose.as_raw()) {
            Some(found) => found,
            None => {
                return Ok(None);
            },
        };
        if self.claimed[index] {
            return Err(Error::InvalidStartup);
        }
        let info = match info {
            Ok(info) => info,
            Err(e) => {
                return Err(e);
            },
        };
        let expected = T::kind();
        if info.kind.as_raw() != expected.as_raw() {
            return Err(
                Error::UnexpectedObjectKind {
                    expected: expected.as_raw(),
                    actual: info.kind.as_raw(),
                },
            );
        }
        let mut claimed = self.claimed.clone();
        claimed.set(index, true);
        self.claimed = claimed;
        Ok(Some(OwnedHandle::from_raw_owned(raw)))
    }

    /// Moves one typed startup capability out exactly once; a missing
    /// purpose is rejected.
    pub fn take<T: TypedObject>(&mut self, purpose: StartupPurpose<T>, info: Result<
        HandleInfo,
        Error,
    >) -> (r: Result<OwnedHandle<T>, Error>)
        ensures
            final(self).spec_records() == old(self).spec_records(),
            final(self).spec_argument_count() == old(self).spec_argument_count(),
            r is Ok ==> takeable(old(self).spec_records(), old(self).spec_claimed(), purpose.spec_value())
                && final(self).spec_claimed() == old(self).spec_claimed().update(
                purpose_index(old(self).spec_records(), purpose.spec_value())->0,
                true,
            ),
            !takeable(old(self).spec_records(), old(self).spec_claimed(), purpose.spec_value()) ==> r is Err
                && final(self).spec_claimed() == old(self).spec_claimed(),
            purpose.spec_value() == 0 || purpose_index(old(self).spec_records(), purpose.spec_value())
                is None ==> r == Err::<OwnedHandle<T>, Error>(Error::InvalidStartup)
                && final(self).spec_claimed() == old(self).spec_claimed(),
            purpose_index(old(self).spec_records(), purpose.spec_value()) matches Some(i) ==> (purpose.spec_value()
                != 0 ==> {
                &&& old(self).spec_claimed()[i] ==> r == Err::<OwnedHandle<T>, Error>(
                    Error::InvalidStartup,
                ) && final(self).spec_claimed() == old(self).spec_claimed()
                &&& !old(self).spec_claimed()[i] ==> match kind_check(info, T::kind_value()) {
                    Err(e) => r == Err::<OwnedHandle<T>, Error>(e) && final(self).spec_claimed()
                        == old(self).spec_claimed(),
                    Ok(_) => (r matches Ok(h) && h@ == old(self).spec_records()[i].handle)
                        && final(self).spec_claimed() == old(self).spec_claimed().update(i, true),
                }
            }),
    {
        match self.take_optional(purpose, info) {
            Ok(Some(handle)) => Ok(handle),
            Ok(None) => Err(Error::InvalidStartup),
            Err(e) => Err(e),
        }
    }

    /// Borrows one typed startup capability without moving its ownership,
    /// given the metadata queried for its handle.
    pub fn borrow<T: TypedObject>(&self, purpose: StartupPurpose<T>, info: Result<
        HandleInfo,
        Error,
    >) -> (r: Result<HandleRef<'_, T>, Error>)
        ensures
            purpose.spec_value() == 0 || purpose_index(self.spec_records(), purpose.spec_value())
                is None ==> (r matches Err(Error::InvalidStartup)),
            purpose_index(self.spec_records(), purpose.spec_value()) matches Some(i) ==> (purpose.spec_value()
                != 0 ==> {
                &&& self.spec_claimed()[i] ==> (r matches Err(Error::InvalidStartup))
                &&& !self.spec_claimed()[i] ==> match kind_check(info, T::kind_value()) {
                    Err(e) => (r matches Err(f) && f == e),
                    Ok(_) => (r matches Ok(h) && h@ == self.spec_records()[i].handle),
                }
            }),
    {
        proof {
            use_type_invariant(self);
        }
        if purpose.as_raw() == 0 {
            return Err(Error::InvalidStartup);
        }
        let (index, raw) = match self.find(purpose.as_raw()) {
            Some(found) => found,
            None => {
                return Err(Error::InvalidStartup);
            },
        };
        if self.claimed[index] {
            return Err(Error::InvalidStartup);
        }
        let info = match info {
            Ok(info) => info,
            Err(e) => {
                return Err(e);
            },
        };
        let expected = T::kind();
        if info.kind.as_raw() != expected.as_raw() {
            return Err(
                Error::UnexpectedObjectKind {
                    expected: expected.as_raw(),
                    actual: info.kind.as_raw(),
                },
            );
        }
        Ok(HandleRef::from_raw_borrowed(raw))
    }

    /// Moves the process's resource-domain authority out exactly once.
    pub fn take_resource_domain(&mut self, info: Result<HandleInfo, Error>) -> (r: Result<
        OwnedHandle<ResourceDomainObject>,
        Error,
    >)
        ensures
            final(self).spec_records() == old(self).spec_records(),
            r is Ok <==> takeable(old(self).spec_records(), old(self).spec_claimed(), 1u32)
                && kind_check(info, 6u32) is Ok,
            r matches Ok(h) ==> h@ == old(self).spec_records()[purpose_index(
                old(self).spec_records(),
                1u32,
            )->0].handle && final(self).spec_claimed() == old(self).spec_claimed().update(
                purpose_index(old(self).spec_records(), 1u32)->0,
                true,
            ),
            r matches Err(e) ==> e == take_error(
                old(self).spec_records(),
                old(self).spec_claimed(),
                1u32,
                info,
                6u32,
            ) && final(self).spec_claimed() == old(self).spec_claimed(),
    {
        self.take(StartupPurpose::new(1), info)
    }

    /// Moves the process's task-group authority out exactly once.
    pub fn take_task_group(&mut self, info: Result<HandleInfo, Error>) -> (r: Result<
        OwnedHandle<TaskGroupObject>,
        Error,
    >)
        ensures
            final(self).spec_records() == old(self).spec_records(),
            r is Ok <==> takeable(old(self).spec_records(), old(self).spec_claimed(), 2u32)
                && kind_check(info, 5u32) is Ok,
            r matches Ok(h) ==> h@ == old(self).spec_records()[purpose_index(
                old(self).spec_records(),
                2u32,
            )->0].handle && final(self).spec_claimed() == old(self).spec_claimed().update(
                purpose_index(old(self).spec_records(), 2u32)->0,
                true,
            ),
            r matches Err(e) ==> e == take_error(
                old(self).spec_records(),
                old(self).spec_claimed(),
                2u32,
                info,
                5u32,
            ) && final(self).spec_claimed() == old(self).spec_claimed(),
    {
        self.take(StartupPurpose::new(2), info)
    }

    /// Moves the process's task-factory authority out exactly once.
    pub fn take_task_factory(&mut self, info: Result<HandleInfo, Error>) -> (r: Result<
        OwnedHandle<TaskFactoryObject>,
        Error,
    >)
        ensures
            final(self).spec_records() == old(self).spec_records(),
            r is Ok <==> takeable(old(self).spec_records(), old(self).spec_claimed(), 3u32)
                && kind_check(info, 7u32) is Ok,
            r matches Ok(h) ==> h@ == old(self).spec_records()[purpose_index(
                old(self).spec_records(),
                3u32,
            )->0].handle && final(self).spec_claimed() == old(self).spec_claimed().update(
                purpose_index(old(self).spec_records(), 3u32)->0,
                true,
            ),
            r matches Err(e) ==> e == take_error(
                old(self).spec_records(),
                old(self).spec_claimed(),
                3u32,
                info,
                7u32,
            ) && final(self).spec_claimed() == old(self).spec_claimed(),
    {
        self.take(StartupPurpose::new(3), info)
    }

    /// Moves the process's console capability out exactly once.
    pub fn take_console(&mut self, info: Result<HandleInfo, Error>) -> (r: Result<
        OwnedHandle<ConsoleObject>,
        Error,
    >)
        ensures
            final(self).spec_records() == old(self).spec_records(),
            r is Ok <==> takeable(old(self).spec_records(), old(self).spec_claimed(), 6u32)
                && kind_check(info, 11u32) is Ok,
            r matches Ok(h) ==> h@ == old(self).spec_records()[purpose_index(
                old(self).spec_records(),
                6u32,
            )->0].handle && final(self).spec_claimed() == old(self).spec_claimed().update(
                purpose_index(old(self).spec_records(), 6u32)->0,
                true,
            ),
            r matches Err(e) ==> e == take_error(
                old(self).spec_records(),
                old(self).spec_claimed(),
                6u32,
                info,
                11u32,
            ) && final(self).spec_claimed() == old(self).spec_claimed(),
    {
        self.take(StartupPurpose::new(6), info)
    }

    /// Moves the initial root-directory authority out exactly once.
    pub fn take_root_directory(&mut self, info: Result<HandleInfo, Error>) -> (r: Result<
        Directory,
        Error,
    >)
        ensures
            final(self).spec_records() == old(self).spec_records(),
            r is Ok <==> takeable(old(self).spec_records(), old(self).spec_claimed(), 7u32)
                && kind_check(info, 12u32) is Ok,
            r matches Ok(h) ==> h.handle()@ == old(self).spec_records()[purpose_index(
                old(self).spec_records(),
                7u32,
            )->0].handle && final(self).spec_claimed() == old(self).spec_claimed().update(
                purpose_index(old(self).spec_records(), 7u32)->0,
                true,
            ),
            r matches Err(e) ==> e == take_error(
                old(self).spec_records(),
                old(self).spec_claimed(),
                7u32,
                info,
                12u32,
            ) && final(self).spec_claimed() == old(self).spec_claimed(),
    {
        match self.take(StartupPurpose::<DirectoryObject>::new(7), info) {
            Ok(handle) => Ok(Directory::from_handle(handle)),
            Err(e) => Err(e),
        }
    }
}

} // verus!
