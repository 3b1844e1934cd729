//! Extended filesystem contracts: metadata observations and updates,
//! link and canonical-path answers, and advisory locks.

use vstd::prelude::*;
use crate::abi::{HYPER_NATIVE_DEADLINE_INFINITE, HYPER_NATIVE_STATUS_OK};
use crate::os::error::Error;
use crate::os::fs::{
    decode_location, entry_kind, path_valid, validate_path, Directory, DirectoryEntryKind, File,
    NodeLocation,
};
use crate::os::handle::DirectoryObject;
use crate::os::status::{CallResult, Status};

verus! {

/// Nanoseconds in one second.
pub const NANOS_PER_SECOND: u32 = 1_000_000_000;

#[derive(Clone, Copy, Debug, Eq, PartialEq, Structural)]
pub enum LinkBehavior {
    Follow,
    NoFollow,
}

#[derive(Clone, Copy, Debug, Eq, PartialEq, Structural)]
pub enum OpenMode {
    Existing,
    Create,
    CreateNew,
}

#[derive(Clone, Copy, Debug, Eq, PartialEq, Structural)]
pub enum SyncScope {
    Data,
    Full,
}

#[derive(Clone, Copy, Debug, Eq, PartialEq, Structural)]
pub enum LockMode {
    Shared,
    Exclusive,
}

/// A point in time: whole seconds from the epoch, possibly negative, and the
/// nanoseconds within that second.
#[derive(Clone, Copy, Debug, Eq, PartialEq, Structural)]
pub struct Timestamp {
    seconds: i64,
    nanoseconds: u32,
}

impl View for Timestamp {
    type V = (i64, u32);

    closed spec fn view(&self) -> (i64, u32) {
        (self.seconds, self.nanoseconds)
    }
}

impl Timestamp {
    /// A timestamp, when the nanoseconds lie within one second.
    pub fn new(seconds: i64, nanoseconds: u32) -> (r: Option<Timestamp>)
        ensures
            r is Some <==> nanoseconds < NANOS_PER_SECOND,
            r matches Some(t) ==> t@ == (seconds, nanoseconds),
    {
        if nanoseconds < NANOS_PER_SECOND {
            Some(Timestamp { seconds, nanoseconds })
        } else {
            None
        }
    }

    pub fn seconds(self) -> (r: i64)
        ensures
            r == self@.0,
    {
        self.seconds
    }

    pub fn nanoseconds(self) -> (r: u32)
        ensures
            r == self@.1,
    {
        self.nanoseconds
    }
}

/// The view of an optional timestamp.
pub open spec fn time_view(t: Option<Timestamp>) -> Option<(i64, u32)> {
    match t {
        Some(t) => Some(t@),
        None => None,
    }
}

/// The kernel's file-metadata record.
#[derive(Clone, Copy, Debug, Eq, PartialEq, Structural)]
pub struct HyperNativeFileMetadata {
    pub filesystem_id: u64,
    pub mount_id: u64,
    pub node_id: u64,
    pub size: u64,
    pub mode: u32,
    pub kind: u32,
    pub valid_times: u32,
    pub reserved: u32,
    pub accessed_seconds: i64,
    pub accessed_nanoseconds: u32,
    pub accessed_reserved: u32,
    pub modified_seconds: i64,
    pub modified_nanoseconds: u32,
    pub modified_reserved: u32,
    pub created_seconds: i64,
    pub created_nanoseconds: u32,
    pub created_reserved: u32,
    pub changed_seconds: i64,
    pub changed_nanoseconds: u32,
    pub changed_reserved: u32,
}

/// The kernel's metadata-update record.
#[derive(Clone, Copy, Debug, Eq, PartialEq, Structural)]
pub struct HyperNativeFileMetadataUpdate {
    pub mask: u32,
    pub mode: u32,
    pub accessed_seconds: i64,
    pub accessed_nanoseconds: u32,
    pub accessed_reserved: u32,
    pub modified_seconds: i64,
    pub modified_nanoseconds: u32,
    pub modified_reserved: u32,
}

/// One coherent metadata observation. Missing times are unknown, not the
/// epoch.
#[derive(Clone, Copy, Debug, Eq, PartialEq, Structural)]
pub struct FileMetadata {
    pub location: NodeLocation,
    pub size: u64,
    pub mode: u32,
    pub kind: DirectoryEntryKind,
    pub accessed: Option<Timestamp>,
    pub modified: Option<Timestamp>,
    pub created: Option<Timestamp>,
    pub changed: Option<Timestamp>,
}

/// One timestamp field is valid when its reserved word is clear, and it is
/// either marked valid in `mask` with nanoseconds within a second, or
/// unmarked and entirely zero.
pub open spec fn time_valid(mask: u32, bit: u32, seconds: i64, nanos: u32, reserved: u32) -> bool {
    &&& reserved == 0
    &&& if mask & bit == 0 {
        seconds == 0 && nanos == 0
    } else {
        nanos < NANOS_PER_SECOND
    }
}

/// The time one field reports: unknown unless marked valid in `mask`.
pub open spec fn time_value(mask: u32, bit: u32, seconds: i64, nanos: u32) -> Option<(i64, u32)> {
    if mask & bit == 0 {
        None
    } else {
        Some((seconds, nanos))
    }
}

fn decode_time(mask: u32, bit: u32, seconds: i64, nanos: u32, reserved: u32) -> (r: Result<
    Option<Timestamp>,
    Error,
>)
    ensures
        r is Ok <==> time_valid(mask, bit, seconds, nanos, reserved),
        r matches Ok(t) ==> time_view(t) == time_value(mask, bit, seconds, nanos),
        r matches Err(e) ==> e == Error::InvalidResponse,
{
    if reserved != 0 {
        return Err(Error::InvalidResponse);
    }
    if mask & bit == 0 {
        return if seconds == 0 && nanos == 0 {
            Ok(None)
        } else {
            Err(Error::InvalidResponse)
        };
    }
    match Timestamp::new(seconds, nanos) {
        Some(t) => Ok(Some(t)),
        None => Err(Error::InvalidResponse),
    }
}

/// A metadata record is valid when its reserved word is clear, it marks only
/// the four declared times, it names a declared entry kind and a nonzero
/// filesystem and mount, and each time field is valid.
pub open spec fn metadata_valid(raw: HyperNativeFileMetadata) -> bool {
    &&& raw.reserved == 0
    &&& raw.valid_times & !15u32 == 0
    &&& entry_kind(raw.kind) is Some
    &&& raw.filesystem_id != 0 && raw.mount_id != 0
    &&& time_valid(raw.valid_times, 1, raw.accessed_seconds, raw.accessed_nanoseconds, raw.accessed_reserved)
    &&& time_valid(raw.valid_times, 2, raw.modified_seconds, raw.modified_nanoseconds, raw.modified_reserved)
    &&& time_valid(raw.valid_times, 4, raw.created_seconds, raw.created_nanoseconds, raw.created_reserved)
    &&& time_valid(raw.valid_times, 8, raw.changed_seconds, raw.changed_nanoseconds, raw.changed_reserved)
}

/// `m` carries exactly the observation in `raw`.
pub open spec fn metadata_matches(m: FileMetadata, raw: HyperNativeFileMetadata) -> bool {
    &&& m.location@ == (raw.filesystem_id, raw.mount_id, raw.node_id)
    &&& m.size == raw.size
    &&& m.mode == raw.mode
    &&& entry_kind(raw.kind) == Some(m.kind)
    &&& time_view(m.accessed) == time_value(raw.valid_times, 1, raw.accessed_seconds, raw.accessed_nanoseconds)
    &&& time_view(m.modified) == time_value(raw.valid_times, 2, raw.modified_seconds, raw.modified_nanoseconds)
    &&& time_view(m.created) == time_value(raw.valid_times, 4, raw.created_seconds, raw.created_nanoseconds)
    &&& time_view(m.changed) == time_value(raw.valid_times, 8, raw.changed_seconds, raw.changed_nanoseconds)
}

/// Decodes one metadata record without silently dropping any field.
pub fn decode(raw: HyperNativeFileMetadata) -> (r: Result<FileMetadata, Error>)
    ensures
        r is Ok <==> metadata_valid(raw),
        r matches Ok(m) ==> metadata_matches(m, raw),
        r matches Err(e) ==> e == Error::InvalidResponse,
{
    if raw.reserved != 0 || raw.valid_times & !15u32 != 0 {
        return Err(Error::InvalidResponse);
    }
    let kind = if raw.kind == 1 {
        DirectoryEntryKind::File
    } else if raw.kind == 2 {
        DirectoryEntryKind::Directory
    } else if raw.kind == 3 {
        DirectoryEntryKind::Symlink
    } else if raw.kind == 4 {
        DirectoryEntryKind::Other
    } else {
        return Err(Error::InvalidResponse);
    };
    let location = match decode_location(raw.filesystem_id, raw.mount_id, raw.node_id) {
        Ok(location) => location,
        Err(e) => {
            return Err(e);
        },
    };
    let accessed = match decode_time(
        raw.valid_times,
        1,
        raw.accessed_seconds,
        raw.accessed_nanoseconds,
        raw.accessed_reserved,
    ) {
        Ok(t) => t,
        Err(e) => {
            return Err(e);
        },
    };
    let modified = match decode_time(
        raw.valid_times,
        2,
        raw.modified_seconds,
        raw.modified_nanoseconds,
        raw.modified_reserved,
    ) {
        Ok(t) => t,
        Err(e) => {
            return Err(e);
        },
    };
    let created = match decode_time(
        raw.valid_times,
        4,
        raw.created_seconds,
        raw.created_nanoseconds,
        raw.created_reserved,
    ) {
        Ok(t) => t,
        Err(e) => {
            return Err(e);
        },
    };
    let changed = match decode_time(
        raw.valid_times,
        8,
        raw.changed_seconds,
        raw.changed_nanoseconds,
        raw.changed_reserved,
    ) {
        Ok(t) => t,
        Err(e) => {
            return Err(e);
        },
    };
    Ok(
        FileMetadata {
            location,
            size: raw.size,
            mode: raw.mode,
            kind,
            accessed,
            modified,
            created,
            changed,
        },
    )
}

/// A metadata change: each field that is `Some` is set, every other is kept.
#[derive(Clone, Copy, Debug, Eq, PartialEq, Structural)]
pub struct MetadataUpdate {
    pub mode: Option<u32>,
    pub accessed: Option<Timestamp>,
    pub modified: Option<Timestamp>,
}

impl Default for MetadataUpdate {
    fn default() -> (r: MetadataUpdate)
        ensures
            r.mode is None && r.accessed is None && r.modified is None,
    {
        MetadataUpdate { mode: None, accessed: None, modified: None }
    }
}

impl MetadataUpdate {
    /// The update record: bit one of the mask selects the mode, bit two the
    /// access time and bit four the modification time; every unselected
    /// field is zero.
    pub fn raw(self) -> (r: HyperNativeFileMetadataUpdate)
        ensures
            r.mask == (if self.mode is Some { 1u32 } else { 0u32 }) + (if self.accessed is Some {
                2u32
            } else {
                0u32
            }) + (if self.modified is Some { 4u32 } else { 0u32 }),
            r.mode == match self.mode {
                Some(mode) => mode,
                None => 0u32,
            },
            (r.accessed_seconds, r.accessed_nanoseconds) == match self.accessed {
                Some(t) => t@,
                None => (0i64, 0u32),
            },
            (r.modified_seconds, r.modified_nanoseconds) == match self.modified {
                Some(t) => t@,
                None => (0i64, 0u32),
            },
            r.accessed_reserved == 0 && r.modified_reserved == 0,
    {
        let mut mask: u32 = 0;
        let mut mode: u32 = 0;
        let mut accessed_seconds: i64 = 0;
        let mut accessed_nanoseconds: u32 = 0;
        let mut modified_seconds: i64 = 0;
        let mut modified_nanoseconds: u32 = 0;
        if let Some(m) = self.mode {
            mask = mask + 1;
            mode = m;
        }
        if let Some(t) = self.accessed {
            mask = mask + 2;
            accessed_seconds = t.seconds();
            accessed_nanoseconds = t.nanoseconds();
        }
        if let Some(t) = self.modified {
            mask = mask + 4;
            modified_seconds = t.seconds();
            modified_nanoseconds = t.nanoseconds();
        }
        HyperNativeFileMetadataUpdate {
            mask,
            mode,
            accessed_seconds,
            accessed_nanoseconds,
            accessed_reserved: 0,
            modified_seconds,
            modified_nanoseconds,
            modified_reserved: 0,
        }
    }
}

/// The length a link or canonical-path answer reports for an output of
/// `output_len` bytes.
pub open spec fn path_answer(path: &str, output_len: usize, result: CallResult) -> Result<usize, Error> {
    if !path_valid(path) {
        Err(Error::InvalidPath)
    } else if result.status != HYPER_NATIVE_STATUS_OK {
        Err(Error::Status(Status(result.status)))
    } else if result.value0 > output_len {
        Err(Error::InvalidResponse)
    } else {
        Ok(result.value0 as usize)
    }
}

fn path_output(path: &str, output_len: usize, result: CallResult) -> (r: Result<usize, Error>)
    ensures
        r == path_answer(path, output_len, result),
{
    let checked = validate_path(path);
    if let Err(e) = checked {
        return Err(e);
    }
    let checked = Status::from_raw(result.status).into_result();
    if let Err(e) = checked {
        return Err(e);
    }
    if result.value0 > output_len as u64 {
        return Err(Error::InvalidResponse);
    }
    Ok(result.value0 as usize)
}

impl Directory {
    /// The length of the link target written for `path` into an output of
    /// `output_len` bytes; no call is made for an invalid path.
    pub fn read_link(&self, path: &str, output_len: usize, result: CallResult) -> (r: Result<
        usize,
        Error,
    >)
        ensures
            r == path_answer(path, output_len, result),
    {
        path_output(path, output_len, result)
    }

    /// The length of the canonical path written for `path` into an output of
    /// `output_len` bytes; no call is made for an invalid path.
    pub fn canonicalize(&self, path: &str, output_len: usize, result: CallResult) -> (r: Result<
        usize,
        Error,
    >)
        ensures
            r == path_answer(path, output_len, result),
    {
        path_output(path, output_len, result)
    }
}

/// One advisory-lock call: the file, whether the lock is exclusive, and the
/// absolute deadline of the wait.
#[derive(Clone, Copy, Debug, Eq, PartialEq, Structural)]
pub struct LockRequest {
    pub file: u64,
    pub exclusive: bool,
    pub deadline: u64,
}

impl File {
    /// The advisory-lock call that waits until `deadline`, or indefinitely
    /// when there is none. A contended upgrade keeps the shared grant.
    pub fn lock(&self, mode: LockMode, deadline: Option<u64>) -> (r: LockRequest)
        ensures
            r.file == self.handle()@,
            r.exclusive == (mode == LockMode::Exclusive),
            r.deadline == match deadline {
                Some(d) => d,
                None => HYPER_NATIVE_DEADLINE_INFINITE,
            },
    {
        let deadline = match deadline {
            Some(d) => d,
            None => HYPER_NATIVE_DEADLINE_INFINITE,
        };
        let exclusive = match mode {
            LockMode::Exclusive => true,
            LockMode::Shared => false,
        };
        LockRequest { file: self.as_handle_ref().raw(), exclusive, deadline }
    }

    /// The advisory-lock call that does not wait.
    pub fn try_lock(&self, mode: LockMode) -> (r: LockRequest)
        ensures
            r.file == self.handle()@,
            r.exclusive == (mode == LockMode::Exclusive),
            r.deadline == 0,
    {
        self.lock(mode, Some(0))
    }
}

/// The answer to a call made for `path` that reports only a status: no call
/// is made for an invalid path.
pub open spec fn path_status(path: &str, status: Status) -> Result<(), Error> {
    if !path_valid(path) {
        Err(Error::InvalidPath)
    } else if status.0 != HYPER_NATIVE_STATUS_OK {
        Err(Error::Status(status))
    } else {
        Ok(())
    }
}

fn settle_path_call(path: &str, status: Status) -> (r: Result<(), Error>)
    ensures
        r == path_status(path, status),
{
    let checked = validate_path(path);
    if let Err(e) = checked {
        return Err(e);
    }
    if status.0 != HYPER_NATIVE_STATUS_OK {
        return Err(Error::Status(status));
    }
    Ok(())
}

/// The open-options word: the open mode in the low bits, and bit four for
/// truncation.
pub open spec fn open_options_word(mode: OpenMode, truncate: bool) -> u32 {
    ((match mode {
        OpenMode::Existing => 0u32,
        OpenMode::Create => 1u32,
        OpenMode::CreateNew => 2u32,
    }) + if truncate {
        4u32
    } else {
        0u32
    }) as u32
}

/// Encodes the options of an open.
pub fn open_options(mode: OpenMode, truncate: bool) -> (r: u32)
    ensures
        r == open_options_word(mode, truncate),
{
    let base: u32 = match mode {
        OpenMode::Existing => 0,
        OpenMode::Create => 1,
        OpenMode::CreateNew => 2,
    };
    if truncate {
        base + 4
    } else {
        base
    }
}

impl Directory {
    /// Settles the creation of one directory, whose parent must exist.
    pub fn create_directory(&self, path: &str, status: Status) -> (r: Result<(), Error>)
        ensures
            r == path_status(path, status),
    {
        settle_path_call(path, status)
    }

    /// Adopts the file that an exclusive create of `path` produced.
    pub fn create_file(&self, path: &str, result: CallResult) -> (r: Result<File, Error>)
        ensures
            r is Ok <==> crate::os::fs::produced_answer(path, result, self.handle()@) is Ok,
            r matches Ok(file) ==> file.handle()@ == result.value0,
            r matches Err(e) ==> Err::<u64, Error>(e) == crate::os::fs::produced_answer(
                path,
                result,
                self.handle()@,
            ),
    {
        self.open(path, result)
    }

    /// Adopts the file an open of `path` with explicit options produced.
    pub fn open_with_options(&self, path: &str, result: CallResult) -> (r: Result<File, Error>)
        ensures
            r is Ok <==> crate::os::fs::produced_answer(path, result, self.handle()@) is Ok,
            r matches Ok(file) ==> file.handle()@ == result.value0,
            r matches Err(e) ==> Err::<u64, Error>(e) == crate::os::fs::produced_answer(
                path,
                result,
                self.handle()@,
            ),
    {
        self.open(path, result)
    }

    /// Adopts the child directory an open of `path` that does not follow a
    /// final symlink produced.
    pub fn open_directory_nofollow(&self, path: &str, result: CallResult) -> (r: Result<
        Directory,
        Error,
    >)
        ensures
            r is Ok <==> crate::os::fs::produced_answer(path, result, self.handle()@) is Ok,
            r matches Ok(d) ==> d.handle()@ == result.value0,
            r matches Err(e) ==> Err::<u64, Error>(e) == crate::os::fs::produced_answer(
                path,
                result,
                self.handle()@,
            ),
    {
        self.open_directory(path, result)
    }

    /// Adopts the cursor that scoping `start` below this directory
    /// produced: it must alias neither source directory.
    pub fn scope_at(&self, start: &Directory, result: CallResult) -> (r: Result<Directory, Error>)
        ensures
            r is Ok <==> result.status == HYPER_NATIVE_STATUS_OK && result.value0 != 0
                && result.value0 != self.handle()@ && result.value0 != start.handle()@,
            r matches Ok(d) ==> d.handle()@ == result.value0,
            r matches Err(e) ==> if result.status != HYPER_NATIVE_STATUS_OK {
                e == Error::Status(Status(result.status))
            } else {
                e == Error::InvalidResponse
            },
    {
        let checked = Status::from_raw(result.status).into_result();
        if let Err(e) = checked {
            return Err(e);
        }
        let excluded = [self.as_handle_ref().raw(), start.as_handle_ref().raw()];
        match crate::os::handle::adopt_produced_handle_excluding::<DirectoryObject>(
            result.value0,
            &excluded,
        ) {
            Ok(handle) => {
                proof {
                    assert(excluded@.contains(excluded@[0]) && excluded@.contains(excluded@[1]));
                }
                Ok(Directory::from_handle(handle))
            },
            Err(e) => {
                proof {
                    if result.value0 != 0 && result.value0 != excluded@[0] && result.value0
                        != excluded@[1] {
                        assert forall|k: int| 0 <= k < excluded@.len() implies excluded@[k]
                            != result.value0 by {}
                    }
                }
                Err(e)
            },
        }
    }

    /// Settles a rename of `path` to `new_path` below `destination`; no call
    /// is made unless both paths are valid.
    pub fn rename(&self, path: &str, destination: &Directory, new_path: &str, status: Status) -> (r:
        Result<(), Error>)
        ensures
            r == if !path_valid(path) || !path_valid(new_path) {
                Err::<(), Error>(Error::InvalidPath)
            } else {
                path_status(new_path, status)
            },
    {
        let checked = validate_path(path);
        if let Err(e) = checked {
            return Err(e);
        }
        settle_path_call(new_path, status)
    }

    /// Settles a hard link of the regular file `path` as `new_path` below
    /// `destination`; the source's final symlink is not followed.
    pub fn hard_link(&self, path: &str, destination: &Directory, new_path: &str, status: Status)
        -> (r: Result<(), Error>)
        ensures
            r == if !path_valid(path) || !path_valid(new_path) {
                Err::<(), Error>(Error::InvalidPath)
            } else {
                path_status(new_path, status)
            },
    {
        let checked = validate_path(path);
        if let Err(e) = checked {
            return Err(e);
        }
        settle_path_call(new_path, status)
    }

    /// Settles the creation of a symlink at `path` that points at `target`.
    pub fn symlink(&self, target: &str, path: &str, status: Status) -> (r: Result<(), Error>)
        ensures
            r == if !path_valid(path) || !path_valid(target) {
                Err::<(), Error>(Error::InvalidPath)
            } else {
                path_status(path, status)
            },
    {
        let checked = validate_path(path);
        if let Err(e) = checked {
            return Err(e);
        }
        settle_path_call(target, status)
    }

    /// Settles the removal of `path` only while it still names the observed
    /// node; a replaced name reports the kernel's busy status.
    pub fn remove_if(&self, path: &str, status: Status) -> (r: Result<(), Error>)
        ensures
            r == path_status(path, status),
    {
        settle_path_call(path, status)
    }

    /// Settles a metadata update of `path`; no call is made for an invalid
    /// path.
    pub fn set_metadata(&self, path: &str, status: Status) -> (r: Result<(), Error>)
        ensures
            r == path_status(path, status),
    {
        settle_path_call(path, status)
    }
}

impl File {
    /// Settles a metadata update of this file.
    pub fn set_metadata(&self, status: Status) -> (r: Result<(), Error>)
        ensures
            r is Ok <==> status.0 == HYPER_NATIVE_STATUS_OK,
            r is Err ==> r == Err::<(), Error>(Error::Status(status)),
    {
        status.into_result()
    }

    /// Settles a change of the file length; an extension reads as zero.
    pub fn resize(&self, status: Status) -> (r: Result<(), Error>)
        ensures
            r is Ok <==> status.0 == HYPER_NATIVE_STATUS_OK,
            r is Err ==> r == Err::<(), Error>(Error::Status(status)),
    {
        status.into_result()
    }

    /// Settles a sync of the scope that `sync_flag` encoded.
    pub fn sync(&self, status: Status) -> (r: Result<(), Error>)
        ensures
            r is Ok <==> status.0 == HYPER_NATIVE_STATUS_OK,
            r is Err ==> r == Err::<(), Error>(Error::Status(status)),
    {
        status.into_result()
    }

    /// Settles the release of this file's advisory lock.
    pub fn unlock(&self, status: Status) -> (r: Result<(), Error>)
        ensures
            r is Ok <==> status.0 == HYPER_NATIVE_STATUS_OK,
            r is Err ==> r == Err::<(), Error>(Error::Status(status)),
    {
        status.into_result()
    }
}

/// The durability scope flag of a sync: set for a full sync.
pub fn sync_flag(scope: SyncScope) -> (r: u32)
    ensures
        r == if scope == SyncScope::Full {
            1u32
        } else {
            0u32
        },
{
    match scope {
        SyncScope::Full => 1,
        SyncScope::Data => 0,
    }
}

} // verus!
