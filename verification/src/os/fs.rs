//! Owned access to capability-relative filesystem objects: identities,
//! rights narrowing, and validation of every filesystem result.

pub mod metadata;

use vstd::prelude::*;
use vstd::string::StringSliceAdditionalSpecFns;
use vstd::utf8::valid_utf8;
use crate::abi::{
    HYPER_NATIVE_DIRECTORY_INFO_MIN_SIZE,
    HYPER_NATIVE_FILE_INFO_MIN_SIZE,
    HYPER_NATIVE_STATUS_OK,
    HyperNativeDirectoryEntry,
    HYPER_NATIVE_RIGHT_DUPLICATE,
    HYPER_NATIVE_RIGHT_EXECUTE,
    HYPER_NATIVE_RIGHT_INSPECT,
    HYPER_NATIVE_RIGHT_READ,
    HYPER_NATIVE_RIGHT_TRANSFER,
    HYPER_NATIVE_RIGHT_WRITE,
    HyperNativeDirectoryInfo,
    HyperNativeFileInfo,
};
use crate::os::error::Error;
use crate::os::inspect::utf8_text;
use crate::os::handle::{bits_contain, DirectoryObject, FileObject, HandleRef, OwnedHandle, Rights};
use crate::os::status::{info_result, validate_info_result, CallResult, Status};

verus! {

/// Longest accepted path, in bytes.
pub const MAX_PATH_BYTES: usize = 4096;

/// Longest directory-entry name, in bytes.
pub const MAX_NAME_BYTES: usize = 255;

/// Largest transfer of one file read or write.
pub const MAX_READ_BYTES: usize = 65536;

/// Entries in one directory page.
pub const DIRECTORY_PAGE_CAPACITY: usize = 4;

// ---------------------------------------------------------------------------
// Identities.

/// Stable identity of one mounted filesystem instance (never zero).
#[derive(Clone, Copy, Debug, Eq, Hash, PartialEq, Structural)]
pub struct FilesystemId(u64);

impl View for FilesystemId {
    type V = u64;

    closed spec fn view(&self) -> u64 {
        self.0
    }
}

impl FilesystemId {
    pub fn get(self) -> (r: u64)
        ensures
            r == self@,
    {
        self.0
    }
}

/// Stable identity of one mount in a process-visible namespace (never zero).
#[derive(Clone, Copy, Debug, Eq, Hash, PartialEq, Structural)]
pub struct MountId(u64);

impl View for MountId {
    type V = u64;

    closed spec fn view(&self) -> u64 {
        self.0
    }
}

impl MountId {
    pub fn get(self) -> (r: u64)
        ensures
            r == self@,
    {
        self.0
    }
}

/// Stable identity of one node within its filesystem instance; zero is valid.
#[derive(Clone, Copy, Debug, Eq, Hash, PartialEq, Structural)]
pub struct NodeId(u64);

impl View for NodeId {
    type V = u64;

    closed spec fn view(&self) -> u64 {
        self.0
    }
}

impl NodeId {
    pub fn get(self) -> (r: u64)
        ensures
            r == self@,
    {
        self.0
    }
}

/// Namespace location identity reported for one opened filesystem object.
#[derive(Clone, Copy, Debug, Eq, Hash, PartialEq, Structural)]
pub struct NodeLocation {
    filesystem: FilesystemId,
    mount: MountId,
    node: NodeId,
}

impl View for NodeLocation {
    type V = (u64, u64, u64);

    /// Filesystem, mount and node identities.
    closed spec fn view(&self) -> (u64, u64, u64) {
        (self.filesystem@, self.mount@, self.node@)
    }
}

impl NodeLocation {
    pub fn filesystem(self) -> (r: FilesystemId)
        ensures
            r@ == self@.0,
    {
        self.filesystem
    }

    pub fn mount(self) -> (r: MountId)
        ensures
            r@ == self@.1,
    {
        self.mount
    }

    pub fn node(self) -> (r: NodeId)
        ensures
            r@ == self@.2,
    {
        self.node
    }
}

/// Immutable metadata for one opened File object.
#[derive(Clone, Copy, Debug, Eq, PartialEq, Structural)]
pub struct FileInfo {
    location: NodeLocation,
    size: u64,
    mode: u32,
}

impl FileInfo {
    pub closed spec fn spec_location(self) -> (u64, u64, u64) {
        self.location@
    }

    pub closed spec fn spec_size(self) -> u64 {
        self.size
    }

    pub closed spec fn spec_mode(self) -> u32 {
        self.mode
    }

    pub fn location(self) -> (r: NodeLocation)
        ensures
            r@ == self.spec_location(),
    {
        self.location
    }

    pub fn size(self) -> (r: u64)
        ensures
            r == self.spec_size(),
    {
        self.size
    }

    pub fn mode(self) -> (r: u32)
        ensures
            r == self.spec_mode(),
    {
        self.mode
    }
}

/// Immutable metadata for one opened Directory object.
#[derive(Clone, Copy, Debug, Eq, PartialEq, Structural)]
pub struct DirectoryInfo {
    location: NodeLocation,
    mode: u32,
}

impl DirectoryInfo {
    pub closed spec fn spec_location(self) -> (u64, u64, u64) {
        self.location@
    }

    pub closed spec fn spec_mode(self) -> u32 {
        self.mode
    }

    pub fn location(self) -> (r: NodeLocation)
        ensures
            r@ == self.spec_location(),
    {
        self.location
    }

    pub fn mode(self) -> (r: u32)
        ensures
            r == self.spec_mode(),
    {
        self.mode
    }
}

/// A location needs a nonzero filesystem and mount identity.
pub fn decode_location(filesystem_id: u64, mount_id: u64, node_id: u64) -> (r: Result<
    NodeLocation,
    Error,
>)
    ensures
        r is Ok <==> filesystem_id != 0 && mount_id != 0,
        r matches Ok(location) ==> location@ == (filesystem_id, mount_id, node_id),
        r matches Err(e) ==> e == Error::InvalidResponse,
{
    if filesystem_id == 0 || mount_id == 0 {
        return Err(Error::InvalidResponse);
    }
    Ok(
        NodeLocation {
            filesystem: FilesystemId(filesystem_id),
            mount: MountId(mount_id),
            node: NodeId(node_id),
        },
    )
}

/// Decodes a file-info record: the reserved word must be clear.
pub fn decode_file_info(raw: HyperNativeFileInfo) -> (r: Result<FileInfo, Error>)
    ensures
        r is Ok <==> raw.reserved == 0 && raw.filesystem_id != 0 && raw.mount_id != 0,
        r matches Ok(info) ==> info.spec_location() == (raw.filesystem_id, raw.mount_id, raw.node_id)
            && info.spec_size() == raw.size && info.spec_mode() == raw.mode,
        r matches Err(e) ==> e == Error::InvalidResponse,
{
    if raw.reserved != 0 {
        return Err(Error::InvalidResponse);
    }
    let location = match decode_location(raw.filesystem_id, raw.mount_id, raw.node_id) {
        Ok(location) => location,
        Err(e) => {
            return Err(e);
        },
    };
    Ok(FileInfo { location, size: raw.size, mode: raw.mode })
}

/// Decodes a directory-info record: the reserved word must be clear.
pub fn decode_directory_info(raw: HyperNativeDirectoryInfo) -> (r: Result<DirectoryInfo, Error>)
    ensures
        r is Ok <==> raw.reserved == 0 && raw.filesystem_id != 0 && raw.mount_id != 0,
        r matches Ok(info) ==> info.spec_location() == (raw.filesystem_id, raw.mount_id, raw.node_id)
            && info.spec_mode() == raw.mode,
        r matches Err(e) ==> e == Error::InvalidResponse,
{
    if raw.reserved != 0 {
        return Err(Error::InvalidResponse);
    }
    let location = match decode_location(raw.filesystem_id, raw.mount_id, raw.node_id) {
        Ok(location) => location,
        Err(e) => {
            return Err(e);
        },
    };
    Ok(DirectoryInfo { location, mode: raw.mode })
}

// ---------------------------------------------------------------------------
// Rights narrowing.

/// Rights meaningful for files and directories.
pub open spec fn filesystem_rights() -> u64 {
    HYPER_NATIVE_RIGHT_READ | HYPER_NATIVE_RIGHT_WRITE | HYPER_NATIVE_RIGHT_INSPECT
        | HYPER_NATIVE_RIGHT_DUPLICATE | HYPER_NATIVE_RIGHT_TRANSFER | HYPER_NATIVE_RIGHT_EXECUTE
}

/// A rights set may be requested for a file or a directory exactly when
/// every right in it is read, write, inspect, duplicate, transfer or
/// execute; each of those six may be requested alone.
pub proof fn filesystem_rights_are_the_six_file_rights(rights: u64)
    ensures
        bits_contain(filesystem_rights(), rights) <==> rights & !(HYPER_NATIVE_RIGHT_READ
            | HYPER_NATIVE_RIGHT_WRITE | HYPER_NATIVE_RIGHT_INSPECT | HYPER_NATIVE_RIGHT_DUPLICATE
            | HYPER_NATIVE_RIGHT_TRANSFER | HYPER_NATIVE_RIGHT_EXECUTE) == 0,
        bits_contain(filesystem_rights(), HYPER_NATIVE_RIGHT_READ),
        bits_contain(filesystem_rights(), HYPER_NATIVE_RIGHT_WRITE),
        bits_contain(filesystem_rights(), HYPER_NATIVE_RIGHT_INSPECT),
        bits_contain(filesystem_rights(), HYPER_NATIVE_RIGHT_DUPLICATE),
        bits_contain(filesystem_rights(), HYPER_NATIVE_RIGHT_TRANSFER),
        bits_contain(filesystem_rights(), HYPER_NATIVE_RIGHT_EXECUTE),
{
    assert(HYPER_NATIVE_RIGHT_READ == 0x10u64 && HYPER_NATIVE_RIGHT_INSPECT == 0x08u64
        && HYPER_NATIVE_RIGHT_DUPLICATE == 0x01u64 && HYPER_NATIVE_RIGHT_TRANSFER == 0x02u64
        && HYPER_NATIVE_RIGHT_EXECUTE == 0x80u64 && HYPER_NATIVE_RIGHT_WRITE == 0x20u64)
        by (bit_vector);
    assert(((0xbbu64 & rights) == rights) <==> (rights & !0xbbu64) == 0) by (bit_vector);
    assert((0x10u64 | 0x20u64 | 0x08u64 | 0x01u64 | 0x02u64 | 0x80u64) == 0xbbu64) by (bit_vector);
    assert(0xbbu64 & 0x10u64 == 0x10u64 && 0xbbu64 & 0x20u64 == 0x20u64 && 0xbbu64 & 0x08u64
        == 0x08u64 && 0xbbu64 & 0x01u64 == 0x01u64 && 0xbbu64 & 0x02u64 == 0x02u64 && 0xbbu64
        & 0x80u64 == 0x80u64) by (bit_vector);
}

fn allowed_filesystem_rights() -> (r: u64)
    ensures
        r == filesystem_rights(),
{
    HYPER_NATIVE_RIGHT_READ | HYPER_NATIVE_RIGHT_WRITE | HYPER_NATIVE_RIGHT_INSPECT
        | HYPER_NATIVE_RIGHT_DUPLICATE | HYPER_NATIVE_RIGHT_TRANSFER | HYPER_NATIVE_RIGHT_EXECUTE
}

/// Rights which may be requested for a newly opened file.
#[derive(Clone, Copy, Debug, Eq, PartialEq, Structural)]
pub struct FileRights(Rights);

impl View for FileRights {
    type V = u64;

    closed spec fn view(&self) -> u64 {
        self.0@
    }
}

impl FileRights {
    #[verifier::type_invariant]
    spec fn within_allowlist(self) -> bool {
        bits_contain(filesystem_rights(), self.0@)
    }

    /// Narrows generic rights to those meaningful for files.
    pub fn from_rights(rights: Rights) -> (r: Option<FileRights>)
        ensures
            r is Some <==> bits_contain(filesystem_rights(), rights@),
            r matches Some(f) ==> f@ == rights@,
    {
        if (allowed_filesystem_rights() & rights.bits()) == rights.bits() {
            Some(FileRights(rights))
        } else {
            None
        }
    }

    pub fn union(self, other: FileRights) -> (r: FileRights)
        ensures
            r@ == self@ | other@,
    {
        proof {
            use_type_invariant(&self);
            use_type_invariant(&other);
            let (allowed, x, y) = (filesystem_rights(), self.0@, other.0@);
            assert((allowed & x == x && allowed & y == y) ==> allowed & (x | y) == (x | y))
                by (bit_vector);
        }
        FileRights(self.0.union(other.0))
    }

    pub fn as_rights(self) -> (r: Rights)
        ensures
            r@ == self@,
            bits_contain(filesystem_rights(), r@),
    {
        proof {
            use_type_invariant(&self);
        }
        self.0
    }
}

/// Rights which may be requested for a newly opened directory.
#[derive(Clone, Copy, Debug, Eq, PartialEq, Structural)]
pub struct DirectoryRights(Rights);

impl View for DirectoryRights {
    type V = u64;

    closed spec fn view(&self) -> u64 {
        self.0@
    }
}

impl DirectoryRights {
    #[verifier::type_invariant]
    spec fn within_allowlist(self) -> bool {
        bits_contain(filesystem_rights(), self.0@)
    }

    /// Narrows generic rights to those meaningful for directories.
    pub fn from_rights(rights: Rights) -> (r: Option<DirectoryRights>)
        ensures
            r is Some <==> bits_contain(filesystem_rights(), rights@),
            r matches Some(d) ==> d@ == rights@,
    {
        if (allowed_filesystem_rights() & rights.bits()) == rights.bits() {
            Some(DirectoryRights(rights))
        } else {
            None
        }
    }

    pub fn union(self, other: DirectoryRights) -> (r: DirectoryRights)
        ensures
            r@ == self@ | other@,
    {
        proof {
            use_type_invariant(&self);
            use_type_invariant(&other);
            let (allowed, x, y) = (filesystem_rights(), self.0@, other.0@);
            assert((allowed & x == x && allowed & y == y) ==> allowed & (x | y) == (x | y))
                by (bit_vector);
        }
        DirectoryRights(self.0.union(other.0))
    }

    pub fn as_rights(self) -> (r: Rights)
        ensures
            r@ == self@,
            bits_contain(filesystem_rights(), r@),
    {
        proof {
            use_type_invariant(&self);
        }
        self.0
    }
}

// ---------------------------------------------------------------------------
// Paths.

/// A path is nonempty, at most `MAX_PATH_BYTES` long in UTF-8, and holds no
/// NUL byte.
pub open spec fn path_valid(path: &str) -> bool {
    let bytes = path.spec_bytes();
    &&& bytes.len() != 0
    &&& bytes.len() <= MAX_PATH_BYTES
    &&& forall|i: int| 0 <= i < bytes.len() ==> #[trigger] bytes[i] != 0
}

pub fn validate_path(path: &str) -> (r: Result<(), Error>)
    ensures
        r is Ok <==> path_valid(path),
        r matches Err(e) ==> e == Error::InvalidPath,
{
    let bytes = path.as_bytes();
    if bytes.len() == 0 || bytes.len() > MAX_PATH_BYTES {
        return Err(Error::InvalidPath);
    }
    let mut i: usize = 0;
    while i < bytes.len()
        invariant
            bytes@ == path.spec_bytes(),
            i <= bytes@.len(),
            forall|k: int| 0 <= k < i ==> #[trigger] bytes@[k] != 0,
        decreases bytes@.len() - i,
    {
        if bytes[i] == 0 {
            return Err(Error::InvalidPath);
        }
        i = i + 1;
    }
    Ok(())
}


// ---------------------------------------------------------------------------
// Transfers.

/// The part of a requested transfer that one syscall carries: at most
/// `MAX_READ_BYTES`.
pub open spec fn bounded_len(len: usize) -> usize {
    if len < MAX_READ_BYTES {
        len
    } else {
        MAX_READ_BYTES
    }
}

/// Length of the prefix of a buffer that one read or write transfers.
pub fn transfer_len(len: usize) -> (r: usize)
    ensures
        r == bounded_len(len),
{
    if len < MAX_READ_BYTES {
        len
    } else {
        MAX_READ_BYTES
    }
}

/// Result metadata from one bounded `File` read.
#[derive(Clone, Copy, Debug, Eq, PartialEq, Structural)]
pub struct ReadOutcome {
    pub bytes_read: usize,
    pub file_size: u64,
}

/// What one bounded read reports: the status must be success, the count fits
/// the transferred prefix, and a nonempty read ends within the reported file
/// size without passing the end of the offset space.
pub open spec fn read_response(offset: u64, output_len: usize, result: CallResult) -> Result<
    ReadOutcome,
    Error,
> {
    if result.status != HYPER_NATIVE_STATUS_OK {
        Err(Error::Status(Status(result.status)))
    } else if result.value0 > bounded_len(output_len) || offset + result.value0 > u64::MAX || (
    result.value0 != 0 && offset + result.value0 > result.value1) {
        Err(Error::InvalidResponse)
    } else {
        Ok(ReadOutcome { bytes_read: result.value0 as usize, file_size: result.value1 })
    }
}

/// What one bounded write reports: a count within the transferred prefix and
/// an end offset no smaller than that count.
pub open spec fn write_response(input_len: usize, result: CallResult) -> Result<(usize, u64), Error> {
    if result.status != HYPER_NATIVE_STATUS_OK {
        Err(Error::Status(Status(result.status)))
    } else if result.value0 > bounded_len(input_len) || result.value1 < result.value0 {
        Err(Error::InvalidResponse)
    } else {
        Ok((result.value0 as usize, result.value1))
    }
}

/// Validates the kernel's answer to one bounded read of `output_len` bytes at
/// `offset`.
pub fn decode_read(offset: u64, output_len: usize, result: CallResult) -> (r: Result<
    ReadOutcome,
    Error,
>)
    ensures
        r == read_response(offset, output_len, result),
{
    let capacity = transfer_len(output_len);
    let checked = Status::from_raw(result.status).into_result();
    if let Err(e) = checked {
        return Err(e);
    }
    if result.value0 > capacity as u64 {
        return Err(Error::InvalidResponse);
    }
    let actual = result.value0 as usize;
    let end = match offset.checked_add(result.value0) {
        Some(end) => end,
        None => {
            return Err(Error::InvalidResponse);
        },
    };
    if actual != 0 && end > result.value1 {
        return Err(Error::InvalidResponse);
    }
    Ok(ReadOutcome { bytes_read: actual, file_size: result.value1 })
}

fn decode_write(input_len: usize, result: CallResult) -> (r: Result<(usize, u64), Error>)
    ensures
        r == write_response(input_len, result),
{
    let count = transfer_len(input_len);
    let checked = Status::from_raw(result.status).into_result();
    if let Err(e) = checked {
        return Err(e);
    }
    if result.value0 > count as u64 || result.value1 < result.value0 {
        return Err(Error::InvalidResponse);
    }
    Ok((result.value0 as usize, result.value1))
}

// ---------------------------------------------------------------------------
// Directory entries.

#[derive(Clone, Copy, Debug, Eq, PartialEq, Structural)]
pub enum DirectoryEntryKind {
    File,
    Directory,
    Symlink,
    Other,
}

/// The entry kind named by one raw kind value.
pub open spec fn entry_kind(raw: u32) -> Option<DirectoryEntryKind> {
    if raw == 1 {
        Some(DirectoryEntryKind::File)
    } else if raw == 2 {
        Some(DirectoryEntryKind::Directory)
    } else if raw == 3 {
        Some(DirectoryEntryKind::Symlink)
    } else if raw == 4 {
        Some(DirectoryEntryKind::Other)
    } else {
        None
    }
}

/// A raw entry is valid when its reserved word is clear, its name is a
/// nonempty UTF-8 string of at most `MAX_NAME_BYTES` bytes followed only by
/// zero bytes, and its kind is one of the four declared kinds.
pub open spec fn raw_entry_valid(raw: HyperNativeDirectoryEntry) -> bool {
    let len = raw.name_length as int;
    &&& raw.reserved == 0
    &&& 1 <= len <= MAX_NAME_BYTES
    &&& valid_utf8(raw.name@.subrange(0, len))
    &&& forall|i: int| len <= i < 256 ==> #[trigger] raw.name@[i] == 0
    &&& entry_kind(raw.kind) is Some
}

/// The all-zero record that fills unused page slots.
pub open spec fn raw_entry_empty(raw: HyperNativeDirectoryEntry) -> bool {
    &&& raw.size == 0
    &&& raw.mode == 0
    &&& raw.kind == 0
    &&& raw.name_length == 0
    &&& raw.reserved == 0
    &&& forall|i: int| 0 <= i < 256 ==> #[trigger] raw.name@[i] == 0
}

/// One owned directory entry validated at the syscall boundary.
#[derive(Clone, Debug, Eq, PartialEq)]
pub struct DirectoryEntry {
    name: Vec<u8>,
    kind: DirectoryEntryKind,
    mode: u32,
    size: u64,
}

impl DirectoryEntry {
    pub closed spec fn spec_name(&self) -> Seq<u8> {
        self.name@
    }

    pub closed spec fn spec_kind(&self) -> DirectoryEntryKind {
        self.kind
    }

    pub closed spec fn spec_mode(&self) -> u32 {
        self.mode
    }

    pub closed spec fn spec_size(&self) -> u64 {
        self.size
    }

    /// The validated UTF-8 name bytes without trailing storage.
    pub fn name_bytes(&self) -> (r: &[u8])
        ensures
            r@ == self.spec_name(),
    {
        self.name.as_slice()
    }

    pub fn kind(&self) -> (r: DirectoryEntryKind)
        ensures
            r == self.spec_kind(),
    {
        self.kind
    }

    pub fn mode(&self) -> (r: u32)
        ensures
            r == self.spec_mode(),
    {
        self.mode
    }

    pub fn size(&self) -> (r: u64)
        ensures
            r == self.spec_size(),
    {
        self.size
    }
}

/// `entry` carries exactly the name, kind, mode and size of `raw`.
pub open spec fn entry_matches(entry: DirectoryEntry, raw: HyperNativeDirectoryEntry) -> bool {
    &&& entry.spec_name() == raw.name@.subrange(0, raw.name_length as int)
    &&& entry_kind(raw.kind) == Some(entry.spec_kind())
    &&& entry.spec_mode() == raw.mode
    &&& entry.spec_size() == raw.size
}

fn decode_entry_kind(raw: u32) -> (r: Option<DirectoryEntryKind>)
    ensures
        r == entry_kind(raw),
{
    if raw == 1 {
        Some(DirectoryEntryKind::File)
    } else if raw == 2 {
        Some(DirectoryEntryKind::Directory)
    } else if raw == 3 {
        Some(DirectoryEntryKind::Symlink)
    } else if raw == 4 {
        Some(DirectoryEntryKind::Other)
    } else {
        None
    }
}

/// Decodes one raw entry into an owned entry.
pub fn decode_directory_entry(raw: &HyperNativeDirectoryEntry) -> (r: Result<
    DirectoryEntry,
    Error,
>)
    ensures
        r is Ok <==> raw_entry_valid(*raw),
        r matches Ok(entry) ==> entry_matches(entry, *raw),
        r matches Err(e) ==> e == Error::InvalidResponse,
{
    let length = raw.name_length as usize;
    if raw.reserved != 0 || length == 0 || length > MAX_NAME_BYTES {
        return Err(Error::InvalidResponse);
    }
    let mut name: Vec<u8> = Vec::new();
    let mut i: usize = 0;
    while i < length
        invariant
            length == raw.name_length,
            length <= MAX_NAME_BYTES,
            i <= length,
            name@ == raw.name@.subrange(0, i as int),
        decreases length - i,
    {
        name.push(raw.name[i]);
        i = i + 1;
        proof {
            assert(name@ =~= raw.name@.subrange(0, i as int));
        }
    }
    if utf8_text(name.as_slice()).is_none() {
        return Err(Error::InvalidResponse);
    }
    let mut j: usize = length;
    while j < 256
        invariant
            length == raw.name_length,
            length <= j <= 256,
            forall|k: int| length <= k < j ==> #[trigger] raw.name@[k] == 0,
        decreases 256 - j,
    {
        if raw.name[j] != 0 {
            return Err(Error::InvalidResponse);
        }
        j = j + 1;
    }
    let kind = match decode_entry_kind(raw.kind) {
        Some(kind) => kind,
        None => {
            return Err(Error::InvalidResponse);
        },
    };
    Ok(DirectoryEntry { name, kind, mode: raw.mode, size: raw.size })
}

fn raw_entry_is_empty(raw: &HyperNativeDirectoryEntry) -> (r: bool)
    ensures
        r == raw_entry_empty(*raw),
{
    if raw.size != 0 || raw.mode != 0 || raw.kind != 0 || raw.name_length != 0 || raw.reserved
        != 0 {
        return false;
    }
    let mut j: usize = 0;
    while j < 256
        invariant
            j <= 256,
            forall|k: int| 0 <= k < j ==> #[trigger] raw.name@[k] == 0,
        decreases 256 - j,
    {
        if raw.name[j] != 0 {
            return false;
        }
        j = j + 1;
    }
    true
}

/// One validated, bounded directory-enumeration page.
pub struct DirectoryPage {
    entries: Vec<DirectoryEntry>,
}

impl DirectoryPage {
    pub closed spec fn spec_entries(&self) -> Seq<DirectoryEntry> {
        self.entries@
    }

    /// The page's entries, in the kernel's order.
    pub fn entries(&self) -> (r: &[DirectoryEntry])
        ensures
            r@ == self.spec_entries(),
    {
        self.entries.as_slice()
    }
}

/// A page answer for the scan position `cursor` is well formed when it
/// reports at most a full page, continues only after a full page and never at
/// the same position, every reported record is a valid entry, and every
/// remaining slot is untouched.
pub open spec fn page_response_valid(
    result: CallResult,
    records: Seq<HyperNativeDirectoryEntry>,
    cursor: u64,
) -> bool {
    let count = result.value0;
    &&& count <= DIRECTORY_PAGE_CAPACITY
    &&& (count < DIRECTORY_PAGE_CAPACITY ==> result.value1 == 0)
    &&& (result.value1 != 0 ==> result.value1 != cursor)
    &&& forall|i: int| 0 <= i < count ==> #[trigger] raw_entry_valid(records[i])
    &&& forall|i: int| count <= i < records.len() ==> #[trigger] raw_entry_empty(records[i])
}

/// The position a page answer continues from, if any.
pub open spec fn next_cookie(result: CallResult) -> Option<u64> {
    if result.value1 == 0 {
        None
    } else {
        Some(result.value1)
    }
}

/// Decodes one directory-read answer for the scan position `cursor`.
pub fn decode_directory_page(
    result: CallResult,
    records: &[HyperNativeDirectoryEntry],
    cursor: u64,
) -> (r: Result<(DirectoryPage, Option<u64>), Error>)
    requires
        records.len() == DIRECTORY_PAGE_CAPACITY,
    ensures
        r is Ok <==> result.status == HYPER_NATIVE_STATUS_OK && page_response_valid(
            result,
            records@,
            cursor,
        ),
        r matches Ok((page, next)) ==> {
            &&& page.spec_entries().len() == result.value0
            &&& forall|i: int|
                0 <= i < result.value0 ==> #[trigger] entry_matches(
                    page.spec_entries()[i],
                    records@[i],
                )
            &&& next == next_cookie(result)
        },
        r matches Err(e) ==> if result.status != HYPER_NATIVE_STATUS_OK {
            e == Error::Status(Status(result.status))
        } else {
            e == Error::InvalidResponse
        },
{
    let checked = Status::from_raw(result.status).into_result();
    if let Err(e) = checked {
        return Err(e);
    }
    let count_raw = result.value0;
    if count_raw > DIRECTORY_PAGE_CAPACITY as u64 || (count_raw < DIRECTORY_PAGE_CAPACITY as u64
        && result.value1 != 0) || (result.value1 != 0 && result.value1 == cursor) {
        return Err(Error::InvalidResponse);
    }
    let count = count_raw as usize;
    let mut entries: Vec<DirectoryEntry> = Vec::new();
    let mut i: usize = 0;
    while i < count
        invariant
            result.status == HYPER_NATIVE_STATUS_OK,
            count == result.value0,
            count <= records@.len(),
            i <= count,
            entries@.len() == i,
            forall|k: int| 0 <= k < i ==> #[trigger] raw_entry_valid(records@[k]),
            forall|k: int| 0 <= k < i ==> #[trigger] entry_matches(entries@[k], records@[k]),
        decreases count - i,
    {
        let entry = match decode_directory_entry(&records[i]) {
            Ok(entry) => entry,
            Err(e) => {
                return Err(e);
            },
        };
        entries.push(entry);
        i = i + 1;
    }
    let mut j: usize = count;
    while j < records.len()
        invariant
            result.status == HYPER_NATIVE_STATUS_OK,
            count == result.value0,
            count <= j <= records@.len(),
            forall|k: int| count <= k < j ==> #[trigger] raw_entry_empty(records@[k]),
        decreases records@.len() - j,
    {
        if !raw_entry_is_empty(&records[j]) {
            return Err(Error::InvalidResponse);
        }
        j = j + 1;
    }
    let next = if result.value1 == 0 {
        None
    } else {
        Some(result.value1)
    };
    Ok((DirectoryPage { entries }, next))
}


// ---------------------------------------------------------------------------
// Directories.

/// Exclusive authority to resolve paths relative to one directory capability.
pub struct Directory {
    handle: OwnedHandle<DirectoryObject>,
}

/// A validated request to remove one name below a directory: the raw
/// directory handle and whether an empty directory (rather than a
/// non-directory name) is removed.
#[derive(Clone, Copy, Debug, Eq, PartialEq, Structural)]
pub struct RemoveRequest {
    pub directory: u64,
    pub remove_directory: bool,
}

/// The validated metadata of an extensible directory-info answer.
pub open spec fn directory_info_valid(raw: HyperNativeDirectoryInfo) -> bool {
    raw.reserved == 0 && raw.filesystem_id != 0 && raw.mount_id != 0
}

/// The validated metadata of an extensible file-info answer.
pub open spec fn file_info_valid(raw: HyperNativeFileInfo) -> bool {
    raw.reserved == 0 && raw.filesystem_id != 0 && raw.mount_id != 0
}

/// The handle an open of `path` below `directory` produced: the path must be
/// valid, the call must succeed, and the handle must be nonzero and distinct
/// from the directory.
pub open spec fn produced_answer(path: &str, result: CallResult, directory: u64) -> Result<u64, Error> {
    if !path_valid(path) {
        Err(Error::InvalidPath)
    } else if result.status != HYPER_NATIVE_STATUS_OK {
        Err(Error::Status(Status(result.status)))
    } else if result.value0 == 0 || result.value0 == directory {
        Err(Error::InvalidResponse)
    } else {
        Ok(result.value0)
    }
}

impl Directory {
    /// The owned directory handle.
    pub closed spec fn handle(&self) -> OwnedHandle<DirectoryObject> {
        self.handle
    }

    /// Restores directory operations from an exclusively owned typed handle.
    pub fn from_handle(handle: OwnedHandle<DirectoryObject>) -> (r: Directory)
        ensures
            r.handle() == handle,
    {
        Directory { handle }
    }

    /// Borrows the underlying directory authority for delegation.
    pub fn as_handle_ref(&self) -> (r: HandleRef<'_, DirectoryObject>)
        ensures
            r@ == self.handle()@,
    {
        self.handle.as_handle_ref()
    }

    /// Recovers the typed owner for delegation or explicit close.
    pub fn into_handle(self) -> (r: OwnedHandle<DirectoryObject>)
        ensures
            r == self.handle(),
    {
        self.handle
    }

    /// Identity and attributes of this directory, from the kernel's answer to
    /// the directory-info query.
    pub fn info(&self, result: CallResult, record: HyperNativeDirectoryInfo) -> (r: Result<
        DirectoryInfo,
        Error,
    >)
        ensures
            r is Ok <==> info_result(result, HYPER_NATIVE_DIRECTORY_INFO_MIN_SIZE) is Ok
                && directory_info_valid(record),
            r matches Ok(info) ==> info.spec_location() == (
                record.filesystem_id,
                record.mount_id,
                record.node_id,
            ) && info.spec_mode() == record.mode,
            r matches Err(e) ==> match info_result(result, HYPER_NATIVE_DIRECTORY_INFO_MIN_SIZE) {
                Err(first) => e == first,
                Ok(_) => e == Error::InvalidResponse,
            },
    {
        let checked = validate_info_result(result, HYPER_NATIVE_DIRECTORY_INFO_MIN_SIZE);
        if let Err(e) = checked {
            return Err(e);
        }
        decode_directory_info(record)
    }

    fn remove(&self, path: &str, remove_directory: bool) -> (r: Result<RemoveRequest, Error>)
        ensures
            r is Ok <==> path_valid(path),
            r matches Ok(request) ==> request.directory == self.handle()@
                && request.remove_directory == remove_directory,
            r matches Err(e) ==> e == Error::InvalidPath,
    {
        let checked = validate_path(path);
        if let Err(e) = checked {
            return Err(e);
        }
        let directory = self.as_handle_ref().raw();
        Ok(RemoveRequest { directory, remove_directory })
    }

    /// Validates the path of a removal of a non-directory name; the final
    /// symlink is not followed.
    pub fn remove_file(&self, path: &str) -> (r: Result<RemoveRequest, Error>)
        ensures
            r is Ok <==> path_valid(path),
            r matches Ok(request) ==> request.directory == self.handle()@
                && !request.remove_directory,
            r matches Err(e) ==> e == Error::InvalidPath,
    {
        self.remove(path, false)
    }

    /// Validates the path of a removal of an empty directory.
    pub fn remove_directory(&self, path: &str) -> (r: Result<RemoveRequest, Error>)
        ensures
            r is Ok <==> path_valid(path),
            r matches Ok(request) ==> request.directory == self.handle()@
                && request.remove_directory,
            r matches Err(e) ==> e == Error::InvalidPath,
    {
        self.remove(path, true)
    }

    /// Adopts the file that opening `path` produced; no call is made for an
    /// invalid path, and the new owner must not alias this directory.
    pub fn open(&self, path: &str, result: CallResult) -> (r: Result<File, Error>)
        ensures
            r is Ok <==> produced_answer(path, result, self.handle()@) is Ok,
            r matches Ok(file) ==> file.handle()@ == result.value0,
            r matches Err(e) ==> Err::<u64, Error>(e) == produced_answer(path, result, self.handle()@),
    {
        match self.adopt_produced(path, result) {
            Ok(raw) => Ok(File { handle: OwnedHandle::from_raw_owned(raw) }),
            Err(e) => Err(e),
        }
    }

    /// Adopts the child directory that opening `path` produced; no call is
    /// made for an invalid path, and the new owner must not alias this
    /// directory.
    pub fn open_directory(&self, path: &str, result: CallResult) -> (r: Result<Directory, Error>)
        ensures
            r is Ok <==> produced_answer(path, result, self.handle()@) is Ok,
            r matches Ok(d) ==> d.handle()@ == result.value0,
            r matches Err(e) ==> Err::<u64, Error>(e) == produced_answer(path, result, self.handle()@),
    {
        match self.adopt_produced(path, result) {
            Ok(raw) => Ok(Directory { handle: OwnedHandle::from_raw_owned(raw) }),
            Err(e) => Err(e),
        }
    }

    fn adopt_produced(&self, path: &str, result: CallResult) -> (r: Result<u64, Error>)
        ensures
            r == produced_answer(path, result, self.handle()@),
    {
        let checked = validate_path(path);
        if let Err(e) = checked {
            return Err(e);
        }
        let checked = Status::from_raw(result.status).into_result();
        if let Err(e) = checked {
            return Err(e);
        }
        let directory = self.as_handle_ref().raw();
        if result.value0 == 0 || result.value0 == directory {
            return Err(Error::InvalidResponse);
        }
        Ok(result.value0)
    }

    /// Starts a bounded directory scan at the first position.
    pub fn reader(&self) -> (r: DirectoryReader<'_>)
        ensures
            r.directory()@ == self.handle()@,
            r.cookie() == Some(0u64),
    {
        DirectoryReader { directory: self.as_handle_ref(), next_cookie: Some(0) }
    }
}

/// Stateful scan cursor which cannot outlive its Directory borrow.
pub struct DirectoryReader<'directory> {
    directory: HandleRef<'directory, DirectoryObject>,
    next_cookie: Option<u64>,
}

impl<'directory> DirectoryReader<'directory> {
    /// The directory being scanned.
    pub closed spec fn directory(&self) -> HandleRef<'directory, DirectoryObject> {
        self.directory
    }

    /// The position the next page is read from; `None` once the scan ended.
    pub closed spec fn cookie(&self) -> Option<u64> {
        self.next_cookie
    }

    /// The position the next directory read must start from, or `None` when
    /// the scan has ended and no further read is made.
    pub fn pending_cookie(&self) -> (r: Option<u64>)
        ensures
            r == self.cookie(),
    {
        self.next_cookie
    }

    /// Settles one page read: given the kernel's answer to the read made at
    /// the pending position, returns the page, or `None` once the scan has
    /// reached its end. After the end, every call returns `None` and ignores
    /// its arguments. A failed read leaves the position unchanged.
    pub fn next_page(&mut self, result: CallResult, records: &[HyperNativeDirectoryEntry]) -> (r:
        Result<Option<DirectoryPage>, Error>)
        requires
            records.len() == DIRECTORY_PAGE_CAPACITY,
        ensures
            final(self).directory() == old(self).directory(),
            old(self).cookie() is None ==> (r matches Ok(None)) && final(self).cookie() is None,
            old(self).cookie() matches Some(cursor) ==> {
                &&& (r is Ok <==> result.status == HYPER_NATIVE_STATUS_OK && page_response_valid(
                    result,
                    records@,
                    cursor,
                ))
                &&& (r is Ok ==> final(self).cookie() == next_cookie(result))
                &&& (r is Err ==> final(self).cookie() == old(self).cookie())
                &&& (r matches Ok(Some(page)) ==> result.value0 != 0 && page.spec_entries().len()
                    == result.value0 && forall|i: int|
                    0 <= i < result.value0 ==> #[trigger] entry_matches(
                        page.spec_entries()[i],
                        records@[i],
                    ))
                &&& (r matches Ok(None) ==> result.value0 == 0)
                &&& (r matches Err(e) ==> if result.status != HYPER_NATIVE_STATUS_OK {
                    e == Error::Status(Status(result.status))
                } else {
                    e == Error::InvalidResponse
                })
            },
    {
        let cursor = match self.next_cookie {
            Some(cursor) => cursor,
            None => {
                return Ok(None);
            },
        };
        let (page, next) = match decode_directory_page(result, records, cursor) {
            Ok(decoded) => decoded,
            Err(e) => {
                return Err(e);
            },
        };
        self.next_cookie = next;
        if page.entries.len() == 0 {
            Ok(None)
        } else {
            Ok(Some(page))
        }
    }
}

// ---------------------------------------------------------------------------
// Files.

/// Exclusive ownership of one filesystem file.
pub struct File {
    handle: OwnedHandle<FileObject>,
}

impl File {
    /// The owned file handle.
    pub closed spec fn handle(&self) -> OwnedHandle<FileObject> {
        self.handle
    }

    /// Restores file operations from an exclusively owned typed handle.
    pub fn from_handle(handle: OwnedHandle<FileObject>) -> (r: File)
        ensures
            r.handle() == handle,
    {
        File { handle }
    }

    /// Borrows the underlying file capability.
    pub fn as_handle_ref(&self) -> (r: HandleRef<'_, FileObject>)
        ensures
            r@ == self.handle()@,
    {
        self.handle.as_handle_ref()
    }

    /// Recovers the typed owner for delegation or explicit close.
    pub fn into_handle(self) -> (r: OwnedHandle<FileObject>)
        ensures
            r == self.handle(),
    {
        self.handle
    }

    /// Stable identity and attributes of this file, from the kernel's answer
    /// to the file-info query.
    pub fn info(&self, result: CallResult, record: HyperNativeFileInfo) -> (r: Result<
        FileInfo,
        Error,
    >)
        ensures
            r is Ok <==> info_result(result, HYPER_NATIVE_FILE_INFO_MIN_SIZE) is Ok
                && file_info_valid(record),
            r matches Ok(info) ==> info.spec_location() == (
                record.filesystem_id,
                record.mount_id,
                record.node_id,
            ) && info.spec_size() == record.size && info.spec_mode() == record.mode,
            r matches Err(e) ==> match info_result(result, HYPER_NATIVE_FILE_INFO_MIN_SIZE) {
                Err(first) => e == first,
                Ok(_) => e == Error::InvalidResponse,
            },
    {
        let checked = validate_info_result(result, HYPER_NATIVE_FILE_INFO_MIN_SIZE);
        if let Err(e) = checked {
            return Err(e);
        }
        decode_file_info(record)
    }

    /// Settles one bounded read of `output_len` bytes at `offset`; only the
    /// first `transfer_len(output_len)` bytes were offered to the kernel.
    pub fn read_at(&self, offset: u64, output_len: usize, result: CallResult) -> (r: Result<
        ReadOutcome,
        Error,
    >)
        ensures
            r == read_response(offset, output_len, result),
    {
        decode_read(offset, output_len, result)
    }

    /// The file size reported by an empty read at offset zero.
    pub fn size(&self, result: CallResult) -> (r: Result<u64, Error>)
        ensures
            r == match read_response(0, 0, result) {
                Ok(outcome) => Ok::<u64, Error>(outcome.file_size),
                Err(e) => Err(e),
            },
    {
        match self.read_at(0, 0, result) {
            Ok(outcome) => Ok(outcome.file_size),
            Err(e) => Err(e),
        }
    }

    /// Settles one bounded positional write of `input_len` bytes; the
    /// returned count may be short.
    pub fn write_at(&self, input_len: usize, result: CallResult) -> (r: Result<usize, Error>)
        ensures
            r == match write_response(input_len, result) {
                Ok(written) => Ok::<usize, Error>(written.0),
                Err(e) => Err(e),
            },
    {
        match decode_write(input_len, result) {
            Ok(written) => Ok(written.0),
            Err(e) => Err(e),
        }
    }

    /// Settles one bounded atomic append: the count written and the file's
    /// end offset after it.
    pub fn append(&self, input_len: usize, result: CallResult) -> (r: Result<(usize, u64), Error>)
        ensures
            r == write_response(input_len, result),
    {
        decode_write(input_len, result)
    }

    /// Starts an exact read of `expected` bytes at `offset`; the range must be
    /// representable. An empty read is complete at once.
    pub fn read_exact_at(&self, offset: u64, expected: usize) -> (r: Result<ExactRead, Error>)
        ensures
            r is Ok <==> expected == 0 || offset + expected <= u64::MAX,
            r matches Ok(read) ==> read.offset() == offset && read.expected() == expected
                && read.completed() == 0 && read.file_size() is None && !read.fixed_size(),
            r matches Err(e) ==> e == Error::OffsetOverflow,
    {
        ExactRead::new(offset, expected, false)
    }
}

/// One accepted chunk of `bytes` bytes of an exact read: the range and the
/// file size stay, and the filled prefix grows by the chunk, which was read
/// at the file offset just past the prefix filled before it.
pub open spec fn exact_read_step(before: ExactRead, after: ExactRead, bytes: int) -> bool {
    &&& after.offset() == before.offset()
    &&& after.expected() == before.expected()
    &&& after.file_size() == before.file_size()
    &&& after.fixed_size() == before.fixed_size()
    &&& 0 < bytes
    &&& after.completed() == before.completed() + bytes
}

/// The total of a sequence of chunk lengths.
pub open spec fn chunk_total(bytes: Seq<int>) -> int
    decreases bytes.len(),
{
    if bytes.len() == 0 {
        0
    } else {
        chunk_total(bytes.drop_last()) + bytes.last()
    }
}

/// An exact read that starts with nothing filled and accepts the chunks
/// `bytes` in order has filled exactly their total, each chunk having been
/// read at the read's offset plus the total of the chunks before it, and
/// the read is complete exactly when that total is the expected length.
pub proof fn exact_read_chunks_tile(states: Seq<ExactRead>, bytes: Seq<int>)
    requires
        states.len() == bytes.len() + 1,
        states[0].completed() == 0,
        forall|i: int| 0 <= i < bytes.len() ==> exact_read_step(#[trigger] states[i], states[i + 1], bytes[i]),
    ensures
        forall|i: int|
            0 <= i <= bytes.len() ==> (#[trigger] states[i]).completed() == chunk_total(bytes.take(i))
                && states[i].offset() == states[0].offset() && states[i].expected()
                == states[0].expected(),
        states.last().completed() == chunk_total(bytes),
        (states.last().completed() == states.last().expected()) <==> chunk_total(bytes)
            == states[0].expected(),
    decreases bytes.len(),
{
    if bytes.len() > 0 {
        let n = bytes.len() - 1;
        exact_read_chunks_tile(states.drop_last(), bytes.drop_last());
        assert(bytes.take(n + 1).drop_last() =~= bytes.take(n));
        assert(bytes.take(n + 1) =~= bytes);
        assert forall|i: int| 0 <= i <= bytes.len() implies (#[trigger] states[i]).completed()
            == chunk_total(bytes.take(i)) && states[i].offset() == states[0].offset()
            && states[i].expected() == states[0].expected() by {
            if i <= n {
                assert(states.drop_last()[i] == states[i]);
                assert(bytes.drop_last().take(i) =~= bytes.take(i));
            } else {
                assert(states.drop_last()[n] == states[n]);
                assert(bytes.drop_last().take(n) =~= bytes.take(n));
                assert(exact_read_step(states[n], states[n + 1], bytes[n]));
                assert(bytes.take(n + 1).drop_last() =~= bytes.take(n));
            }
        }
    } else {
        assert(bytes.take(0) =~= bytes);
    }
}

/// The bytes of a sequence of chunks, in order.
pub open spec fn concat_chunks(data: Seq<Seq<u8>>) -> Seq<u8>
    decreases data.len(),
{
    if data.len() == 0 {
        Seq::empty()
    } else {
        concat_chunks(data.drop_last()) + data.last()
    }
}

/// An exact read whose accepted chunks each copied the file's bytes at the
/// offset `next_chunk` named for it has filled its output with exactly the
/// file's bytes from the read's offset on, as many as it has filled; once
/// complete, the output is the file's bytes `offset .. offset + expected`.
#[verifier::spinoff_prover]
#[verifier::rlimit(60)]
pub proof fn exact_read_copies_the_file(states: Seq<ExactRead>, data: Seq<Seq<u8>>, content: Seq<u8>)
    requires
        states.len() == data.len() + 1,
        states[0].completed() == 0,
        forall|i: int|
            0 <= i < data.len() ==> exact_read_step(#[trigger] states[i], states[i + 1], data[i].len() as int),
        forall|i: int|
            0 <= i < data.len() ==> #[trigger] data[i] == content.subrange(
                states[i].offset() + states[i].completed(),
                states[i].offset() + states[i].completed() + data[i].len(),
            ),
        states[0].offset() + states.last().completed() <= content.len(),
    ensures
        concat_chunks(data) == content.subrange(
            states[0].offset() as int,
            states[0].offset() + states.last().completed(),
        ),
        states.last().completed() == states.last().expected() ==> concat_chunks(data)
            == content.subrange(
            states[0].offset() as int,
            states[0].offset() + states[0].expected(),
        ),
    decreases data.len(),
{
    if data.len() == 0 {
        assert(concat_chunks(data) =~= content.subrange(
            states[0].offset() as int,
            states[0].offset() + states.last().completed(),
        ));
    } else {
        let n = data.len() - 1;
        let s = states.drop_last();
        let d = data.drop_last();
        assert forall|i: int| 0 <= i < d.len() implies exact_read_step(#[trigger] s[i], s[i + 1], d[i].len() as int) by {
            assert(s[i] == states[i] && s[i + 1] == states[i + 1] && d[i] == data[i]);
            assert(exact_read_step(states[i], states[i + 1], data[i].len() as int));
        }
        assert forall|i: int| 0 <= i < d.len() implies #[trigger] d[i] == content.subrange(
            s[i].offset() + s[i].completed(),
            s[i].offset() + s[i].completed() + d[i].len(),
        ) by {
            assert(s[i] == states[i] && d[i] == data[i]);
            assert(data[i] == content.subrange(
                states[i].offset() + states[i].completed(),
                states[i].offset() + states[i].completed() + data[i].len(),
            ));
        }
        assert(exact_read_step(states[n], states[n + 1], data[n].len() as int));
        exact_read_chunks_tile(states, Seq::new(data.len(), |i: int| data[i].len() as int));
        assert(states[n].offset() == states[0].offset());
        assert(s.last() == states[n]);
        exact_read_copies_the_file(s, d, content);
        let o = states[0].offset() as int;
        let a = states[n].completed() as int;
        let b = states[n + 1].completed() as int;
        assert(data[n] == content.subrange(o + a, o + b));
        assert(content.subrange(o, o + a) + content.subrange(o + a, o + b) =~= content.subrange(o, o + b));
        assert(states[n + 1].expected() == states[0].expected());
    }
}

/// Progress of one exact read: the range `offset .. offset + expected`, the
/// length of its prefix already filled, the file size once known, and whether
/// every chunk must report that same size.
pub struct ExactRead {
    offset: u64,
    expected: usize,
    completed: usize,
    file_size: Option<u64>,
    fixed_size: bool,
}

impl ExactRead {
    #[verifier::type_invariant]
    spec fn well_formed(self) -> bool {
        &&& self.completed <= self.expected
        &&& (self.expected == 0 || self.offset + self.expected <= u64::MAX)
        &&& (self.file_size matches Some(size) ==> self.offset + self.expected <= size)
        &&& (self.completed > 0 ==> self.file_size is Some)
    }

    /// Starts an exact read of `expected` bytes at `offset`; the range must be
    /// representable. An empty read is complete at once.
    pub fn new(offset: u64, expected: usize, fixed_size: bool) -> (r: Result<ExactRead, Error>)
        ensures
            r is Ok <==> expected == 0 || offset + expected <= u64::MAX,
            r matches Ok(read) ==> read.offset() == offset && read.expected() == expected
                && read.completed() == 0 && read.file_size() is None && read.fixed_size()
                == fixed_size,
            r matches Err(e) ==> e == Error::OffsetOverflow,
    {
        if expected != 0 && offset > u64::MAX - expected as u64 {
            return Err(Error::OffsetOverflow);
        }
        Ok(ExactRead { offset, expected, completed: 0, file_size: None, fixed_size })
    }

    pub closed spec fn offset(&self) -> u64 {
        self.offset
    }

    pub closed spec fn expected(&self) -> usize {
        self.expected
    }

    pub closed spec fn completed(&self) -> usize {
        self.completed
    }

    pub closed spec fn file_size(&self) -> Option<u64> {
        self.file_size
    }

    pub closed spec fn fixed_size(&self) -> bool {
        self.fixed_size
    }

    /// Whether the file size must still be read before any chunk.
    pub fn needs_size(&self) -> (r: bool)
        ensures
            r == (self.expected() > 0 && self.file_size() is None),
    {
        self.expected > 0 && self.file_size.is_none()
    }

    /// Records the file size; a range that ends past it fails before any byte
    /// is copied.
    pub fn size_known(&mut self, file_size: u64) -> (r: Result<(), Error>)
        requires
            old(self).expected() > 0,
            old(self).file_size() is None,
        ensures
            final(self).offset() == old(self).offset(),
            final(self).expected() == old(self).expected(),
            final(self).fixed_size() == old(self).fixed_size(),
            final(self).completed() == 0,
            r is Ok <==> old(self).offset() + old(self).expected() <= file_size,
            r is Ok ==> final(self).file_size() == Some(file_size),
            r is Err ==> final(self).file_size() is None && r == Err::<(), Error>(
                Error::UnexpectedEndOfFile {
                    completed: 0,
                    expected: old(self).expected(),
                    file_size,
                },
            ),
    {
        proof {
            use_type_invariant(&*self);
        }
        let end = self.offset + self.expected as u64;
        if end > file_size {
            return Err(
                Error::UnexpectedEndOfFile { completed: 0, expected: self.expected, file_size },
            );
        }
        self.file_size = Some(file_size);
        Ok(())
    }

    /// The next chunk to read: its file offset and the index in the output
    /// buffer it fills from. `None` before the size is known or once the read
    /// is complete.
    pub fn next_chunk(&self) -> (r: Option<(u64, usize)>)
        ensures
            r is Some <==> self.file_size() is Some && self.completed() < self.expected(),
            r matches Some(chunk) ==> chunk.0 == self.offset() + self.completed() && chunk.1
                == self.completed(),
    {
        proof {
            use_type_invariant(self);
        }
        if self.file_size.is_some() && self.completed < self.expected {
            Some((self.offset + self.completed as u64, self.completed))
        } else {
            None
        }
    }

    /// Accounts for one chunk of `bytes_read` bytes read into the remaining
    /// output, whose read reported `file_size`. When the size is fixed, a
    /// chunk reporting another size is malformed; an empty chunk means the
    /// file ended early and the error reports the exact filled prefix; a chunk
    /// longer than the remaining span is malformed.
    pub fn advance(&mut self, bytes_read: usize, file_size: u64) -> (r: Result<(), Error>)
        requires
            old(self).file_size() is Some,
            old(self).completed() < old(self).expected(),
        ensures
            final(self).offset() == old(self).offset(),
            final(self).expected() == old(self).expected(),
            final(self).file_size() == old(self).file_size(),
            final(self).fixed_size() == old(self).fixed_size(),
            r is Ok <==> (!old(self).fixed_size() || file_size == old(self).file_size()->0) && 0
                < bytes_read <= old(self).expected() - old(self).completed(),
            r is Ok ==> final(self).completed() == old(self).completed() + bytes_read,
            r is Ok ==> exact_read_step(*old(self), *final(self), bytes_read as int),
            r is Err ==> final(self).completed() == old(self).completed(),
            old(self).fixed_size() && file_size != old(self).file_size()->0 ==> r == Err::<
                (),
                Error,
            >(Error::InvalidResponse),
            (!old(self).fixed_size() || file_size == old(self).file_size()->0) && bytes_read == 0
                ==> r == Err::<(), Error>(
                Error::UnexpectedEndOfFile {
                    completed: old(self).completed(),
                    expected: old(self).expected(),
                    file_size: old(self).file_size()->0,
                },
            ),
            bytes_read > old(self).expected() - old(self).completed() ==> r == Err::<(), Error>(
                Error::InvalidResponse,
            ),
    {
        proof {
            use_type_invariant(&*self);
        }
        let known = match self.file_size {
            Some(size) => size,
            None => {
                return Err(Error::InvalidResponse);
            },
        };
        if self.fixed_size && file_size != known {
            return Err(Error::InvalidResponse);
        }
        if bytes_read == 0 {
            return Err(
                Error::UnexpectedEndOfFile {
                    completed: self.completed,
                    expected: self.expected,
                    file_size: known,
                },
            );
        }
        if bytes_read > self.expected - self.completed {
            return Err(Error::InvalidResponse);
        }
        self.completed = self.completed + bytes_read;
        Ok(())
    }

    /// Whether every expected byte has been read.
    pub fn is_complete(&self) -> (r: bool)
        ensures
            r == (self.completed() == self.expected()),
    {
        self.completed == self.expected
    }
}

} // verus!
