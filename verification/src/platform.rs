//! What the operating system reports of objects, volumes and devices.

use vstd::prelude::*;

use crate::path::{units_eq, utf16_of, WidePath};

verus! {

/// Attributes that participate in copy semantics: `READONLY`, `HIDDEN`,
/// `SYSTEM`, `ARCHIVE` and `NOT_CONTENT_INDEXED`.
pub const COPYABLE_ATTRIBUTES: u32 = 0x0000_2027;

/// The copyable attributes that FAT and exFAT can represent: `READONLY`,
/// `HIDDEN`, `SYSTEM` and `ARCHIVE`.
pub const FAT_COPYABLE_ATTRIBUTES: u32 = 0x0000_0027;

/// `FILE_ATTRIBUTE_READONLY`.
pub const ATTRIBUTE_READONLY: u32 = 0x0000_0001;

/// `FILE_ATTRIBUTE_SPARSE_FILE`.
pub const ATTRIBUTE_SPARSE_FILE: u32 = 0x0000_0200;

/// `FILE_ATTRIBUTE_COMPRESSED`.
pub const ATTRIBUTE_COMPRESSED: u32 = 0x0000_0800;

/// `FILE_ATTRIBUTE_ENCRYPTED`.
pub const ATTRIBUTE_ENCRYPTED: u32 = 0x0000_4000;

/// Largest file that FAT can hold: 4 GiB minus one byte.
pub const FAT_MAXIMUM_FILE_SIZE: u64 = 0xFFFF_FFFF;

/// Identity of one filesystem object on one volume.
#[derive(Clone, Copy, Debug, PartialEq, Eq)]
pub struct FileIdentity {
    /// Volume serial number.
    pub volume_serial: u64,
    /// 128-bit file identifier.
    pub file_id: [u8; 16],
}

impl FileIdentity {
    /// Whether both values name the same object.
    pub fn same_as(&self, other: &FileIdentity) -> (same: bool)
        ensures
            same == (*self == *other),
    {
        if self.volume_serial != other.volume_serial {
            return false;
        }
        for i in 0..16usize
            invariant
                forall|j: int| 0 <= j < i ==> self.file_id[j] == other.file_id[j],
        {
            if self.file_id[i] != other.file_id[i] {
                return false;
            }
        }
        assert(self.file_id =~= other.file_id);
        true
    }
}

/// Non-following object class.
#[derive(Clone, Copy, Debug, PartialEq, Eq, Structural)]
pub enum ObjectKind {
    /// A plain file.
    File,
    /// A real directory.
    Directory,
    /// An object with a reparse point.
    Reparse,
}

/// Timestamps in FILETIME ticks and raw attributes.
#[derive(Clone, Copy, Debug, PartialEq, Eq, Structural)]
pub struct BasicMetadata {
    /// Creation time.
    pub creation_time: i64,
    /// Last-access time.
    pub last_access_time: i64,
    /// Last-write time.
    pub last_write_time: i64,
    /// Raw attributes.
    pub attributes: u32,
}

/// Handle-derived metadata of one object.
#[derive(Clone, Copy, Debug, PartialEq, Eq)]
pub struct ObjectMetadata {
    /// Identity of the object.
    pub identity: FileIdentity,
    /// Non-following class.
    pub kind: ObjectKind,
    /// Logical size of the unnamed stream.
    pub size: u64,
    /// Allocated size.
    pub allocation_size: u64,
    /// Size of the extended attributes.
    pub ea_size: u32,
    /// Timestamps and attributes.
    pub basic: BasicMetadata,
    /// Reparse tag, where the object has one.
    pub reparse_tag: Option<u32>,
}

/// One enumerated directory entry.
#[derive(Clone, Debug, PartialEq, Eq)]
pub struct DirectoryEntry {
    /// Name in its directory.
    pub name: WidePath,
    /// Absolute path.
    pub path: WidePath,
    /// Non-following metadata.
    pub metadata: ObjectMetadata,
    /// Whether the platform counts the object among cloud placeholders.
    pub cloud_placeholder: bool,
}

/// A directory entry as values.
#[verifier::ext_equal]
pub ghost struct EntryView {
    pub name: Seq<u16>,
    pub path: Seq<u16>,
    pub metadata: ObjectMetadata,
    pub cloud_placeholder: bool,
}

impl View for DirectoryEntry {
    type V = EntryView;

    open spec fn view(&self) -> EntryView {
        EntryView {
            name: self.name@,
            path: self.path@,
            metadata: self.metadata,
            cloud_placeholder: self.cloud_placeholder,
        }
    }
}

impl DirectoryEntry {
    /// An equal entry.
    pub fn copied(&self) -> (entry: DirectoryEntry)
        ensures
            entry@ == self@,
    {
        DirectoryEntry {
            name: self.name.copied(),
            path: self.path.copied(),
            metadata: self.metadata,
            cloud_placeholder: self.cloud_placeholder,
        }
    }
}

/// One data stream of an object.
#[derive(Clone, Debug, PartialEq, Eq)]
pub struct StreamInfo {
    /// Stream suffix; `::$DATA` for the unnamed stream.
    pub name: WidePath,
    /// Logical size.
    pub size: u64,
}

/// A data stream as values.
#[verifier::ext_equal]
pub ghost struct StreamView {
    pub name: Seq<u16>,
    pub size: u64,
}

impl View for StreamInfo {
    type V = StreamView;

    open spec fn view(&self) -> StreamView {
        StreamView { name: self.name@, size: self.size }
    }
}

/// The suffix of the unnamed stream.
pub open spec fn unnamed_suffix() -> Seq<u16> {
    utf16_of("::$DATA"@)
}

impl StreamView {
    /// Whether this is the unnamed stream.
    pub open spec fn is_unnamed(self) -> bool {
        self.name == unnamed_suffix()
    }
}

impl StreamInfo {
    /// The unnamed stream of the given size.
    pub fn unnamed(size: u64) -> (stream: StreamInfo)
        ensures
            stream@ == (StreamView { name: unnamed_suffix(), size }),
    {
        StreamInfo { name: WidePath::from_text("::$DATA"), size }
    }

    /// Whether this is the unnamed stream.
    pub fn is_unnamed(&self) -> (unnamed: bool)
        ensures
            unnamed == self@.is_unnamed(),
    {
        let suffix = WidePath::from_text("::$DATA");
        units_eq(self.name.units.as_slice(), suffix.units.as_slice())
    }

    /// An equal stream.
    pub fn copied(&self) -> (stream: StreamInfo)
        ensures
            stream@ == self@,
    {
        StreamInfo { name: self.name.copied(), size: self.size }
    }
}

/// Whether an attribute bit is set.
pub open spec fn has_attribute(attributes: u32, bit: u32) -> bool {
    attributes & bit != 0
}

/// Whether the attributes mark a sparse file.
pub fn is_sparse(attributes: u32) -> (sparse: bool)
    ensures
        sparse == has_attribute(attributes, ATTRIBUTE_SPARSE_FILE),
{
    attributes & ATTRIBUTE_SPARSE_FILE != 0
}

/// Whether the attributes mark a compressed file.
pub fn is_compressed(attributes: u32) -> (compressed: bool)
    ensures
        compressed == has_attribute(attributes, ATTRIBUTE_COMPRESSED),
{
    attributes & ATTRIBUTE_COMPRESSED != 0
}

/// Whether the attributes mark an encrypted file.
pub fn is_encrypted(attributes: u32) -> (encrypted: bool)
    ensures
        encrypted == has_attribute(attributes, ATTRIBUTE_ENCRYPTED),
{
    attributes & ATTRIBUTE_ENCRYPTED != 0
}

/// Whether the attributes mark a read-only file.
pub fn is_readonly(attributes: u32) -> (readonly: bool)
    ensures
        readonly == has_attribute(attributes, ATTRIBUTE_READONLY),
{
    attributes & ATTRIBUTE_READONLY != 0
}

/// The attributes without the read-only bit.
pub fn without_readonly(attributes: u32) -> (cleared: u32)
    ensures
        cleared == attributes & !ATTRIBUTE_READONLY,
{
    attributes & !ATTRIBUTE_READONLY
}

/// Filesystem families with distinct copy semantics.
#[derive(Clone, Copy, Debug, PartialEq, Eq, Structural)]
pub enum FileSystem {
    /// NTFS.
    Ntfs,
    /// ReFS.
    Refs,
    /// FAT12, FAT16 or FAT32.
    Fat,
    /// exFAT.
    ExFat,
    /// A WSL distribution behind its Plan 9 provider.
    Wsl,
    /// A remote filesystem of unknown family.
    Remote,
}

impl FileSystem {
    /// Whether the family is FAT or exFAT.
    pub open spec fn spec_is_fat_family(self) -> bool {
        self is Fat || self is ExFat
    }

    /// The largest file that the family can hold, where it has a limit.
    pub open spec fn spec_maximum_file_size(self) -> Option<u64> {
        if self is Fat {
            Some(FAT_MAXIMUM_FILE_SIZE)
        } else {
            None
        }
    }

    /// Whether the family is FAT or exFAT.
    pub fn is_fat_family(self) -> (fat: bool)
        ensures
            fat == self.spec_is_fat_family(),
    {
        matches!(self, FileSystem::Fat | FileSystem::ExFat)
    }

    /// The largest file that the family can hold, where it has a limit.
    pub fn maximum_file_size(self) -> (limit: Option<u64>)
        ensures
            limit == self.spec_maximum_file_size(),
    {
        match self {
            FileSystem::Fat => Some(FAT_MAXIMUM_FILE_SIZE),
            _ => None,
        }
    }

    /// Display name of the family.
    pub open spec fn spec_name(self) -> Seq<char> {
        match self {
            FileSystem::Ntfs => "NTFS"@,
            FileSystem::Refs => "ReFS"@,
            FileSystem::Fat => "FAT"@,
            FileSystem::ExFat => "exFAT"@,
            FileSystem::Wsl => "WSL"@,
            FileSystem::Remote => "remote"@,
        }
    }

    /// Display name of the family.
    pub fn name(self) -> (name: &'static str)
        ensures
            name@ == self.spec_name(),
    {
        match self {
            FileSystem::Ntfs => "NTFS",
            FileSystem::Refs => "ReFS",
            FileSystem::Fat => "FAT",
            FileSystem::ExFat => "exFAT",
            FileSystem::Wsl => "WSL",
            FileSystem::Remote => "remote",
        }
    }
}

/// How a root is reached.
#[derive(Clone, Copy, Debug, PartialEq, Eq, Structural)]
pub enum EndpointKind {
    /// A local volume.
    Local,
    /// A generic UNC share or mapped network path.
    Unc,
    /// A WSL distribution.
    Wsl,
}

impl EndpointKind {
    /// Display name of the access path.
    pub open spec fn spec_name(self) -> Seq<char> {
        match self {
            EndpointKind::Local => "local"@,
            EndpointKind::Unc => "UNC"@,
            EndpointKind::Wsl => "WSL"@,
        }
    }

    /// Display name of the access path.
    pub fn name(self) -> (name: &'static str)
        ensures
            name@ == self.spec_name(),
    {
        match self {
            EndpointKind::Local => "local",
            EndpointKind::Unc => "UNC",
            EndpointKind::Wsl => "WSL",
        }
    }

    /// Whether a redirector stands between this machine and the volume.
    pub open spec fn spec_is_remote(self) -> bool {
        !(self is Local)
    }

    /// Whether names are matched with exact casing.
    pub open spec fn spec_case_sensitive(self) -> bool {
        self is Wsl
    }

    /// Whether a redirector stands between this machine and the volume.
    pub fn is_remote(self) -> (remote: bool)
        ensures
            remote == self.spec_is_remote(),
    {
        !matches!(self, EndpointKind::Local)
    }

    /// Whether names are matched with exact casing.
    pub fn names_are_case_sensitive(self) -> (sensitive: bool)
        ensures
            sensitive == self.spec_case_sensitive(),
    {
        matches!(self, EndpointKind::Wsl)
    }
}

/// Features that a volume advertises.
#[derive(Clone, Copy, Debug, PartialEq, Eq, Structural)]
pub struct VolumeCapabilities {
    /// Named data streams.
    pub named_streams: bool,
    /// Extended attributes.
    pub extended_attributes: bool,
    /// Sparse allocation.
    pub sparse_files: bool,
    /// EFS encryption.
    pub encryption: bool,
    /// Reparse points.
    pub reparse_points: bool,
    /// Block cloning.
    pub block_refcounting: bool,
    /// Persistent access control lists.
    pub persistent_acls: bool,
    /// POSIX unlink and rename semantics.
    pub posix_unlink_rename: bool,
}

/// Probed facts of one volume.
#[derive(Clone, Copy, Debug, PartialEq, Eq, Structural)]
pub struct VolumeInfo {
    /// Filesystem family.
    pub filesystem: FileSystem,
    /// Advertised features.
    pub capabilities: VolumeCapabilities,
    /// Access path.
    pub endpoint: EndpointKind,
    /// Serial number.
    pub serial: u64,
}

/// Bus of a storage device.
#[derive(Clone, Copy, Debug, PartialEq, Eq, Structural)]
pub enum DeviceBus {
    /// NVMe.
    Nvme,
    /// SATA.
    Sata,
    /// USB.
    Usb,
    /// Any other bus.
    Other,
}

/// Queried facts of one device.
#[derive(Clone, Debug, PartialEq, Eq)]
pub struct DeviceInfo {
    /// Access path.
    pub endpoint: EndpointKind,
    /// Physical disks under the volume.
    pub disk_numbers: Vec<u32>,
    /// Whether seeks are costly.
    pub incurs_seek_penalty: Option<bool>,
    /// Bus of the device.
    pub bus: Option<DeviceBus>,
    /// Largest single transfer of the adapter.
    pub maximum_transfer_length: Option<u32>,
    /// Logical sector size.
    pub logical_sector: Option<u32>,
    /// Physical sector size.
    pub physical_sector: Option<u32>,
    /// Whether the write cache is on.
    pub write_cache_enabled: Option<bool>,
    /// Whether every query was answered.
    pub high_confidence: bool,
}

/// Clearing the read-only bit leaves a writable file, and changes no other bit.
pub proof fn clearing_readonly_keeps_the_rest(attributes: u32, bit: u32)
    requires
        bit & 0x0000_0001 == 0,
    ensures
        !has_attribute(attributes & !ATTRIBUTE_READONLY, ATTRIBUTE_READONLY),
        has_attribute(attributes & !ATTRIBUTE_READONLY, bit) == has_attribute(attributes, bit),
{
    assert(attributes & !0x0000_0001u32 & 0x0000_0001u32 == 0) by (bit_vector);
    assert(attributes & !0x0000_0001u32 & bit == attributes & bit) by (bit_vector)
        requires
            bit & 0x0000_0001u32 == 0,
    ;
}

/// Only a FAT volume limits the size of a file, to less than four gigabytes,
/// and every volume that does has the reduced fidelity of its family.
pub proof fn size_limit_is_of_the_fat_family(filesystem: FileSystem)
    ensures
        filesystem.spec_maximum_file_size() is Some ==> filesystem.spec_is_fat_family(),
        filesystem.spec_maximum_file_size() is Some <==> filesystem is Fat,
        filesystem.spec_maximum_file_size() matches Some(limit) ==> limit + 1 == 4 * 1024 * 1024
            * 1024,
        filesystem is Ntfs || filesystem is Refs || filesystem is Wsl || filesystem is Remote
            ==> !filesystem.spec_is_fat_family(),
        filesystem is ExFat ==> filesystem.spec_is_fat_family(),
{
}

/// Names that tell upper case from lower case are found on remote endpoints
/// only, and a local endpoint is no remote one.
pub proof fn local_names_match_by_letter(endpoint: EndpointKind)
    ensures
        endpoint.spec_case_sensitive() ==> endpoint.spec_is_remote(),
        endpoint is Local ==> !endpoint.spec_is_remote() && !endpoint.spec_case_sensitive(),
        endpoint is Unc ==> endpoint.spec_is_remote() && !endpoint.spec_case_sensitive(),
        endpoint is Wsl ==> endpoint.spec_is_remote() && endpoint.spec_case_sensitive(),
{
}

/// No two filesystems and no two endpoints are told by one name.
pub proof fn names_tell_volumes_apart(
    one: FileSystem,
    other: FileSystem,
    near: EndpointKind,
    far: EndpointKind,
)
    ensures
        one.spec_name() == other.spec_name() ==> one == other,
        near.spec_name() == far.spec_name() ==> near == far,
{
    reveal_strlit("NTFS");
    reveal_strlit("ReFS");
    reveal_strlit("FAT");
    reveal_strlit("exFAT");
    reveal_strlit("WSL");
    reveal_strlit("remote");
    reveal_strlit("local");
    reveal_strlit("UNC");
    assert("NTFS"@.len() == 4 && "NTFS"@[0] == 'N');
    assert("ReFS"@.len() == 4 && "ReFS"@[0] == 'R');
    assert("FAT"@.len() == 3 && "FAT"@[0] == 'F');
    assert("exFAT"@.len() == 5 && "exFAT"@[0] == 'e');
    assert("WSL"@.len() == 3 && "WSL"@[0] == 'W');
    assert("remote"@.len() == 6);
    assert("local"@.len() == 5 && "local"@[0] == 'l');
    assert("UNC"@.len() == 3 && "UNC"@[0] == 'U');
}

} // verus!
