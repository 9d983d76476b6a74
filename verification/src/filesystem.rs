//! Endpoint and filesystem policy.
//!
//! Filesystems do not represent the same metadata. This module is the only
//! place where source semantics are projected onto a destination filesystem:
//! NTFS and ReFS comparisons stay exact, FAT-family comparisons accept only
//! timestamp quantization, and WSL or unknown remote providers receive only
//! the last-write time.

use vstd::prelude::*;

use crate::platform::{
    BasicMetadata, EndpointKind, FileSystem, VolumeCapabilities, VolumeInfo, COPYABLE_ATTRIBUTES,
    FAT_COPYABLE_ATTRIBUTES,
};

verus! {

/// FILETIME ticks in one millisecond.
pub const FILETIME_TICKS_PER_MILLISECOND: u64 = 10_000;

/// FILETIME ticks in one second.
pub const FILETIME_TICKS_PER_SECOND: u64 = 10_000_000;

/// Copy and verification policy derived once from both endpoint volumes.
#[derive(Clone, Copy, Debug, PartialEq, Eq, Structural)]
pub struct FilesystemPolicy {
    /// Destination filesystem family.
    pub filesystem: FileSystem,
    /// Destination features.
    pub capabilities: VolumeCapabilities,
    /// Destination access path.
    pub endpoint: EndpointKind,
    /// Whether the source reports only the last-write time faithfully.
    pub source_projects_basic: bool,
}

/// The distance between two timestamps.
pub open spec fn ticks_apart(left: int, right: int) -> int {
    if left >= right {
        left - right
    } else {
        right - left
    }
}

/// Whether two timestamps fall within one representable interval: equal where
/// there is no quantum, otherwise less than one quantum apart.
pub open spec fn spec_timestamp_equal(left: int, right: int, quantum: Option<u64>) -> bool {
    match quantum {
        None => left == right,
        Some(quantum) => ticks_apart(left, right) < quantum,
    }
}

/// Whether two timestamps denote the same representable time.
pub fn timestamp_equal(left: i64, right: i64, quantum: Option<u64>) -> (same: bool)
    ensures
        same == spec_timestamp_equal(left as int, right as int, quantum),
{
    match quantum {
        None => left == right,
        Some(quantum) => {
            let apart: i128 = if left >= right {
                left as i128 - right as i128
            } else {
                right as i128 - left as i128
            };
            apart < quantum as i128
        },
    }
}

impl FilesystemPolicy {
    /// Whether only last-write time crosses between the two endpoints.
    pub open spec fn spec_basic_is_projected(self) -> bool {
        self.source_projects_basic || self.filesystem is Wsl || self.filesystem is Remote
    }

    /// The attributes that take part in copying and comparing.
    pub open spec fn spec_attribute_mask(self) -> u32 {
        if self.spec_basic_is_projected() {
            0
        } else if self.filesystem.spec_is_fat_family() {
            FAT_COPYABLE_ATTRIBUTES
        } else {
            COPYABLE_ATTRIBUTES
        }
    }

    /// Granularity of the creation time.
    pub open spec fn spec_creation_quantum(self) -> Option<u64> {
        if self.filesystem.spec_is_fat_family() {
            Some(100_000u64)
        } else {
            None
        }
    }

    /// Granularity of the last-write time.
    pub open spec fn spec_last_write_quantum(self) -> Option<u64> {
        match self.filesystem {
            FileSystem::Fat => Some(20_000_000u64),
            FileSystem::ExFat => Some(100_000u64),
            _ => None,
        }
    }

    /// Granularity of the last-access time.
    pub open spec fn spec_last_access_quantum(self) -> Option<u64> {
        match self.filesystem {
            FileSystem::Fat => Some(864_000_000_000u64),
            FileSystem::ExFat => Some(20_000_000u64),
            _ => None,
        }
    }

    /// Whether last-write values denote the same destination time.
    pub open spec fn spec_last_write_equal(self, source: int, destination: int) -> bool {
        spec_timestamp_equal(source, destination, self.spec_last_write_quantum())
    }

    /// Whether creation values denote the same destination time.
    pub open spec fn spec_creation_equal(self, source: int, destination: int) -> bool {
        self.spec_basic_is_projected() || spec_timestamp_equal(
            source,
            destination,
            self.spec_creation_quantum(),
        )
    }

    /// Whether last-access values denote the same destination time.
    pub open spec fn spec_last_access_equal(self, source: int, destination: int) -> bool {
        self.spec_basic_is_projected() || spec_timestamp_equal(
            source,
            destination,
            self.spec_last_access_quantum(),
        )
    }

    /// Whether attributes match after projection.
    pub open spec fn spec_attributes_equal(self, source: u32, destination: u32) -> bool {
        source & self.spec_attribute_mask() == destination & self.spec_attribute_mask()
    }

    /// Metadata as the destination can represent it. A timestamp of zero
    /// leaves the destination's own value in place.
    pub open spec fn spec_project_basic(self, metadata: BasicMetadata) -> BasicMetadata {
        BasicMetadata {
            creation_time: if self.spec_basic_is_projected() {
                0
            } else {
                metadata.creation_time
            },
            last_access_time: if self.spec_basic_is_projected() {
                0
            } else {
                metadata.last_access_time
            },
            last_write_time: metadata.last_write_time,
            attributes: metadata.attributes & self.spec_attribute_mask(),
        }
    }

    /// Whether copied metadata must be projected or omitted.
    pub open spec fn spec_is_degraded(self) -> bool {
        self.filesystem.spec_is_fat_family() || self.spec_basic_is_projected()
    }

    /// Whether the copied creation, last-write and attribute fields of two
    /// objects match under this policy.
    pub open spec fn spec_metadata_equal(
        self,
        source: BasicMetadata,
        destination: BasicMetadata,
    ) -> bool {
        &&& self.spec_creation_equal(source.creation_time as int, destination.creation_time as int)
        &&& self.spec_last_write_equal(
            source.last_write_time as int,
            destination.last_write_time as int,
        )
        &&& self.spec_attributes_equal(source.attributes, destination.attributes)
    }

    /// Creates a policy for a local destination with the given facts.
    pub fn new(filesystem: FileSystem, capabilities: VolumeCapabilities) -> (policy: Self)
        ensures
            policy == (FilesystemPolicy {
                filesystem,
                capabilities,
                endpoint: EndpointKind::Local,
                source_projects_basic: false,
            }),
    {
        FilesystemPolicy {
            filesystem,
            capabilities,
            endpoint: EndpointKind::Local,
            source_projects_basic: false,
        }
    }

    /// Creates the effective policy for probed endpoints.
    pub fn from_volumes(source: &VolumeInfo, destination: &VolumeInfo) -> (policy: Self)
        ensures
            policy == (FilesystemPolicy {
                filesystem: destination.filesystem,
                capabilities: destination.capabilities,
                endpoint: destination.endpoint,
                source_projects_basic: source.filesystem is Wsl || source.filesystem is Remote,
            }),
    {
        FilesystemPolicy {
            filesystem: destination.filesystem,
            capabilities: destination.capabilities,
            endpoint: destination.endpoint,
            source_projects_basic: matches!(
                source.filesystem,
                FileSystem::Wsl | FileSystem::Remote
            ),
        }
    }

    /// Destination filesystem family.
    pub fn filesystem(self) -> (filesystem: FileSystem)
        ensures
            filesystem == self.filesystem,
    {
        self.filesystem
    }

    /// Destination access path.
    pub fn endpoint(self) -> (endpoint: EndpointKind)
        ensures
            endpoint == self.endpoint,
    {
        self.endpoint
    }

    /// Whether copied metadata must be projected or omitted.
    pub fn is_degraded(self) -> (degraded: bool)
        ensures
            degraded == self.spec_is_degraded(),
    {
        self.filesystem.is_fat_family() || self.basic_is_projected()
    }

    /// Maximum logical file size accepted by this destination.
    pub fn maximum_file_size(self) -> (limit: Option<u64>)
        ensures
            limit == self.filesystem.spec_maximum_file_size(),
    {
        self.filesystem.maximum_file_size()
    }

    /// Whether named data streams can be represented.
    pub fn supports_streams(self) -> (supported: bool)
        ensures
            supported == self.capabilities.named_streams,
    {
        self.capabilities.named_streams
    }

    /// Whether extended attributes can be represented.
    pub fn supports_eas(self) -> (supported: bool)
        ensures
            supported == self.capabilities.extended_attributes,
    {
        self.capabilities.extended_attributes
    }

    /// Whether sparse allocation can be represented.
    pub fn supports_sparse(self) -> (supported: bool)
        ensures
            supported == self.capabilities.sparse_files,
    {
        self.capabilities.sparse_files
    }

    /// Whether EFS encryption can be represented.
    pub fn supports_encryption(self) -> (supported: bool)
        ensures
            supported == self.capabilities.encryption,
    {
        self.capabilities.encryption
    }

    /// Whether reparse points can be represented.
    pub fn supports_reparse_points(self) -> (supported: bool)
        ensures
            supported == self.capabilities.reparse_points,
    {
        self.capabilities.reparse_points
    }

    /// Whether protected destination DACLs can exist and need preservation.
    pub fn supports_persistent_acls(self) -> (supported: bool)
        ensures
            supported == self.capabilities.persistent_acls,
    {
        self.capabilities.persistent_acls
    }

    /// Whether handle renames may use POSIX replacement semantics.
    pub fn supports_posix_unlink_rename(self) -> (supported: bool)
        ensures
            supported == self.capabilities.posix_unlink_rename,
    {
        self.capabilities.posix_unlink_rename
    }

    /// Whether dense streaming should issue local-volume preallocation.
    pub fn supports_preallocation(self) -> (supported: bool)
        ensures
            supported == !self.endpoint.spec_is_remote(),
    {
        !self.endpoint.is_remote()
    }

    /// Whether names below this destination root use exact casing.
    pub fn names_are_case_sensitive(self) -> (sensitive: bool)
        ensures
            sensitive == self.endpoint.spec_case_sensitive(),
    {
        self.endpoint.names_are_case_sensitive()
    }

    /// Whether the direct small-file path needs a final metadata restamp.
    pub fn requires_post_write_stamp(self) -> (required: bool)
        ensures
            required == (self.filesystem.spec_is_fat_family() || self.endpoint.spec_is_remote()),
    {
        self.filesystem.is_fat_family() || self.endpoint.is_remote()
    }

    /// Projects basic metadata to fields the destination can represent.
    pub fn project_basic(self, metadata: BasicMetadata) -> (projected: BasicMetadata)
        ensures
            projected == self.spec_project_basic(metadata),
    {
        let mut projected = metadata;
        if self.basic_is_projected() {
            projected.creation_time = 0;
            projected.last_access_time = 0;
        }
        projected.attributes = metadata.attributes & self.attribute_mask();
        projected
    }

    /// Whether last-write values denote the same representable destination time.
    pub fn last_write_equal(self, source: i64, destination: i64) -> (same: bool)
        ensures
            same == self.spec_last_write_equal(source as int, destination as int),
    {
        timestamp_equal(source, destination, self.last_write_quantum())
    }

    /// Whether creation values denote the same representable destination time.
    pub fn creation_equal(self, source: i64, destination: i64) -> (same: bool)
        ensures
            same == self.spec_creation_equal(source as int, destination as int),
    {
        if self.basic_is_projected() {
            return true;
        }
        timestamp_equal(source, destination, self.creation_quantum())
    }

    /// Informational last-access comparison at destination granularity.
    pub fn last_access_equal(self, source: i64, destination: i64) -> (same: bool)
        ensures
            same == self.spec_last_access_equal(source as int, destination as int),
    {
        if self.basic_is_projected() {
            return true;
        }
        timestamp_equal(source, destination, self.last_access_quantum())
    }

    /// Whether copyable source and destination attributes match after projection.
    pub fn attributes_equal(self, source: u32, destination: u32) -> (same: bool)
        ensures
            same == self.spec_attributes_equal(source, destination),
    {
        source & self.attribute_mask() == destination & self.attribute_mask()
    }

    /// Whether the copied basic fields of two objects match.
    pub fn metadata_equal(self, source: &BasicMetadata, destination: &BasicMetadata) -> (same: bool)
        ensures
            same == self.spec_metadata_equal(*source, *destination),
    {
        self.creation_equal(source.creation_time, destination.creation_time)
            && self.last_write_equal(source.last_write_time, destination.last_write_time)
            && self.attributes_equal(source.attributes, destination.attributes)
    }

    fn attribute_mask(self) -> (mask: u32)
        ensures
            mask == self.spec_attribute_mask(),
    {
        if self.basic_is_projected() {
            0
        } else if self.filesystem.is_fat_family() {
            FAT_COPYABLE_ATTRIBUTES
        } else {
            COPYABLE_ATTRIBUTES
        }
    }

    fn basic_is_projected(self) -> (projected: bool)
        ensures
            projected == self.spec_basic_is_projected(),
    {
        self.source_projects_basic || matches!(
            self.filesystem,
            FileSystem::Wsl | FileSystem::Remote
        )
    }

    fn creation_quantum(self) -> (quantum: Option<u64>)
        ensures
            quantum == self.spec_creation_quantum(),
    {
        match self.filesystem {
            FileSystem::Ntfs | FileSystem::Refs | FileSystem::Wsl | FileSystem::Remote => None,
            FileSystem::Fat | FileSystem::ExFat => Some(10 * FILETIME_TICKS_PER_MILLISECOND),
        }
    }

    fn last_write_quantum(self) -> (quantum: Option<u64>)
        ensures
            quantum == self.spec_last_write_quantum(),
    {
        match self.filesystem {
            FileSystem::Ntfs | FileSystem::Refs | FileSystem::Wsl | FileSystem::Remote => None,
            FileSystem::Fat => Some(2 * FILETIME_TICKS_PER_SECOND),
            FileSystem::ExFat => Some(10 * FILETIME_TICKS_PER_MILLISECOND),
        }
    }

    fn last_access_quantum(self) -> (quantum: Option<u64>)
        ensures
            quantum == self.spec_last_access_quantum(),
    {
        match self.filesystem {
            FileSystem::Ntfs | FileSystem::Refs | FileSystem::Wsl | FileSystem::Remote => None,
            FileSystem::Fat => Some(86_400 * FILETIME_TICKS_PER_SECOND),
            // exFAT has no 10 ms increment field for last access.
            FileSystem::ExFat => Some(2 * FILETIME_TICKS_PER_SECOND),
        }
    }
}

/// Timestamp equality is reflexive under a positive or absent quantum and does
/// not depend on the order of its arguments.
pub proof fn timestamp_equality_is_symmetric(left: int, right: int, quantum: Option<u64>)
    ensures
        spec_timestamp_equal(left, right, quantum) == spec_timestamp_equal(right, left, quantum),
        quantum != Some(0u64) ==> spec_timestamp_equal(left, left, quantum),
{
}

/// On NTFS and ReFS two timestamps are equal only where every tick is.
pub proof fn strict_filesystems_compare_every_tick(
    policy: FilesystemPolicy,
    left: int,
    right: int,
)
    requires
        policy.filesystem is Ntfs || policy.filesystem is Refs,
    ensures
        policy.spec_last_write_equal(left, right) == (left == right),
        !policy.source_projects_basic ==> policy.spec_creation_equal(left, right) == (left
            == right),
{
}

/// Projecting twice is projecting once.
pub proof fn projection_is_idempotent(policy: FilesystemPolicy, metadata: BasicMetadata)
    ensures
        policy.spec_project_basic(policy.spec_project_basic(metadata))
            == policy.spec_project_basic(metadata),
{
    let attributes = metadata.attributes;
    let mask = policy.spec_attribute_mask();
    assert((attributes & mask) & mask == attributes & mask) by (bit_vector);
}

/// Metadata that was projected onto the destination compares equal to its
/// source there.
pub proof fn projected_metadata_compares_equal(policy: FilesystemPolicy, metadata: BasicMetadata)
    ensures
        policy.spec_metadata_equal(metadata, policy.spec_project_basic(metadata)),
{
    projection_is_idempotent(policy, metadata);
    let attributes = metadata.attributes;
    let mask = policy.spec_attribute_mask();
    assert((attributes & mask) & mask == attributes & mask) by (bit_vector);
}

/// How far apart two times may be and still be the same at the destination:
/// two seconds on FAT and ten milliseconds on exFAT for the last write, ten
/// milliseconds on both for the creation, and not at all elsewhere. Where a
/// provider carries only the last-write time, creation times always agree.
pub proof fn times_compare_at_the_destination_granularity(
    policy: FilesystemPolicy,
    left: int,
    right: int,
)
    ensures
        policy.filesystem is Fat ==> (policy.spec_last_write_equal(left, right) <==> -20_000_000
            < left - right < 20_000_000),
        policy.filesystem is ExFat ==> (policy.spec_last_write_equal(left, right) <==> -100_000
            < left - right < 100_000),
        !(policy.filesystem is Fat) && !(policy.filesystem is ExFat) ==> (
        policy.spec_last_write_equal(left, right) <==> left == right),
        policy.source_projects_basic || policy.filesystem is Wsl || policy.filesystem is Remote
            ==> policy.spec_creation_equal(left, right),
        !policy.source_projects_basic && (policy.filesystem is Fat || policy.filesystem is ExFat)
            ==> (policy.spec_creation_equal(left, right) <==> -100_000 < left - right < 100_000),
        !policy.source_projects_basic && (policy.filesystem is Ntfs || policy.filesystem is Refs)
            ==> (policy.spec_creation_equal(left, right) <==> left == right),
{
}

/// What is stamped at the destination: always the source's last-write time; its
/// creation time and its copyable attributes wherever both sides carry them,
/// and never an attribute that the source does not have.
pub proof fn projection_keeps_what_the_destination_holds(
    policy: FilesystemPolicy,
    metadata: BasicMetadata,
)
    ensures
        policy.spec_project_basic(metadata).last_write_time == metadata.last_write_time,
        policy.spec_project_basic(metadata).attributes & !metadata.attributes == 0,
        policy.source_projects_basic || policy.filesystem is Wsl || policy.filesystem is Remote
            ==> policy.spec_project_basic(metadata).creation_time == 0
            && policy.spec_project_basic(metadata).attributes == 0,
        !policy.source_projects_basic && (policy.filesystem is Ntfs || policy.filesystem is Refs)
            ==> policy.spec_project_basic(metadata).creation_time == metadata.creation_time
            && policy.spec_project_basic(metadata).attributes == metadata.attributes
            & COPYABLE_ATTRIBUTES,
        !policy.source_projects_basic && (policy.filesystem is Fat || policy.filesystem is ExFat)
            ==> policy.spec_project_basic(metadata).creation_time == metadata.creation_time
            && policy.spec_project_basic(metadata).attributes == metadata.attributes & 0x27u32,
{
    let attributes = metadata.attributes;
    let mask = policy.spec_attribute_mask();
    assert((attributes & mask) & !attributes == 0) by (bit_vector);
    assert(attributes & 0u32 == 0) by (bit_vector);
}

/// A copyable attribute that differs is noticed wherever attributes take part.
pub proof fn differing_attribute_is_noticed(policy: FilesystemPolicy, left: u32, right: u32)
    ensures
        !policy.source_projects_basic && (policy.filesystem is Ntfs || policy.filesystem is Refs)
            ==> (policy.spec_attributes_equal(left, right) <==> left & COPYABLE_ATTRIBUTES == right
            & COPYABLE_ATTRIBUTES),
        !policy.source_projects_basic && (policy.filesystem is Fat || policy.filesystem is ExFat)
            ==> (policy.spec_attributes_equal(left, right) <==> left & 0x27u32 == right & 0x27u32),
        policy.source_projects_basic || policy.filesystem is Wsl || policy.filesystem is Remote
            ==> policy.spec_attributes_equal(left, right),
{
    assert(left & 0u32 == 0) by (bit_vector);
    assert(right & 0u32 == 0) by (bit_vector);
}

/// Metadata compares equal only if the creation time, the last-write time and
/// the attributes all do.
pub proof fn equal_metadata_is_equal_in_every_field(
    policy: FilesystemPolicy,
    source: BasicMetadata,
    destination: BasicMetadata,
)
    ensures
        policy.spec_metadata_equal(source, destination) <==> policy.spec_creation_equal(
            source.creation_time as int,
            destination.creation_time as int,
        ) && policy.spec_last_write_equal(
            source.last_write_time as int,
            destination.last_write_time as int,
        ) && policy.spec_attributes_equal(source.attributes, destination.attributes),
        policy.filesystem is Ntfs && !policy.source_projects_basic && policy.spec_metadata_equal(
            source,
            destination,
        ) ==> source.creation_time == destination.creation_time && source.last_write_time
            == destination.last_write_time,
        policy.spec_is_degraded() <==> policy.filesystem is Fat || policy.filesystem is ExFat
            || policy.filesystem is Wsl || policy.filesystem is Remote
            || policy.source_projects_basic,
{
}

} // verus!
