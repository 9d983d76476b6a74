//! Decisions of the file engine.
//!
//! Plain small files are fully read and source-revalidated before the
//! destination is touched, then written directly to their final name. Files
//! with auxiliary data that the destination can hold, and all large files, go
//! through an opaque temporary, so that one logical file is published at once.

use vstd::prelude::*;
use vstd::string::*;

use crate::error::{
    category_of, io_error_view, semantic_error_view, ErrorCategory, ErrorView,
    IoError, IoErrorKind, OperationError,
};
use crate::filesystem::FilesystemPolicy;
use crate::model::EntrySnapshot;
use crate::path::WidePath;
use crate::platform::{
    has_attribute, is_encrypted, is_sparse, BasicMetadata, EndpointKind, ObjectMetadata,
    StreamInfo, StreamView, ATTRIBUTE_ENCRYPTED, ATTRIBUTE_SPARSE_FILE,
};
use crate::streams::stream_views;
use crate::transport::TransportProfile;

verus! {

/// The operation name of a copy that stopped between chunks.
pub const CANCELED_MID_FILE: &'static str = "canceled_mid_file";

/// The operation name of a file that a worker hands back untouched.
pub const PROMOTED_TO_COORDINATOR: &'static str = "promoted_to_coordinator";

/// Successful engine result consumed by the common outcome path.
#[derive(Clone, Debug, PartialEq, Eq)]
pub struct EngineResult {
    /// Logical bytes successfully copied across the unnamed and named streams.
    pub bytes: u64,
    /// xxh3-128 digest when policy enabled hashing.
    pub digest: Option<String>,
    /// Named stream digests captured for post-copy verification.
    pub stream_digests: Vec<(StreamInfo, String)>,
    /// EA payload digest captured for post-copy verification.
    pub ea_digest: Option<String>,
    /// Named streams dropped because the destination lacks capability.
    pub streams_dropped: u32,
    /// Whether source EAs were omitted because the destination lacks support.
    pub eas_dropped: bool,
    /// Whether checkpointing was disabled after a journal append failure.
    pub journal_degraded: bool,
    /// Whether source EFS state could not be represented at the destination.
    pub efs_downgraded: bool,
    /// Whether this file had a persistent checkpoint that must be retired.
    pub checkpoint_used: bool,
}

/// Destination capability facts fixed for the whole run.
#[derive(Clone, Copy, Debug, PartialEq, Eq, Structural)]
pub struct DestinationCaps {
    /// Whether the destination can represent named streams.
    pub supports_streams: bool,
    /// Whether the destination volume advertises extended-attribute support.
    pub supports_eas: bool,
    /// Whether the destination advertises EFS support.
    pub supports_encryption: bool,
    /// Whether local-volume dense allocation hints are appropriate.
    pub supports_preallocation: bool,
    /// Whether protected destination DACLs can exist and need preservation.
    pub supports_persistent_acls: bool,
    /// Whether publication can use POSIX unlink and rename semantics.
    pub supports_posix_unlink_rename: bool,
    /// Whether data writes require a final metadata restamp.
    pub requires_post_write_stamp: bool,
    /// Whether the destination crosses WSL's Plan 9 provider.
    pub is_wsl: bool,
}

impl DestinationCaps {
    /// Projects the run's destination policy onto the engine's capability
    /// facts. Every field derives from the policy, so that a capability can
    /// never be set independently.
    pub fn from_policy(policy: &FilesystemPolicy) -> (caps: Self)
        ensures
            caps == (DestinationCaps {
                supports_streams: policy.capabilities.named_streams,
                supports_eas: policy.capabilities.extended_attributes,
                supports_encryption: policy.capabilities.encryption,
                supports_preallocation: policy.endpoint is Local,
                supports_persistent_acls: policy.capabilities.persistent_acls,
                supports_posix_unlink_rename: policy.capabilities.posix_unlink_rename,
                requires_post_write_stamp: policy.filesystem.spec_is_fat_family()
                    || policy.endpoint.spec_is_remote(),
                is_wsl: policy.endpoint is Wsl,
            }),
    {
        DestinationCaps {
            supports_streams: policy.supports_streams(),
            supports_eas: policy.supports_eas(),
            supports_encryption: policy.supports_encryption(),
            supports_preallocation: policy.supports_preallocation(),
            supports_persistent_acls: policy.supports_persistent_acls(),
            supports_posix_unlink_rename: policy.supports_posix_unlink_rename(),
            requires_post_write_stamp: policy.requires_post_write_stamp(),
            is_wsl: policy.endpoint() == EndpointKind::Wsl,
        }
    }
}

/// Source-side capability facts fixed for the whole run.
#[derive(Clone, Copy, Debug, PartialEq, Eq, Structural)]
pub struct SourceCaps {
    /// Whether source stream discovery is meaningful on this filesystem.
    pub supports_streams: bool,
    /// Whether source EA reads are meaningful on this filesystem.
    pub supports_eas: bool,
    /// Whether the source crosses WSL's Plan 9 provider.
    pub is_wsl: bool,
}

/// Run-constant transfer tuning shared by every engine call.
#[derive(Clone, Copy, Debug, PartialEq, Eq, Structural)]
pub struct EngineTuning {
    /// Composed profile chunk bytes.
    pub chunk_bytes: usize,
    /// Size threshold between pre-read and streamed strategies.
    pub large_threshold: u64,
    /// Minimum per-stream size eligible for partial resume checkpoints.
    pub checkpoint_threshold: u64,
    /// Preflight-selected buffered transport policy.
    pub transport: TransportProfile,
    /// Hash small files for post-copy verification.
    pub verify: bool,
    /// Flush final data and metadata.
    pub flush: bool,
}

/// Run-constant engine parameters constructed once at run setup and shared by
/// the coordinator and every worker.
#[derive(Clone, Debug, PartialEq, Eq)]
pub struct EngineSettings {
    /// Unique run identifier for temp ownership.
    pub run_id: String,
    /// Transfer tuning knobs.
    pub tuning: EngineTuning,
    /// Source-side capability facts.
    pub source: SourceCaps,
    /// Destination-side capability facts.
    pub destination: DestinationCaps,
}

/// Parameters shared by the engine's direct and transactional strategies.
pub struct EngineRequest<'a> {
    /// Absolute source path.
    pub source_path: &'a WidePath,
    /// Absolute final destination path.
    pub destination_path: &'a WidePath,
    /// Relative source identity for errors.
    pub relative_path: &'a WidePath,
    /// Enumeration snapshot.
    pub source_snapshot: &'a EntrySnapshot,
    /// Replacement snapshot, if any.
    pub replacement_snapshot: Option<&'a EntrySnapshot>,
    /// Run-constant settings shared by the coordinator and every worker.
    pub settings: &'a EngineSettings,
    /// Whether sparse layout can and should be preserved.
    pub preserve_sparse: bool,
    /// Source metadata projected to fields the destination can represent.
    pub destination_metadata: BasicMetadata,
    /// When set, a stream from this size on hands the file back before any
    /// write: the coordinator owns the journal and the responsive cancel probe.
    pub promote_threshold: Option<u64>,
    /// Streams already discovered by the scheduler, avoiding a duplicate call.
    pub known_streams: Option<&'a [StreamInfo]>,
}

impl<'a> EngineRequest<'a> {
    /// Source metadata at enumeration.
    pub open spec fn source(self) -> ObjectMetadata {
        self.source_snapshot.metadata
    }

    /// The path relative to the source root.
    pub open spec fn rel(self) -> Seq<u16> {
        self.relative_path@
    }

    /// The destination's metadata at classification, where it is replaced.
    pub open spec fn replaced(self) -> Option<ObjectMetadata> {
        match self.replacement_snapshot {
            Some(snapshot) => Some(snapshot.metadata),
            None => None,
        }
    }

    /// Whether the file's sparse layout is kept.
    pub open spec fn keeps_sparse(self) -> bool {
        self.preserve_sparse && has_attribute(
            self.source().basic.attributes,
            ATTRIBUTE_SPARSE_FILE,
        )
    }

    /// Whether the new file is to be encrypted.
    pub open spec fn spec_wants_encryption(self) -> bool {
        has_attribute(self.source().basic.attributes, ATTRIBUTE_ENCRYPTED)
            && self.settings.destination.supports_encryption
    }

    /// Whether the file's sparse layout is kept.
    pub fn preserves_sparse_layout(&self) -> (keeps: bool)
        ensures
            keeps == self.keeps_sparse(),
    {
        self.preserve_sparse && is_sparse(self.source_snapshot.metadata.basic.attributes)
    }

    /// Requests EFS on a new file only where the source is encrypted and the
    /// destination volume supports it.
    pub fn wants_encryption(&self) -> (wants: bool)
        ensures
            wants == self.spec_wants_encryption(),
    {
        is_encrypted(self.source_snapshot.metadata.basic.attributes)
            && self.settings.destination.supports_encryption
    }
}

/// The failure of one operation, filed under its own category.
pub open spec fn operation_view(operation: Seq<char>, rel: Seq<u16>, error: IoError) -> ErrorView {
    io_error_view(category_of(error), operation, rel, error)
}

/// Classifies the failure of one operation.
pub fn operation_error(operation: &str, relative_path: &WidePath, error: &IoError) -> (failure:
    OperationError)
    ensures
        failure@ == operation_view(operation@, relative_path@, *error),
{
    OperationError::from_io(operation, relative_path.copied(), error)
}

/// The failure of opening or reading a source that may have changed.
pub open spec fn source_open_view(
    operation: Seq<char>,
    rel: Seq<u16>,
    error: IoError,
) -> ErrorView {
    io_error_view(
        if error.kind is NotFound || error.kind is InvalidData {
            ErrorCategory::SourceChanged
        } else {
            category_of(error)
        },
        operation,
        rel,
        error,
    )
}

/// Classifies the failure of opening a source: one that is gone or is another
/// object counts as changed.
pub fn source_open_error(operation: &str, relative_path: &WidePath, error: &IoError) -> (failure:
    OperationError)
    ensures
        failure@ == source_open_view(operation@, relative_path@, *error),
{
    if error.kind == IoErrorKind::NotFound || error.kind == IoErrorKind::InvalidData {
        OperationError::from_io_as(
            ErrorCategory::SourceChanged,
            operation,
            relative_path.copied(),
            error,
        )
    } else {
        operation_error(operation, relative_path, error)
    }
}

/// The failure of a copy that stopped between chunks.
pub open spec fn canceled_view(rel: Seq<u16>) -> ErrorView {
    semantic_error_view(
        ErrorCategory::Internal,
        CANCELED_MID_FILE@,
        rel,
        "graceful cancellation stopped this copy between chunks"@,
    )
}

/// The failure of a copy that stopped between chunks. It is not an error
/// condition: the coordinator turns it into a file that was not attempted.
pub fn canceled_error(relative_path: &WidePath) -> (failure: OperationError)
    ensures
        failure@ == canceled_view(relative_path@),
{
    OperationError::semantic(
        ErrorCategory::Internal,
        CANCELED_MID_FILE,
        relative_path.copied(),
        "graceful cancellation stopped this copy between chunks".to_owned(),
    )
}

/// The failure after a read-only destination could neither be opened nor put
/// back.
pub open spec fn readonly_restore_view(
    rel: Seq<u16>,
    create_error: IoError,
    restore_error: IoError,
) -> ErrorView {
    ErrorView {
        message: "destination create retry failed after READONLY was cleared ("@
            + create_error.message@ + "); restoring the original metadata also failed: "@
            + restore_error.message@,
        ..io_error_view(
            if restore_error.kind is InvalidData {
                ErrorCategory::DestinationChanged
            } else {
                category_of(restore_error)
            },
            "restore_dst_metadata"@,
            rel,
            restore_error,
        )
    }
}

/// Reports the rollback failure as the primary error, because it may have left
/// an existing destination with the read-only bit cleared. The failed create
/// remains in the message.
pub fn readonly_restore_error(
    relative_path: &WidePath,
    create_error: &IoError,
    restore_error: &IoError,
) -> (failure: OperationError)
    ensures
        failure@ == readonly_restore_view(relative_path@, *create_error, *restore_error),
{
    let mut failure = if restore_error.kind == IoErrorKind::InvalidData {
        OperationError::from_io_as(
            ErrorCategory::DestinationChanged,
            "restore_dst_metadata",
            relative_path.copied(),
            restore_error,
        )
    } else {
        operation_error("restore_dst_metadata", relative_path, restore_error)
    };
    let mut message = "destination create retry failed after READONLY was cleared (".to_owned();
    message.append(create_error.message.as_str());
    message.append("); restoring the original metadata also failed: ");
    message.append(restore_error.message.as_str());
    failure.message = message;
    assert(failure@ =~= readonly_restore_view(relative_path@, *create_error, *restore_error));
    failure
}

/// Whether a source is still the file that was enumerated.
pub open spec fn same_source(expected: ObjectMetadata, observed: ObjectMetadata) -> bool {
    &&& expected.identity == observed.identity
    &&& expected.size == observed.size
    &&& expected.basic.last_write_time == observed.basic.last_write_time
}

/// The failure of a source that changed.
pub open spec fn source_changed_view(operation: Seq<char>, rel: Seq<u16>) -> ErrorView {
    semantic_error_view(
        ErrorCategory::SourceChanged,
        operation,
        rel,
        "source identity, size, or last-write time changed after enumeration"@,
    )
}

/// Checks a source against its enumeration.
pub fn ensure_source_unchanged(
    expected: &EntrySnapshot,
    observed: &ObjectMetadata,
    relative_path: &WidePath,
    operation: &str,
) -> (verdict: Result<(), OperationError>)
    ensures
        verdict is Ok <==> same_source(expected.metadata, *observed),
        verdict matches Err(error) ==> error@ == source_changed_view(operation@, relative_path@),
{
    if !expected.metadata.identity.same_as(&observed.identity) || expected.metadata.size
        != observed.size || expected.metadata.basic.last_write_time
        != observed.basic.last_write_time {
        return Err(
            OperationError::semantic(
                ErrorCategory::SourceChanged,
                operation,
                relative_path.copied(),
                "source identity, size, or last-write time changed after enumeration".to_owned(),
            ),
        );
    }
    Ok(())
}

/// Why a source no longer counts as unchanged after it was read.
pub open spec fn post_read_failure(request: EngineRequest, observed: Result<ObjectMetadata, IoError>) -> Option<
    ErrorView,
> {
    match observed {
        Err(error) => Some(operation_view("revalidate_src"@, request.rel(), error)),
        Ok(current) => if same_source(request.source(), current) {
            None
        } else {
            Some(source_changed_view("revalidate_src"@, request.rel()))
        },
    }
}

/// Checks the source handle again after it was read.
pub fn post_read_validate(request: &EngineRequest, observed: &Result<ObjectMetadata, IoError>) -> (verdict:
    Result<(), OperationError>)
    ensures
        crate::revalidate::is_verdict(verdict, post_read_failure(*request, *observed)),
{
    match observed {
        Err(error) => Err(operation_error("revalidate_src", request.relative_path, error)),
        Ok(current) => ensure_source_unchanged(
            request.source_snapshot,
            current,
            request.relative_path,
            "revalidate_src",
        ),
    }
}

/// What the streams of a file mean for its route.
#[derive(Clone, Copy, Debug, PartialEq, Eq, Structural)]
pub struct StreamRouting {
    /// The largest stream that the destination can hold.
    pub largest_representable: u64,
    /// Whether a stream that the destination can hold is checkpointed.
    pub checkpoint_eligible: bool,
    /// How many named streams there are.
    pub named_streams: usize,
    /// How many of them are dropped.
    pub named_streams_dropped: u32,
}

/// Whether the destination can hold a stream.
pub open spec fn representable(stream: StreamView, destination_supports_streams: bool) -> bool {
    destination_supports_streams || stream.is_unnamed()
}

/// The largest stream that the destination can hold.
pub open spec fn largest_of(
    streams: Seq<StreamView>,
    destination_supports_streams: bool,
) -> Option<u64>
    decreases streams.len(),
{
    if streams.len() == 0 {
        None
    } else {
        let rest = largest_of(streams.drop_last(), destination_supports_streams);
        let last = streams.last();
        if !representable(last, destination_supports_streams) {
            rest
        } else {
            match rest {
                Some(size) => Some(
                    if last.size >= size {
                        last.size
                    } else {
                        size
                    },
                ),
                None => Some(last.size),
            }
        }
    }
}

/// Whether a stream that the destination can hold reaches a size.
pub open spec fn any_reaches(
    streams: Seq<StreamView>,
    destination_supports_streams: bool,
    size: u64,
) -> bool {
    exists|i: int|
        0 <= i < streams.len() && representable(
            #[trigger] streams[i],
            destination_supports_streams,
        ) && streams[i].size >= size
}

/// The route that follows from the streams of a file.
pub open spec fn spec_routing(
    streams: Seq<StreamView>,
    unnamed_size: u64,
    destination_supports_streams: bool,
    journal_available: bool,
    checkpoint_threshold: u64,
) -> StreamRouting {
    let named = crate::streams::named_of(streams).len();
    StreamRouting {
        largest_representable: match largest_of(streams, destination_supports_streams) {
            Some(size) => size,
            None => unnamed_size,
        },
        checkpoint_eligible: journal_available && any_reaches(
            streams,
            destination_supports_streams,
            checkpoint_threshold,
        ),
        named_streams: named as usize,
        named_streams_dropped: if destination_supports_streams {
            0
        } else if named <= u32::MAX {
            named as u32
        } else {
            u32::MAX
        },
    }
}

/// Computes routing only from streams that the destination can represent. A
/// large stream that will be dropped must not promote an otherwise small file.
pub fn route_streams(
    streams: &[StreamInfo],
    unnamed_size: u64,
    destination_supports_streams: bool,
    journal_available: bool,
    checkpoint_threshold: u64,
) -> (routing: StreamRouting)
    ensures
        routing == spec_routing(
            stream_views(streams@),
            unnamed_size,
            destination_supports_streams,
            journal_available,
            checkpoint_threshold,
        ),
{
    let ghost all = stream_views(streams@);
    let mut largest: Option<u64> = None;
    let mut reaches = false;
    let mut named: usize = 0;
    for i in 0..streams.len()
        invariant
            all == stream_views(streams@),
            named <= i,
            largest == largest_of(all.take(i as int), destination_supports_streams),
            named == crate::streams::named_of(all.take(i as int)).len(),
            reaches == any_reaches(
                all.take(i as int),
                destination_supports_streams,
                checkpoint_threshold,
            ),
    {
        let ghost part = all.take(i as int);
        let ghost next = all.take(i as int + 1);
        assert(next.drop_last() =~= part);
        assert(next.last() == streams@[i as int]@);
        let unnamed = streams[i].is_unnamed();
        let size: u64 = streams[i].size;
        if destination_supports_streams || unnamed {
            largest = match largest {
                Some(known) => Some(
                    if size >= known {
                        size
                    } else {
                        known
                    },
                ),
                None => Some(size),
            };
            if size >= checkpoint_threshold {
                reaches = true;
            }
        }
        if !unnamed {
            named = named + 1;
        }
        assert(any_reaches(next, destination_supports_streams, checkpoint_threshold) == (
        any_reaches(part, destination_supports_streams, checkpoint_threshold) || (representable(
            next.last(),
            destination_supports_streams,
        ) && size >= checkpoint_threshold))) by {
            if any_reaches(part, destination_supports_streams, checkpoint_threshold) {
                let j = choose|j: int|
                    0 <= j < part.len() && representable(
                        #[trigger] part[j],
                        destination_supports_streams,
                    ) && part[j].size >= checkpoint_threshold;
                assert(next[j] == part[j]);
            }
            if any_reaches(next, destination_supports_streams, checkpoint_threshold) {
                let j = choose|j: int|
                    0 <= j < next.len() && representable(
                        #[trigger] next[j],
                        destination_supports_streams,
                    ) && next[j].size >= checkpoint_threshold;
                if j < part.len() {
                    assert(part[j] == next[j]);
                }
            }
            assert(next[i as int] == next.last());
        }
    }
    assert(all.take(all.len() as int) =~= all);
    let largest_representable: u64 = match largest {
        Some(size) => size,
        None => unnamed_size,
    };
    let named_streams_dropped: u32 = if destination_supports_streams {
        0
    } else if named as u64 <= u32::MAX as u64 {
        named as u32
    } else {
        u32::MAX
    };
    StreamRouting {
        largest_representable,
        checkpoint_eligible: journal_available && reaches,
        named_streams: named,
        named_streams_dropped,
    }
}

/// A named stream that the destination drops changes neither the size that
/// decides the route nor the need for checkpoints.
pub proof fn dropped_stream_never_promotes(
    streams: Seq<StreamView>,
    dropped: StreamView,
    unnamed_size: u64,
    journal_available: bool,
    checkpoint_threshold: u64,
)
    requires
        !dropped.is_unnamed(),
    ensures
        ({
            let with = spec_routing(
                streams.push(dropped),
                unnamed_size,
                false,
                journal_available,
                checkpoint_threshold,
            );
            let without = spec_routing(
                streams,
                unnamed_size,
                false,
                journal_available,
                checkpoint_threshold,
            );
            &&& with.largest_representable == without.largest_representable
            &&& with.checkpoint_eligible == without.checkpoint_eligible
        }),
{
    let more = streams.push(dropped);
    assert(more.drop_last() =~= streams);
    if any_reaches(streams, false, checkpoint_threshold) {
        let i = choose|i: int|
            0 <= i < streams.len() && representable(#[trigger] streams[i], false)
                && streams[i].size >= checkpoint_threshold;
        assert(more[i] == streams[i]);
    }
    if any_reaches(more, false, checkpoint_threshold) {
        let i = choose|i: int|
            0 <= i < more.len() && representable(#[trigger] more[i], false) && more[i].size
                >= checkpoint_threshold;
        assert(i < streams.len());
        assert(streams[i] == more[i]);
    }
}

/// A file whose source is open and whose route is known.
#[derive(Clone, Debug, PartialEq, Eq)]
pub struct OpenedFile {
    /// All streams.
    pub streams: Vec<StreamInfo>,
    /// Extended attributes that are to be copied.
    pub extended_attributes: Option<Vec<u8>>,
    /// The route.
    pub routing: StreamRouting,
    /// Whether the destination drops the extended attributes.
    pub eas_dropped: bool,
    /// Whether the data is digested.
    pub should_hash: bool,
    /// Whether streams or attributes go along with the data.
    pub has_auxiliary_data: bool,
}

/// A file whose route is known, as values.
#[verifier::ext_equal]
pub ghost struct OpenedView {
    pub streams: Seq<StreamView>,
    pub extended_attributes: Option<Seq<u8>>,
    pub routing: StreamRouting,
    pub eas_dropped: bool,
    pub should_hash: bool,
    pub has_auxiliary_data: bool,
}

impl View for OpenedFile {
    type V = OpenedView;

    open spec fn view(&self) -> OpenedView {
        OpenedView {
            streams: stream_views(self.streams@),
            extended_attributes: crate::repair::opt_bytes(self.extended_attributes),
            routing: self.routing,
            eas_dropped: self.eas_dropped,
            should_hash: self.should_hash,
            has_auxiliary_data: self.has_auxiliary_data,
        }
    }
}

/// The next operation in opening one file.
#[derive(Clone, Debug, PartialEq, Eq)]
pub enum OpenStep {
    /// Open the source and read its metadata.
    OpenSource,
    /// List its streams.
    ListStreams,
    /// Read its extended attributes.
    ReadEas {
        /// All streams.
        streams: Vec<StreamInfo>,
    },
    /// The route is known.
    Opened {
        /// The file.
        file: OpenedFile,
    },
    /// The copy fails, or is handed back.
    Failed {
        /// Why.
        error: OperationError,
    },
}

/// The next operation in opening one file, as values.
#[verifier::ext_equal]
pub ghost enum OpenStepView {
    OpenSource,
    ListStreams,
    ReadEas { streams: Seq<StreamView> },
    Opened { file: OpenedView },
    Failed { error: ErrorView },
}

impl View for OpenStep {
    type V = OpenStepView;

    open spec fn view(&self) -> OpenStepView {
        match *self {
            OpenStep::OpenSource => OpenStepView::OpenSource,
            OpenStep::ListStreams => OpenStepView::ListStreams,
            OpenStep::ReadEas { streams } => OpenStepView::ReadEas {
                streams: stream_views(streams@),
            },
            OpenStep::Opened { file } => OpenStepView::Opened { file: file@ },
            OpenStep::Failed { error } => OpenStepView::Failed { error: error@ },
        }
    }
}

/// What an operation came to.
#[derive(Debug, PartialEq, Eq)]
pub enum OpenReply {
    /// Metadata of the opened source.
    Metadata(Result<ObjectMetadata, IoError>),
    /// Streams that were listed.
    Streams(Result<Vec<StreamInfo>, IoError>),
    /// Extended attributes that were read.
    Eas(Result<Vec<u8>, IoError>),
}

/// What an operation came to, as values.
#[verifier::ext_equal]
pub ghost enum OpenReplyView {
    Metadata(Result<ObjectMetadata, IoError>),
    Streams(Result<Seq<StreamView>, IoError>),
    Eas(Result<Seq<u8>, IoError>),
}

impl View for OpenReply {
    type V = OpenReplyView;

    open spec fn view(&self) -> OpenReplyView {
        match *self {
            OpenReply::Metadata(result) => OpenReplyView::Metadata(result),
            OpenReply::Streams(Ok(streams)) => OpenReplyView::Streams(Ok(stream_views(streams@))),
            OpenReply::Streams(Err(error)) => OpenReplyView::Streams(Err(error)),
            OpenReply::Eas(Ok(eas)) => OpenReplyView::Eas(Ok(eas@)),
            OpenReply::Eas(Err(error)) => OpenReplyView::Eas(Err(error)),
        }
    }
}

/// Whether a reply answers a step.
pub open spec fn open_answers(step: OpenStepView, reply: OpenReplyView) -> bool {
    match step {
        OpenStepView::OpenSource => reply is Metadata,
        OpenStepView::ListStreams => reply is Streams,
        OpenStepView::ReadEas { .. } => reply is Eas,
        _ => false,
    }
}

/// Whether the source's extended attributes count.
pub open spec fn source_has_eas(request: EngineRequest) -> bool {
    request.settings.source.supports_eas && request.source().ea_size > 0
}

/// The route of a file with these streams.
pub open spec fn routing_of(
    request: EngineRequest,
    journal_available: bool,
    streams: Seq<StreamView>,
) -> StreamRouting {
    spec_routing(
        streams,
        request.source().size,
        request.settings.destination.supports_streams,
        journal_available,
        request.settings.tuning.checkpoint_threshold,
    )
}

/// What is known of a file with these streams and attributes.
pub open spec fn opened_view(
    request: EngineRequest,
    journal_available: bool,
    streams: Seq<StreamView>,
    extended_attributes: Option<Seq<u8>>,
) -> OpenedView {
    let routing = routing_of(request, journal_available, streams);
    OpenedView {
        streams,
        extended_attributes,
        routing,
        eas_dropped: source_has_eas(request) && !request.settings.destination.supports_eas,
        should_hash: request.settings.tuning.verify || routing.largest_representable
            >= request.settings.tuning.large_threshold || routing.checkpoint_eligible,
        has_auxiliary_data: extended_attributes is Some || (
        request.settings.destination.supports_streams && routing.named_streams > 0),
    }
}

/// The hand-back of a file whose streams need the coordinator.
pub open spec fn promoted_view(rel: Seq<u16>) -> ErrorView {
    semantic_error_view(
        ErrorCategory::Internal,
        PROMOTED_TO_COORDINATOR@,
        rel,
        "stream set requires coordinator streaming"@,
    )
}

/// The step after the streams are known.
pub open spec fn after_listing(
    request: EngineRequest,
    journal_available: bool,
    streams: Seq<StreamView>,
) -> OpenStepView {
    let routing = routing_of(request, journal_available, streams);
    if request.promote_threshold is Some && routing.largest_representable
        >= request.promote_threshold->0 {
        OpenStepView::Failed { error: promoted_view(request.rel()) }
    } else if source_has_eas(request) && request.settings.destination.supports_eas {
        OpenStepView::ReadEas { streams }
    } else {
        OpenStepView::Opened { file: opened_view(request, journal_available, streams, None) }
    }
}

/// The next step in opening one file.
pub open spec fn open_next(
    request: EngineRequest,
    journal_available: bool,
    step: OpenStepView,
    reply: OpenReplyView,
) -> OpenStepView {
    let rel = request.rel();
    match (step, reply) {
        (OpenStepView::OpenSource, OpenReplyView::Metadata(opened)) => match opened {
            Err(error) => OpenStepView::Failed { error: source_open_view("open_src"@, rel, error) },
            Ok(observed) => if !same_source(request.source(), observed) {
                OpenStepView::Failed { error: source_changed_view("open_src"@, rel) }
            } else {
                match request.known_streams {
                    Some(streams) => after_listing(
                        request,
                        journal_available,
                        stream_views(streams@),
                    ),
                    None => if request.settings.source.supports_streams {
                        OpenStepView::ListStreams
                    } else {
                        after_listing(
                            request,
                            journal_available,
                            seq![
                                StreamView {
                                    name: crate::platform::unnamed_suffix(),
                                    size: request.source().size,
                                },
                            ],
                        )
                    },
                }
            },
        },
        (OpenStepView::ListStreams, OpenReplyView::Streams(listed)) => match listed {
            Ok(streams) => after_listing(request, journal_available, streams),
            Err(error) => OpenStepView::Failed {
                error: source_open_view("list_streams"@, rel, error),
            },
        },
        (OpenStepView::ReadEas { streams }, OpenReplyView::Eas(read)) => match read {
            Ok(eas) => OpenStepView::Opened {
                file: opened_view(request, journal_available, streams, Some(eas)),
            },
            Err(error) => OpenStepView::Failed { error: source_open_view("read_ea"@, rel, error) },
        },
        _ => step,
    }
}

fn opened_with(
    request: &EngineRequest,
    journal_available: bool,
    streams: Vec<StreamInfo>,
    extended_attributes: Option<Vec<u8>>,
) -> (file: OpenedFile)
    ensures
        file@ == opened_view(
            *request,
            journal_available,
            stream_views(streams@),
            crate::repair::opt_bytes(extended_attributes),
        ),
{
    let settings = request.settings;
    let routing = route_streams(
        streams.as_slice(),
        request.source_snapshot.metadata.size,
        settings.destination.supports_streams,
        journal_available,
        settings.tuning.checkpoint_threshold,
    );
    let has_eas = settings.source.supports_eas && request.source_snapshot.metadata.ea_size > 0;
    let has_auxiliary_data = extended_attributes.is_some() || (
    settings.destination.supports_streams && routing.named_streams > 0);
    OpenedFile {
        streams,
        extended_attributes,
        routing,
        eas_dropped: has_eas && !settings.destination.supports_eas,
        should_hash: settings.tuning.verify || routing.largest_representable
            >= settings.tuning.large_threshold || routing.checkpoint_eligible,
        has_auxiliary_data,
    }
}

fn continue_listed(
    request: &EngineRequest,
    journal_available: bool,
    streams: Vec<StreamInfo>,
) -> (next: OpenStep)
    ensures
        next@ == after_listing(*request, journal_available, stream_views(streams@)),
{
    let settings = request.settings;
    let routing = route_streams(
        streams.as_slice(),
        request.source_snapshot.metadata.size,
        settings.destination.supports_streams,
        journal_available,
        settings.tuning.checkpoint_threshold,
    );
    if let Some(threshold) = request.promote_threshold {
        if routing.largest_representable >= threshold {
            // Nothing has been created or written yet.
            return OpenStep::Failed {
                error: OperationError::semantic(
                    ErrorCategory::Internal,
                    PROMOTED_TO_COORDINATOR,
                    request.relative_path.copied(),
                    "stream set requires coordinator streaming".to_owned(),
                ),
            };
        }
    }
    let has_eas = settings.source.supports_eas && request.source_snapshot.metadata.ea_size > 0;
    if has_eas && settings.destination.supports_eas {
        OpenStep::ReadEas { streams }
    } else {
        OpenStep::Opened { file: opened_with(request, journal_available, streams, None) }
    }
}

fn copy_streams(streams: &[StreamInfo]) -> (copy: Vec<StreamInfo>)
    ensures
        stream_views(copy@) == stream_views(streams@),
{
    let mut copy: Vec<StreamInfo> = Vec::new();
    for i in 0..streams.len()
        invariant
            stream_views(copy@) == stream_views(streams@.take(i as int)),
    {
        let ghost before = stream_views(copy@);
        copy.push(streams[i].copied());
        assert(stream_views(copy@) =~= before.push(streams@[i as int]@));
        assert(stream_views(streams@.take(i as int + 1)) =~= stream_views(
            streams@.take(i as int),
        ).push(streams@[i as int]@));
    }
    assert(streams@.take(streams@.len() as int) =~= streams@);
    copy
}

/// Decides the next operation in opening one file. The first one is to open the
/// source.
pub fn open_file(
    request: &EngineRequest,
    journal_available: bool,
    step: OpenStep,
    reply: OpenReply,
) -> (next: OpenStep)
    requires
        open_answers(step@, reply@),
    ensures
        next@ == open_next(*request, journal_available, step@, reply@),
{
    match (step, reply) {
        (OpenStep::OpenSource, OpenReply::Metadata(opened)) => match opened {
            Err(error) => OpenStep::Failed {
                error: source_open_error("open_src", request.relative_path, &error),
            },
            Ok(observed) => match ensure_source_unchanged(
                request.source_snapshot,
                &observed,
                request.relative_path,
                "open_src",
            ) {
                Err(error) => OpenStep::Failed { error },
                Ok(_) => match request.known_streams {
                    Some(streams) => continue_listed(
                        request,
                        journal_available,
                        copy_streams(streams),
                    ),
                    None => {
                        if request.settings.source.supports_streams {
                            OpenStep::ListStreams
                        } else {
                            let mut streams: Vec<StreamInfo> = Vec::new();
                            streams.push(StreamInfo::unnamed(request.source_snapshot.metadata.size));
                            assert(stream_views(streams@) =~= seq![
                                StreamView {
                                    name: crate::platform::unnamed_suffix(),
                                    size: request.source().size,
                                },
                            ]);
                            continue_listed(request, journal_available, streams)
                        }
                    },
                },
            },
        },
        (OpenStep::ListStreams, OpenReply::Streams(listed)) => match listed {
            Ok(streams) => continue_listed(request, journal_available, streams),
            Err(error) => OpenStep::Failed {
                error: source_open_error("list_streams", request.relative_path, &error),
            },
        },
        (OpenStep::ReadEas { streams }, OpenReply::Eas(read)) => match read {
            Ok(eas) => OpenStep::Opened {
                file: opened_with(request, journal_available, streams, Some(eas)),
            },
            Err(error) => OpenStep::Failed {
                error: source_open_error("read_ea", request.relative_path, &error),
            },
        },
        (step, _) => step,
    }
}

/// Whether a file takes the direct route: it is small, needs no checkpoints,
/// carries no auxiliary data and keeps no sparse layout.
pub open spec fn takes_direct_route(request: EngineRequest, file: OpenedView) -> bool {
    &&& !request.keeps_sparse()
    &&& file.routing.largest_representable < request.settings.tuning.large_threshold
    &&& !file.routing.checkpoint_eligible
    &&& !file.has_auxiliary_data
}

/// Whether a file takes the direct route, which a batch of small files can read
/// ahead of its writes.
pub fn is_plain_small(request: &EngineRequest, file: &OpenedFile) -> (plain: bool)
    ensures
        plain == takes_direct_route(*request, file@),
{
    !request.preserves_sparse_layout() && file.routing.largest_representable
        < request.settings.tuning.large_threshold && !file.routing.checkpoint_eligible
        && !file.has_auxiliary_data
}

/// A worker's file that hides a stream from the promotion size on is handed
/// back before anything of it is created or written: it is never opened for a
/// copy.
pub proof fn promotion_precedes_every_write(
    request: EngineRequest,
    journal_available: bool,
    step: OpenStepView,
    reply: OpenReplyView,
    streams: Seq<StreamView>,
)
    requires
        open_answers(step, reply),
        step is OpenSource || step is ListStreams,
        request.promote_threshold is Some,
        routing_of(request, journal_available, streams).largest_representable
            >= request.promote_threshold->0,
        reply == OpenReplyView::Streams(Ok(streams)),
    ensures
        open_next(request, journal_available, step, reply) == (OpenStepView::Failed {
            error: promoted_view(request.rel()),
        }),
{
}

/// A source counts as unchanged after it was read exactly if its handle could
/// be asked and still names the same object with the same size and last-write
/// time.
pub proof fn source_is_unchanged_only_as_enumerated(
    request: EngineRequest,
    observed: Result<ObjectMetadata, IoError>,
)
    ensures
        post_read_failure(request, observed) is None <==> (observed matches Ok(seen) && {
            &&& seen.identity.volume_serial
                == request.source_snapshot.metadata.identity.volume_serial
            &&& seen.identity.file_id == request.source_snapshot.metadata.identity.file_id
            &&& seen.size == request.source_snapshot.metadata.size
            &&& seen.basic.last_write_time
                == request.source_snapshot.metadata.basic.last_write_time
        }),
        observed is Ok && post_read_failure(request, observed) is Some ==> post_read_failure(
            request,
            observed,
        )->0.category is SourceChanged,
{
}

proof fn lemma_largest(streams: Seq<StreamView>, supports: bool)
    ensures
        largest_of(streams, supports) is None <==> forall|i: int|
            0 <= i < streams.len() ==> !representable(#[trigger] streams[i], supports),
        largest_of(streams, supports) matches Some(size) ==> {
            &&& exists|i: int|
                0 <= i < streams.len() && representable(#[trigger] streams[i], supports)
                    && streams[i].size == size
            &&& forall|i: int|
                0 <= i < streams.len() && representable(#[trigger] streams[i], supports)
                    ==> streams[i].size <= size
        },
    decreases streams.len(),
{
    if streams.len() > 0 {
        let front = streams.drop_last();
        lemma_largest(front, supports);
        assert forall|i: int| 0 <= i < front.len() implies front[i] == streams[i] by {}
        let last = streams.len() - 1;
        assert(streams[last] == streams.last());
        if largest_of(front, supports) is Some {
            let size = largest_of(front, supports)->0;
            let at = choose|i: int|
                0 <= i < front.len() && representable(#[trigger] front[i], supports)
                    && front[i].size == size;
            assert(streams[at] == front[at]);
            assert(representable(streams[at], supports));
        }
        if largest_of(streams, supports) is None {
            assert forall|i: int| 0 <= i < streams.len() implies !representable(
                #[trigger] streams[i],
                supports,
            ) by {
                if i < last {
                    assert(front[i] == streams[i]);
                }
            }
        } else {
            let size = largest_of(streams, supports)->0;
            assert forall|i: int|
                0 <= i < streams.len() && representable(
                    #[trigger] streams[i],
                    supports,
                ) implies streams[i].size <= size by {
                if i < last {
                    assert(front[i] == streams[i]);
                }
            }
        }
    }
}

proof fn lemma_named_count(streams: Seq<StreamView>)
    ensures
        crate::streams::named_of(streams).len() <= streams.len(),
        crate::streams::named_of(streams).len() > 0 <==> exists|i: int|
            0 <= i < streams.len() && !(#[trigger] streams[i]).is_unnamed(),
    decreases streams.len(),
{
    if streams.len() > 0 {
        let front = streams.drop_last();
        lemma_named_count(front);
        assert(streams[streams.len() - 1] == streams.last());
        if exists|i: int| 0 <= i < front.len() && !(#[trigger] front[i]).is_unnamed() {
            let at = choose|i: int| 0 <= i < front.len() && !(#[trigger] front[i]).is_unnamed();
            assert(streams[at] == front[at]);
        }
        if exists|i: int| 0 <= i < streams.len() && !(#[trigger] streams[i]).is_unnamed() {
            let at = choose|i: int|
                0 <= i < streams.len() && !(#[trigger] streams[i]).is_unnamed();
            if at < front.len() {
                assert(front[at] == streams[at]);
            }
        }
    }
}

/// How far opening one file came after a list of replies.
pub open spec fn opening(
    request: EngineRequest,
    journal_available: bool,
    replies: Seq<OpenReplyView>,
) -> OpenStepView
    decreases replies.len(),
{
    if replies.len() == 0 {
        OpenStepView::OpenSource
    } else {
        open_next(
            request,
            journal_available,
            opening(request, journal_available, replies.drop_last()),
            replies.last(),
        )
    }
}

/// Whether every reply answers the operation that was asked for.
pub open spec fn opening_is_answered(
    request: EngineRequest,
    journal_available: bool,
    replies: Seq<OpenReplyView>,
) -> bool
    decreases replies.len(),
{
    replies.len() > 0 ==> {
        &&& opening_is_answered(request, journal_available, replies.drop_last())
        &&& open_answers(
            opening(request, journal_available, replies.drop_last()),
            replies.last(),
        )
    }
}

/// Whether a stream that goes to the destination reaches a size.
pub open spec fn carries_stream_of(
    request: EngineRequest,
    streams: Seq<StreamView>,
    size: u64,
) -> bool {
    exists|i: int|
        0 <= i < streams.len() && (#[trigger] streams[i]).size >= size && (
        request.settings.destination.supports_streams || streams[i].name
            == crate::platform::unnamed_suffix())
}

/// Whether a list has the stream of the data itself.
pub open spec fn has_data_stream(streams: Seq<StreamView>) -> bool {
    exists|i: int|
        0 <= i < streams.len() && (#[trigger] streams[i]).name
            == crate::platform::unnamed_suffix()
}

/// A file is opened for its copy only if the opened source is the one that was
/// enumerated. Its streams are those that were known or listed, or the data
/// alone where the source has no others. Its extended attributes are those that
/// were read, whenever the source has some and the destination can hold them,
/// and they count as dropped exactly if the destination cannot. With a promotion
/// size, no stream that goes along reaches it.
pub proof fn opened_file_is_the_enumerated_one(
    request: EngineRequest,
    journal_available: bool,
    replies: Seq<OpenReplyView>,
)
    requires
        opening_is_answered(request, journal_available, replies),
    ensures
        ({
            let step = opening(request, journal_available, replies);
            let source = request.source_snapshot.metadata;
            let has_eas = request.settings.source.supports_eas && source.ea_size > 0;
            let seen = replies[0];
            &&& step is ListStreams || step is ReadEas || step is Opened ==> {
                &&& replies.len() > 0
                &&& seen matches OpenReplyView::Metadata(Ok(opened)) && {
                    &&& opened.identity == source.identity
                    &&& opened.size == source.size
                    &&& opened.basic.last_write_time == source.basic.last_write_time
                }
            }
            &&& step is OpenSource ==> replies.len() == 0
            &&& step is ListStreams ==> replies.len() == 1 && request.known_streams is None
                && request.settings.source.supports_streams
            &&& step matches OpenStepView::ReadEas { streams } ==> {
                &&& has_eas
                &&& request.settings.destination.supports_eas
                &&& streams_are_the_source_s(request, replies, streams)
                &&& !hands_back(request, streams)
            }
            &&& step matches OpenStepView::Opened { file } ==> {
                &&& streams_are_the_source_s(request, replies, file.streams)
                &&& !hands_back(request, file.streams)
                &&& file.extended_attributes is Some <==> has_eas
                    && request.settings.destination.supports_eas
                &&& file.extended_attributes is Some ==> replies.last() == OpenReplyView::Eas(
                    Ok(file.extended_attributes->0),
                )
                &&& file.eas_dropped <==> has_eas && !request.settings.destination.supports_eas
            }
        }),
    decreases replies.len(),
{
    if replies.len() > 0 {
        let front = replies.drop_last();
        opened_file_is_the_enumerated_one(request, journal_available, front);
        if front.len() > 0 {
            assert(front[0] == replies[0]);
            if front.len() > 1 {
                assert(front[1] == replies[1]);
            }
        }
        match (opening(request, journal_available, front), replies.last()) {
            (OpenStepView::OpenSource, _) => {
                if request.known_streams is Some {
                    lemma_hand_back(
                        request,
                        journal_available,
                        stream_views(request.known_streams->0@),
                    );
                } else {
                    lemma_hand_back(
                        request,
                        journal_available,
                        seq![
                            StreamView {
                                name: crate::platform::unnamed_suffix(),
                                size: request.source().size,
                            },
                        ],
                    );
                }
            },
            (OpenStepView::ListStreams, OpenReplyView::Streams(Ok(streams))) => {
                lemma_hand_back(request, journal_available, streams);
            },
            _ => {},
        }
    }
}

/// Whether streams are those of the source: as they were known before, as they
/// were listed, or the data alone where the source has no others.
pub open spec fn streams_are_the_source_s(
    request: EngineRequest,
    replies: Seq<OpenReplyView>,
    streams: Seq<StreamView>,
) -> bool {
    match request.known_streams {
        Some(known) => streams == stream_views(known@),
        None => if request.settings.source.supports_streams {
            replies.len() > 1 && replies[1] == OpenReplyView::Streams(Ok(streams))
        } else {
            streams.len() == 1 && streams[0].name == crate::platform::unnamed_suffix()
                && streams[0].size == request.source_snapshot.metadata.size
        },
    }
}

/// Whether a file with these streams is handed back: a stream that goes to the
/// destination reaches the promotion size. A file with no such stream at all
/// counts by its enumerated size.
pub open spec fn hands_back(request: EngineRequest, streams: Seq<StreamView>) -> bool {
    request.promote_threshold matches Some(size) && (carries_stream_of(request, streams, size) || (
    !carries_stream_of(request, streams, 0) && request.source_snapshot.metadata.size >= size))
}

proof fn lemma_hand_back(
    request: EngineRequest,
    journal_available: bool,
    streams: Seq<StreamView>,
)
    ensures
        after_listing(request, journal_available, streams) is Failed <==> hands_back(
            request,
            streams,
        ),
{
    let supports = request.settings.destination.supports_streams;
    lemma_largest(streams, supports);
    let threshold = request.promote_threshold;
    if threshold is Some {
        let size = threshold->0;
        if largest_of(streams, supports) is Some {
            let largest = largest_of(streams, supports)->0;
            let at = choose|i: int|
                0 <= i < streams.len() && representable(#[trigger] streams[i], supports)
                    && streams[i].size == largest;
            assert(streams[at].size >= 0);
            assert(carries_stream_of(request, streams, 0));
            if carries_stream_of(request, streams, size) {
                let other = choose|i: int|
                    0 <= i < streams.len() && (#[trigger] streams[i]).size >= size && (supports
                        || streams[i].name == crate::platform::unnamed_suffix());
                assert(representable(streams[other], supports));
            }
        } else {
            if carries_stream_of(request, streams, size) || carries_stream_of(
                request,
                streams,
                0,
            ) {
                let other = choose|i: int|
                    0 <= i < streams.len() && (#[trigger] streams[i]).size >= 0 && (supports
                        || streams[i].name == crate::platform::unnamed_suffix());
                if carries_stream_of(request, streams, size) {
                    let reaching = choose|i: int|
                        0 <= i < streams.len() && (#[trigger] streams[i]).size >= size && (supports
                            || streams[i].name == crate::platform::unnamed_suffix());
                    assert(representable(streams[reaching], supports));
                } else {
                    assert(representable(streams[other], supports));
                }
            }
        }
    }
}

/// A file goes directly to its final name exactly if it keeps no sparse layout,
/// carries neither extended attributes nor a named stream that the destination
/// holds, and no stream that goes along reaches the size of a large file or of
/// a checkpoint. A file that is digested for its verification, its size or its
/// checkpoints is the only one that is digested.
pub proof fn direct_route_is_for_plain_small_files(
    request: EngineRequest,
    journal_available: bool,
    streams: Seq<StreamView>,
    extended_attributes: Option<Seq<u8>>,
)
    requires
        has_data_stream(streams),
        streams.len() <= usize::MAX,
    ensures
        ({
            let file = opened_view(request, journal_available, streams, extended_attributes);
            let tuning = request.settings.tuning;
            let large = carries_stream_of(request, streams, tuning.large_threshold);
            let checkpointed = journal_available && carries_stream_of(
                request,
                streams,
                tuning.checkpoint_threshold,
            );
            let carries_named = request.settings.destination.supports_streams && exists|i: int|
                0 <= i < streams.len() && (#[trigger] streams[i]).name
                    != crate::platform::unnamed_suffix();
            let sparse = request.preserve_sparse
                && request.source_snapshot.metadata.basic.attributes & 0x200u32 != 0;
            &&& takes_direct_route(request, file) <==> !sparse && !large && !checkpointed
                && !carries_named && extended_attributes is None
            &&& file.should_hash <==> tuning.verify || large || checkpointed
            &&& file.routing.checkpoint_eligible <==> checkpointed
            &&& file.routing.named_streams_dropped > 0 ==>
                !request.settings.destination.supports_streams
        }),
{
    let supports = request.settings.destination.supports_streams;
    let tuning = request.settings.tuning;
    lemma_largest(streams, supports);
    lemma_named_count(streams);
    let data = choose|i: int|
        0 <= i < streams.len() && (#[trigger] streams[i]).name
            == crate::platform::unnamed_suffix();
    assert(representable(streams[data], supports));
    let largest = largest_of(streams, supports)->0;
    let at = choose|i: int|
        0 <= i < streams.len() && representable(#[trigger] streams[i], supports)
            && streams[i].size == largest;
    assert(streams[at].size == largest);
    if carries_stream_of(request, streams, tuning.large_threshold) {
        let other = choose|i: int|
            0 <= i < streams.len() && (#[trigger] streams[i]).size >= tuning.large_threshold && (
            supports || streams[i].name == crate::platform::unnamed_suffix());
        assert(representable(streams[other], supports));
    }
    let checkpoint = tuning.checkpoint_threshold;
    if carries_stream_of(request, streams, checkpoint) {
        let other = choose|i: int|
            0 <= i < streams.len() && (#[trigger] streams[i]).size >= checkpoint && (supports
                || streams[i].name == crate::platform::unnamed_suffix());
        assert(representable(streams[other], supports));
        assert(any_reaches(streams, supports, checkpoint));
    }
    if any_reaches(streams, supports, checkpoint) {
        let other = choose|i: int|
            0 <= i < streams.len() && representable(#[trigger] streams[i], supports)
                && streams[i].size >= checkpoint;
        assert(streams[other].size >= checkpoint);
    }
    if exists|i: int| 0 <= i < streams.len() && !(#[trigger] streams[i]).is_unnamed() {
        let other = choose|i: int|
            0 <= i < streams.len() && !(#[trigger] streams[i]).is_unnamed();
        assert(streams[other].name != crate::platform::unnamed_suffix());
    }
    if exists|i: int|
        0 <= i < streams.len() && (#[trigger] streams[i]).name
            != crate::platform::unnamed_suffix() {
        let other = choose|i: int|
            0 <= i < streams.len() && (#[trigger] streams[i]).name
                != crate::platform::unnamed_suffix();
        assert(!streams[other].is_unnamed());
    }
}

/// Encryption is asked for exactly if the source is encrypted and the
/// destination can encrypt; a sparse layout is kept exactly if it is wanted and
/// the source is sparse.
pub proof fn layout_follows_the_source(request: EngineRequest)
    ensures
        request.spec_wants_encryption() <==> request.source_snapshot.metadata.basic.attributes
            & 0x4000u32 != 0 && request.settings.destination.supports_encryption,
        request.keeps_sparse() <==> request.source_snapshot.metadata.basic.attributes & 0x200u32
            != 0 && request.preserve_sparse,
        request.replaced() is Some <==> request.replacement_snapshot is Some,
        request.replaced() is Some ==> request.replaced()->0
            == request.replacement_snapshot->0.metadata,
{
}

/// A source that is gone or is another kind of object when it is opened has
/// changed; every other refusal keeps the category of its own code. A destination
/// that is another object when its metadata is put back has changed, and both
/// failures are told.
pub proof fn refused_open_is_told_by_its_cause(
    operation: Seq<char>,
    rel: Seq<u16>,
    error: IoError,
    first: IoError,
)
    ensures
        ({
            let opened = source_open_view(operation, rel, error);
            let restored = readonly_restore_view(rel, first, error);
            &&& opened.operation == operation
            &&& opened.path == rel
            &&& opened.code == error.code
            &&& (error.kind is NotFound ==> opened.category is SourceChanged)
            &&& (error.kind is InvalidData ==> opened.category is SourceChanged
                && restored.category is DestinationChanged)
            &&& (!(error.kind is NotFound) && !(error.kind is InvalidData) ==> opened.category
                == category_of(error))
            &&& (!(error.kind is InvalidData) ==> restored.category == category_of(error))
            &&& restored.operation == "restore_dst_metadata"@
            &&& restored.path == rel
            &&& restored.code == error.code
            &&& restored.message.len() >= first.message@.len() + error.message@.len()
        }),
{
}

} // verus!
