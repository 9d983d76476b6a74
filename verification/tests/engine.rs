use bigcp_core::bulk::BulkKind;
use bigcp_core::engine::{
    canceled_error, operation_error, readonly_restore_error, route_streams, source_open_error,
    DestinationCaps, EngineRequest, EngineResult, EngineSettings, EngineTuning, OpenedFile,
    SourceCaps, StreamRouting, CANCELED_MID_FILE,
};
use bigcp_core::error::{IoError, IoErrorKind};
use bigcp_core::filesystem::FilesystemPolicy;
use bigcp_core::hashing::{digest_bytes, StreamDigest};
use bigcp_core::model::EntrySnapshot;
use bigcp_core::named::{NamedCopy, NamedStep};
use bigcp_core::path::WidePath;
use bigcp_core::platform::{
    BasicMetadata, EndpointKind, FileIdentity, FileSystem, ObjectKind, ObjectMetadata, StreamInfo,
    VolumeCapabilities, VolumeInfo,
};
use bigcp_core::publish::{finish_streamed, PublishReply, PublishState, PublishStep};
use bigcp_core::segment::{
    bounded_buffer_len, copy_segment_range, hash_local_file, record_segment_error, segment_plan,
    DigestPass, DigestStep, SegmentOutcome, SegmentPlan, SegmentReply, SegmentStep,
};
use bigcp_core::stage::{BulkCopy, PreparedTemp, StageReply, StageStep};
use bigcp_core::transport::TransportProfile;
use bigcp_core::worker::{
    route_shard, same_spindle_gather_timeout, BatchReply, BatchRun, BatchStep, FileWorkers, Gather,
    ParentStep, RelativeParentCache, PER_WORKER_QUEUE, SAME_SPINDLE_GATHER_FLOOR_FILES,
    SAME_SPINDLE_GATHER_PATIENT, SAME_SPINDLE_GATHER_QUICK,
};
use bigcp_core::{Counters, ErrorCategory, OperationError};

fn capabilities(value: bool) -> VolumeCapabilities {
    VolumeCapabilities {
        named_streams: value,
        extended_attributes: value,
        sparse_files: value,
        encryption: value,
        reparse_points: value,
        block_refcounting: value,
        persistent_acls: value,
        posix_unlink_rename: value,
    }
}

/// Pins `DestinationCaps::from_policy` field by field against the
/// corresponding `FilesystemPolicy` projection so a constructor edit that
/// transposes two capabilities fails loudly.
#[test]
fn destination_caps_mirror_the_filesystem_policy_projection() {
    // Strict local NTFS: every capability advertised, no restamp, no WSL.
    let ntfs = FilesystemPolicy::new(FileSystem::Ntfs, capabilities(true));
    let caps = DestinationCaps::from_policy(&ntfs);
    assert_eq!(caps.supports_streams, ntfs.supports_streams());
    assert_eq!(caps.supports_eas, ntfs.supports_eas());
    assert_eq!(caps.supports_encryption, ntfs.supports_encryption());
    assert_eq!(caps.supports_preallocation, ntfs.supports_preallocation());
    assert_eq!(caps.supports_persistent_acls, ntfs.supports_persistent_acls());
    assert_eq!(
        caps.supports_posix_unlink_rename,
        ntfs.supports_posix_unlink_rename()
    );
    assert_eq!(caps.requires_post_write_stamp, ntfs.requires_post_write_stamp());
    assert!(caps.supports_streams);
    assert!(caps.supports_eas);
    assert!(caps.supports_encryption);
    assert!(caps.supports_preallocation);
    assert!(caps.supports_persistent_acls);
    assert!(caps.supports_posix_unlink_rename);
    assert!(!caps.requires_post_write_stamp);
    assert!(!caps.is_wsl);

    // FAT: no capabilities, but local preallocation stays appropriate and
    // the direct write path needs the FAT-family post-write restamp.
    let fat = FilesystemPolicy::new(FileSystem::Fat, capabilities(false));
    let caps = DestinationCaps::from_policy(&fat);
    assert_eq!(caps.supports_streams, fat.supports_streams());
    assert_eq!(caps.supports_eas, fat.supports_eas());
    assert_eq!(caps.supports_encryption, fat.supports_encryption());
    assert_eq!(caps.supports_preallocation, fat.supports_preallocation());
    assert_eq!(caps.supports_persistent_acls, fat.supports_persistent_acls());
    assert_eq!(
        caps.supports_posix_unlink_rename,
        fat.supports_posix_unlink_rename()
    );
    assert_eq!(caps.requires_post_write_stamp, fat.requires_post_write_stamp());
    assert!(!caps.supports_streams);
    assert!(!caps.supports_eas);
    assert!(!caps.supports_encryption);
    assert!(caps.supports_preallocation);
    assert!(!caps.supports_persistent_acls);
    assert!(!caps.supports_posix_unlink_rename);
    assert!(caps.requires_post_write_stamp);
    assert!(!caps.is_wsl);

    // Alternating volume capabilities: any transposition of two adjacent
    // capability-derived fields flips at least one of these assertions.
    let alternating = FilesystemPolicy::new(
        FileSystem::Ntfs,
        VolumeCapabilities {
            named_streams: true,
            extended_attributes: false,
            sparse_files: false,
            encryption: true,
            reparse_points: false,
            block_refcounting: false,
            persistent_acls: false,
            posix_unlink_rename: true,
        },
    );
    let caps = DestinationCaps::from_policy(&alternating);
    assert!(caps.supports_streams);
    assert!(!caps.supports_eas);
    assert!(caps.supports_encryption);
    assert!(!caps.supports_persistent_acls);
    assert!(caps.supports_posix_unlink_rename);
}

fn os_error(code: i32, message: &str) -> IoError {
    IoError {
        code: Some(code),
        kind: IoErrorKind::Other,
        cloud: false,
        message: message.to_owned(),
    }
}

#[test]
fn readonly_rollback_failure_preserves_both_failure_contexts() {
    let create_error = os_error(5, "Access is denied. (os error 5)");
    let restore_error = IoError {
        code: None,
        kind: IoErrorKind::InvalidData,
        cloud: false,
        message: "object identity changed before metadata update".to_owned(),
    };
    let error = readonly_restore_error(
        &WidePath::from_text("existing.txt"),
        &create_error,
        &restore_error,
    );

    assert_eq!(error.category, ErrorCategory::DestinationChanged);
    assert_eq!(error.operation, "restore_dst_metadata");
    assert!(error.message.contains("READONLY was cleared"));
    assert!(error.message.contains(&create_error.message));
    assert!(error.message.contains("object identity changed"));
}

#[test]
fn readonly_rollback_io_failure_is_the_primary_error() {
    let create_error = os_error(32, "The file is in use. (os error 32)");
    let restore_error = os_error(5, "Access is denied. (os error 5)");
    let error = readonly_restore_error(
        &WidePath::from_text("existing.txt"),
        &create_error,
        &restore_error,
    );

    assert_eq!(error.category, ErrorCategory::Permissions);
    assert_eq!(error.code, Some(5));
    assert!(error.message.contains(&create_error.message));
    assert!(error.message.contains(&restore_error.message));
}

#[test]
fn dropped_large_ads_does_not_promote_or_checkpoint_plain_data() {
    let streams = [
        StreamInfo::unnamed(4 * 1024),
        StreamInfo {
            name: WidePath::from_text(":large:$DATA"),
            size: 8 * 1024 * 1024,
        },
    ];

    assert_eq!(
        route_streams(&streams, 4 * 1024, false, true, 1024 * 1024),
        StreamRouting {
            largest_representable: 4 * 1024,
            checkpoint_eligible: false,
            named_streams: 1,
            named_streams_dropped: 1,
        }
    );
    assert_eq!(
        route_streams(&streams, 4 * 1024, true, true, 1024 * 1024),
        StreamRouting {
            largest_representable: 8 * 1024 * 1024,
            checkpoint_eligible: true,
            named_streams: 1,
            named_streams_dropped: 0,
        }
    );
}

const KIB: u64 = 1024;
const MIB: u64 = 1024 * 1024;
/// The planner takes the threshold as a parameter, so tiny files do.
const TEST_THRESHOLD: u64 = 512 * KIB;
const TEST_CHUNK: usize = 64 * 1024;

fn plan_for(size: u64) -> Option<SegmentPlan> {
    segment_plan(
        TransportProfile::wsl(TEST_CHUNK),
        true,
        false,
        false,
        &[StreamInfo::unnamed(size)],
        size,
        TEST_THRESHOLD,
        TEST_CHUNK,
        false,
        false,
    )
}

#[test]
fn segment_plan_rejects_every_ineligible_modality() {
    let size = 4 * MIB;
    let streams = [StreamInfo::unnamed(size)];
    let wsl = TransportProfile::wsl(TEST_CHUNK);
    let eligible = |transport, source_wsl, destination_wsl| {
        segment_plan(
            transport,
            source_wsl,
            destination_wsl,
            false,
            &streams,
            size,
            TEST_THRESHOLD,
            TEST_CHUNK,
            false,
            false,
        )
    };
    // Baseline sanity: the eligible shape produces a plan at all.
    assert!(eligible(wsl, true, false).is_some());
    assert!(eligible(wsl, false, true).is_some());
    // Only the WSL transport qualifies.
    assert!(eligible(TransportProfile::redirector(TEST_CHUNK), true, false).is_none());
    assert!(eligible(TransportProfile::standard(TEST_CHUNK), true, false).is_none());
    // Exactly one endpoint may be WSL.
    assert!(eligible(wsl, true, true).is_none());
    assert!(eligible(wsl, false, false).is_none());
    // Sparse preservation keeps the allocated-range strategy.
    assert!(segment_plan(
        wsl, true, false, true, &streams, size, TEST_THRESHOLD, TEST_CHUNK, false, false,
    )
    .is_none());
    // Named streams keep the ordered path.
    let with_named = [
        StreamInfo::unnamed(size),
        StreamInfo { name: WidePath::from_text(":ads:$DATA"), size: 4 },
    ];
    assert!(segment_plan(
        wsl, true, false, false, &with_named, size, TEST_THRESHOLD, TEST_CHUNK, false, false,
    )
    .is_none());
    // Below the threshold is not worth extra opens and threads.
    assert!(plan_for(TEST_THRESHOLD - 1).is_none());
    // Checkpoint-eligible files keep the ordered prefix contract.
    assert!(segment_plan(
        wsl, true, false, false, &streams, size, TEST_THRESHOLD, TEST_CHUNK, true, false,
    )
    .is_none());
    // A live resume candidate keeps the ordered path.
    assert!(segment_plan(
        wsl, true, false, false, &streams, size, TEST_THRESHOLD, TEST_CHUNK, false, true,
    )
    .is_none());
    // A zero-byte chunk cannot produce aligned segments.
    assert!(segment_plan(
        wsl, true, false, false, &streams, size, TEST_THRESHOLD, 0, false, false,
    )
    .is_none());
}

#[test]
fn segment_plan_clamps_counts_and_covers_exactly() {
    // K = clamp(size / threshold, 2, 8), exact contiguous coverage,
    // chunk-aligned starts, remainder on the last segment.
    for (size, expected_segments) in [
        (TEST_THRESHOLD, 2),         // 1, clamped up to 2
        (2 * TEST_THRESHOLD + 3, 2), // unaligned remainder
        (4 * TEST_THRESHOLD, 4),
        (8 * TEST_THRESHOLD, 8),
        (64 * TEST_THRESHOLD, 8), // clamped down to 8
    ] {
        let plan = plan_for(size);
        assert!(
            plan.as_ref()
                .is_some_and(|plan| plan.ranges.len() == expected_segments),
            "unexpected segment count for size {size}: {plan:?}"
        );
        let Some(plan) = plan else {
            return;
        };
        let chunk = TEST_CHUNK as u64;
        let mut cursor = 0_u64;
        for (index, (offset, length)) in plan.ranges.iter().copied().enumerate() {
            assert_eq!(offset, cursor, "range {index} is not contiguous");
            assert_eq!(offset % chunk, 0, "range {index} start is not chunk-aligned");
            assert!(length > 0, "range {index} is empty");
            if index + 1 < plan.ranges.len() {
                assert_eq!(
                    length % chunk,
                    0,
                    "non-final range {index} is not whole chunks"
                );
            }
            cursor += length;
        }
        assert_eq!(cursor, size, "ranges do not cover size {size} exactly");
    }
}

/// Byte pattern that makes any segment offset mix-up visible.
fn patterned(size: usize) -> Vec<u8> {
    (0..size)
        .map(|index| {
            let low = u8::try_from(index & 0xFF).unwrap_or_default();
            let high = u8::try_from((index >> 8) & 0xFF).unwrap_or_default();
            low.wrapping_mul(31).wrapping_add(high)
        })
        .collect()
}

fn metadata(size: u64) -> ObjectMetadata {
    ObjectMetadata {
        identity: FileIdentity { volume_serial: 1, file_id: [3; 16] },
        kind: ObjectKind::File,
        size,
        allocation_size: size,
        ea_size: 0,
        basic: BasicMetadata {
            creation_time: 10,
            last_access_time: 11,
            last_write_time: 12,
            attributes: 0,
        },
        reparse_tag: None,
    }
}

fn wsl_policy_settings(source_is_wsl: bool, chunk: usize) -> EngineSettings {
    let destination = if source_is_wsl {
        // A strict local NTFS destination.
        DestinationCaps::from_policy(&FilesystemPolicy::new(
            FileSystem::Ntfs,
            capabilities(true),
        ))
    } else {
        // A Plan 9 destination.
        let volume = |endpoint, filesystem| VolumeInfo {
            endpoint,
            filesystem,
            serial: 0,
            capabilities: capabilities(false),
        };
        DestinationCaps::from_policy(&FilesystemPolicy::from_volumes(
            &volume(EndpointKind::Local, FileSystem::Ntfs),
            &volume(EndpointKind::Wsl, FileSystem::Wsl),
        ))
    };
    EngineSettings {
        run_id: "segmented-test".to_owned(),
        tuning: EngineTuning {
            chunk_bytes: chunk,
            large_threshold: MIB,
            checkpoint_threshold: u64::MAX,
            transport: TransportProfile::wsl(chunk),
            verify: false,
            flush: false,
        },
        source: SourceCaps {
            supports_streams: true,
            supports_eas: false,
            is_wsl: source_is_wsl,
        },
        destination,
    }
}

/// Moves every segment of a file in memory, one after the other.
fn move_segments(
    request: &EngineRequest<'_>,
    plan: SegmentPlan,
    data: &[u8],
    written: &mut [u8],
    counters: &mut Counters,
    cancel: &mut dyn FnMut() -> bool,
) -> Option<OperationError> {
    let mut outcome = SegmentOutcome::new();
    for (offset, length) in plan.ranges {
        let mut read_at = 0_usize;
        let mut write_at = 0_usize;
        let mut step = SegmentStep::OpenSource;
        loop {
            let reply = match &step {
                SegmentStep::OpenSource => {
                    SegmentReply::Metadata(Ok(request.source_snapshot.metadata))
                }
                SegmentStep::SeekSource => {
                    read_at = offset as usize;
                    SegmentReply::Done(Ok(()))
                }
                SegmentStep::SeekDestination => {
                    write_at = offset as usize;
                    SegmentReply::Done(Ok(()))
                }
                SegmentStep::CheckFlags { .. } => SegmentReply::Flags {
                    stopped: outcome.stop,
                    canceled: cancel(),
                },
                SegmentStep::Read { max, .. } => {
                    let bytes = data[read_at..read_at + max].to_vec();
                    read_at += max;
                    SegmentReply::Read(Ok(bytes))
                }
                SegmentStep::Write { bytes, .. } => {
                    written[write_at..write_at + bytes.len()].copy_from_slice(bytes);
                    write_at += bytes.len();
                    SegmentReply::Done(Ok(()))
                }
                SegmentStep::Flush => SegmentReply::Done(Ok(())),
                SegmentStep::Finished { .. } => break,
            };
            step = copy_segment_range(request, length, TEST_CHUNK, counters, step, reply);
        }
        if let SegmentStep::Finished { failure: Some(error) } = step {
            record_segment_error(&mut outcome, error);
        }
    }
    outcome.first_error
}

/// Digests a file in memory.
fn digest_local(
    pass: DigestPass,
    path: &WidePath,
    local: &[u8],
    digest: &mut StreamDigest,
    cancel: &mut dyn FnMut() -> bool,
) -> Option<OperationError> {
    let mut at = 0_usize;
    let mut step = DigestStep::Rewind;
    loop {
        let reply = match &step {
            DigestStep::Rewind => SegmentReply::Done(Ok(())),
            DigestStep::CheckFlags { .. } => {
                SegmentReply::Flags { stopped: false, canceled: cancel() }
            }
            DigestStep::Read { max, .. } => {
                let bytes = local[at..at + max].to_vec();
                at += max;
                SegmentReply::Read(Ok(bytes))
            }
            DigestStep::Finished { .. } => break,
        };
        step = hash_local_file(pass, path, local.len() as u64, TEST_CHUNK, digest, step, reply);
    }
    match step {
        DigestStep::Finished { failure } => failure,
        _ => None,
    }
}

/// Publishes a file in memory and tells whether it was committed.
fn publish(
    request: &EngineRequest<'_>,
    file: &OpenedFile,
    mut state: PublishState,
) -> (Result<EngineResult, OperationError>, bool) {
    let mut committed = false;
    let mut step = PublishStep::Revalidate;
    loop {
        let reply = match step {
            PublishStep::Revalidate | PublishStep::RevalidateAgain => PublishReply::Metadata {
                observed: Ok(request.source_snapshot.metadata),
                persistent: false,
            },
            PublishStep::CopyNamed => match NamedCopy::start(request, &file.streams, false).1 {
                NamedStep::Finished { result } => PublishReply::Named(Ok(result)),
                other => panic!("unexpected {other:?}"),
            },
            PublishStep::Commit { .. } => {
                committed = true;
                PublishReply::Committed { persistent: false, done: Ok(()) }
            }
            PublishStep::Published { result } => return (Ok(result), committed),
            PublishStep::Failed { error } => return (Err(error), committed),
            other => panic!("unexpected {other:?}"),
        };
        step = finish_streamed(request, file, &mut state, step, reply);
    }
}

/// Runs the segmented strategy end to end in memory and returns the engine
/// result, the counters, and what is at the final name, if anything is.
fn run_segmented(
    source_is_wsl: bool,
    data: &[u8],
    cancel: &mut dyn FnMut() -> bool,
) -> (Result<EngineResult, OperationError>, Counters, Option<Vec<u8>>) {
    let path = WidePath::from_text("big.bin");
    let size = data.len() as u64;
    let snapshot = EntrySnapshot { relative_path: path.clone(), metadata: metadata(size) };
    let settings = wsl_policy_settings(source_is_wsl, TEST_CHUNK);
    let request = EngineRequest {
        source_path: &path,
        destination_path: &path,
        relative_path: &path,
        source_snapshot: &snapshot,
        replacement_snapshot: None,
        settings: &settings,
        preserve_sparse: false,
        destination_metadata: snapshot.metadata.basic,
        promote_threshold: None,
        known_streams: None,
    };
    let streams = vec![StreamInfo::unnamed(size)];
    let mut plan = segment_plan(
        TransportProfile::wsl(TEST_CHUNK),
        source_is_wsl,
        !source_is_wsl,
        false,
        &streams,
        size,
        TEST_THRESHOLD,
        TEST_CHUNK,
        false,
        false,
    );
    let file = OpenedFile {
        routing: route_streams(
            &streams,
            size,
            settings.destination.supports_streams,
            false,
            settings.tuning.checkpoint_threshold,
        ),
        streams,
        extended_attributes: None,
        eas_dropped: false,
        should_hash: true,
        has_auxiliary_data: false,
    };
    let mut counters = Counters::default();
    let mut written = vec![0_u8; data.len()];
    let mut copy = BulkCopy::start(BulkKind::Segmented, false);
    let mut step = StageStep::Prepare;
    loop {
        let reply = match step {
            StageStep::Prepare => StageReply::Prepared(Ok(PreparedTemp {
                resumed: None,
                ranges: Vec::new(),
                attributes: Ok(0),
            })),
            StageStep::CopySegments { mut digest } => {
                let plan = plan.take().unwrap();
                let mut failure =
                    move_segments(&request, plan, data, &mut written, &mut counters, cancel);
                if let (None, Some(digest)) = (&failure, &mut digest) {
                    failure = digest_local(DigestPass::LocalSource, &path, data, digest, cancel);
                }
                StageReply::Segments { failure, digest }
            }
            StageStep::DigestTemp { mut digest } => {
                let failure =
                    digest_local(DigestPass::LocalTemp, &path, &written, &mut digest, cancel);
                StageReply::Digested(failure.map_or(Ok(digest), Err))
            }
            StageStep::Publish { state } => {
                let (result, committed) = publish(&request, &file, state);
                return (result, counters, committed.then_some(written));
            }
            StageStep::Failed { error } => return (Err(error), counters, None),
            _ => panic!("segments are neither identified nor walked"),
        };
        step = copy.advance(&request, &file, reply);
    }
}

#[test]
fn segmented_copy_publishes_identical_content_and_digest_both_directions() {
    let data = patterned(2 * 1024 * 1024 + 7);
    let expected_digest = format!("xxh3:{:032x}", xxhash_rust::xxh3::xxh3_128(&data));
    for source_is_wsl in [true, false] {
        let (result, counters, published) = run_segmented(source_is_wsl, &data, &mut || false);
        assert!(
            result.is_ok(),
            "segmented copy failed (source_is_wsl={source_is_wsl}): {:?}",
            result.err()
        );
        let Ok(result) = result else {
            return;
        };
        assert_eq!(result.bytes, data.len() as u64);
        assert_eq!(result.digest.as_deref(), Some(expected_digest.as_str()));
        assert_eq!(result.streams_dropped, 0);
        assert!(
            published.as_deref() == Some(data.as_slice()),
            "published bytes differ (source_is_wsl={source_is_wsl})"
        );
        assert_eq!(counters.bytes_read_source, data.len() as u64);
        assert_eq!(counters.bytes_written_destination, data.len() as u64);
    }
}

#[test]
fn segmented_copy_cancel_leaves_no_destination_object() {
    let data = patterned(2 * 1024 * 1024);
    let mut polls = 0;
    let (result, counters, published) = run_segmented(true, &data, &mut || {
        polls += 1;
        polls > 3
    });
    assert!(
        result.as_ref().is_err_and(|error| error.operation == CANCELED_MID_FILE),
        "expected graceful mid-file cancellation, got {:?}",
        result.as_ref().err().map(|error| &error.operation)
    );
    // Nothing is at the final name: the temporary was never committed.
    assert_eq!(published, None);
    assert!(counters.bytes_written_destination < data.len() as u64);
}

#[test]
fn first_segment_failure_is_kept() {
    let mut outcome = SegmentOutcome::new();
    let path = WidePath::from_text("big.bin");
    record_segment_error(&mut outcome, operation_error("read", &path, &os_error(23, "crc")));
    record_segment_error(&mut outcome, canceled_error(&path));
    assert!(outcome.stop);
    assert_eq!(outcome.first_error.unwrap().operation, "read");
}

#[test]
fn a_changed_source_stops_a_segment() {
    let path = WidePath::from_text("big.bin");
    let snapshot = EntrySnapshot { relative_path: path.clone(), metadata: metadata(9) };
    let settings = wsl_policy_settings(true, TEST_CHUNK);
    let request = EngineRequest {
        source_path: &path,
        destination_path: &path,
        relative_path: &path,
        source_snapshot: &snapshot,
        replacement_snapshot: None,
        settings: &settings,
        preserve_sparse: false,
        destination_metadata: snapshot.metadata.basic,
        promote_threshold: None,
        known_streams: None,
    };
    let mut counters = Counters::default();
    let step = copy_segment_range(
        &request,
        9,
        TEST_CHUNK,
        &mut counters,
        SegmentStep::OpenSource,
        SegmentReply::Metadata(Ok(metadata(10))),
    );
    let SegmentStep::Finished { failure: Some(error) } = step else {
        panic!("a failure was expected");
    };
    assert_eq!(error.category, ErrorCategory::SourceChanged);
    let missing = copy_segment_range(
        &request,
        9,
        TEST_CHUNK,
        &mut counters,
        SegmentStep::OpenSource,
        SegmentReply::Metadata(Err(IoError {
            code: Some(2),
            kind: IoErrorKind::NotFound,
            cloud: false,
            message: "gone".to_owned(),
        })),
    );
    let SegmentStep::Finished { failure: Some(error) } = missing else {
        panic!("a failure was expected");
    };
    assert_eq!(error.category, ErrorCategory::SourceChanged);
    assert_eq!(counters, Counters::default());
}

#[test]
fn source_that_vanished_has_changed() {
    let path = WidePath::from_text("a");
    let gone = IoError {
        code: None,
        kind: IoErrorKind::NotFound,
        cloud: false,
        message: "gone".to_owned(),
    };
    assert_eq!(
        source_open_error("open_src", &path, &gone).category,
        ErrorCategory::SourceChanged
    );
    let denied = os_error(5, "denied");
    assert_eq!(
        source_open_error("open_src", &path, &denied).category,
        ErrorCategory::Permissions
    );
}

#[test]
fn buffers_never_exceed_what_remains() {
    assert_eq!(bounded_buffer_len(4096, 10), 10);
    assert_eq!(bounded_buffer_len(4096, 1 << 40), 4096);
}

#[test]
fn relative_parent_cache_reuses_valid_parent_and_caches_unavailability() {
    let identity = FileIdentity { volume_serial: 9, file_id: [7; 16] };
    let parent = WidePath::from_text(r"C:\sandbox");
    let mut cache = RelativeParentCache::default();
    assert_eq!(cache.for_destination(Some(&parent), Some(identity)), ParentStep::Open);
    cache.opened(true);
    assert_eq!(cache.for_destination(Some(&parent), Some(identity)), ParentStep::Reuse);
    assert_eq!(cache.for_destination(Some(&parent), None), ParentStep::Absent);
    assert!(cache.key.is_none());

    let mut stale = identity;
    stale.file_id[0] ^= 0xFF;
    assert_eq!(cache.for_destination(Some(&parent), Some(stale)), ParentStep::Open);
    cache.opened(false);
    assert!(!cache.available);
    assert_eq!(
        cache.key.as_ref().map(|(_, identity)| *identity),
        Some(stale)
    );
    // The same unavailable parent does not repeatedly attempt an open.
    assert_eq!(cache.for_destination(Some(&parent), Some(stale)), ParentStep::Absent);
}

/// Pins the directory-affinity contract: a shard value must map to a stable
/// worker index, so that one directory stays with one queue.
#[test]
fn shard_routing_is_stable_per_directory() {
    // Same shard, same queue, every time.
    assert_eq!(route_shard(41, 8), route_shard(41, 8));
    // Distinct shards spread across the queues by modulo.
    assert_eq!(route_shard(0, 8), 0);
    assert_eq!(route_shard(9, 8), 1);
    assert_eq!(route_shard(15, 8), 7);
    // One phased same-spindle worker receives everything.
    assert_eq!(route_shard(41, 1), 0);
    // The zero floor cannot divide by zero even on a stopped pool.
    assert_eq!(route_shard(41, 0), 0);
}

/// Patience applies only below both floors, few files and a small payload.
#[test]
fn same_spindle_gather_patience_is_floor_gated() {
    let burst = 256 * 1024 * 1024;
    assert_eq!(
        same_spindle_gather_timeout(1, 4096, burst),
        SAME_SPINDLE_GATHER_PATIENT
    );
    assert_eq!(
        same_spindle_gather_timeout(SAME_SPINDLE_GATHER_FLOOR_FILES, 4096, burst),
        SAME_SPINDLE_GATHER_QUICK
    );
    // A payload at burst/8 is already worth a sweep even with few files.
    assert_eq!(
        same_spindle_gather_timeout(3, burst / 8, burst),
        SAME_SPINDLE_GATHER_QUICK
    );
}

#[test]
fn worker_pool_bounds_are_enforced_at_construction() {
    assert!(FileWorkers::new(0, None).is_err());
    assert!(FileWorkers::new(257, None).is_err());
    // Same-spindle phased scheduling requires exactly one worker; any
    // other count silently defeats the topology policy.
    assert!(FileWorkers::new(2, Some(1024 * 1024)).is_err());
    let workers = FileWorkers::new(8, None);
    assert!(workers.is_ok());
    let Some(mut workers) = workers.ok() else {
        return;
    };
    // Lazy pool: no threads or queues exist until the first job.
    assert_eq!(workers.started, 0);
    assert!(!workers.receiving);
    assert_eq!(workers.capacity(), 8 * PER_WORKER_QUEUE);
    let starting = workers.ensure_spawned();
    assert!(starting.is_ok());
    for _ in 0..starting.ok().unwrap() {
        assert!(workers.note_started(Ok(())).is_ok());
    }
    assert_eq!(workers.started, 8);
    // Idempotent: a second call must not double-spawn.
    assert_eq!(workers.ensure_spawned().ok(), Some(0));
    assert_eq!(workers.started, 8);
}

#[test]
fn batches_end_at_their_budget() {
    let mut gather = Gather::start(600, 1000);
    assert!(gather.wait().is_some());
    assert!(!gather.offer(500));
    assert!(gather.offer(400));
    assert_eq!(gather.wait(), None);
    assert_eq!(gather.files, 2);
    assert_eq!(Gather::start(5000, 1000).wait(), None);
}

#[test]
fn phased_batch_reads_writes_and_checks_in_turn() {
    let (mut run, mut step) = BatchRun::start(3);
    let mut order = Vec::new();
    loop {
        order.push(step);
        let reply = match step {
            BatchStep::Prepare(1) => BatchReply::RequiresRegular,
            BatchStep::Prepare(_) => BatchReply::Ready,
            BatchStep::Write(_) => BatchReply::Written,
            BatchStep::Finish(_) | BatchStep::Execute(_) => BatchReply::Completed { sent: true },
            BatchStep::Done { .. } => break,
        };
        step = run.run_same_spindle_batch(reply);
    }
    assert_eq!(
        order,
        vec![
            BatchStep::Prepare(0),
            BatchStep::Prepare(1),
            BatchStep::Prepare(2),
            BatchStep::Write(0),
            BatchStep::Write(2),
            BatchStep::Finish(0),
            BatchStep::Finish(2),
            BatchStep::Execute(1),
            BatchStep::Done { complete: true },
        ]
    );
}

#[test]
fn a_lost_coordinator_ends_the_batch() {
    let (mut run, _) = BatchRun::start(2);
    assert_eq!(
        run.run_same_spindle_batch(BatchReply::Completed { sent: false }),
        BatchStep::Done { complete: false }
    );
}

#[test]
fn digests_are_the_named_hash_in_lower_hex() {
    let data = patterned(1000);
    let expected = format!("xxh3:{:032x}", xxhash_rust::xxh3::xxh3_128(&data));
    assert_eq!(digest_bytes(&data), expected);
    let mut parts = StreamDigest::new();
    parts.update(&data[..333]);
    parts.update(&data[333..]);
    assert_eq!(parts.finish(), expected);
    let mut zeros = StreamDigest::new();
    zeros.update_zeros(70_000);
    assert_eq!(zeros.finish(), digest_bytes(&vec![0_u8; 70_000]));
}
