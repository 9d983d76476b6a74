use bigcp_core::artifacts::{AuditChoice, AuditReply, AuditStep};
use bigcp_core::bulk::{
    continue_prepare, start_prepare, BulkFacts, BulkKind, PrepareReply, PrepareStep, StreamWalk,
    WalkReply, WalkStep,
};
use bigcp_core::checkpoints::{Checkpoint, CheckpointFileIdentity};
use bigcp_core::cursor::{CheckpointCursor, CheckpointStatus};
use bigcp_core::devprofile::{select_copy_profile, CopyProfile};
use bigcp_core::engine::{
    open_file, DestinationCaps, EngineRequest, EngineSettings, EngineTuning, OpenReply, OpenStep,
    OpenedFile, SourceCaps, PROMOTED_TO_COORDINATOR,
};
use bigcp_core::error::{IoError, IoErrorKind};
use bigcp_core::filesystem::FilesystemPolicy;
use bigcp_core::hashing::{digest_bytes, StreamDigest};
use bigcp_core::ledger::{Ledger, Notice};
use bigcp_core::model::EntrySnapshot;
use bigcp_core::named::{NamedCopy, NamedReply, NamedStep, NamedStreamResult, WalkedStream};
use bigcp_core::path::WidePath;
use bigcp_core::platform::{
    BasicMetadata, DeviceBus, DeviceInfo, EndpointKind, FileIdentity, FileSystem, ObjectKind,
    ObjectMetadata, StreamInfo, VolumeCapabilities, VolumeInfo,
};
use bigcp_core::preflight::{
    check_acceptance, prospective_path, AncestorSearch, Preflight, PreflightReply, PreflightStep,
    RootCreation, RootReply, RootStep,
};
use bigcp_core::identity::PathIdentity;
use bigcp_core::publish::{
    copy_file, finish_streamed, PublishReply, PublishState, PublishStep, Strategy,
};
use bigcp_core::resume::{ResumeCheck, ResumeKind, ResumeReply, ResumeStep};
use bigcp_core::run::{
    announce_run, derive_hints, start_run, JournalOpening, RunFacts, RunProgress, RunReply,
    RunStep,
};
use bigcp_core::segment::{
    start_transfer, transfer_segment, SegmentSite, StreamBuffers, TransferReply, TransferStep,
};
use bigcp_core::small::{
    create_final, read_plain_small, small_result, start_create, start_small_read,
    write_plain_small, CreateStep, SmallReadReply, SmallReadStep, SmallRoute, SmallWriteReply,
    SmallWriteStep,
};
use bigcp_core::stage::{BulkCopy, PreparedTemp, StageReply, StageStep};
use bigcp_core::transport::TransportProfile;
use bigcp_core::audit::AuditEvent;
use bigcp_core::{
    run_copy, BigcpError, CopyOptions, Counters, DeviceClass, ErrorCategory, TuneOptions,
};

fn wide(text: &str) -> WidePath {
    WidePath::from_text(text)
}

fn failed(code: i32, message: &str) -> IoError {
    IoError {
        code: Some(code),
        kind: IoErrorKind::Other,
        cloud: false,
        message: message.to_owned(),
    }
}

fn metadata(size: u64, mtime: i64) -> ObjectMetadata {
    ObjectMetadata {
        identity: FileIdentity { volume_serial: 1, file_id: [1; 16] },
        kind: ObjectKind::File,
        size,
        allocation_size: size,
        ea_size: 0,
        basic: BasicMetadata {
            creation_time: 1,
            last_access_time: 2,
            last_write_time: mtime,
            attributes: 0x20,
        },
        reparse_tag: None,
    }
}

fn volume() -> VolumeInfo {
    VolumeInfo {
        filesystem: FileSystem::Ntfs,
        capabilities: VolumeCapabilities {
            named_streams: true,
            extended_attributes: true,
            sparse_files: true,
            encryption: true,
            reparse_points: true,
            block_refcounting: false,
            persistent_acls: false,
            posix_unlink_rename: true,
        },
        endpoint: EndpointKind::Local,
        serial: 1,
    }
}

fn settings() -> EngineSettings {
    EngineSettings {
        run_id: "test".to_owned(),
        tuning: EngineTuning {
            chunk_bytes: 64,
            large_threshold: 100,
            checkpoint_threshold: 1 << 30,
            transport: TransportProfile::standard(64),
            verify: true,
            flush: false,
        },
        source: SourceCaps { supports_streams: true, supports_eas: true, is_wsl: false },
        destination: DestinationCaps::from_policy(&FilesystemPolicy::new(
            FileSystem::Ntfs,
            volume().capabilities,
        )),
    }
}

/// What a request borrows.
struct Fixture {
    path: WidePath,
    snapshot: EntrySnapshot,
    replaced: Option<EntrySnapshot>,
    settings: EngineSettings,
    promote_threshold: Option<u64>,
}

impl Fixture {
    fn new(size: u64) -> Fixture {
        Fixture {
            path: wide("a.bin"),
            snapshot: EntrySnapshot { relative_path: wide("a.bin"), metadata: metadata(size, 9) },
            replaced: None,
            settings: settings(),
            promote_threshold: None,
        }
    }

    fn request(&self) -> EngineRequest<'_> {
        EngineRequest {
            source_path: &self.path,
            destination_path: &self.path,
            relative_path: &self.path,
            source_snapshot: &self.snapshot,
            replacement_snapshot: self.replaced.as_ref(),
            settings: &self.settings,
            preserve_sparse: false,
            destination_metadata: self.snapshot.metadata.basic,
            promote_threshold: self.promote_threshold,
            known_streams: None,
        }
    }

    fn open(&self, streams: Vec<StreamInfo>) -> OpenStep {
        let mut step = OpenStep::OpenSource;
        loop {
            let reply = match &step {
                OpenStep::OpenSource => OpenReply::Metadata(Ok(self.snapshot.metadata)),
                OpenStep::ListStreams => OpenReply::Streams(Ok(streams.clone())),
                OpenStep::ReadEas { .. } => OpenReply::Eas(Ok(Vec::new())),
                _ => return step,
            };
            step = open_file(&self.request(), false, step, reply);
        }
    }

    fn opened(&self, streams: Vec<StreamInfo>) -> OpenedFile {
        match self.open(streams) {
            OpenStep::Opened { file } => file,
            other => panic!("unexpected {other:?}"),
        }
    }
}

fn ads(size: u64) -> StreamInfo {
    StreamInfo { name: wide(":ads:$DATA"), size }
}

#[test]
fn a_streamed_file_is_read_written_and_published() {
    let data: Vec<u8> = (0..200_u8).collect();
    let fixture = Fixture::new(200);
    let request = fixture.request();
    let file = fixture.opened(vec![StreamInfo::unnamed(200)]);
    assert_eq!(copy_file(&request, &file, false), Strategy::Streamed);

    let facts = BulkFacts { kind: BulkKind::Streamed, has_parent: true, has_checkpoint: false };
    let mut step = start_prepare(&request, facts);
    let mut created = false;
    loop {
        let reply = match &step {
            PrepareStep::Ready => break,
            PrepareStep::ReadAttributes => PrepareReply::Attributes(Ok(0x20)),
            PrepareStep::CreateTemp { encrypted } => {
                assert!(!encrypted);
                created = true;
                PrepareReply::Done(Ok(()))
            }
            PrepareStep::Failed { error } => panic!("{error:?}"),
            _ => PrepareReply::Done(Ok(())),
        };
        step = continue_prepare(&request, facts, step, reply);
    }
    assert!(created);

    let cursor = CheckpointCursor::new(false, 0, 200, None);
    let (mut walk, mut walk_step) = StreamWalk::over_stream(
        &fixture.path,
        200,
        0,
        true,
        cursor,
        Some(StreamDigest::new()),
    );
    let mut counters = Counters::default();
    let mut at = 0;
    let mut written = Vec::new();
    loop {
        let reply = match walk_step {
            WalkStep::Poll => WalkReply::Polled(false),
            WalkStep::SeekSource { .. } | WalkStep::SeekDestination { .. } => {
                WalkReply::Sought(Ok(()))
            }
            WalkStep::Transfer { bound } => {
                let mut transfer = start_transfer(bound);
                let moved = loop {
                    let reply = match &transfer {
                        TransferStep::Poll { .. } => TransferReply::Polled(false),
                        TransferStep::Read { max, .. } => {
                            let count = (*max).min(data.len() - at);
                            at += count;
                            TransferReply::Read(Ok(data[at - count..at].to_vec()))
                        }
                        TransferStep::Write { bytes, .. } => {
                            written.extend_from_slice(bytes);
                            TransferReply::Written(Ok(()))
                        }
                        TransferStep::Done { moved } => break *moved,
                        TransferStep::Failed { error } => panic!("{error:?}"),
                    };
                    transfer = transfer_segment(
                        SegmentSite::Stream,
                        &fixture.path,
                        bound,
                        64,
                        &mut counters,
                        &mut walk.hasher,
                        transfer,
                        reply,
                    );
                };
                WalkReply::Moved(Ok(moved))
            }
            WalkStep::Checkpoint { .. } => WalkReply::Checkpointed(Ok(CheckpointStatus::Disabled)),
            WalkStep::Done => break,
            WalkStep::Failed { error } => panic!("{error:?}"),
        };
        walk_step = walk.advance(reply);
    }
    assert_eq!(written, data);
    assert_eq!(walk.position(), 200);
    assert_eq!(counters.bytes_written_destination, 200);

    let mut state = PublishState {
        total: 200,
        hasher: walk.hasher,
        degraded: false,
        efs_downgraded: false,
        named: None,
        journal: false,
    };
    let mut step = PublishStep::Revalidate;
    let mut committed = false;
    loop {
        let reply = match &step {
            PublishStep::Revalidate | PublishStep::RevalidateAgain => PublishReply::Metadata {
                observed: Ok(fixture.snapshot.metadata),
                persistent: false,
            },
            PublishStep::CopyNamed => PublishReply::Named(Ok(NamedStreamResult {
                digests: Vec::new(),
                dropped: 0,
                journal_degraded: false,
                bytes: 0,
            })),
            PublishStep::Commit { replace } => {
                assert!(!replace);
                committed = true;
                PublishReply::Committed { persistent: false, done: Ok(()) }
            }
            PublishStep::Published { .. } => break,
            other => panic!("unexpected {other:?}"),
        };
        step = finish_streamed(&request, &file, &mut state, step, reply);
    }
    assert!(committed);
    let PublishStep::Published { result } = step else {
        panic!("a result was expected");
    };
    assert_eq!(result.bytes, 200);
    assert_eq!(result.digest, Some(digest_bytes(&data)));
}

#[test]
fn a_source_that_changed_is_never_committed() {
    let fixture = Fixture::new(200);
    let file = fixture.opened(vec![StreamInfo::unnamed(200)]);
    let mut state = PublishState {
        total: 200,
        hasher: None,
        degraded: false,
        efs_downgraded: false,
        named: None,
        journal: false,
    };
    let step = finish_streamed(
        &fixture.request(),
        &file,
        &mut state,
        PublishStep::RevalidateAgain,
        PublishReply::Metadata { observed: Ok(metadata(200, 10)), persistent: false },
    );
    let PublishStep::Failed { error } = step else {
        panic!("a failure was expected");
    };
    assert_eq!(error.category, ErrorCategory::SourceChanged);
}

#[test]
fn a_failed_base_checkpoint_leaves_the_journal_alone() {
    let mut fixture = Fixture::new(200);
    fixture.settings.tuning.checkpoint_threshold = 1000;
    let file = fixture.opened(vec![StreamInfo::unnamed(200), ads(1000)]);
    let mut state = PublishState {
        total: 200,
        hasher: None,
        degraded: false,
        efs_downgraded: false,
        named: None,
        journal: true,
    };
    let observed = || PublishReply::Metadata {
        observed: Ok(fixture.snapshot.metadata),
        persistent: false,
    };
    let step = finish_streamed(
        &fixture.request(),
        &file,
        &mut state,
        PublishStep::Revalidate,
        observed(),
    );
    assert_eq!(step, PublishStep::BaseCheckpoint);
    let step = finish_streamed(
        &fixture.request(),
        &file,
        &mut state,
        step,
        PublishReply::BaseCheckpointed(Ok(CheckpointStatus::Disabled)),
    );
    assert_eq!(step, PublishStep::CopyNamed);
    assert!(state.degraded);
    assert!(!state.journal);
    let step = finish_streamed(
        &fixture.request(),
        &file,
        &mut state,
        PublishStep::Revalidate,
        observed(),
    );
    assert_eq!(step, PublishStep::CopyNamed);
}

fn new_temp(ranges: Vec<(u64, u64)>) -> StageReply {
    StageReply::Prepared(Ok(PreparedTemp { resumed: None, ranges, attributes: Ok(0) }))
}

#[test]
fn an_ordered_file_is_prepared_walked_and_published() {
    let mut fixture = Fixture::new(200);
    fixture.settings.tuning.checkpoint_threshold = 100;
    let file = fixture.opened(vec![StreamInfo::unnamed(200)]);
    let identity = FileIdentity { volume_serial: 1, file_id: [7; 16] };
    let mut copy = BulkCopy::start(BulkKind::Streamed, true);
    let step = copy.advance(&fixture.request(), &file, new_temp(Vec::new()));
    assert!(matches!(step, StageStep::IdentifyTemp));
    let step = copy.advance(&fixture.request(), &file, StageReply::Identity(Some(identity)));
    let StageStep::Walk { mut walk, first, site, buffers } = step else {
        panic!("a walk was expected");
    };
    assert_eq!(site, SegmentSite::Stream);
    assert_eq!(buffers, StreamBuffers::Standard { request_bytes: 64 });
    assert_eq!(first, WalkStep::Transfer { bound: 200 });
    assert_eq!(walk.cursor(), CheckpointCursor::new(true, 0, 200, Some(identity)));
    assert_eq!(
        walk.advance(WalkReply::Moved(Ok(200))),
        WalkStep::Checkpoint { position: 200 }
    );
    assert_eq!(
        walk.advance(WalkReply::Checkpointed(Ok(CheckpointStatus::Disabled))),
        WalkStep::Done
    );
    let step = copy.advance(&fixture.request(), &file, StageReply::Walked(Ok(walk)));
    let StageStep::Publish { state } = step else {
        panic!("a publication was expected");
    };
    assert_eq!(state.total, 200);
    assert!(state.hasher.is_some());
    assert!(state.degraded);
    assert!(!state.journal);
}

#[test]
fn a_resumed_file_goes_on_with_its_prefix() {
    let mut fixture = Fixture::new(200);
    fixture.settings.tuning.verify = false;
    fixture.settings.tuning.large_threshold = 1000;
    let file = fixture.opened(vec![StreamInfo::unnamed(200)]);
    let mut prefix = StreamDigest::new();
    prefix.update(b"abc");
    let mut copy = BulkCopy::start(BulkKind::Streamed, false);
    let reply = StageReply::Prepared(Ok(PreparedTemp {
        resumed: Some((3, prefix)),
        ranges: Vec::new(),
        attributes: Ok(0),
    }));
    let StageStep::Walk { walk, first, .. } = copy.advance(&fixture.request(), &file, reply) else {
        panic!("a walk was expected");
    };
    assert_eq!(first, WalkStep::Transfer { bound: 197 });
    assert_eq!(walk.into_digest().unwrap().finish(), digest_bytes(b"abc"));
}

#[test]
fn a_sparse_file_reserves_for_its_longest_range() {
    let mut fixture = Fixture::new(200);
    fixture.settings.tuning.transport = TransportProfile::same_spindle(1 << 20);
    let file = fixture.opened(vec![StreamInfo::unnamed(200)]);
    let mut copy = BulkCopy::start(BulkKind::Sparse, false);
    let step = copy.advance(&fixture.request(), &file, new_temp(vec![(0, 8), (50, 70), (190, 10)]));
    assert!(matches!(step, StageStep::ReserveStaging { remaining: 70 }));
    let step = copy.advance(&fixture.request(), &file, StageReply::Staged(Ok(())));
    let StageStep::Walk { site, buffers, .. } = step else {
        panic!("a walk was expected");
    };
    assert_eq!(site, SegmentSite::Sparse);
    assert_eq!(buffers, StreamBuffers::SameSpindle);

    let mut copy = BulkCopy::start(BulkKind::Sparse, false);
    copy.advance(&fixture.request(), &file, new_temp(vec![(0, 8)]));
    let refused = StageReply::Staged(Err("out of memory".to_owned()));
    let StageStep::Failed { error } = copy.advance(&fixture.request(), &file, refused) else {
        panic!("a failure was expected");
    };
    assert_eq!(
        error.message,
        "could not reserve the bounded 1048576-byte same-spindle buffer: out of memory"
    );
}

#[test]
fn an_empty_chunk_is_refused() {
    let mut fixture = Fixture::new(200);
    fixture.settings.tuning.chunk_bytes = 0;
    let file = fixture.opened(vec![StreamInfo::unnamed(200)]);
    let mut copy = BulkCopy::start(BulkKind::Streamed, false);
    let step = copy.advance(&fixture.request(), &file, new_temp(Vec::new()));
    let StageStep::Failed { error } = step else {
        panic!("a failure was expected");
    };
    assert_eq!(error.operation, "allocate_buffer");
}

#[test]
fn segments_are_digested_on_the_local_side() {
    let mut fixture = Fixture::new(200);
    let file = fixture.opened(vec![StreamInfo::unnamed(200)]);
    fixture.settings.destination.is_wsl = true;
    let mut copy = BulkCopy::start(BulkKind::Segmented, true);
    let step = copy.advance(&fixture.request(), &file, new_temp(Vec::new()));
    let StageStep::CopySegments { digest: Some(mut digest) } = step else {
        panic!("a digest of the source was expected");
    };
    digest.update(b"source");
    let reply = StageReply::Segments { failure: None, digest: Some(digest) };
    let StageStep::Publish { state } = copy.advance(&fixture.request(), &file, reply) else {
        panic!("a publication was expected");
    };
    assert_eq!(state.total, 200);
    assert!(state.journal);
    assert_eq!(state.hasher.unwrap().finish(), digest_bytes(b"source"));

    fixture.settings.destination.is_wsl = false;
    let mut copy = BulkCopy::start(BulkKind::Segmented, false);
    let step = copy.advance(&fixture.request(), &file, new_temp(Vec::new()));
    assert!(matches!(step, StageStep::CopySegments { digest: None }));
    let reply = StageReply::Segments { failure: None, digest: None };
    let StageStep::DigestTemp { mut digest } = copy.advance(&fixture.request(), &file, reply) else {
        panic!("a digest of the temporary was expected");
    };
    digest.update(b"temporary");
    let step = copy.advance(&fixture.request(), &file, StageReply::Digested(Ok(digest)));
    let StageStep::Publish { state } = step else {
        panic!("a publication was expected");
    };
    assert_eq!(state.hasher.unwrap().finish(), digest_bytes(b"temporary"));
}

#[test]
fn promotion_comes_before_any_write() {
    let mut fixture = Fixture::new(10);
    fixture.promote_threshold = Some(1000);
    assert!(matches!(
        fixture.open(vec![StreamInfo::unnamed(10), ads(999)]),
        OpenStep::Opened { .. }
    ));
    let OpenStep::Failed { error } = fixture.open(vec![StreamInfo::unnamed(10), ads(1000)]) else {
        panic!("a promotion was expected");
    };
    assert_eq!(error.operation, PROMOTED_TO_COORDINATOR);
}

#[test]
fn small_plain_files_take_the_direct_route() {
    let fixture = Fixture::new(3);
    let request = fixture.request();
    let file = fixture.opened(vec![StreamInfo::unnamed(3)]);
    assert_eq!(copy_file(&request, &file, false), Strategy::PlainSmall);
    let mut counters = Counters::default();
    let route = SmallRoute { should_hash: true, streams_dropped: 0, eas_dropped: false };
    let mut step = start_small_read(&request);
    let prepared = loop {
        let reply = match step {
            SmallReadStep::Reserve { .. } => SmallReadReply::Reserved(None),
            SmallReadStep::Read { .. } => SmallReadReply::Read(Ok(b"abc".to_vec())),
            SmallReadStep::Revalidate { .. } => {
                SmallReadReply::Metadata(Ok(fixture.snapshot.metadata))
            }
            SmallReadStep::Ready { prepared } => break prepared,
            SmallReadStep::Failed { error } => panic!("{error:?}"),
        };
        step = read_plain_small(&request, route, &mut counters, step, reply);
    };
    assert_eq!(prepared.bytes, b"abc");

    let (mut create, stamp) = start_create(&request);
    assert_eq!(stamp, Some(fixture.snapshot.metadata.basic));
    while !matches!(create, CreateStep::Created) {
        create = create_final(&request, create, Ok(()));
    }
    let mut write = SmallWriteStep::Write;
    loop {
        let reply = match &write {
            SmallWriteStep::Write | SmallWriteStep::Finish { .. } => {
                SmallWriteReply::Done(Ok(()))
            }
            SmallWriteStep::Revalidate => {
                SmallWriteReply::Metadata(Ok(fixture.snapshot.metadata))
            }
            SmallWriteStep::Written { .. } => break,
            SmallWriteStep::Failed { error } => panic!("{error:?}"),
        };
        write = write_plain_small(&request, 3, false, &mut counters, write, reply);
    }
    let result = small_result(prepared, false);
    assert_eq!(result.bytes, 3);
    assert_eq!(result.digest, Some(digest_bytes(b"abc")));
    assert_eq!(counters.bytes_written_destination, 3);
}

#[test]
fn a_cleared_readonly_destination_is_restored() {
    let mut fixture = Fixture::new(3);
    let mut old = metadata(2, 8);
    old.basic.attributes = 0x21;
    fixture.replaced = Some(EntrySnapshot { relative_path: wide("a.bin"), metadata: old });
    let request = fixture.request();
    let (step, _) = start_create(&request);
    let denied = || {
        let mut error = failed(5, "denied");
        error.kind = IoErrorKind::PermissionDenied;
        error
    };
    let step = create_final(&request, step, Err(denied()));
    assert!(matches!(step, CreateStep::ClearReadonly { .. }));
    let step = create_final(&request, step, Ok(()));
    assert!(matches!(step, CreateStep::Reopen { .. }));
    let step = create_final(&request, step, Err(failed(32, "in use")));
    let CreateStep::Restore { original, .. } = &step else {
        panic!("a restore was expected");
    };
    assert_eq!(*original, old.basic);
    let step = create_final(&request, step, Ok(()));
    assert!(matches!(step, CreateStep::Failed { .. }));
}

#[test]
fn named_streams_are_copied_one_by_one() {
    let fixture = Fixture::new(10);
    let request = fixture.request();
    let streams = [StreamInfo::unnamed(10), ads(4)];
    let (mut copy, mut step) = NamedCopy::start(&request, &streams, false);
    loop {
        let reply = match &step {
            NamedStep::OpenSource | NamedStep::CreateStream | NamedStep::Flush => {
                NamedReply::Done(Ok(()))
            }
            NamedStep::Identify => {
                NamedReply::Identity(Ok(fixture.snapshot.metadata.identity))
            }
            NamedStep::FindCheckpoint => NamedReply::Found(false),
            NamedStep::Resume => NamedReply::Resumed(Ok(false)),
            NamedStep::Walk(walk) => {
                assert_eq!(copy.current(), &ads(4));
                let (started, first) = copy.start_walk(&request, *walk, None, None);
                assert_eq!(first, WalkStep::Poll);
                assert_eq!(started.position(), 0);
                assert!(started.hasher.is_some());
                NamedReply::Walked(Ok(WalkedStream {
                    digest: Some(digest_bytes(&[1; 4])),
                    degraded: false,
                }))
            }
            NamedStep::Finished { .. } => break,
            NamedStep::Failed { error } => panic!("{error:?}"),
        };
        step = copy.copy_named_streams(&request, reply);
    }
    let NamedStep::Finished { result } = step else {
        panic!("a result was expected");
    };
    assert_eq!(result.bytes, 4);
    assert_eq!(result.digests, vec![(ads(4), digest_bytes(&[1; 4]))]);
}

fn checkpoint(prefix: &[u8], temp: Option<FileIdentity>) -> Checkpoint {
    Checkpoint {
        relative_path: "u16:61".to_owned(),
        stream: String::new(),
        temp_name: ".bigcp-x.part".to_owned(),
        temp_identity: temp.map(CheckpointFileIdentity::from_file),
        source_identity: Some(CheckpointFileIdentity::from_file(metadata(9, 9).identity)),
        source_size: 9,
        source_mtime: 9,
        watermark: prefix.len() as u64,
        prefix_digest: digest_bytes(prefix),
    }
}

fn resume(checkpoint: Checkpoint, temp: FileIdentity, on_disk: &[u8]) -> (ResumeStep, u64) {
    let (mut check, mut step) = ResumeCheck::start(
        ResumeKind::Unnamed,
        &wide("a"),
        checkpoint,
        &metadata(9, 9),
        9,
        1 << 20,
    );
    let mut at = 0;
    let mut counters = Counters::default();
    loop {
        let reply = match &step {
            ResumeStep::Identify => ResumeReply::Identity(Ok(temp)),
            ResumeStep::Measure => ResumeReply::Length(Ok(on_disk.len() as u64)),
            ResumeStep::Verify { max } => {
                let count = (*max).min(2).min(on_disk.len() - at);
                at += count;
                ResumeReply::Read(Ok(on_disk[at - count..at].to_vec()))
            }
            ResumeStep::Resumed | ResumeStep::NotResumed | ResumeStep::Failed { .. } => break,
            _ => ResumeReply::Done(Ok(())),
        };
        step = check.advance(&mut counters, step, reply);
    }
    let verified = check.verified();
    assert_eq!(counters.bytes_verified, verified);
    (step, verified)
}

#[test]
fn resume_needs_the_same_temporary_and_prefix() {
    let temp = FileIdentity { volume_serial: 1, file_id: [7; 16] };
    let other = FileIdentity { volume_serial: 1, file_id: [8; 16] };
    assert_eq!(
        resume(checkpoint(b"abcde", Some(temp)), temp, b"abcdefg"),
        (ResumeStep::Resumed, 5)
    );
    assert_eq!(
        resume(checkpoint(b"abcde", Some(temp)), temp, b"abcdXfg").0,
        ResumeStep::NotResumed
    );
    assert_eq!(
        resume(checkpoint(b"abcde", Some(temp)), other, b"abcdefg").0,
        ResumeStep::NotResumed
    );
    assert_eq!(
        resume(checkpoint(b"abcde", None), temp, b"abcdefg").0,
        ResumeStep::NotResumed
    );
}

#[test]
fn holes_are_skipped_and_hashed_as_zeros() {
    let cursor = CheckpointCursor::new(false, 0, 100, None);
    let (mut walk, mut step) = StreamWalk::over_ranges(
        &wide("a"),
        vec![(10, 20), (60, 5)],
        100,
        0,
        cursor,
        Some(StreamDigest::new()),
    );
    let mut sought = Vec::new();
    loop {
        let reply = match step {
            WalkStep::Poll => WalkReply::Polled(false),
            WalkStep::SeekSource { offset } => {
                sought.push(offset);
                WalkReply::Sought(Ok(()))
            }
            WalkStep::SeekDestination { .. } => WalkReply::Sought(Ok(())),
            WalkStep::Transfer { bound } => {
                if let Some(hasher) = &mut walk.hasher {
                    hasher.update(&vec![1; bound as usize]);
                }
                WalkReply::Moved(Ok(bound))
            }
            WalkStep::Checkpoint { .. } => WalkReply::Checkpointed(Ok(CheckpointStatus::Written)),
            WalkStep::Done => break,
            WalkStep::Failed { error } => panic!("{error:?}"),
        };
        step = walk.advance(reply);
    }
    assert_eq!(sought, vec![10, 60]);
    let mut expected = vec![0_u8; 100];
    expected[10..30].fill(1);
    expected[60..65].fill(1);
    assert_eq!(walk.hasher.unwrap().finish(), digest_bytes(&expected));
}

fn options() -> CopyOptions {
    CopyOptions::new(wide(r"C:\source"), wide(r"D:\backup"))
}

fn device() -> DeviceInfo {
    DeviceInfo {
        endpoint: EndpointKind::Local,
        disk_numbers: vec![0],
        incurs_seek_penalty: Some(false),
        bus: Some(DeviceBus::Nvme),
        maximum_transfer_length: None,
        logical_sector: Some(512),
        physical_sector: Some(4096),
        write_cache_enabled: Some(true),
        high_confidence: true,
    }
}

fn profile() -> CopyProfile {
    select_copy_profile(
        &device(),
        &device(),
        DeviceClass::Auto,
        DeviceClass::Auto,
        &TuneOptions::default(),
        8,
    )
    .ok()
    .unwrap()
}

fn identity(path: &str) -> PathIdentity {
    PathIdentity {
        exact: wide(path),
        folded: Ok(wide(&path.to_uppercase())),
        case_sensitive: false,
    }
}

#[test]
fn missing_ancestors_are_found_and_created_in_order() {
    let mut search = AncestorSearch::start();
    assert_eq!(search.nearest_existing(false, Some(wide("b")), true).ok(), Some(None));
    assert_eq!(search.nearest_existing(false, Some(wide("a")), true).ok(), Some(None));
    let found = search.nearest_existing(true, None, true).ok().unwrap().unwrap();
    let path = prospective_path(&wide(r"D:\root"), &found);
    assert_eq!(path, wide(r"D:\root\a\b"));
    let (mut creation, mut step) = RootCreation::start(&wide(r"D:\root"), &found);
    let mut created = Vec::new();
    loop {
        let reply = match &step {
            RootStep::Create => {
                created.push(creation.current.to_text_lossy());
                RootReply::Created(Ok(()))
            }
            RootStep::Read => RootReply::Kind(Ok(ObjectKind::Directory)),
            _ => break,
        };
        step = creation.create_missing_components(step, reply);
    }
    assert_eq!(step, RootStep::Finished);
    assert_eq!(created, vec![r"D:\root\a".to_owned(), r"D:\root\a\b".to_owned()]);
    let mut hopeless = AncestorSearch::start();
    assert!(hopeless.nearest_existing(false, None, false).is_err());
}

#[test]
fn limits_have_to_be_accepted_unless_nothing_is_written() {
    let mut fat = volume();
    fat.filesystem = FileSystem::ExFat;
    let mut options = options();
    assert!(check_acceptance(&options, &volume(), &volume()).is_ok());
    assert!(matches!(
        check_acceptance(&options, &volume(), &fat),
        Err(BigcpError::Invalid(_))
    ));
    options.dry_run = true;
    assert!(check_acceptance(&options, &volume(), &fat).is_ok());
    options.dry_run = false;
    options.accept_degraded_filesystem = true;
    assert!(check_acceptance(&options, &volume(), &fat).is_ok());
    let mut share = volume();
    share.endpoint = EndpointKind::Unc;
    assert!(check_acceptance(&options, &share, &volume()).is_err());
}

fn preflight(options: &CopyOptions, missing: Vec<WidePath>) -> (PreflightStep, Vec<PreflightStep>) {
    let mut state = Preflight::start();
    let mut step = PreflightStep::NormalizeSource;
    let mut log = Vec::new();
    loop {
        let reply = match &step {
            PreflightStep::NormalizeSource
            | PreflightStep::ResolveSource => PreflightReply::Path(Ok(wide(r"C:\source"))),
            PreflightStep::NormalizeDestination
            | PreflightStep::ResolveRoot => PreflightReply::Path(Ok(wide(r"D:\backup"))),
            PreflightStep::ResolveAncestor => PreflightReply::Path(Ok(wide(r"D:\"))),
            PreflightStep::ReadSource | PreflightStep::ReadDestination => {
                PreflightReply::Kind(Ok(ObjectKind::Directory))
            }
            PreflightStep::FindAncestor => PreflightReply::Missing(Ok(missing.clone())),
            PreflightStep::CompareRoots => PreflightReply::Compared {
                destination_below_source: Ok(false),
                source_below_destination: Ok(false),
            },
            PreflightStep::IdentifyDestination => {
                PreflightReply::Identity(identity(r"D:\backup"))
            }
            PreflightStep::ChooseAuditPaths | PreflightStep::CreateRoot => {
                PreflightReply::Checked(Ok(()))
            }
            PreflightStep::ProbeSource | PreflightStep::ProbeDestination => {
                PreflightReply::Volume(Ok(volume()))
            }
            PreflightStep::ProfileDevices => {
                PreflightReply::Devices { source: device(), destination: device() }
            }
            PreflightStep::ConfirmRoot => PreflightReply::Below(Ok(true)),
            PreflightStep::AcquireLock { .. }
            | PreflightStep::OpenSource
            | PreflightStep::OpenAncestor
            | PreflightStep::PinRoot => PreflightReply::Done(Ok(())),
            PreflightStep::Ready { .. } | PreflightStep::Failed { .. } => return (step, log),
        };
        let next = state.preflight(options, 8, step, reply);
        log.push(next_kind(&next));
        step = next;
    }
}

fn next_kind(step: &PreflightStep) -> PreflightStep {
    match step {
        PreflightStep::CreateRoot => PreflightStep::CreateRoot,
        PreflightStep::AcquireLock { .. } => PreflightStep::AcquireLock { name: String::new() },
        _ => PreflightStep::ReadSource,
    }
}

#[test]
fn the_lock_is_taken_before_the_root_is_created() {
    let (step, log) = preflight(&options(), vec![wide("backup")]);
    assert!(matches!(step, PreflightStep::Ready { destination_exists: true }), "{step:?}");
    let lock = log.iter().position(|step| matches!(step, PreflightStep::AcquireLock { .. }));
    let create = log.iter().position(|step| *step == PreflightStep::CreateRoot);
    assert!(lock.unwrap() < create.unwrap());
}

#[test]
fn a_dry_run_creates_no_root() {
    let mut dry = options();
    dry.dry_run = true;
    let (step, log) = preflight(&dry, vec![wide("backup")]);
    assert!(matches!(step, PreflightStep::Ready { destination_exists: false }), "{step:?}");
    assert!(!log.contains(&PreflightStep::CreateRoot));
}

fn run(options: &CopyOptions, ledger: &mut Ledger) -> (RunStep, Vec<&'static str>) {
    let policy = FilesystemPolicy::new(FileSystem::Ntfs, volume().capabilities);
    let mut progress = RunProgress::start(wide("report.json"), wide("fallback.json"));
    let mut order = Vec::new();
    let mut step = start_run(options);
    loop {
        let reply = match &step {
            RunStep::OpenJournal => {
                order.push("journal");
                RunReply::Journal(JournalOpening::Open { skipped: 0 })
            }
            RunStep::ReadRoot => RunReply::Root(Ok(ObjectKind::Directory)),
            RunStep::CopyTree => {
                order.push("copy");
                RunReply::Copied(Ok(()))
            }
            RunStep::Verify => {
                order.push("verify");
                RunReply::Verified(bigcp_core::report::VerificationSummary {
                    failed: 1,
                    ..bigcp_core::report::VerificationSummary::default()
                })
            }
            RunStep::Analyze => {
                order.push("analyze");
                RunReply::Analyzed { logged: Ok(()), timing: "read 1 s".to_owned() }
            }
            RunStep::EndJournal => {
                order.push("end");
                RunReply::Ended(true)
            }
            RunStep::CompactJournal => RunReply::Compacted(None),
            RunStep::WriteReport | RunStep::WriteFallback => {
                order.push("report");
                RunReply::Reported { log_degraded: false, failure: None }
            }
            RunStep::FinishLog => {
                order.push("log");
                RunReply::Logged(Ok(()))
            }
            RunStep::Finished { .. } | RunStep::Failed { .. } => return (step, order),
        };
        step = run_copy(options, policy, &mut progress, ledger, step, reply);
    }
}

#[test]
fn a_run_ends_with_its_log_record() {
    let mut ledger = Ledger::new();
    let (step, order) = run(&options(), &mut ledger);
    assert_eq!(step, RunStep::Finished { exit: 0 });
    assert_eq!(order, vec!["journal", "copy", "end", "report", "log"]);
    let last = ledger.take_notices().pop();
    assert!(matches!(last, Some(Notice::Event(AuditEvent::RunEnd { exit: 0, .. }))));
}

#[test]
fn failed_verification_fails_the_run() {
    let mut verified = options();
    verified.verify = true;
    let mut ledger = Ledger::new();
    let (step, order) = run(&verified, &mut ledger);
    assert_eq!(step, RunStep::Finished { exit: 2 });
    assert!(order.contains(&"verify"));
}

#[test]
fn the_analysis_comes_before_the_end_of_the_journal() {
    let mut analyzed = options();
    analyzed.analyze = true;
    analyzed.verify = true;
    let mut ledger = Ledger::new();
    let (_, order) = run(&analyzed, &mut ledger);
    assert_eq!(order, vec!["journal", "copy", "verify", "analyze", "end", "report", "log"]);
    let notices = ledger.take_notices();
    assert!(notices.contains(&Notice::Message("read 1 s".to_owned())));
    let told = notices.iter().any(|notice| {
        matches!(notice, Notice::Event(AuditEvent::Warning { kind, message, .. })
            if kind == "phase_timing" && message == "read 1 s")
    });
    assert!(told);
    // It is information, and no warning is counted.
    assert_eq!(ledger.warnings.get("phase_timing"), None);
}

#[test]
fn a_dry_run_leaves_the_journal_alone() {
    let mut dry = options();
    dry.dry_run = true;
    let (_, order) = run(&dry, &mut Ledger::new());
    assert!(!order.contains(&"journal"));
}

#[test]
fn unbalanced_counters_are_an_integrity_failure() {
    let mut ledger = Ledger::new();
    ledger.note_file_discovered(5);
    let (step, order) = run(&options(), &mut ledger);
    // The report and the log are written before the run fails.
    assert_eq!(order, vec!["journal", "copy", "end", "report", "log"]);
    assert!(matches!(step, RunStep::Failed { error: BigcpError::Invariant(_) }));
}

#[test]
fn a_run_announces_itself_and_hints_at_slow_paths() {
    let facts = RunFacts {
        run_id: "run".to_owned(),
        source: wide(r"C:\source"),
        destination: wide(r"D:\backup"),
        source_volume: volume(),
        destination_volume: volume(),
        profile: profile(),
        write_cache_disabled: false,
    };
    let mut ledger = Ledger::new();
    announce_run(&options(), &facts, &mut ledger);
    let notices = ledger.take_notices();
    assert!(matches!(&notices[0], Notice::Event(AuditEvent::RunStart { v: 1, .. })));
    assert!(derive_hints(&facts, &Counters::default()).is_empty());
    let slow = RunFacts { write_cache_disabled: true, ..facts };
    assert!(!derive_hints(&slow, &Counters::default()).is_empty());
}

fn identified(path: &WidePath) -> PathIdentity {
    PathIdentity {
        exact: path.clone(),
        folded: Ok(wide(&path.to_text_lossy().to_uppercase())),
        case_sensitive: false,
    }
}

fn choose_artifacts(options: &CopyOptions) -> Result<(WidePath, WidePath, WidePath), BigcpError> {
    let (mut choice, mut step) = AuditChoice::start(
        options,
        &wide(r"C:\data"),
        "stub".to_owned(),
        identified(&options.source),
        identified(&options.destination),
    )?;
    let mut looked_at = wide("");
    loop {
        let reply = match &step {
            AuditStep::Normalize { path, .. } => AuditReply::Path(Ok(path.clone())),
            AuditStep::FindAncestor { path, .. } => {
                looked_at = path.clone();
                AuditReply::Missing(Ok(Vec::new()))
            }
            AuditStep::OpenAncestor { .. } => AuditReply::Done(Ok(())),
            AuditStep::ResolveAncestor { .. } => AuditReply::Path(Ok(looked_at.clone())),
            AuditStep::Identify { state, journal, log, report } => AuditReply::Identities {
                state: identified(state),
                journal: identified(journal),
                log: identified(log),
                report: identified(report),
            },
            AuditStep::Chosen | AuditStep::Failed { .. } => break,
        };
        step = choice.audit_paths(step, reply);
    }
    match step {
        AuditStep::Failed { error } => Err(error),
        _ => Ok((choice.state_dir, choice.log, choice.report)),
    }
}

#[test]
fn artifacts_default_to_the_state_directory() {
    let Ok((state, log, report)) = choose_artifacts(&options()) else {
        panic!("the defaults are clear of both trees");
    };
    let state = state.to_text_lossy();
    assert!(state.starts_with(r"C:\data\bigcp\state\"));
    assert_eq!(state.len(), r"C:\data\bigcp\state\".len() + 16);
    assert_eq!(log.to_text_lossy(), format!(r"{state}\run-stub.log.jsonl"));
    assert_eq!(report.to_text_lossy(), format!(r"{state}\run-stub.report.json"));
}

#[test]
fn artifacts_stay_outside_the_copied_trees() {
    let mut chosen = options();
    chosen.log_path = Some(wide(r"E:\logs\run.jsonl"));
    let Ok((_, log, _)) = choose_artifacts(&chosen) else {
        panic!("the log is clear of both trees");
    };
    assert_eq!(log, wide(r"E:\logs\run.jsonl"));

    chosen.log_path = Some(wide(r"d:\BACKUP\run.jsonl"));
    assert_eq!(
        choose_artifacts(&chosen),
        Err(BigcpError::Invalid(
            "log may not be inside the source or destination tree".to_owned()
        ))
    );
}
