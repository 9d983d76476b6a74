use bigcp_core::audit::{
    emit_error, failover_notice, AuditEvent, AuditPath, EmitStep, LogReply, LogState,
};
use bigcp_core::dirstreams::{
    DirectoryStreamCopy, DirectoryStreamReply, DirectoryStreamStep,
};
use bigcp_core::engine::EngineResult;
use bigcp_core::error::{IoError, IoErrorKind};
use bigcp_core::exit::{exit_directory, start_exit, ExitContext, ExitReply, ExitStep};
use bigcp_core::file::{
    copy_classified, finish_copy, handle_file, is_promoted, needs_retirement, start_copy,
    CompletedCopy, CopyReply, CopyStep, FilePlan, Retirement,
};
use bigcp_core::ledger::{Ledger, Notice};
use bigcp_core::link::{handle_reparse, plan_link, LinkPlan, LinkReply, LinkStep};
use bigcp_core::options::RunRules;
use bigcp_core::path::{top_level, WidePath};
use bigcp_core::platform::{
    BasicMetadata, DirectoryEntry, EndpointKind, FileIdentity, FileSystem, ObjectKind,
    ObjectMetadata, StreamInfo, VolumeCapabilities, VolumeInfo,
};
use bigcp_core::repair::{repair_metadata, RepairContext, RepairReply, RepairStep};
use bigcp_core::report::reconcile_folders;
use bigcp_core::revalidate::{is_unchanged, revalidate_destination, revalidate_source};
use bigcp_core::streams::{logical_bytes, named_streams};
use bigcp_core::transport::TransportProfile;
use bigcp_core::tree::{
    child_created, enter_directory, enter_task, leave_task, start_child, ChildStep, DirectoryTask,
    OpenedDirectory, Outstanding, TaskQueue, TreeStep,
};
use bigcp_core::walk::{
    exclusion_reason, is_system_candidate, Admission, DirectoryJoin, KeyedEntry, ObjectWork,
    PendingDirectory,
};
use bigcp_core::{CopyOptions, Counters, ErrorCategory, OperationError, RunState};

fn wide(text: &str) -> WidePath {
    WidePath::from_text(text)
}

fn io_error(code: i32, message: &str) -> IoError {
    IoError {
        code: Some(code),
        kind: IoErrorKind::Other,
        cloud: false,
        message: message.to_owned(),
    }
}

fn metadata(kind: ObjectKind, size: u64, mtime: i64, id: u8) -> ObjectMetadata {
    ObjectMetadata {
        identity: FileIdentity { volume_serial: 1, file_id: [id; 16] },
        kind,
        size,
        allocation_size: size,
        ea_size: 0,
        basic: BasicMetadata {
            creation_time: 1,
            last_access_time: 2,
            last_write_time: mtime,
            attributes: 0x20,
        },
        reparse_tag: None,
    }
}

fn entry(name: &str, metadata: ObjectMetadata) -> DirectoryEntry {
    DirectoryEntry {
        name: wide(name),
        path: wide(&format!(r"C:\source\{name}")),
        metadata,
        cloud_placeholder: false,
    }
}

fn keyed(entry: DirectoryEntry) -> KeyedEntry {
    let key = entry.name.to_text_lossy().to_uppercase();
    KeyedEntry { entry, key: Ok(wide(&key).units) }
}

fn volume(filesystem: FileSystem, features: bool) -> VolumeInfo {
    VolumeInfo {
        filesystem,
        capabilities: VolumeCapabilities {
            named_streams: features,
            extended_attributes: features,
            sparse_files: features,
            encryption: features,
            reparse_points: features,
            block_refcounting: false,
            persistent_acls: false,
            posix_unlink_rename: features,
        },
        endpoint: EndpointKind::Local,
        serial: 1,
    }
}

fn options() -> CopyOptions {
    CopyOptions::new(wide(r"C:\source"), wide(r"D:\backup"))
}

fn rules_for(options: &CopyOptions) -> RunRules {
    RunRules::new(
        options,
        &volume(FileSystem::Ntfs, true),
        &volume(FileSystem::Ntfs, true),
        false,
        TransportProfile::standard(1 << 20),
    )
}

fn rules() -> RunRules {
    rules_for(&options())
}

fn work(source: ObjectMetadata, destination: Option<ObjectMetadata>) -> ObjectWork {
    ObjectWork {
        entry: entry("a.bin", source),
        destination: destination.map(|metadata| entry("a.bin", metadata)),
        relative: wide("a.bin"),
    }
}

fn failure(operation: &str) -> OperationError {
    OperationError::semantic(
        ErrorCategory::DeviceGone,
        operation,
        wide("a.bin"),
        "the device is gone".to_owned(),
    )
}

#[test]
fn failover_notice_is_a_complete_escaped_event() {
    let event = failover_notice(
        &wide("C:\\primary\\odd\"name.log"),
        &wide(r"C:\fallback\audit.log"),
    );
    let AuditEvent::Warning { kind, rel, message } = event else {
        panic!("a warning was expected");
    };
    assert_eq!(kind, "log_failover");
    assert_eq!(rel, None);
    assert!(message.contains("odd\"name.log"));
}

#[test]
fn failover_notice_precedes_the_retried_terminal_event() {
    let mut state = LogState::new();
    let mut log = Vec::new();
    let mut step = EmitStep::Append;
    loop {
        let reply = match step {
            // The primary log tears the event.
            EmitStep::Append => LogReply::Torn,
            EmitStep::Notice => {
                log.push("log_failover");
                LogReply::Done
            }
            EmitStep::AppendToFallback => {
                log.push("run_end");
                LogReply::Done
            }
            EmitStep::OpenFallback => LogReply::Done,
            EmitStep::Written => break,
            other => panic!("unexpected {other:?}"),
        };
        step = state.advance(step, reply);
    }
    assert_eq!(log, vec!["log_failover", "run_end"]);
    assert!(state.degraded());
    // Nothing follows a line that tore the fallback log as well.
    assert_eq!(state.advance(EmitStep::Append, LogReply::Torn), EmitStep::FallbackTorn);
    let error = emit_error(
        EmitStep::FallbackTorn,
        &wide("primary"),
        &wide("fallback"),
        "no space",
        "",
    );
    assert!(error.to_text().contains("tore an event"));
}

#[test]
fn a_log_that_rolled_back_is_opened_again() {
    let mut state = LogState::new();
    let step = state.advance(EmitStep::Append, LogReply::RolledBack);
    assert_eq!(step, EmitStep::Reopen);
    let step = state.advance(step, LogReply::Done);
    assert_eq!(step, EmitStep::AppendAgain);
    assert_eq!(state.advance(step, LogReply::Done), EmitStep::Written);
    assert!(!state.degraded());
}

#[test]
fn audit_paths_keep_lossy_names_in_hex() {
    assert_eq!(
        AuditPath::from_path(&wide("a")),
        AuditPath { path: "a".to_owned(), path_raw: None }
    );
    let lossy = AuditPath::from_path(&WidePath { units: vec![0x61, 0xd800] });
    assert_eq!(lossy.path, "a\u{fffd}");
    assert_eq!(lossy.path_raw, Some("610000d8".to_owned()));
}

#[test]
fn joining_pairs_defers_and_leaves_extras() {
    let rules = rules();
    let mut ledger = Ledger::new();
    let file = metadata(ObjectKind::File, 5, 9, 1);
    let directory = metadata(ObjectKind::Directory, 0, 9, 2);
    let mut join = DirectoryJoin::start(
        wide("sub"),
        vec![keyed(entry("A.BIN", file)), keyed(entry("old.txt", file))],
    )
    .ok()
    .unwrap();
    let admission = join.pair(&rules, &mut ledger, keyed(entry("a.bin", file)));
    let Admission::File(work) = admission else {
        panic!("a file was expected");
    };
    assert_eq!(work.relative, wide(r"sub\a.bin"));
    assert!(work.destination.is_some());
    assert!(matches!(
        join.pair(&rules, &mut ledger, keyed(entry("d", directory))),
        Admission::Deferred
    ));
    assert_eq!(join.children.len(), 1);
    // The same name twice under the matching rules fails the second one.
    assert!(matches!(
        join.pair(&rules, &mut ledger, keyed(entry("A.bin", file))),
        Admission::Settled
    ));
    assert_eq!(ledger.counters.failed, 1);
    join.record_extras(&mut ledger);
    let extras: Vec<AuditEvent> = ledger
        .take_notices()
        .into_iter()
        .filter_map(|notice| match notice {
            Notice::Event(event @ AuditEvent::Extra { .. }) => Some(event),
            _ => None,
        })
        .collect();
    assert_eq!(
        extras,
        vec![AuditEvent::Extra { rel: AuditPath::from_path(&wide(r"sub\old.txt")) }]
    );
}

#[test]
fn system_folders_are_left_out_of_a_volume_root_only() {
    let folder = entry("System Volume Information", metadata(ObjectKind::Directory, 0, 1, 1));
    let options = options();
    let root_rules = RunRules::new(
        &options,
        &volume(FileSystem::Ntfs, true),
        &volume(FileSystem::Ntfs, true),
        true,
        TransportProfile::standard(1 << 20),
    );
    assert!(is_system_candidate(&root_rules, &folder, &wide("")));
    assert!(!is_system_candidate(&root_rules, &folder, &wide("sub")));
    assert!(!is_system_candidate(&rules(), &folder, &wide("")));
    assert!(exclusion_reason(&root_rules, &folder, &wide("")).is_some());
    assert_eq!(exclusion_reason(&rules(), &folder, &wide("")), None);
}

#[test]
fn equal_files_are_skipped_and_counted_once() {
    let mut ledger = Ledger::new();
    let file = metadata(ObjectKind::File, 5, 9, 1);
    ledger.note_file_discovered(5);
    let plan = handle_file(&rules(), &mut ledger, &work(file, Some(file)));
    assert_eq!(plan, FilePlan::Settled);
    assert_eq!(ledger.counters.skipped_same, 1);
    assert!(ledger.counters.reconcile().is_ok());
    assert!(reconcile_folders(&ledger.folders, &ledger.counters).is_ok());
}

#[test]
fn differing_files_are_replaced_repaired_or_withheld() {
    let source = metadata(ObjectKind::File, 5, 9, 1);
    let mut ledger = Ledger::new();
    let stale = metadata(ObjectKind::File, 4, 9, 2);
    let FilePlan::Copy { replacement: Some(replacement) } =
        handle_file(&rules(), &mut ledger, &work(source, Some(stale)))
    else {
        panic!("a replacement was expected");
    };
    assert_eq!(replacement.fields, vec!["size"]);
    let mut hidden = source;
    hidden.basic.attributes |= 2;
    assert!(matches!(
        handle_file(&rules(), &mut ledger, &work(source, Some(hidden))),
        FilePlan::Repair { .. }
    ));
    let mut kept = options();
    kept.replace = false;
    assert_eq!(
        handle_file(&rules_for(&kept), &mut ledger, &work(source, Some(stale))),
        FilePlan::Settled
    );
    assert_eq!(ledger.counters.skipped_diff, 1);
    assert!(matches!(
        handle_file(&rules(), &mut ledger, &work(source, None)),
        FilePlan::Copy { replacement: None }
    ));
}

#[test]
fn a_dry_run_copies_nothing() {
    let mut dry = options();
    dry.dry_run = true;
    let mut ledger = Ledger::new();
    let source = metadata(ObjectKind::File, 5, 9, 1);
    let rules = rules_for(&dry);
    let work = work(source, None);
    assert!(matches!(handle_file(&rules, &mut ledger, &work), FilePlan::Copy { .. }));
    let mut step = start_copy(&rules, true, &work, &None, true).ok().unwrap();
    loop {
        let reply = match &step {
            CopyStep::DrainWorkers => CopyReply::Drained,
            CopyStep::Revalidate | CopyStep::RevalidateAgain { .. } => {
                CopyReply::Metadata(Ok(source))
            }
            CopyStep::ListStreams => CopyReply::Streams(Ok(vec![StreamInfo::unnamed(5)])),
            CopyStep::Settled => break,
            other => panic!("unexpected {other:?}"),
        };
        step = copy_classified(&rules, &mut ledger, &work, &None, step, reply);
    }
    assert_eq!(ledger.counters.would_copy_new, 1);
    assert_eq!(ledger.counters.copied_new, 0);
}

#[test]
fn small_files_go_to_a_worker_and_large_ones_stay() {
    let rules = rules();
    let small = work(metadata(ObjectKind::File, 5, 9, 1), None);
    assert!(matches!(
        start_copy(&rules, true, &small, &None, true),
        Ok(CopyStep::Dispatch(_))
    ));
    let large = work(metadata(ObjectKind::File, 1 << 40, 9, 1), None);
    let mut step = start_copy(&rules, true, &large, &None, true).ok().unwrap();
    let mut ledger = Ledger::new();
    loop {
        let reply = match &step {
            CopyStep::DrainWorkers => CopyReply::Drained,
            CopyStep::Revalidate | CopyStep::RevalidateAgain { .. } => {
                CopyReply::Metadata(Ok(large.entry.metadata))
            }
            CopyStep::ListStreams => CopyReply::Streams(Ok(vec![StreamInfo::unnamed(1 << 40)])),
            _ => break,
        };
        step = copy_classified(&rules, &mut ledger, &large, &None, step, reply);
    }
    let CopyStep::CopyInline { streams, logical_bytes } = step else {
        panic!("an inline copy was expected");
    };
    assert_eq!(streams, vec![StreamInfo::unnamed(1 << 40)]);
    assert_eq!(logical_bytes, 1 << 40);
}

#[test]
fn a_source_that_changed_is_not_copied() {
    let rules = rules();
    let large = work(metadata(ObjectKind::File, 1 << 40, 9, 1), None);
    let mut ledger = Ledger::new();
    let changed = metadata(ObjectKind::File, 1 << 40, 10, 1);
    let step = copy_classified(
        &rules,
        &mut ledger,
        &large,
        &None,
        CopyStep::Revalidate,
        CopyReply::Metadata(Ok(changed)),
    );
    assert_eq!(step, CopyStep::Settled);
    assert_eq!(ledger.counters.failed, 1);
    assert_eq!(ledger.errors[0].category, ErrorCategory::SourceChanged);
}

fn completed(result: Result<EngineResult, OperationError>) -> CompletedCopy {
    CompletedCopy {
        work: work(metadata(ObjectKind::File, 5, 9, 1), None),
        destination_path: wide(r"D:\backup\a.bin"),
        replacement: None,
        counters: Counters::default(),
        result,
        logical_bytes: 5,
    }
}

fn engine_result() -> EngineResult {
    EngineResult {
        bytes: 5,
        digest: Some("xxh3:0".to_owned()),
        stream_digests: Vec::new(),
        ea_digest: None,
        streams_dropped: 0,
        eas_dropped: false,
        journal_degraded: false,
        efs_downgraded: false,
        checkpoint_used: false,
    }
}

#[test]
fn the_breaker_trips_after_repeated_device_failures() {
    let rules = rules();
    let mut ledger = Ledger::new();
    for index in 0..100 {
        if ledger.breaker.is_some() {
            assert!(index > 1);
            break;
        }
        ledger.note_file_discovered(5);
        let copy = completed(Err(failure("read")));
        let retirement = if needs_retirement(&copy, false) {
            Retirement::Done
        } else {
            Retirement::NotNeeded
        };
        assert!(!is_promoted(&copy));
        finish_copy(&rules, &mut ledger, copy, retirement);
    }
    assert_eq!(ledger.breaker, Some(ErrorCategory::DeviceGone));
    assert!(ledger.counters.reconcile().is_ok());
}

#[test]
fn success_resets_the_streak() {
    let rules = rules();
    let mut ledger = Ledger::new();
    ledger.note_file_discovered(5);
    finish_copy(&rules, &mut ledger, completed(Err(failure("read"))), Retirement::NotNeeded);
    assert_eq!(ledger.breaker_streak, 1);
    ledger.note_file_discovered(5);
    finish_copy(&rules, &mut ledger, completed(Ok(engine_result())), Retirement::NotNeeded);
    assert_eq!(ledger.breaker_streak, 0);
    assert_eq!(ledger.counters.copied_new, 1);
}

#[test]
fn links_are_kept_or_fail_where_the_destination_has_none() {
    let mut link = metadata(ObjectKind::Reparse, 0, 9, 1);
    link.reparse_tag = Some(0xA000_000C);
    let mut ledger = Ledger::new();
    let plan = plan_link(&rules(), &mut ledger, &work(link, None));
    assert!(matches!(plan, LinkPlan::Copy { replacement: None }));
    let options = options();
    let poor = RunRules::new(
        &options,
        &volume(FileSystem::Ntfs, true),
        &volume(FileSystem::ExFat, false),
        false,
        TransportProfile::standard(1 << 20),
    );
    assert_eq!(plan_link(&poor, &mut ledger, &work(link, None)), LinkPlan::Settled);
    assert_eq!(ledger.counters.links_failed, 1);
    let mut step = LinkStep::CheckSource;
    let work = work(link, None);
    loop {
        let reply = match &step {
            LinkStep::CheckSource | LinkStep::CheckDestination => LinkReply::Metadata(Ok(link)),
            LinkStep::ReadDacl => LinkReply::Dacl(Ok(None)),
            LinkStep::CopyLink { .. } => LinkReply::Copied(Ok(0)),
            LinkStep::Settled => break,
        };
        step = handle_reparse(&rules(), &mut ledger, &work, &None, step, reply);
    }
    assert_eq!(ledger.counters.links_copied, 1);
}

#[test]
fn repairs_stamp_only_an_unchanged_pair() {
    let source = metadata(ObjectKind::File, 5, 9, 1);
    let mut destination = metadata(ObjectKind::File, 5, 9, 2);
    destination.basic.attributes = 0x22;
    let context = RepairContext {
        relative: wide("a.bin"),
        source,
        destination,
        eas_differ: false,
        source_supports_eas: true,
        policy: rules().policy,
    };
    let mut step = RepairStep::CheckSource;
    let mut stamped = None;
    loop {
        let reply = match &step {
            RepairStep::CheckSource | RepairStep::RecheckSource { .. } => {
                RepairReply::Metadata(Ok(source))
            }
            RepairStep::CheckDestination { .. } => RepairReply::Metadata(Ok(destination)),
            RepairStep::Stamp { metadata } => {
                stamped = Some(*metadata);
                RepairReply::Done(Ok(()))
            }
            RepairStep::Finished { .. } => break,
            other => panic!("unexpected {other:?}"),
        };
        step = repair_metadata(&context, step, reply);
    }
    assert_eq!(step, RepairStep::Finished { failure: None });
    assert_eq!(stamped, Some(source.basic));
    let changed = metadata(ObjectKind::File, 6, 9, 1);
    let step = repair_metadata(
        &context,
        RepairStep::CheckSource,
        RepairReply::Metadata(Ok(changed)),
    );
    assert!(matches!(step, RepairStep::Finished { failure: Some(_) }));
}

fn task(relative: &str, leaving: bool) -> DirectoryTask {
    DirectoryTask {
        leaving,
        source: wide(r"C:\source"),
        destination: wide(r"D:\backup"),
        relative: wide(relative),
        source_metadata: metadata(ObjectKind::Directory, 0, 9, 1),
        destination_exists: true,
        destination_metadata: None,
    }
}

#[test]
fn a_busy_directory_waits_behind_its_siblings() {
    let mut ledger = Ledger::new();
    let mut outstanding = Outstanding::new();
    outstanding.submitted(&wide("busy"));
    assert!(outstanding.is_busy(&wide("busy")));
    let mut queue = TaskQueue::starting_with(task("sibling", true));
    queue.push(task("busy", true));
    assert_eq!(queue.copy_tree(&mut ledger, &outstanding, false), TreeStep::DrainOne);
    assert_eq!(
        queue.copy_tree(&mut ledger, &outstanding, false),
        TreeStep::Leave(task("sibling", true))
    );
    outstanding.completed(&wide("busy"));
    assert!(!outstanding.is_busy(&wide("busy")));
    assert_eq!(outstanding.total, 0);
    assert_eq!(
        queue.copy_tree(&mut ledger, &outstanding, false),
        TreeStep::Leave(task("busy", true))
    );
    assert_eq!(queue.copy_tree(&mut ledger, &outstanding, false), TreeStep::Finished);
}

#[test]
fn a_canceled_run_enters_no_directory_and_reports_no_error() {
    let mut ledger = Ledger::new();
    let mut queue = TaskQueue::starting_with(task("sub", false));
    let step = queue.copy_tree(&mut ledger, &Outstanding::new(), true);
    assert_eq!(step, TreeStep::Skipped);
    assert!(ledger.canceled);
    assert_eq!(ledger.counters.dirs_failed, 1);
    assert!(ledger.errors.is_empty());
    assert_eq!(ledger.warnings.get("canceled_subtree"), Some(1));
    assert!(ledger
        .take_notices()
        .iter()
        .any(|notice| *notice == Notice::Publish(RunState::Canceling)));
}

#[test]
fn unreadable_sources_fail_their_directory() {
    let mut ledger = Ledger::new();
    let opened = enter_directory(
        &mut ledger,
        &wide("sub"),
        Some(io_error(5, "denied")),
        Ok(Vec::new()),
    );
    assert!(matches!(opened, OpenedDirectory::SourceFailed));
    assert_eq!(ledger.counters.dirs_failed, 1);
    let opened = enter_directory(&mut ledger, &wide("sub"), None, Ok(Vec::new()));
    assert!(matches!(opened, OpenedDirectory::Joined(_)));
}

#[test]
fn what_the_source_holds_is_no_extra_after_the_breaker_tripped() {
    let rules = rules();
    let mut ledger = Ledger::new();
    let file = metadata(ObjectKind::File, 5, 9, 1);
    let mut join = DirectoryJoin::start(
        wide("sub"),
        vec![
            keyed(entry("A.BIN", file)),
            keyed(entry("B.BIN", file)),
            keyed(entry("old.txt", file)),
        ],
    )
    .ok()
    .unwrap();
    assert!(matches!(
        join.pair(&rules, &mut ledger, keyed(entry("a.bin", file))),
        Admission::File(_)
    ));
    ledger.breaker = Some(ErrorCategory::Space);
    assert!(matches!(
        join.pair(&rules, &mut ledger, keyed(entry("b.bin", file))),
        Admission::Settled
    ));
    assert_eq!(ledger.counters.not_attempted, 1);
    ledger.take_notices();
    join.record_extras(&mut ledger);
    assert_eq!(ledger.counters.extra, 1);
    assert_eq!(ledger.extras.count, 1);
    assert_eq!(ledger.extras.samples, vec![r"sub\old.txt".to_owned()]);
    assert_eq!(
        ledger.take_notices(),
        vec![Notice::Event(AuditEvent::Extra {
            rel: AuditPath { path: r"sub\old.txt".to_owned(), path_raw: None },
        })]
    );
}

#[test]
fn extra_samples_are_bounded_and_counts_are_not() {
    let mut ledger = Ledger::new();
    let file = metadata(ObjectKind::File, 5, 9, 1);
    let entries = (0..130).map(|index| keyed(entry(&format!("f{index}"), file))).collect();
    let join = DirectoryJoin::start(wide(""), entries).ok().unwrap();
    join.record_extras(&mut ledger);
    assert_eq!(ledger.counters.extra, 130);
    assert_eq!(ledger.extras.count, 130);
    assert_eq!(ledger.extras.samples.len(), 100);
    assert_eq!(ledger.extras.samples[99], "f99");
    assert_eq!(ledger.take_notices().len(), 130);
}

#[test]
fn missing_directories_are_created_before_they_are_entered() {
    let mut ledger = Ledger::new();
    let mut join = DirectoryJoin::start(wide(""), Vec::new()).ok().unwrap();
    join.pair(
        &rules(),
        &mut ledger,
        keyed(entry("d", metadata(ObjectKind::Directory, 0, 9, 2))),
    );
    let child = join.children.pop().unwrap();
    assert!(matches!(start_child(&rules(), &mut ledger, &child), ChildStep::Create));
    assert!(matches!(
        child_created(&mut ledger, &child.relative, &Err(io_error(5, "denied"))),
        ChildStep::AccountContents
    ));
    let entered = enter_task(child, &wide(r"D:\backup"), true, None);
    assert_eq!(entered.destination, wide(r"D:\backup\d"));
    assert!(!entered.leaving);
    assert!(leave_task(&entered, false).leaving);
}

#[test]
fn leaving_stamps_the_directory_last() {
    let rules = rules();
    let mut ledger = Ledger::new();
    let source = metadata(ObjectKind::Directory, 0, 9, 1);
    let destination = metadata(ObjectKind::Directory, 0, 44, 2);
    let mut step = start_exit(&rules, &mut ledger, &wide("d"), true, &Some(destination));
    let context = ExitContext { rules, relative: wide("d"), source, destination };
    let mut stamped = None;
    loop {
        let reply = match &step {
            ExitStep::ReadDestination => ExitReply::Metadata(Ok(destination)),
            ExitStep::ReadSource | ExitStep::RecheckSource { .. } => {
                ExitReply::Metadata(Ok(source))
            }
            ExitStep::CopyStreams { .. } => ExitReply::Streams(Ok(0)),
            ExitStep::ReadSourceEas { .. } | ExitStep::ReadDestinationEas { .. } => {
                ExitReply::Eas(Ok(Vec::new()))
            }
            ExitStep::ClearEas { .. } | ExitStep::WriteEas { .. } => ExitReply::Done(Ok(())),
            ExitStep::Stamp { metadata } => {
                stamped = Some(*metadata);
                ExitReply::Done(Ok(()))
            }
            ExitStep::Finished => break,
        };
        step = exit_directory(&context, &mut ledger, step, reply);
    }
    assert_eq!(stamped, Some(source.basic));
    assert_eq!(ledger.counters.dirs_meta_failed, 0);
}

fn copy_streams(
    rules: &RunRules,
    ledger: &mut Ledger,
    destination: u8,
    data: &[u8],
) -> DirectoryStreamStep {
    let identity = |id: u8| FileIdentity { volume_serial: 1, file_id: [id; 16] };
    let (mut copy, mut step) =
        DirectoryStreamCopy::start(rules, &wide("d"), identity(1), identity(7), 1);
    let mut at = 0;
    loop {
        let reply = match &step {
            DirectoryStreamStep::List => {
                let stream = StreamInfo { name: wide(":ads:$DATA"), size: 3 };
                DirectoryStreamReply::Listed(Ok(vec![StreamInfo::unnamed(0), stream]))
            }
            DirectoryStreamStep::IdentifySource => DirectoryStreamReply::Identity(Ok(identity(1))),
            DirectoryStreamStep::IdentifyDestination => {
                DirectoryStreamReply::Identity(Ok(identity(destination)))
            }
            DirectoryStreamStep::Read { max } => {
                assert_eq!(*max, 65_536);
                assert_eq!(copy.current().size, 3);
                let count = 2.min(data.len() - at);
                at += count;
                DirectoryStreamReply::Read(Ok(data[at - count..at].to_vec()))
            }
            DirectoryStreamStep::Finished { .. } | DirectoryStreamStep::Failed { .. } => {
                return step;
            }
            _ => DirectoryStreamReply::Done(Ok(())),
        };
        step = copy.copy_directory_streams(rules, ledger, step, reply);
    }
}

#[test]
fn directory_streams_are_copied_whole() {
    let mut ledger = Ledger::new();
    assert_eq!(
        copy_streams(&rules(), &mut ledger, 7, b"abc"),
        DirectoryStreamStep::Finished { dropped: 0 }
    );
    assert_eq!(ledger.counters.bytes_read_source, 3);
    assert_eq!(ledger.counters.bytes_written_destination, 3);

    let DirectoryStreamStep::Failed { error } =
        copy_streams(&rules(), &mut Ledger::new(), 7, b"ab")
    else {
        panic!("a resized stream was expected");
    };
    assert_eq!(error.message, "directory stream :ads:$DATA changed size during copy");
    let mut ledger = Ledger::new();
    let DirectoryStreamStep::Failed { error } = copy_streams(&rules(), &mut ledger, 8, b"abc")
    else {
        panic!("a foreign destination was expected");
    };
    assert_eq!(error.category, ErrorCategory::DestinationChanged);
    assert_eq!(ledger.counters.bytes_written_destination, 0);
}

#[test]
fn directory_streams_are_dropped_where_they_cannot_be_held() {
    let options = options();
    let poor = RunRules::new(
        &options,
        &volume(FileSystem::Ntfs, true),
        &volume(FileSystem::ExFat, false),
        false,
        TransportProfile::standard(1 << 20),
    );
    let mut ledger = Ledger::new();
    assert_eq!(
        copy_streams(&poor, &mut ledger, 7, b"abc"),
        DirectoryStreamStep::Finished { dropped: 1 }
    );
    assert_eq!(ledger.counters.bytes_written_destination, 0);
}

#[test]
fn logical_bytes_count_every_stream_once() {
    let streams = [
        StreamInfo::unnamed(10),
        StreamInfo { name: wide(":ads:$DATA"), size: 3 },
    ];
    assert_eq!(logical_bytes(10, &streams), 13);
    assert_eq!(named_streams(&streams).len(), 1);
}

#[test]
fn objects_are_held_against_their_snapshot() {
    let seen = metadata(ObjectKind::File, 5, 9, 1);
    assert!(is_unchanged(&seen, &seen));
    assert!(revalidate_source(&Ok(seen), &seen, &wide("a")).is_ok());
    let other = metadata(ObjectKind::File, 5, 9, 2);
    assert!(revalidate_source(&Ok(other), &seen, &wide("a"))
        .is_err_and(|error| error.category == ErrorCategory::SourceChanged));
    assert!(revalidate_destination(&Ok(other), &seen, &wide("a"))
        .is_err_and(|error| error.category == ErrorCategory::DestinationChanged));
    assert!(revalidate_source(&Err(io_error(5, "denied")), &seen, &wide("a"))
        .is_err_and(|error| error.category == ErrorCategory::Permissions));
}

#[test]
fn folders_are_named_by_their_top_level() {
    assert_eq!(top_level(&wide(r"photos\2024\a.jpg")), "photos");
    assert_eq!(top_level(&wide("a.jpg")), "a.jpg");
    assert_eq!(top_level(&wide("")), ".");
}

#[test]
fn the_prefix_of_a_path_is_one_component() {
    for (path, first) in [
        (r"C:\a\b", "C:"),
        (r"c:a", "c:"),
        (r"\a", r"\"),
        (r"\\server\share\a", r"\\server\share"),
        (r"//server/share/a", "//server/share"),
        (r"\\server\\a", r"\"),
        (r"\\?\C:\a", r"\\?\C:"),
        (r"\\?\C:a\b", r"\\?\C:a"),
        (r"\\?\UNC\server\share\a", r"\\?\UNC\server\share"),
        (r"\\?\UNC\server", r"\\?\UNC\server"),
        (r"\\?\name\a", r"\\?\name"),
        (r"//?/C:/a", "//?/C:"),
        (r"\\.\COM1\a", r"\\.\COM1"),
        (r".\a", "."),
        (r"..\a", ".."),
    ] {
        assert_eq!(top_level(&wide(path)), first, "{path}");
    }
}

#[test]
fn a_directory_is_told_by_its_components() {
    for (path, directory, inside) in [
        (r"C:\d\a", r"C:\d", true),
        (r"c:/d//a", r"C:\d\", true),
        (r"C:\d\.\a", r"C:\d", true),
        (r"C:\d\e\a", r"C:\d", false),
        (r"C:\a", r"C:\", true),
        (r"C:a", "C:", true),
        (r"C:a", r"C:\", false),
        ("a", "", true),
        (r".\a", ".", true),
        (r".\a", "", false),
        (r"\\server\share\a", r"\\server\share", true),
        (r"\\server\share", r"\\server", false),
        (r"\\?\C:\d\a", r"\\?\c:\d", true),
        (r"\\?\C:\d\a", r"C:\d", false),
        (r"\\?\C:\d\.\a", r"\\?\C:\d", false),
        (r"\\?\C:\d/a", r"\\?\C:\d", false),
        (r"\\?\UNC\server\share\a", r"\\?\UNC\server\share\", true),
        (r"C:\", r"C:\", false),
    ] {
        assert_eq!(wide(path).is_directly_in(&wide(directory)), inside, "{path} {directory}");
    }
}

#[test]
fn paths_are_joined_behind_their_prefix() {
    for (base, name, path) in [
        (r"C:\d", "a", r"C:\d\a"),
        (r"C:\d\", "a", r"C:\d\a"),
        ("d/", "a", "d/a"),
        ("", "a", "a"),
        ("C:", "a", "C:a"),
        ("C:d", "a", r"C:d\a"),
        ("d", "", r"d\"),
        (r"C:\d", r"\a", r"C:\a"),
        (r"C:\d", r"D:a", "D:a"),
        (r"C:\d", r"\\server\share", r"\\server\share"),
        (r"\\server\share", "a", r"\\server\share\a"),
        (r"\\server\share\d", r"\a", r"\\server\share\a"),
        (r"\\?\C:", "a", r"\\?\C:\a"),
        (r"\\?\C:\d", "a", r"\\?\C:\d\a"),
        (r"\\?\C:\d\", "a/b", r"\\?\C:\d\a\b"),
        (r"\\?\C:\d", r"..\.\a", r"\\?\C:\a"),
        (r"\\?\C:\", "..", r"\\?\C:\"),
        (r"\\?\C:\d", r"\a", r"\\?\C:\a"),
        (r"\\?\UNC\server\share", "a", r"\\?\UNC\server\share\a"),
    ] {
        assert_eq!(wide(base).child(&wide(name)), wide(path), "{base} {name}");
    }
}

#[test]
fn a_failed_subtree_is_accounted_without_further_errors() {
    let mut ledger = Ledger::new();
    let directory = PendingDirectory { source: wide(r"C:\source\d"), relative: wide("d") };
    let mut pending = Vec::new();
    let listed = Ok(vec![
        entry("f", metadata(ObjectKind::File, 5, 1, 1)),
        entry("sub", metadata(ObjectKind::Directory, 0, 1, 2)),
    ]);
    ledger.walk_subtree_not_attempted(&directory, &listed, &mut pending);
    assert_eq!(ledger.counters.not_attempted, 1);
    assert_eq!(ledger.counters.dirs_failed, 1);
    assert_eq!(pending.len(), 1);
    assert_eq!(pending[0].relative, wide(r"d\sub"));

    let before = ledger.counters;
    let unlisted = Err(io_error(5, "denied"));
    let sub = pending[0].clone();
    ledger.walk_subtree_not_attempted(&sub, &unlisted, &mut pending);
    assert_eq!(ledger.counters, before);
    assert_eq!(pending.len(), 1);
    assert!(ledger.errors.is_empty());
}
