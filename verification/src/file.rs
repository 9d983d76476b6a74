//! What becomes of one file: skipped, repaired, copied by a worker or inline,
//! or failed, and how a finished copy is accounted.

use vstd::prelude::*;
use vstd::string::*;

use crate::audit::{opt_text, EventView};
use crate::classify::{
    classify, data_differences, label_texts, metadata_differences, types_conflict,
};
use crate::digests::{copy_digests, digest_views};
use crate::engine::{EngineResult, CANCELED_MID_FILE, PROMOTED_TO_COORDINATOR};
use crate::error::{
    category_of, io_error_view, semantic_error_view, BigcpError, ErrorCategory, ErrorView, IoError,
    IoErrorKind, OperationError,
};
use crate::ledger::{Ledger, LedgerView, NoticeView};
use crate::model::{sat, Classification, Counters, EntrySnapshot, FileOutcome, OutcomeView};
use crate::options::RunRules;
use crate::path::WidePath;
use crate::platform::{
    has_attribute, is_compressed, is_sparse, BasicMetadata, EndpointKind, ObjectMetadata, StreamInfo, StreamView, ATTRIBUTE_COMPRESSED, ATTRIBUTE_SPARSE_FILE,
};
use crate::revalidate::{revalidate_source, source_revalidation};
use crate::streams::{logical_bytes, logical_size, stream_views};
use crate::table::lookup;
use crate::text::{concat, decimal, push_decimal, str_eq};
use crate::transport::TransportProfile;
use crate::walk::{ObjectWork, WorkView};

verus! {

/// Replacement decision facts retained until the copy is accounted.
#[derive(Clone, Debug, PartialEq, Eq)]
pub struct ReplacementWork {
    /// Classifier difference labels.
    pub fields: Vec<&'static str>,
    /// Whether the destination last-write time was newer.
    pub destination_newer: bool,
}

/// A replacement decision as values.
#[verifier::ext_equal]
pub ghost struct ReplacementWorkView {
    pub fields: Seq<Seq<char>>,
    pub destination_newer: bool,
}

impl View for ReplacementWork {
    type V = ReplacementWorkView;

    open spec fn view(&self) -> ReplacementWorkView {
        ReplacementWorkView {
            fields: label_texts(self.fields@),
            destination_newer: self.destination_newer,
        }
    }
}

/// An optional replacement decision as values.
pub open spec fn opt_work(replacement: Option<ReplacementWork>) -> Option<ReplacementWorkView> {
    match replacement {
        Some(work) => Some(work@),
        None => None,
    }
}

/// The difference labels of an optional replacement decision.
pub open spec fn fields_of(replacement: Option<ReplacementWorkView>) -> Option<Seq<Seq<char>>> {
    match replacement {
        Some(work) => Some(work.fields),
        None => None,
    }
}

/// What is to be done about one file.
#[derive(Clone, Debug, PartialEq, Eq)]
pub enum FilePlan {
    /// Everything is accounted.
    Settled,
    /// Its metadata is to be repaired.
    Repair {
        /// The differing fields.
        fields: Vec<&'static str>,
    },
    /// Its data is to be copied.
    Copy {
        /// The replacement decision, where the destination exists.
        replacement: Option<ReplacementWork>,
    },
}

/// What is to be done about one file, as values.
#[verifier::ext_equal]
pub ghost enum FilePlanView {
    Settled,
    Repair { fields: Seq<Seq<char>> },
    Copy { replacement: Option<ReplacementWorkView> },
}

impl View for FilePlan {
    type V = FilePlanView;

    open spec fn view(&self) -> FilePlanView {
        match *self {
            FilePlan::Settled => FilePlanView::Settled,
            FilePlan::Repair { fields } => FilePlanView::Repair { fields: label_texts(fields@) },
            FilePlan::Copy { replacement } => FilePlanView::Copy {
                replacement: opt_work(replacement),
            },
        }
    }
}

/// The failure of a file that the destination cannot hold.
pub open spec fn too_large(rules: RunRules, work: WorkView) -> ErrorView {
    semantic_error_view(
        ErrorCategory::FsLimit,
        "fat_file_size"@,
        work.relative,
        rules.policy.filesystem.spec_name() + " cannot store a "@ + decimal(
            work.entry.metadata.size as nat,
        ) + "-byte file; its maximum is "@ + decimal(u32::MAX as nat) + " bytes"@,
    )
}

/// The accounts after the warnings that a file's attributes call for.
pub open spec fn with_file_warnings(rules: RunRules, work: WorkView, ledger: LedgerView) -> LedgerView {
    let attributes = work.entry.metadata.basic.attributes;
    let first = if has_attribute(attributes, ATTRIBUTE_COMPRESSED) {
        ledger.tallied("compressed_sources"@)
    } else {
        ledger
    };
    let second = if has_attribute(attributes, ATTRIBUTE_SPARSE_FILE)
        && !rules.policy.capabilities.sparse_files {
        first.warned(
            "sparse_expanded"@,
            Some(work.relative),
            rules.policy.filesystem.spec_name()
                + " does not support sparse allocation; logical content will be written densely"@,
        )
    } else {
        first
    };
    if work.entry.cloud_placeholder {
        second.warned(
            "cloud_hydrated"@,
            Some(work.relative),
            "cloud placeholder included; reading may hydrate remote content"@,
        )
    } else {
        second
    }
}

/// The plan for one file, and the accounts after it.
pub open spec fn file_plan(rules: RunRules, work: WorkView, ledger: LedgerView) -> (
    FilePlanView,
    LedgerView,
) {
    let source = work.entry.metadata;
    let limit = rules.policy.filesystem.spec_maximum_file_size();
    if limit is Some && source.size > limit->0 {
        (
            FilePlanView::Settled,
            ledger.after_file(
                work.relative,
                OutcomeView::Failed { bytes: source.size, error: too_large(rules, work) },
                None,
            ),
        )
    } else {
        let warned = with_file_warnings(rules, work, ledger);
        match work.destination {
            None => (FilePlanView::Copy { replacement: None }, warned),
            Some(twin) => {
                let data = data_differences(source, twin.metadata, rules.policy);
                let metadata = metadata_differences(source, twin.metadata, rules.policy);
                let newer = twin.metadata.basic.last_write_time > source.basic.last_write_time;
                if types_conflict(source, twin.metadata) {
                    (
                        FilePlanView::Settled,
                        warned.after_file(
                            work.relative,
                            OutcomeView::Failed {
                                bytes: source.size,
                                error: semantic_error_view(
                                    ErrorCategory::TypeConflict,
                                    "join"@,
                                    work.relative,
                                    "source and destination object types conflict"@,
                                ),
                            },
                            None,
                        ),
                    )
                } else if data.len() > 0 && rules.replace {
                    (
                        FilePlanView::Copy {
                            replacement: Some(
                                ReplacementWorkView { fields: data, destination_newer: newer },
                            ),
                        },
                        warned,
                    )
                } else if data.len() > 0 {
                    (
                        FilePlanView::Settled,
                        warned.after_file(
                            work.relative,
                            OutcomeView::SkippedDifferent {
                                bytes: source.size,
                                destination_newer: newer,
                                old_size: twin.metadata.size,
                                old_mtime: twin.metadata.basic.last_write_time,
                                old_attributes: twin.metadata.basic.attributes,
                            },
                            Some(data),
                        ),
                    )
                } else if metadata.len() > 0 && rules.dry_run {
                    (
                        FilePlanView::Settled,
                        warned.counting(
                            Counters {
                                would_meta_fix: sat(warned.counters.would_meta_fix, 1),
                                ..warned.counters
                            },
                        ).after_file(
                            work.relative,
                            OutcomeView::NotAttempted {
                                bytes: source.size,
                                reason: "dry_run_would_fix_metadata"@,
                            },
                            Some(metadata),
                        ),
                    )
                } else if metadata.len() > 0 {
                    (FilePlanView::Repair { fields: metadata }, warned)
                } else {
                    (
                        FilePlanView::Settled,
                        warned.after_file(
                            work.relative,
                            OutcomeView::SkippedSame { bytes: source.size },
                            None,
                        ),
                    )
                }
            },
        }
    }
}

fn warn_of_file(rules: &RunRules, ledger: &mut Ledger, work: &ObjectWork)
    ensures
        final(ledger)@ == with_file_warnings(*rules, work@, old(ledger)@),
{
    let attributes: u32 = work.entry.metadata.basic.attributes;
    if is_compressed(attributes) {
        ledger.increment_warning("compressed_sources");
    }
    if is_sparse(attributes) && !rules.policy.supports_sparse() {
        let message = concat(
            rules.policy.filesystem().name(),
            " does not support sparse allocation; logical content will be written densely",
        );
        ledger.warn("sparse_expanded", Some(&work.relative), message.as_str());
    }
    if work.entry.cloud_placeholder {
        ledger.warn(
            "cloud_hydrated",
            Some(&work.relative),
            "cloud placeholder included; reading may hydrate remote content",
        );
    }
}

/// Decides what is to be done about one file and accounts what is settled by
/// that.
#[verifier::rlimit(40)]
pub fn handle_file(rules: &RunRules, ledger: &mut Ledger, work: &ObjectWork) -> (plan: FilePlan)
    ensures
        file_plan(*rules, work@, old(ledger)@) == (plan@, final(ledger)@),
{
    let size: u64 = work.entry.metadata.size;
    if let Some(limit) = rules.policy.maximum_file_size() {
        if size > limit {
            let mut message = concat(rules.policy.filesystem().name(), " cannot store a ");
            push_decimal(&mut message, size);
            message.append("-byte file; its maximum is ");
            push_decimal(&mut message, u32::MAX as u64);
            message.append(" bytes");
            let error = OperationError::semantic(
                ErrorCategory::FsLimit,
                "fat_file_size",
                work.relative.copied(),
                message,
            );
            ledger.record_file(&work.relative, FileOutcome::Failed { bytes: size, error }, None);
            return FilePlan::Settled;
        }
    }
    warn_of_file(rules, ledger, work);
    let source = EntrySnapshot {
        relative_path: work.relative.copied(),
        metadata: work.entry.metadata,
    };
    let twin = match &work.destination {
        None => {
            return FilePlan::Copy { replacement: None };
        },
        Some(twin) => twin,
    };
    let destination = EntrySnapshot {
        relative_path: work.relative.copied(),
        metadata: twin.metadata,
    };
    match classify(&source, Some(&destination), rules.replace, rules.policy) {
        Classification::New => FilePlan::Copy { replacement: None },
        Classification::Same => {
            ledger.record_file(&work.relative, FileOutcome::SkippedSame { bytes: size }, None);
            FilePlan::Settled
        },
        Classification::MetadataDiff(fields) => {
            if rules.dry_run {
                let ghost warned = ledger@;
                ledger.counters.would_meta_fix = ledger.counters.would_meta_fix.saturating_add(1);
                assert(ledger@ =~= warned.counting(
                    Counters {
                        would_meta_fix: sat(warned.counters.would_meta_fix, 1),
                        ..warned.counters
                    },
                ));
                ledger.record_file(
                    &work.relative,
                    FileOutcome::NotAttempted {
                        bytes: size,
                        reason: "dry_run_would_fix_metadata".to_owned(),
                    },
                    Some(fields),
                );
                FilePlan::Settled
            } else {
                FilePlan::Repair { fields }
            }
        },
        Classification::Replace { fields, destination_newer } => FilePlan::Copy {
            replacement: Some(ReplacementWork { fields, destination_newer }),
        },
        Classification::SkipDifferent { fields, destination_newer } => {
            ledger.record_file(
                &work.relative,
                FileOutcome::SkippedDifferent {
                    bytes: size,
                    destination_newer,
                    old_size: twin.metadata.size,
                    old_mtime: twin.metadata.basic.last_write_time,
                    old_attributes: twin.metadata.basic.attributes,
                },
                Some(fields),
            );
            FilePlan::Settled
        },
        Classification::TypeConflict => {
            let error = OperationError::semantic(
                ErrorCategory::TypeConflict,
                "join",
                work.relative.copied(),
                "source and destination object types conflict".to_owned(),
            );
            ledger.record_file(&work.relative, FileOutcome::Failed { bytes: size, error }, None);
            FilePlan::Settled
        },
    }
}

/// Accounts a metadata repair.
pub fn record_repair(
    ledger: &mut Ledger,
    work: &ObjectWork,
    fields: Vec<&'static str>,
    result: Result<(), OperationError>,
)
    ensures
        final(ledger)@ == old(ledger)@.after_file(
            work@.relative,
            match result {
                Ok(_) => OutcomeView::MetadataFixed { bytes: work@.entry.metadata.size },
                Err(error) => OutcomeView::Failed {
                    bytes: work@.entry.metadata.size,
                    error: error@,
                },
            },
            Some(label_texts(fields@)),
        ),
{
    let bytes: u64 = work.entry.metadata.size;
    let outcome = match result {
        Ok(_) => FileOutcome::MetadataFixed { bytes },
        Err(error) => FileOutcome::Failed { bytes, error },
    };
    ledger.record_file(&work.relative, outcome, Some(fields));
}

/// How a worker handles a file.
#[derive(Clone, Copy, Debug, PartialEq, Eq, Structural)]
pub struct WorkerDispatch {
    /// Streams from this size on hand the file back.
    pub promote_threshold: Option<u64>,
    /// Whether the file goes to the worker of its directory.
    pub directory_affine: bool,
}

/// Whether a file needs the journal that only the coordinator has.
pub open spec fn owns_checkpoints(
    journal_available: bool,
    unnamed_size: u64,
    checkpoint_threshold: u64,
) -> bool {
    journal_available && unnamed_size >= checkpoint_threshold
}

/// Whether a file may go to a worker: it keeps no sparse layout, needs no
/// checkpoints, and is small or streamed through a redirector.
pub open spec fn is_dispatched(
    transport: TransportProfile,
    journal_available: bool,
    unnamed_size: u64,
    large_threshold: u64,
    checkpoint_threshold: u64,
    preserve_sparse: bool,
) -> bool {
    &&& !preserve_sparse
    &&& !owns_checkpoints(journal_available, unnamed_size, checkpoint_threshold)
    &&& unnamed_size < large_threshold || transport.spec_is_redirector()
}

/// The dispatch of a file, if it goes to a worker.
pub open spec fn spec_worker_dispatch(
    transport: TransportProfile,
    destination_is_wsl: bool,
    journal_available: bool,
    unnamed_size: u64,
    large_threshold: u64,
    checkpoint_threshold: u64,
    preserve_sparse: bool,
) -> Option<WorkerDispatch> {
    if is_dispatched(
        transport,
        journal_available,
        unnamed_size,
        large_threshold,
        checkpoint_threshold,
        preserve_sparse,
    ) {
        Some(
            WorkerDispatch {
                promote_threshold: if transport.spec_is_redirector() {
                    if journal_available {
                        Some(checkpoint_threshold)
                    } else {
                        None
                    }
                } else if journal_available && checkpoint_threshold < large_threshold {
                    Some(checkpoint_threshold)
                } else {
                    Some(large_threshold)
                },
                directory_affine: unnamed_size < large_threshold && !destination_is_wsl,
            },
        )
    } else {
        None
    }
}

/// Selects only files whose correctness does not require coordinator-owned
/// journal access. Local behavior is small-file-only; redirectors may also
/// stream independent files through the bounded worker pool.
pub fn worker_dispatch(
    transport: TransportProfile,
    destination_is_wsl: bool,
    journal_available: bool,
    unnamed_size: u64,
    large_threshold: u64,
    checkpoint_threshold: u64,
    preserve_sparse: bool,
) -> (dispatch: Option<WorkerDispatch>)
    ensures
        dispatch == spec_worker_dispatch(
            transport,
            destination_is_wsl,
            journal_available,
            unnamed_size,
            large_threshold,
            checkpoint_threshold,
            preserve_sparse,
        ),
{
    let checkpoint_eligible = journal_available && unnamed_size >= checkpoint_threshold;
    let redirector_stream = transport.is_redirector() && (!journal_available || unnamed_size
        < checkpoint_threshold);
    if preserve_sparse || checkpoint_eligible || (unnamed_size >= large_threshold
        && !redirector_stream) {
        return None;
    }
    let promote_threshold: Option<u64> = if transport.is_redirector() {
        if journal_available {
            Some(checkpoint_threshold)
        } else {
            None
        }
    } else if journal_available && checkpoint_threshold < large_threshold {
        Some(checkpoint_threshold)
    } else {
        Some(large_threshold)
    };
    Some(
        WorkerDispatch {
            promote_threshold,
            directory_affine: unnamed_size < large_threshold && !destination_is_wsl,
        },
    )
}

/// A worker never gets a file that owns checkpoints or keeps a sparse layout,
/// and a file that hides a stream large enough for checkpoints is handed back.
pub proof fn workers_never_own_checkpoints(
    transport: TransportProfile,
    destination_is_wsl: bool,
    journal_available: bool,
    unnamed_size: u64,
    large_threshold: u64,
    checkpoint_threshold: u64,
    preserve_sparse: bool,
)
    requires
        spec_worker_dispatch(
            transport,
            destination_is_wsl,
            journal_available,
            unnamed_size,
            large_threshold,
            checkpoint_threshold,
            preserve_sparse,
        ) is Some,
    ensures
        !preserve_sparse,
        journal_available ==> unnamed_size < checkpoint_threshold,
        journal_available ==> spec_worker_dispatch(
            transport,
            destination_is_wsl,
            journal_available,
            unnamed_size,
            large_threshold,
            checkpoint_threshold,
            preserve_sparse,
        )->0.promote_threshold is Some && spec_worker_dispatch(
            transport,
            destination_is_wsl,
            journal_available,
            unnamed_size,
            large_threshold,
            checkpoint_threshold,
            preserve_sparse,
        )->0.promote_threshold->0 <= checkpoint_threshold,
{
}

/// The next operation in copying one file.
#[derive(Clone, Debug, PartialEq, Eq)]
pub enum CopyStep {
    /// Hand the file to a worker.
    Dispatch(WorkerDispatch),
    /// Account every file in flight first.
    DrainWorkers,
    /// Read the source's metadata.
    Revalidate,
    /// List the source's streams.
    ListStreams,
    /// Read the source's metadata again.
    RevalidateAgain {
        /// The streams of the file.
        streams: Vec<StreamInfo>,
        /// The logical bytes of the file.
        logical_bytes: u64,
    },
    /// Copy the file here.
    CopyInline {
        /// The streams of the file.
        streams: Vec<StreamInfo>,
        /// The logical bytes of the file.
        logical_bytes: u64,
    },
    /// Everything is accounted.
    Settled,
}

/// The next operation as values.
#[verifier::ext_equal]
pub ghost enum CopyStepView {
    Dispatch(WorkerDispatch),
    DrainWorkers,
    Revalidate,
    ListStreams,
    RevalidateAgain { streams: Seq<StreamView>, logical_bytes: u64 },
    CopyInline { streams: Seq<StreamView>, logical_bytes: u64 },
    Settled,
}

impl View for CopyStep {
    type V = CopyStepView;

    open spec fn view(&self) -> CopyStepView {
        match *self {
            CopyStep::Dispatch(dispatch) => CopyStepView::Dispatch(dispatch),
            CopyStep::DrainWorkers => CopyStepView::DrainWorkers,
            CopyStep::Revalidate => CopyStepView::Revalidate,
            CopyStep::ListStreams => CopyStepView::ListStreams,
            CopyStep::RevalidateAgain { streams, logical_bytes } => CopyStepView::RevalidateAgain {
                streams: stream_views(streams@),
                logical_bytes,
            },
            CopyStep::CopyInline { streams, logical_bytes } => CopyStepView::CopyInline {
                streams: stream_views(streams@),
                logical_bytes,
            },
            CopyStep::Settled => CopyStepView::Settled,
        }
    }
}

/// What an operation came to.
#[derive(Debug, PartialEq, Eq)]
pub enum CopyReply {
    /// No file is in flight.
    Drained,
    /// Metadata that was read.
    Metadata(Result<ObjectMetadata, IoError>),
    /// Streams that were listed.
    Streams(Result<Vec<StreamInfo>, IoError>),
}

/// What an operation came to, as values.
#[verifier::ext_equal]
pub ghost enum CopyReplyView {
    Drained,
    Metadata(Result<ObjectMetadata, IoError>),
    Streams(Result<Seq<StreamView>, IoError>),
}

impl View for CopyReply {
    type V = CopyReplyView;

    open spec fn view(&self) -> CopyReplyView {
        match *self {
            CopyReply::Drained => CopyReplyView::Drained,
            CopyReply::Metadata(result) => CopyReplyView::Metadata(result),
            CopyReply::Streams(Ok(streams)) => CopyReplyView::Streams(Ok(stream_views(streams@))),
            CopyReply::Streams(Err(error)) => CopyReplyView::Streams(Err(error)),
        }
    }
}

/// Whether a reply answers a step.
pub open spec fn copy_answers(step: CopyStepView, reply: CopyReplyView) -> bool {
    match step {
        CopyStepView::DrainWorkers => reply is Drained,
        CopyStepView::Revalidate => reply is Metadata,
        CopyStepView::ListStreams => reply is Streams,
        CopyStepView::RevalidateAgain { .. } => reply is Metadata,
        _ => false,
    }
}

/// Whether the sparse layout of a file is kept.
pub open spec fn keeps_sparse(rules: RunRules, attributes: u32) -> bool {
    rules.policy.capabilities.sparse_files && !rules.no_sparse && has_attribute(
        attributes,
        ATTRIBUTE_SPARSE_FILE,
    )
}

/// The first step of copying one file.
pub open spec fn copy_start(
    rules: RunRules,
    journal_available: bool,
    work: WorkView,
    dispatch: bool,
) -> CopyStepView {
    let chosen = spec_worker_dispatch(
        rules.transport,
        rules.policy.endpoint is Wsl,
        journal_available,
        work.entry.metadata.size,
        rules.large_threshold,
        rules.checkpoint_threshold,
        keeps_sparse(rules, work.entry.metadata.basic.attributes),
    );
    if dispatch && !rules.dry_run && chosen is Some {
        CopyStepView::Dispatch(chosen->0)
    } else if rules.transport.kind is SameSpindle && !rules.dry_run {
        CopyStepView::DrainWorkers
    } else {
        CopyStepView::Revalidate
    }
}

/// Decides how one file is copied. Without `dispatch` the file stays with the
/// coordinator: a worker has handed it back.
pub fn start_copy(
    rules: &RunRules,
    journal_available: bool,
    work: &ObjectWork,
    replacement: &Option<ReplacementWork>,
    dispatch: bool,
) -> (step: Result<CopyStep, BigcpError>)
    ensures
        if replacement is Some && work.destination is None {
            step matches Err(BigcpError::Invariant(text)) && text@
                == "replacement classification did not carry its destination snapshot"@
        } else {
            step matches Ok(step) && step@ == copy_start(
                *rules,
                journal_available,
                work@,
                dispatch,
            )
        },
{
    if replacement.is_some() && work.destination.is_none() {
        return Err(
            BigcpError::Invariant(
                "replacement classification did not carry its destination snapshot".to_owned(),
            ),
        );
    }
    if dispatch && !rules.dry_run {
        let preserve_sparse = rules.policy.supports_sparse() && !rules.no_sparse && is_sparse(
            work.entry.metadata.basic.attributes,
        );
        let chosen = worker_dispatch(
            rules.transport,
            rules.policy.endpoint() == EndpointKind::Wsl,
            journal_available,
            work.entry.metadata.size,
            rules.large_threshold,
            rules.checkpoint_threshold,
            preserve_sparse,
        );
        if let Some(chosen) = chosen {
            return Ok(CopyStep::Dispatch(chosen));
        }
    }
    if rules.transport.is_same_spindle() && !rules.dry_run {
        // A transfer here while the phased worker is active would interleave
        // source and destination I/O on one spindle.
        Ok(CopyStep::DrainWorkers)
    } else {
        Ok(CopyStep::Revalidate)
    }
}

/// The failure of a stream listing.
pub open spec fn listing_failure(rel: Seq<u16>, error: IoError) -> ErrorView {
    io_error_view(
        if error.kind is NotFound {
            ErrorCategory::SourceChanged
        } else {
            category_of(error)
        },
        "list_streams"@,
        rel,
        error,
    )
}

/// The accounts after a file that failed before its data was touched.
#[verifier::opaque]
pub open spec fn with_copy_failure(
    ledger: LedgerView,
    work: WorkView,
    replacement: Option<ReplacementWorkView>,
    bytes: u64,
    error: ErrorView,
) -> LedgerView {
    ledger.after_file(
        work.relative,
        OutcomeView::Failed { bytes, error },
        fields_of(replacement),
    )
}

/// The accounts after a file that a dry run would copy.
#[verifier::opaque]
pub open spec fn with_planned_copy(
    ledger: LedgerView,
    work: WorkView,
    replacement: Option<ReplacementWorkView>,
    bytes: u64,
) -> LedgerView {
    if replacement is Some {
        ledger.counting(
            Counters {
                would_copy_replaced: sat(ledger.counters.would_copy_replaced, 1),
                ..ledger.counters
            },
        ).after_file(
            work.relative,
            OutcomeView::NotAttempted { bytes, reason: "dry_run_would_replace"@ },
            fields_of(replacement),
        )
    } else {
        ledger.counting(
            Counters {
                would_copy_new: sat(ledger.counters.would_copy_new, 1),
                ..ledger.counters
            },
        ).after_file(
            work.relative,
            OutcomeView::NotAttempted { bytes, reason: "dry_run_would_copy_new"@ },
            fields_of(replacement),
        )
    }
}

/// The next step of copying one file, and the accounts after a reply.
pub open spec fn copy_next(
    rules: RunRules,
    work: WorkView,
    replacement: Option<ReplacementWorkView>,
    step: CopyStepView,
    reply: CopyReplyView,
    ledger: LedgerView,
) -> (CopyStepView, LedgerView) {
    let size = work.entry.metadata.size;
    match (step, reply) {
        (CopyStepView::DrainWorkers, CopyReplyView::Drained) => (CopyStepView::Revalidate, ledger),
        (CopyStepView::Revalidate, CopyReplyView::Metadata(observed)) => {
            match source_revalidation(observed, work.entry.metadata, work.relative) {
                Some(error) => (
                    CopyStepView::Settled,
                    with_copy_failure(ledger, work, replacement, size, error),
                ),
                None => if rules.source_supports_streams {
                    (CopyStepView::ListStreams, ledger)
                } else {
                    (
                        CopyStepView::RevalidateAgain {
                            streams: seq![
                                StreamView { name: crate::platform::unnamed_suffix(), size },
                            ],
                            logical_bytes: size,
                        },
                        ledger,
                    )
                },
            }
        },
        (CopyStepView::ListStreams, CopyReplyView::Streams(listed)) => match listed {
            Ok(streams) => (
                CopyStepView::RevalidateAgain {
                    streams,
                    logical_bytes: logical_size(size, streams),
                },
                ledger,
            ),
            Err(error) => (
                CopyStepView::Settled,
                with_copy_failure(
                    ledger,
                    work,
                    replacement,
                    size,
                    listing_failure(work.relative, error),
                ),
            ),
        },
        (
            CopyStepView::RevalidateAgain { streams, logical_bytes },
            CopyReplyView::Metadata(observed),
        ) => match source_revalidation(observed, work.entry.metadata, work.relative) {
            Some(error) => (
                CopyStepView::Settled,
                with_copy_failure(ledger, work, replacement, logical_bytes, error),
            ),
            None => if rules.dry_run {
                (
                    CopyStepView::Settled,
                    with_planned_copy(ledger, work, replacement, logical_bytes),
                )
            } else {
                (CopyStepView::CopyInline { streams, logical_bytes }, ledger)
            },
        },
        _ => (step, ledger),
    }
}

fn copy_labels(fields: &Vec<&'static str>) -> (copy: Vec<&'static str>)
    ensures
        label_texts(copy@) == label_texts(fields@),
{
    let mut copy: Vec<&'static str> = Vec::new();
    for i in 0..fields.len()
        invariant
            copy@ == fields@.take(i as int),
    {
        copy.push(fields[i]);
        assert(copy@ =~= fields@.take(i as int + 1));
    }
    assert(copy@ =~= fields@);
    copy
}

fn fields_copy(replacement: &Option<ReplacementWork>) -> (fields: Option<Vec<&'static str>>)
    ensures
        crate::ledger::opt_labels(fields) == fields_of(opt_work(*replacement)),
{
    match replacement {
        Some(work) => Some(copy_labels(&work.fields)),
        None => None,
    }
}

fn fail_copy(
    ledger: &mut Ledger,
    work: &ObjectWork,
    replacement: &Option<ReplacementWork>,
    bytes: u64,
    error: OperationError,
) -> (step: CopyStep)
    ensures
        final(ledger)@ == with_copy_failure(
            old(ledger)@,
            work@,
            opt_work(*replacement),
            bytes,
            error@,
        ),
        step is Settled,
{
    proof {
        reveal(with_copy_failure);
    }
    ledger.record_file(
        &work.relative,
        FileOutcome::Failed { bytes, error },
        fields_copy(replacement),
    );
    CopyStep::Settled
}

/// Decides the next operation in copying one file from what became of the last
/// one.
#[verifier::rlimit(40)]
pub fn copy_classified(
    rules: &RunRules,
    ledger: &mut Ledger,
    work: &ObjectWork,
    replacement: &Option<ReplacementWork>,
    step: CopyStep,
    reply: CopyReply,
) -> (next: CopyStep)
    requires
        copy_answers(step@, reply@),
    ensures
        copy_next(
            *rules,
            work@,
            opt_work(*replacement),
            step@,
            reply@,
            old(ledger)@,
        ) == (next@, final(ledger)@),
{
    let size: u64 = work.entry.metadata.size;
    match (step, reply) {
        (CopyStep::DrainWorkers, CopyReply::Drained) => CopyStep::Revalidate,
        (CopyStep::Revalidate, CopyReply::Metadata(observed)) => {
            match revalidate_source(&observed, &work.entry.metadata, &work.relative) {
                Err(error) => fail_copy(ledger, work, replacement, size, error),
                Ok(_) => {
                    if rules.source_supports_streams {
                        CopyStep::ListStreams
                    } else {
                        let mut streams: Vec<StreamInfo> = Vec::new();
                        streams.push(StreamInfo::unnamed(size));
                        assert(stream_views(streams@) =~= seq![
                            StreamView { name: crate::platform::unnamed_suffix(), size },
                        ]);
                        CopyStep::RevalidateAgain { streams, logical_bytes: size }
                    }
                },
            }
        },
        (CopyStep::ListStreams, CopyReply::Streams(listed)) => match listed {
            Ok(streams) => {
                let logical: u64 = logical_bytes(size, streams.as_slice());
                CopyStep::RevalidateAgain { streams, logical_bytes: logical }
            },
            Err(error) => {
                let failure = if error.kind == IoErrorKind::NotFound {
                    OperationError::from_io_as(
                        ErrorCategory::SourceChanged,
                        "list_streams",
                        work.relative.copied(),
                        &error,
                    )
                } else {
                    OperationError::from_io("list_streams", work.relative.copied(), &error)
                };
                fail_copy(ledger, work, replacement, size, failure)
            },
        },
        (CopyStep::RevalidateAgain { streams, logical_bytes }, CopyReply::Metadata(observed)) => {
            match revalidate_source(&observed, &work.entry.metadata, &work.relative) {
                Err(error) => fail_copy(ledger, work, replacement, logical_bytes, error),
                Ok(_) => {
                    if rules.dry_run {
                        plan_copy(ledger, work, replacement, logical_bytes)
                    } else {
                        CopyStep::CopyInline { streams, logical_bytes }
                    }
                },
            }
        },
        (step, _) => step,
    }
}

fn plan_copy(
    ledger: &mut Ledger,
    work: &ObjectWork,
    replacement: &Option<ReplacementWork>,
    bytes: u64,
) -> (step: CopyStep)
    ensures
        final(ledger)@ == with_planned_copy(old(ledger)@, work@, opt_work(*replacement), bytes),
        step is Settled,
{
    proof {
        reveal(with_planned_copy);
    }
    let ghost before = ledger@;
    let reason = if replacement.is_some() {
        ledger.counters.would_copy_replaced = ledger.counters.would_copy_replaced.saturating_add(1);
        assert(ledger@ =~= before.counting(
            Counters {
                would_copy_replaced: sat(before.counters.would_copy_replaced, 1),
                ..before.counters
            },
        ));
        "dry_run_would_replace".to_owned()
    } else {
        ledger.counters.would_copy_new = ledger.counters.would_copy_new.saturating_add(1);
        assert(ledger@ =~= before.counting(
            Counters {
                would_copy_new: sat(before.counters.would_copy_new, 1),
                ..before.counters
            },
        ));
        "dry_run_would_copy_new".to_owned()
    };
    ledger.record_file(
        &work.relative,
        FileOutcome::NotAttempted { bytes, reason },
        fields_copy(replacement),
    );
    CopyStep::Settled
}

/// A dry run copies nothing: neither through a worker nor inline.
pub proof fn dry_run_never_copies(
    rules: RunRules,
    journal_available: bool,
    work: WorkView,
    replacement: Option<ReplacementWorkView>,
    dispatch: bool,
    step: CopyStepView,
    reply: CopyReplyView,
    ledger: LedgerView,
)
    requires
        rules.dry_run,
        copy_answers(step, reply),
    ensures
        !(copy_start(rules, journal_available, work, dispatch) is Dispatch),
        !(copy_start(rules, journal_available, work, dispatch) is CopyInline),
        !(copy_next(rules, work, replacement, step, reply, ledger).0 is Dispatch),
        !(copy_next(rules, work, replacement, step, reply, ledger).0 is CopyInline),
{
}

/// A copy of a file that is finished, by a worker or inline.
#[derive(Debug, PartialEq, Eq)]
pub struct CompletedCopy {
    /// The file, its destination twin and its relative path.
    pub work: ObjectWork,
    /// Absolute destination path.
    pub destination_path: WidePath,
    /// The replacement decision.
    pub replacement: Option<ReplacementWork>,
    /// Bytes that were read, written and verified.
    pub counters: Counters,
    /// What the engine returned.
    pub result: Result<EngineResult, OperationError>,
    /// Logical bytes represented even when the transfer fails partway.
    pub logical_bytes: u64,
}

/// One file and source digest captured during a copy run.
#[derive(Clone, Debug, PartialEq, Eq)]
pub struct VerificationTarget {
    /// Relative path used in mismatch reports.
    pub relative_path: WidePath,
    /// Absolute destination path.
    pub destination_path: WidePath,
    /// Digest computed from source buffers during copy.
    pub expected_digest: String,
    /// Exact expected logical size.
    pub expected_size: u64,
    /// Source metadata applied by the finalizer.
    pub expected_metadata: BasicMetadata,
    /// Named stream digests captured from source buffers.
    pub expected_streams: Vec<(StreamInfo, String)>,
    /// Digest of the opaque EA payload copied from the source.
    pub expected_ea_digest: Option<String>,
}

/// What became of retiring a completed file's checkpoint.
#[derive(Clone, Copy, Debug, PartialEq, Eq, Structural)]
pub enum Retirement {
    /// Nothing was to be retired.
    NotNeeded,
    /// The journal took the retirement.
    Done,
    /// The journal did not take it and is given up.
    Failed,
}

/// Whether a finished copy has a checkpoint to retire.
pub fn needs_retirement(completed: &CompletedCopy, journal_available: bool) -> (needed: bool)
    ensures
        needed == (journal_available && (completed.result matches Ok(result)
            && result.checkpoint_used)),
{
    match &completed.result {
        Ok(result) => journal_available && result.checkpoint_used,
        Err(_) => false,
    }
}

/// Whether the engine handed a file back untouched.
pub open spec fn was_promoted(result: Result<EngineResult, OperationError>) -> bool {
    result matches Err(error) && error.operation@ == PROMOTED_TO_COORDINATOR@
}

/// Whether a worker has handed the file back untouched, so that it is to be
/// copied inline and this attempt counts for nothing.
pub fn is_promoted(completed: &CompletedCopy) -> (promoted: bool)
    ensures
        promoted == was_promoted(completed.result),
{
    match &completed.result {
        Ok(_) => false,
        Err(error) => str_eq(error.operation.as_str(), PROMOTED_TO_COORDINATOR),
    }
}

impl LedgerView {
    /// With the I/O of one finished copy.
    pub open spec fn with_io(self, counters: Counters) -> LedgerView {
        self.counting(
            Counters {
                bytes_read_source: sat(self.counters.bytes_read_source, counters.bytes_read_source),
                bytes_written_destination: sat(
                    self.counters.bytes_written_destination,
                    counters.bytes_written_destination,
                ),
                bytes_verified: sat(self.counters.bytes_verified, counters.bytes_verified),
                ..self.counters
            },
        )
    }

    /// With a warning if a condition holds.
    pub open spec fn warned_if(
        self,
        condition: bool,
        kind: Seq<char>,
        rel: Seq<u16>,
        message: Seq<char>,
    ) -> LedgerView {
        if condition {
            self.warned(kind, Some(rel), message)
        } else {
            self
        }
    }

    /// With the warnings of a successful copy.
    pub open spec fn with_copy_warnings(
        self,
        result: EngineResult,
        retirement: Retirement,
        rel: Seq<u16>,
    ) -> LedgerView {
        let told = self.warned_if(
            result.journal_degraded,
            "checkpointing_disabled"@,
            rel,
            "checkpoint persistence failed; this run continues without further resume checkpoints"@,
        ).warned_if(
            result.efs_downgraded,
            "efs_downgrade"@,
            rel,
            "source EFS state could not be represented at the destination"@,
        ).warned_if(
            result.eas_dropped,
            "ea_dropped"@,
            rel,
            "destination volume does not advertise extended-attribute support"@,
        ).warned_if(
            retirement is Failed,
            "checkpointing_disabled"@,
            rel,
            "completed-part retirement could not be journaled; metadata reclassification remains authoritative on rerun"@,
        );
        if result.streams_dropped > 0 {
            told.tallied_times("streams_dropped"@, result.streams_dropped as u64).emitted(
                crate::audit::warning_view(
                    "streams_dropped"@,
                    Some(rel),
                    "destination volume cannot represent "@ + decimal(
                        result.streams_dropped as nat,
                    ) + " named data stream(s)"@,
                ),
            )
        } else {
            told
        }
    }

    /// After a copy that was stopped between chunks.
    pub open spec fn stopped_mid_file(self, rel: Seq<u16>) -> LedgerView {
        (LedgerView { canceled: true, worker_cancel: true, ..self }).warned(
            "canceled_mid_file"@,
            Some(rel),
            "copy stopped between chunks by graceful cancellation; rerun to finish this file"@,
        )
    }
}

/// The outcome of a successful copy.
pub open spec fn copied_outcome(
    result: EngineResult,
    replacement: Option<ReplacementWorkView>,
    destination: Option<crate::platform::EntryView>,
) -> OutcomeView {
    match (replacement, destination) {
        (Some(work), Some(old)) => OutcomeView::CopiedReplaced {
            bytes: result.bytes,
            digest: opt_text(result.digest),
            destination_newer: work.destination_newer,
            old_size: old.metadata.size,
            old_mtime: old.metadata.basic.last_write_time,
            old_attributes: old.metadata.basic.attributes,
        },
        _ => OutcomeView::CopiedNew { bytes: result.bytes, digest: opt_text(result.digest) },
    }
}

/// The accounts after one finished copy that was not handed back.
pub open spec fn after_copy(
    ledger: LedgerView,
    completed: CompletedCopy,
    retirement: Retirement,
) -> LedgerView {
    let work = completed.work@;
    let replacement = opt_work(completed.replacement);
    let read = ledger.with_io(completed.counters);
    match completed.result {
        Ok(result) => read.with_copy_warnings(result, retirement, work.relative).after_file(
            work.relative,
            copied_outcome(result, replacement, work.destination),
            fields_of(replacement),
        ),
        Err(error) => if error.operation@ == CANCELED_MID_FILE@ {
            read.stopped_mid_file(work.relative).after_file(
                work.relative,
                OutcomeView::NotAttempted {
                    bytes: completed.logical_bytes,
                    reason: "canceled"@,
                },
                fields_of(replacement),
            )
        } else {
            read.after_file(
                work.relative,
                OutcomeView::Failed { bytes: completed.logical_bytes, error: error@ },
                fields_of(replacement),
            )
        },
    }
}

/// What verification later expects of a file that was just copied.
pub open spec fn is_target_of(
    target: VerificationTarget,
    rules: RunRules,
    completed: CompletedCopy,
    result: EngineResult,
) -> bool {
    &&& target.relative_path@ == completed.work.relative@
    &&& target.destination_path@ == completed.destination_path@
    &&& result.digest is Some && target.expected_digest@ == result.digest->0@
    &&& target.expected_size == completed.work.entry.metadata.size
    &&& target.expected_metadata == rules.policy.spec_project_basic(
        completed.work.entry.metadata.basic,
    )
    &&& digest_views(target.expected_streams@) == digest_views(result.stream_digests@)
    &&& opt_text(target.expected_ea_digest) == opt_text(result.ea_digest)
}

fn warn_if(ledger: &mut Ledger, condition: bool, kind: &str, rel: &WidePath, message: &str)
    ensures
        final(ledger)@ == old(ledger)@.warned_if(condition, kind@, rel@, message@),
{
    if condition {
        ledger.warn(kind, Some(rel), message);
    }
}

fn warn_of_copy(
    ledger: &mut Ledger,
    result: &EngineResult,
    retirement: Retirement,
    rel: &WidePath,
)
    ensures
        final(ledger)@ == old(ledger)@.with_copy_warnings(*result, retirement, rel@),
{
    warn_if(
        ledger,
        result.journal_degraded,
        "checkpointing_disabled",
        rel,
        "checkpoint persistence failed; this run continues without further resume checkpoints",
    );
    warn_if(
        ledger,
        result.efs_downgraded,
        "efs_downgrade",
        rel,
        "source EFS state could not be represented at the destination",
    );
    warn_if(
        ledger,
        result.eas_dropped,
        "ea_dropped",
        rel,
        "destination volume does not advertise extended-attribute support",
    );
    warn_if(
        ledger,
        retirement == Retirement::Failed,
        "checkpointing_disabled",
        rel,
        "completed-part retirement could not be journaled; metadata reclassification remains authoritative on rerun",
    );
    if result.streams_dropped > 0 {
        ledger.increment_warning_by("streams_dropped", result.streams_dropped as u64);
        let mut message = "destination volume cannot represent ".to_owned();
        push_decimal(&mut message, result.streams_dropped as u64);
        message.append(" named data stream(s)");
        ledger.emit(crate::audit::warning("streams_dropped", Some(rel), message.as_str()));
    }
}

fn add_io(ledger: &mut Ledger, counters: &Counters)
    ensures
        final(ledger)@ == old(ledger)@.with_io(*counters),
{
    ledger.counters.bytes_read_source =
        ledger.counters.bytes_read_source.saturating_add(counters.bytes_read_source);
    ledger.counters.bytes_written_destination =
        ledger.counters.bytes_written_destination.saturating_add(
            counters.bytes_written_destination,
        );
    ledger.counters.bytes_verified =
        ledger.counters.bytes_verified.saturating_add(counters.bytes_verified);
    assert(ledger@ =~= old(ledger)@.with_io(*counters));
}

/// Accounts one finished copy that was not handed back, and says what a later
/// verification expects of it.
pub fn finish_copy(
    rules: &RunRules,
    ledger: &mut Ledger,
    completed: CompletedCopy,
    retirement: Retirement,
) -> (target: Option<VerificationTarget>)
    requires
        !was_promoted(completed.result),
    ensures
        final(ledger)@ == after_copy(old(ledger)@, completed, retirement),
        target is Some <==> (rules.verify && (completed.result matches Ok(result)
            && result.digest is Some)),
        target matches Some(target) ==> is_target_of(
            target,
            *rules,
            completed,
            completed.result->Ok_0,
        ),
{
    let CompletedCopy { work, destination_path, replacement, counters, result, logical_bytes } =
        completed;
    add_io(ledger, &counters);
    let fields = fields_copy(&replacement);
    match result {
        Ok(result) => {
            warn_of_copy(ledger, &result, retirement, &work.relative);
            let target = match (&result.digest, rules.verify) {
                (Some(digest), true) => Some(
                    VerificationTarget {
                        relative_path: work.relative.copied(),
                        destination_path,
                        expected_digest: digest.clone(),
                        expected_size: work.entry.metadata.size,
                        expected_metadata: rules.policy.project_basic(work.entry.metadata.basic),
                        expected_streams: copy_digests(&result.stream_digests),
                        expected_ea_digest: match &result.ea_digest {
                            Some(digest) => Some(digest.clone()),
                            None => None,
                        },
                    },
                ),
                _ => None,
            };
            let outcome = match (&replacement, &work.destination) {
                (Some(replacement), Some(old)) => FileOutcome::CopiedReplaced {
                    bytes: result.bytes,
                    digest: result.digest,
                    destination_newer: replacement.destination_newer,
                    old_size: old.metadata.size,
                    old_mtime: old.metadata.basic.last_write_time,
                    old_attributes: old.metadata.basic.attributes,
                },
                _ => FileOutcome::CopiedNew { bytes: result.bytes, digest: result.digest },
            };
            ledger.record_file(&work.relative, outcome, fields);
            target
        },
        Err(error) => {
            if str_eq(error.operation.as_str(), CANCELED_MID_FILE) {
                ledger.canceled = true;
                ledger.worker_cancel = true;
                assert(ledger@ =~= (LedgerView {
                    canceled: true,
                    worker_cancel: true,
                    ..old(ledger)@.with_io(counters)
                }));
                ledger.warn(
                    "canceled_mid_file",
                    Some(&work.relative),
                    "copy stopped between chunks by graceful cancellation; rerun to finish this file",
                );
                ledger.record_file(
                    &work.relative,
                    FileOutcome::NotAttempted {
                        bytes: logical_bytes,
                        reason: "canceled".to_owned(),
                    },
                    fields,
                );
            } else {
                ledger.record_file(
                    &work.relative,
                    FileOutcome::Failed { bytes: logical_bytes, error },
                    fields,
                );
            }
            None
        },
    }
}

/// A clean stop in the middle of a file is no error: the grouped errors stay as
/// they were.
pub proof fn clean_stop_is_no_error(
    ledger: LedgerView,
    completed: CompletedCopy,
    retirement: Retirement,
)
    requires
        completed.result matches Err(error) && error.operation@ == CANCELED_MID_FILE@,
    ensures
        after_copy(ledger, completed, retirement).errors == ledger.errors,
        after_copy(ledger, completed, retirement).canceled,
        after_copy(ledger, completed, retirement).counters.failed == ledger.counters.failed,
{
}

/// Whether the last word of a log is on one file: what became of it, at which
/// size, and why.
pub open spec fn ends_with_word(
    ledger: LedgerView,
    rel: Seq<u16>,
    action: Seq<char>,
    size: u64,
    reason: Option<Seq<char>>,
) -> bool {
    ledger.notices.len() > 0 && (ledger.notices.last() matches NoticeView::Event(event) && (
    event matches EventView::File { action: told, rel: path, size: bytes, reason: why, .. } && {
        &&& told == action
        &&& path == crate::audit::audit_path(rel)
        &&& bytes == size
        &&& why == reason
    }))
}

/// What is done about one file, from the file, its twin and the rules alone. A
/// file that the destination cannot hold fails; one with no twin is copied; one
/// of another class fails; one whose size or last-write time differs is copied
/// over its twin only where replacing is allowed, and otherwise left; one whose
/// metadata alone differs is repaired, or only counted by a dry run; the rest is
/// left. Every file that is settled here has exactly one outcome.
#[verifier::rlimit(60)]
pub proof fn plan_follows_the_file_and_its_twin(
    rules: RunRules,
    work: WorkView,
    ledger: LedgerView,
)
    requires
        ledger.counters.failed < u64::MAX,
        ledger.counters.skipped_same < u64::MAX,
        ledger.counters.skipped_diff < u64::MAX,
        ledger.counters.not_attempted < u64::MAX,
        ledger.counters.would_meta_fix < u64::MAX,
    ensures
        ({
            let (plan, after) = file_plan(rules, work, ledger);
            let source = work.entry.metadata;
            let fits = !(rules.policy.filesystem is Fat) || source.size < 0x1_0000_0000;
            let alone = work.destination is None;
            let twin = work.destination->0.metadata;
            let conflict = source.kind != twin.kind || source.kind is Reparse
                && source.reparse_tag != twin.reparse_tag;
            let other_data = source.size != twin.size || !rules.policy.spec_last_write_equal(
                source.basic.last_write_time as int,
                twin.basic.last_write_time as int,
            );
            let other_metadata = !rules.policy.spec_attributes_equal(
                source.basic.attributes,
                twin.basic.attributes,
            ) || !rules.policy.spec_creation_equal(
                source.basic.creation_time as int,
                twin.basic.creation_time as int,
            ) || rules.policy.capabilities.extended_attributes && source.ea_size != twin.ea_size;
            let metadata_only = fits && !alone && !conflict && !other_data && other_metadata;
            let fails = !fits || !alone && conflict;
            let withheld = fits && !alone && !conflict && other_data && !rules.replace;
            let same = fits && !alone && !conflict && !other_data && !other_metadata;
            let one = |yes: bool| -> int { if yes { 1int } else { 0int } };
            &&& plan is Repair <==> metadata_only && !rules.dry_run
            &&& plan is Copy <==> fits && (alone || !conflict && other_data && rules.replace)
            &&& plan matches FilePlanView::Copy { replacement } ==> {
                &&& replacement is Some <==> !alone
                &&& replacement is Some ==> replacement->0.destination_newer == (
                source.basic.last_write_time < twin.basic.last_write_time)
            }
            &&& rules.dry_run ==> !(plan is Repair)
            &&& after.counters.would_meta_fix == ledger.counters.would_meta_fix + one(
                metadata_only && rules.dry_run,
            )
            &&& after.counters.not_attempted == ledger.counters.not_attempted + one(
                metadata_only && rules.dry_run,
            )
            &&& after.counters.failed == ledger.counters.failed + one(fails)
            &&& after.counters.skipped_diff == ledger.counters.skipped_diff + one(withheld)
            &&& after.counters.skipped_same == ledger.counters.skipped_same + one(same)
            &&& after.counters.copied_new == ledger.counters.copied_new
            &&& after.counters.copied_replaced == ledger.counters.copied_replaced
            &&& after.counters.meta_fixed == ledger.counters.meta_fixed
            &&& metadata_only && rules.dry_run ==> ends_with_word(
                after,
                work.relative,
                "not_attempted"@,
                source.size,
                Some("dry_run_would_fix_metadata"@),
            )
            &&& fails ==> ends_with_word(after, work.relative, "failed"@, source.size, None)
            &&& withheld ==> ends_with_word(
                after,
                work.relative,
                "skipped_diff"@,
                source.size,
                Some(crate::text::comma_joined(data_differences(source, twin, rules.policy))),
            )
            &&& same ==> ends_with_word(
                after,
                work.relative,
                "skipped"@,
                source.size,
                Some("same"@),
            )
        }),
{
}

/// What becomes of a stream that a worker meets: the file is handed back
/// exactly if the stream needs checkpoints, or is large and no redirector lies
/// in between. A file goes to a worker exactly if its data would not be handed
/// back and it keeps no sparse layout.
pub proof fn worker_hands_back_what_it_must_not_copy(
    transport: TransportProfile,
    destination_is_wsl: bool,
    journal_available: bool,
    unnamed_size: u64,
    large_threshold: u64,
    checkpoint_threshold: u64,
    preserve_sparse: bool,
    stream_size: u64,
)
    ensures
        ({
            let dispatch = spec_worker_dispatch(
                transport,
                destination_is_wsl,
                journal_available,
                unnamed_size,
                large_threshold,
                checkpoint_threshold,
                preserve_sparse,
            );
            let redirector = transport.spec_is_redirector();
            &&& dispatch is Some <==> !preserve_sparse && !(journal_available && unnamed_size
                >= checkpoint_threshold) && (redirector || unnamed_size < large_threshold)
            &&& dispatch matches Some(chosen) ==> {
                &&& (chosen.promote_threshold matches Some(size) && stream_size >= size) <==> (
                journal_available && stream_size >= checkpoint_threshold) || (!redirector
                    && stream_size >= large_threshold)
                &&& chosen.directory_affine <==> unnamed_size < large_threshold
                    && !destination_is_wsl
            }
        }),
{
}

/// How far copying one file came after a list of replies, and the accounts
/// then.
pub open spec fn copying(
    rules: RunRules,
    journal_available: bool,
    work: WorkView,
    replacement: Option<ReplacementWorkView>,
    dispatch: bool,
    replies: Seq<CopyReplyView>,
    ledger: LedgerView,
) -> (CopyStepView, LedgerView)
    decreases replies.len(),
{
    if replies.len() == 0 {
        (copy_start(rules, journal_available, work, dispatch), ledger)
    } else {
        let (step, before) = copying(
            rules,
            journal_available,
            work,
            replacement,
            dispatch,
            replies.drop_last(),
            ledger,
        );
        copy_next(rules, work, replacement, step, replies.last(), before)
    }
}

/// Whether every reply answers the operation that was asked for.
pub open spec fn copying_is_answered(
    rules: RunRules,
    journal_available: bool,
    work: WorkView,
    replacement: Option<ReplacementWorkView>,
    dispatch: bool,
    replies: Seq<CopyReplyView>,
    ledger: LedgerView,
) -> bool
    decreases replies.len(),
{
    replies.len() > 0 ==> {
        &&& copying_is_answered(
            rules,
            journal_available,
            work,
            replacement,
            dispatch,
            replies.drop_last(),
            ledger,
        )
        &&& copy_answers(
            copying(
                rules,
                journal_available,
                work,
                replacement,
                dispatch,
                replies.drop_last(),
                ledger,
            ).0,
            replies.last(),
        )
    }
}

/// Whether a reply says that the source is the object that was enumerated.
pub open spec fn finds_the_source(work: WorkView, reply: CopyReplyView) -> bool {
    reply matches CopyReplyView::Metadata(Ok(seen)) && {
        &&& seen.identity == work.entry.metadata.identity
        &&& seen.kind == work.entry.metadata.kind
        &&& seen.size == work.entry.metadata.size
        &&& seen.basic.last_write_time == work.entry.metadata.basic.last_write_time
        &&& seen.basic.attributes == work.entry.metadata.basic.attributes
        &&& seen.reparse_tag == work.entry.metadata.reparse_tag
    }
}

/// A file is copied inline only by a run that is no dry run, and only after its
/// source was found as enumerated both before and after its streams were listed;
/// its streams are those that were listed, or its data alone where the source
/// has no others. Nothing is accounted before a file is settled.
pub proof fn inline_copy_follows_two_looks(
    rules: RunRules,
    journal_available: bool,
    work: WorkView,
    replacement: Option<ReplacementWorkView>,
    dispatch: bool,
    replies: Seq<CopyReplyView>,
    ledger: LedgerView,
)
    requires
        copying_is_answered(
            rules,
            journal_available,
            work,
            replacement,
            dispatch,
            replies,
            ledger,
        ),
    ensures
        ({
            let (step, after) = copying(
                rules,
                journal_available,
                work,
                replacement,
                dispatch,
                replies,
                ledger,
            );
            let n = replies.len() as int;
            let data = work.entry.metadata.size;
            &&& !(step is Settled) ==> after == ledger
            &&& step is Dispatch ==> dispatch && !rules.dry_run && n == 0
            &&& step is DrainWorkers ==> rules.transport.kind is SameSpindle && !rules.dry_run && n
                == 0
            &&& step is ListStreams ==> rules.source_supports_streams && n >= 1
                && finds_the_source(work, replies[n - 1])
            &&& step matches CopyStepView::RevalidateAgain { streams, logical_bytes } ==> {
                &&& rules.source_supports_streams ==> n >= 2 && replies[n - 1]
                    == CopyReplyView::Streams(Ok(streams)) && finds_the_source(
                    work,
                    replies[n - 2],
                ) && logical_bytes == logical_size(data, streams)
                &&& !rules.source_supports_streams ==> n >= 1 && finds_the_source(
                    work,
                    replies[n - 1],
                ) && streams.len() == 1 && streams[0].size == data && streams[0].is_unnamed()
                    && logical_bytes == data
            }
            &&& step matches CopyStepView::CopyInline { streams, logical_bytes } ==> {
                &&& !rules.dry_run
                &&& n >= 2 && finds_the_source(work, replies[n - 1])
                &&& rules.source_supports_streams ==> n >= 3 && replies[n - 2]
                    == CopyReplyView::Streams(Ok(streams)) && finds_the_source(
                    work,
                    replies[n - 3],
                ) && logical_bytes == logical_size(data, streams)
                &&& !rules.source_supports_streams ==> finds_the_source(work, replies[n - 2])
                    && streams.len() == 1 && streams[0].size == data && streams[0].is_unnamed()
                    && logical_bytes == data
            }
        }),
    decreases replies.len(),
{
    if replies.len() > 0 {
        let front = replies.drop_last();
        inline_copy_follows_two_looks(
            rules,
            journal_available,
            work,
            replacement,
            dispatch,
            front,
            ledger,
        );
        assert forall|i: int| 0 <= i < front.len() implies front[i] == replies[i] by {}
        assert(replies.last() == replies[replies.len() - 1]);
    }
}

proof fn lemma_failure_counts(
    ledger: LedgerView,
    work: WorkView,
    replacement: Option<ReplacementWorkView>,
    bytes: u64,
    error: ErrorView,
)
    requires
        ledger.counters.failed < u64::MAX,
    ensures
        ({
            let after = with_copy_failure(ledger, work, replacement, bytes, error).counters;
            &&& after.failed == ledger.counters.failed + 1
            &&& after.not_attempted == ledger.counters.not_attempted
            &&& after.would_copy_new == ledger.counters.would_copy_new
            &&& after.would_copy_replaced == ledger.counters.would_copy_replaced
            &&& after.copied_new == ledger.counters.copied_new
            &&& after.copied_replaced == ledger.counters.copied_replaced
        }),
{
    reveal(with_copy_failure);
}

proof fn lemma_plan_counts(
    ledger: LedgerView,
    work: WorkView,
    replacement: Option<ReplacementWorkView>,
    bytes: u64,
)
    requires
        ledger.counters.not_attempted < u64::MAX,
        ledger.counters.would_copy_new < u64::MAX,
        ledger.counters.would_copy_replaced < u64::MAX,
    ensures
        ({
            let after = with_planned_copy(ledger, work, replacement, bytes).counters;
            &&& after.failed == ledger.counters.failed
            &&& after.not_attempted == ledger.counters.not_attempted + 1
            &&& after.would_copy_new == ledger.counters.would_copy_new + if replacement is None {
                1int
            } else {
                0
            }
            &&& after.would_copy_replaced == ledger.counters.would_copy_replaced + if replacement
                is Some {
                1int
            } else {
                0
            }
            &&& after.copied_new == ledger.counters.copied_new
            &&& after.copied_replaced == ledger.counters.copied_replaced
        }),
{
    reveal(with_planned_copy);
}

/// A settled file has exactly one outcome: it failed, unless its last look found
/// the source as enumerated, which a dry run counts as planned, over its twin
/// where one is replaced.
pub proof fn settled_copy_has_one_outcome(
    rules: RunRules,
    journal_available: bool,
    work: WorkView,
    replacement: Option<ReplacementWorkView>,
    dispatch: bool,
    replies: Seq<CopyReplyView>,
    ledger: LedgerView,
)
    requires
        copying_is_answered(
            rules,
            journal_available,
            work,
            replacement,
            dispatch,
            replies,
            ledger,
        ),
        copying(rules, journal_available, work, replacement, dispatch, replies, ledger).0
            is Settled,
        ledger.counters.failed < u64::MAX,
        ledger.counters.not_attempted < u64::MAX,
        ledger.counters.would_copy_new < u64::MAX,
        ledger.counters.would_copy_replaced < u64::MAX,
    ensures
        ({
            let after = copying(
                rules,
                journal_available,
                work,
                replacement,
                dispatch,
                replies,
                ledger,
            ).1;
            let planned = finds_the_source(work, replies.last());
            let one = |yes: bool| -> int { if yes { 1int } else { 0int } };
            &&& planned ==> rules.dry_run
            &&& after.counters.failed == ledger.counters.failed + one(!planned)
            &&& after.counters.not_attempted == ledger.counters.not_attempted + one(planned)
            &&& after.counters.would_copy_new == ledger.counters.would_copy_new + one(
                planned && replacement is None,
            )
            &&& after.counters.would_copy_replaced == ledger.counters.would_copy_replaced + one(
                planned && replacement is Some,
            )
            &&& after.counters.copied_new == ledger.counters.copied_new
            &&& after.counters.copied_replaced == ledger.counters.copied_replaced
        }),
{
    inline_copy_follows_two_looks(
        rules,
        journal_available,
        work,
        replacement,
        dispatch,
        replies.drop_last(),
        ledger,
    );
    let size = work.entry.metadata.size;
    match (
        copying(
            rules,
            journal_available,
            work,
            replacement,
            dispatch,
            replies.drop_last(),
            ledger,
        ).0,
        replies.last(),
    ) {
        (CopyStepView::Revalidate, CopyReplyView::Metadata(observed)) => {
            let error = source_revalidation(observed, work.entry.metadata, work.relative)->0;
            lemma_failure_counts(ledger, work, replacement, size, error);
        },
        (CopyStepView::ListStreams, CopyReplyView::Streams(listed)) => {
            let error = listing_failure(work.relative, listed->Err_0);
            lemma_failure_counts(ledger, work, replacement, size, error);
        },
        (
            CopyStepView::RevalidateAgain { logical_bytes, .. },
            CopyReplyView::Metadata(observed),
        ) => {
            let error = source_revalidation(observed, work.entry.metadata, work.relative)->0;
            lemma_failure_counts(ledger, work, replacement, logical_bytes, error);
            lemma_plan_counts(ledger, work, replacement, logical_bytes);
        },
        _ => {},
    }
}

/// The drive that is both ends of a copy carries one transfer at a time: where
/// source and destination share a spindle, a file stays here only once every
/// file in flight is accounted.
pub proof fn same_spindle_copies_one_file_at_a_time(
    rules: RunRules,
    journal_available: bool,
    work: WorkView,
    dispatch: bool,
)
    requires
        rules.transport.kind is SameSpindle,
        !rules.dry_run,
    ensures
        ({
            let first = copy_start(rules, journal_available, work, dispatch);
            first is Dispatch || first is DrainWorkers
        }),
{
}

/// A finished copy is accounted by its result: a success as copied, over the
/// old object where one was replaced, with its own bytes and digest; a clean
/// stop as not attempted; anything else as failed. What was read, written and
/// verified is added in every case.
#[verifier::rlimit(60)]
pub proof fn finished_copy_is_accounted_by_its_result(
    ledger: LedgerView,
    completed: CompletedCopy,
    retirement: Retirement,
)
    requires
        ledger.counters.copied_new < u64::MAX,
        ledger.counters.copied_replaced < u64::MAX,
        ledger.counters.not_attempted < u64::MAX,
        ledger.counters.failed < u64::MAX,
        ledger.counters.bytes_read_source + completed.counters.bytes_read_source <= u64::MAX,
        ledger.counters.bytes_written_destination + completed.counters.bytes_written_destination
            <= u64::MAX,
        ledger.counters.bytes_verified + completed.counters.bytes_verified <= u64::MAX,
        completed.result matches Ok(result) ==> ledger.counters.bytes_logical_copied + result.bytes
            <= u64::MAX,
    ensures
        ({
            let after = after_copy(ledger, completed, retirement);
            let rel = completed.work.relative@;
            let replaces = completed.replacement is Some && completed.work.destination is Some;
            let stopped = completed.result matches Err(error) && error.operation@
                == "canceled_mid_file"@;
            let failed = completed.result is Err && !stopped;
            let one = |yes: bool| -> int { if yes { 1int } else { 0int } };
            &&& after.counters.copied_new == ledger.counters.copied_new + one(
                completed.result is Ok && !replaces,
            )
            &&& after.counters.copied_replaced == ledger.counters.copied_replaced + one(
                completed.result is Ok && replaces,
            )
            &&& after.counters.not_attempted == ledger.counters.not_attempted + one(stopped)
            &&& after.counters.failed == ledger.counters.failed + one(failed)
            &&& after.counters.bytes_logical_copied == ledger.counters.bytes_logical_copied + (
            match completed.result {
                Ok(result) => result.bytes as int,
                Err(_) => 0,
            })
            &&& after.counters.bytes_read_source == ledger.counters.bytes_read_source
                + completed.counters.bytes_read_source
            &&& after.counters.bytes_written_destination
                == ledger.counters.bytes_written_destination
                + completed.counters.bytes_written_destination
            &&& after.counters.bytes_verified == ledger.counters.bytes_verified
                + completed.counters.bytes_verified
            &&& completed.result matches Ok(result) ==> ends_with_word(
                after,
                rel,
                "copied"@,
                result.bytes,
                None,
            ) && (after.notices.last()->Event_0->hash == opt_text(result.digest))
            &&& stopped ==> after.canceled && after.worker_cancel && ends_with_word(
                after,
                rel,
                "not_attempted"@,
                completed.logical_bytes,
                Some("canceled"@),
            )
            &&& failed ==> ends_with_word(after, rel, "failed"@, completed.logical_bytes, None)
            &&& !stopped ==> after.canceled == ledger.canceled
        }),
{
}

/// What a copy could not carry over is warned of, under its own kind: each
/// dropped stream counts once.
#[verifier::rlimit(60)]
pub proof fn what_a_copy_drops_is_warned_of(
    ledger: LedgerView,
    result: EngineResult,
    retirement: Retirement,
    rel: Seq<u16>,
)
    requires
        ledger.warnings.len() == 0,
    ensures
        ({
            let after = ledger.with_copy_warnings(result, retirement, rel).warnings;
            &&& lookup(after, "streams_dropped"@) == if result.streams_dropped > 0 {
                Some(result.streams_dropped as u64)
            } else {
                None
            }
            &&& lookup(after, "ea_dropped"@) is Some <==> result.eas_dropped
            &&& lookup(after, "efs_downgrade"@) is Some <==> result.efs_downgraded
            &&& lookup(after, "checkpointing_disabled"@) is Some <==> result.journal_degraded
                || retirement is Failed
        }),
{
    reveal_strlit("streams_dropped");
    reveal_strlit("ea_dropped");
    reveal_strlit("efs_downgrade");
    reveal_strlit("checkpointing_disabled");
    assert("streams_dropped"@.len() == 15 && "ea_dropped"@.len() == 10 && "efs_downgrade"@.len()
        == 13 && "checkpointing_disabled"@.len() == 22);
    let keys = seq![
        "streams_dropped"@,
        "ea_dropped"@,
        "efs_downgrade"@,
        "checkpointing_disabled"@,
    ];
    let first = ledger.warned_if(
        result.journal_degraded,
        "checkpointing_disabled"@,
        rel,
        "checkpoint persistence failed; this run continues without further resume checkpoints"@,
    );
    lemma_warned_if(ledger, result.journal_degraded, "checkpointing_disabled"@, rel, "checkpoint persistence failed; this run continues without further resume checkpoints"@, keys);
    let second = first.warned_if(
        result.efs_downgraded,
        "efs_downgrade"@,
        rel,
        "source EFS state could not be represented at the destination"@,
    );
    lemma_warned_if(first, result.efs_downgraded, "efs_downgrade"@, rel, "source EFS state could not be represented at the destination"@, keys);
    let third = second.warned_if(
        result.eas_dropped,
        "ea_dropped"@,
        rel,
        "destination volume does not advertise extended-attribute support"@,
    );
    lemma_warned_if(second, result.eas_dropped, "ea_dropped"@, rel, "destination volume does not advertise extended-attribute support"@, keys);
    let fourth = third.warned_if(
        retirement is Failed,
        "checkpointing_disabled"@,
        rel,
        "completed-part retirement could not be journaled; metadata reclassification remains authoritative on rerun"@,
    );
    lemma_warned_if(third, retirement is Failed, "checkpointing_disabled"@, rel, "completed-part retirement could not be journaled; metadata reclassification remains authoritative on rerun"@, keys);
    assert forall|i: int| 0 <= i < 4 implies lookup(ledger.warnings, #[trigger] keys[i]) is None by {
        crate::table::lemma_position(ledger.warnings, keys[i]);
    }
    assert(keys[0] == "streams_dropped"@ && keys[1] == "ea_dropped"@ && keys[2] == "efs_downgrade"@
        && keys[3] == "checkpointing_disabled"@);
    if result.streams_dropped > 0 {
        let count = result.streams_dropped as u64;
        assert forall|i: int| 0 <= i < 4 implies lookup(
            fourth.tallied_times("streams_dropped"@, count).warnings,
            #[trigger] keys[i],
        ) == if i == 0 {
            Some(count)
        } else {
            lookup(fourth.warnings, keys[i])
        } by {
            crate::table::put_is_read_back(
                fourth.warnings,
                "streams_dropped"@,
                sat(crate::table::count_of(fourth.warnings, "streams_dropped"@), count),
                keys[i],
            );
        }
    }
}

proof fn lemma_warned_if(
    ledger: LedgerView,
    condition: bool,
    kind: Seq<char>,
    rel: Seq<u16>,
    message: Seq<char>,
    keys: Seq<Seq<char>>,
)
    ensures
        forall|i: int|
            0 <= i < keys.len() && keys[i] != kind ==> lookup(
                ledger.warned_if(condition, kind, rel, message).warnings,
                #[trigger] keys[i],
            ) == lookup(ledger.warnings, keys[i]),
        condition ==> lookup(
            ledger.warned_if(condition, kind, rel, message).warnings,
            kind,
        ) is Some,
        !condition ==> ledger.warned_if(condition, kind, rel, message) == ledger,
{
    if condition {
        crate::ledger::warning_is_counted_and_logged(ledger, kind, Some(rel), message, kind);
        assert forall|i: int| 0 <= i < keys.len() && keys[i] != kind implies lookup(
            ledger.warned_if(condition, kind, rel, message).warnings,
            #[trigger] keys[i],
        ) == lookup(ledger.warnings, keys[i]) by {
            crate::ledger::warning_is_counted_and_logged(
                ledger,
                kind,
                Some(rel),
                message,
                keys[i],
            );
        }
    }
}

/// A later verification expects of a copied file its own path, size, digest,
/// streams and extended attributes, and the metadata that the destination can
/// hold of the source.
pub proof fn verification_expects_what_was_copied(
    target: VerificationTarget,
    rules: RunRules,
    completed: CompletedCopy,
    result: EngineResult,
)
    requires
        is_target_of(target, rules, completed, result),
    ensures
        target.relative_path@ == completed.work.relative@,
        target.destination_path@ == completed.destination_path@,
        result.digest matches Some(digest) && target.expected_digest@ == digest@,
        target.expected_size == completed.work.entry.metadata.size,
        target.expected_metadata.last_write_time
            == completed.work.entry.metadata.basic.last_write_time,
        digest_views(target.expected_streams@) == digest_views(result.stream_digests@),
        target.expected_ea_digest is Some <==> result.ea_digest is Some,
        target.expected_ea_digest is Some ==> target.expected_ea_digest->0@
            == result.ea_digest->0@,
{
    crate::filesystem::projection_keeps_what_the_destination_holds(
        rules.policy,
        completed.work.entry.metadata.basic,
    );
}

/// A sparse layout is kept only where the source is sparse, the destination can
/// hold it and nothing forbids it.
pub proof fn sparse_layout_needs_both_sides(rules: RunRules, attributes: u32)
    ensures
        keeps_sparse(rules, attributes) <==> attributes & 0x200u32 != 0
            && rules.policy.capabilities.sparse_files && !rules.no_sparse,
{
}

/// What a file's attributes call for is warned of: a compressed source, a
/// sparse one that is written densely, and a placeholder whose content is
/// fetched.
pub proof fn file_attributes_are_warned_of(rules: RunRules, work: WorkView, ledger: LedgerView)
    requires
        ledger.warnings.len() == 0,
    ensures
        ({
            let after = with_file_warnings(rules, work, ledger);
            let attributes = work.entry.metadata.basic.attributes;
            &&& lookup(after.warnings, "compressed_sources"@) is Some <==> attributes & 0x800u32
                != 0
            &&& lookup(after.warnings, "sparse_expanded"@) is Some <==> attributes & 0x200u32 != 0
                && !rules.policy.capabilities.sparse_files
            &&& lookup(after.warnings, "cloud_hydrated"@) is Some <==> work.entry.cloud_placeholder
            &&& after.counters == ledger.counters
            &&& after.errors == ledger.errors
        }),
{
    reveal_strlit("compressed_sources");
    reveal_strlit("sparse_expanded");
    reveal_strlit("cloud_hydrated");
    assert("compressed_sources"@.len() == 18 && "sparse_expanded"@.len() == 15
        && "cloud_hydrated"@.len() == 14);
    let keys = seq!["compressed_sources"@, "sparse_expanded"@, "cloud_hydrated"@];
    assert(keys[0] == "compressed_sources"@ && keys[1] == "sparse_expanded"@ && keys[2]
        == "cloud_hydrated"@);
    let attributes = work.entry.metadata.basic.attributes;
    assert forall|i: int| 0 <= i < 3 implies lookup(ledger.warnings, #[trigger] keys[i]) is None by {
        crate::table::lemma_position(ledger.warnings, keys[i]);
    }
    let first = if has_attribute(attributes, ATTRIBUTE_COMPRESSED) {
        ledger.tallied("compressed_sources"@)
    } else {
        ledger
    };
    assert forall|i: int| 0 <= i < 3 implies (lookup(first.warnings, #[trigger] keys[i]) is Some
        <==> i == 0 && has_attribute(attributes, ATTRIBUTE_COMPRESSED)) by {
        crate::table::put_is_read_back(
            ledger.warnings,
            "compressed_sources"@,
            sat(crate::table::count_of(ledger.warnings, "compressed_sources"@), 1),
            keys[i],
        );
    }
    let densely = has_attribute(attributes, ATTRIBUTE_SPARSE_FILE)
        && !rules.policy.capabilities.sparse_files;
    let text = rules.policy.filesystem.spec_name()
        + " does not support sparse allocation; logical content will be written densely"@;
    lemma_warned_if(first, densely, "sparse_expanded"@, work.relative, text, keys);
    let second = first.warned_if(densely, "sparse_expanded"@, work.relative, text);
    lemma_warned_if(
        second,
        work.entry.cloud_placeholder,
        "cloud_hydrated"@,
        work.relative,
        "cloud placeholder included; reading may hydrate remote content"@,
        keys,
    );
    assert(keys[1] == "sparse_expanded"@);
}

} // verus!
