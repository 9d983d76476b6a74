//! Publishing a temporary: the last checks, the auxiliary data, and the commit
//! under the final name.

use vstd::prelude::*;
use vstd::string::*;

use crate::audit::opt_text;
use crate::cursor::{has_resumable_name, needs_base_checkpoint, CheckpointStatus};
use crate::digests::digest_views;
use crate::engine::{
    operation_error, operation_view, post_read_failure, post_read_validate, EngineRequest,
    EngineResult, OpenedFile, OpenedView,
};
use crate::error::{
    category_of, io_error_view, semantic_error_view, ErrorCategory, ErrorView, IoError,
    IoErrorKind, OperationError,
};
use crate::hashing::{digest_bytes, digest_text, StreamDigest};
use crate::model::sat;
use crate::named::{NamedResultView, NamedStreamResult};
use crate::pipeline::opt_digest;
use crate::platform::{ObjectMetadata, StreamView};
use crate::repair::opt_bytes;
use crate::revalidate::{is_unchanged, unchanged};
use crate::segment::{segment_plan, segments_apply, SegmentPlan, SEGMENT_THRESHOLD_BYTES};

verus! {

/// How one file is copied.
#[derive(Clone, Debug, PartialEq, Eq)]
pub enum Strategy {
    /// With its holes left out.
    Sparse,
    /// Directly to its final name.
    PlainSmall,
    /// In parallel segments.
    Segmented(SegmentPlan),
    /// In order, through a temporary.
    Streamed,
}

/// Whether a file is copied in parallel segments.
pub open spec fn takes_segments(
    request: EngineRequest,
    file: OpenedView,
    resume_candidate: bool,
) -> bool {
    segments_apply(
        request.settings.tuning.transport,
        request.settings.source.is_wsl,
        request.settings.destination.is_wsl,
        request.keeps_sparse(),
        file.streams,
        request.source().size,
        SEGMENT_THRESHOLD_BYTES,
        request.settings.tuning.chunk_bytes,
        file.routing.checkpoint_eligible,
        resume_candidate,
    )
}

/// Chooses how one file is copied: a sparse layout is kept first; then plain
/// small files go directly to their final name; everything else goes through a
/// temporary.
pub fn copy_file(request: &EngineRequest, file: &OpenedFile, resume_candidate: bool) -> (strategy:
    Strategy)
    ensures
        if request.keeps_sparse() {
            strategy is Sparse
        } else if crate::engine::takes_direct_route(*request, file@) {
            strategy is PlainSmall
        } else if takes_segments(*request, file@, resume_candidate) {
            strategy matches Strategy::Segmented(plan) && plan.ranges@
                == crate::segment::segment_ranges(
                request.source().size,
                SEGMENT_THRESHOLD_BYTES,
                request.settings.tuning.chunk_bytes,
            )
        } else {
            strategy is Streamed
        },
{
    if request.preserves_sparse_layout() {
        return Strategy::Sparse;
    }
    if crate::engine::is_plain_small(request, file) {
        return Strategy::PlainSmall;
    }
    let plan = segment_plan(
        request.settings.tuning.transport,
        request.settings.source.is_wsl,
        request.settings.destination.is_wsl,
        false,
        file.streams.as_slice(),
        request.source_snapshot.metadata.size,
        SEGMENT_THRESHOLD_BYTES,
        request.settings.tuning.chunk_bytes,
        file.routing.checkpoint_eligible,
        resume_candidate,
    );
    match plan {
        Some(plan) => Strategy::Segmented(plan),
        None => Strategy::Streamed,
    }
}

/// What the publishing of one file rests on.
pub struct PublishState {
    /// Bytes of the unnamed stream.
    pub total: u64,
    /// The running digest of the unnamed stream.
    pub hasher: Option<StreamDigest>,
    /// Whether checkpointing was given up.
    pub degraded: bool,
    /// Whether an encrypted source lands unencrypted.
    pub efs_downgraded: bool,
    /// What became of the named streams.
    pub named: Option<NamedStreamResult>,
    /// Whether checkpoints can still be recorded.
    pub journal: bool,
}

/// What the publishing of one file rests on, as values.
#[verifier::ext_equal]
pub ghost struct PublishView {
    pub total: u64,
    pub digest: Option<Seq<u8>>,
    pub degraded: bool,
    pub efs_downgraded: bool,
    pub named: Option<NamedResultView>,
    pub journal: bool,
}

/// An optional result as values.
pub open spec fn opt_named(result: Option<NamedStreamResult>) -> Option<NamedResultView> {
    match result {
        Some(result) => Some(result@),
        None => None,
    }
}

impl View for PublishState {
    type V = PublishView;

    open spec fn view(&self) -> PublishView {
        PublishView {
            total: self.total,
            digest: opt_digest(self.hasher),
            degraded: self.degraded,
            efs_downgraded: self.efs_downgraded,
            named: opt_named(self.named),
            journal: self.journal,
        }
    }
}

/// The next operation in publishing one file.
#[derive(Debug, PartialEq, Eq)]
pub enum PublishStep {
    /// Read the source's metadata.
    Revalidate,
    /// Append the checkpoint that precedes the named streams.
    BaseCheckpoint,
    /// Copy the named streams.
    CopyNamed,
    /// Write the extended attributes.
    WriteEas,
    /// Read the source's metadata again.
    RevalidateAgain,
    /// Read the metadata of the object that is replaced.
    CheckDestination,
    /// Read its protected access list.
    ReadDacl,
    /// Apply it to the temporary.
    ApplyDacl {
        /// The access list.
        dacl: Vec<u8>,
    },
    /// Rename the temporary to the final name.
    Commit {
        /// Whether an object is replaced.
        replace: bool,
    },
    /// The file is published.
    Published {
        /// The result.
        result: EngineResult,
    },
    /// The copy fails.
    Failed {
        /// Why.
        error: OperationError,
    },
}

/// The result of one file as values.
#[verifier::ext_equal]
pub ghost struct ResultView {
    pub bytes: u64,
    pub digest: Option<Seq<char>>,
    pub stream_digests: Seq<(StreamView, Seq<char>)>,
    pub ea_digest: Option<Seq<char>>,
    pub streams_dropped: u32,
    pub eas_dropped: bool,
    pub journal_degraded: bool,
    pub efs_downgraded: bool,
    pub checkpoint_used: bool,
}

/// The result of one file as values.
pub open spec fn result_view(result: EngineResult) -> ResultView {
    ResultView {
        bytes: result.bytes,
        digest: opt_text(result.digest),
        stream_digests: digest_views(result.stream_digests@),
        ea_digest: opt_text(result.ea_digest),
        streams_dropped: result.streams_dropped,
        eas_dropped: result.eas_dropped,
        journal_degraded: result.journal_degraded,
        efs_downgraded: result.efs_downgraded,
        checkpoint_used: result.checkpoint_used,
    }
}

/// The next operation in publishing one file, as values.
#[verifier::ext_equal]
pub ghost enum PublishStepView {
    Revalidate,
    BaseCheckpoint,
    CopyNamed,
    WriteEas,
    RevalidateAgain,
    CheckDestination,
    ReadDacl,
    ApplyDacl { dacl: Seq<u8> },
    Commit { replace: bool },
    Published { result: ResultView },
    Failed { error: ErrorView },
}

impl View for PublishStep {
    type V = PublishStepView;

    open spec fn view(&self) -> PublishStepView {
        match *self {
            PublishStep::Revalidate => PublishStepView::Revalidate,
            PublishStep::BaseCheckpoint => PublishStepView::BaseCheckpoint,
            PublishStep::CopyNamed => PublishStepView::CopyNamed,
            PublishStep::WriteEas => PublishStepView::WriteEas,
            PublishStep::RevalidateAgain => PublishStepView::RevalidateAgain,
            PublishStep::CheckDestination => PublishStepView::CheckDestination,
            PublishStep::ReadDacl => PublishStepView::ReadDacl,
            PublishStep::ApplyDacl { dacl } => PublishStepView::ApplyDacl { dacl: dacl@ },
            PublishStep::Commit { replace } => PublishStepView::Commit { replace },
            PublishStep::Published { result } => PublishStepView::Published {
                result: result_view(result),
            },
            PublishStep::Failed { error } => PublishStepView::Failed { error: error@ },
        }
    }
}

/// What an operation came to.
#[derive(Debug, PartialEq, Eq)]
pub enum PublishReply {
    /// Metadata that was read.
    Metadata {
        /// The metadata.
        observed: Result<ObjectMetadata, IoError>,
        /// Whether the temporary is kept for a resume.
        persistent: bool,
    },
    /// What became of the base checkpoint.
    BaseCheckpointed(Result<CheckpointStatus, OperationError>),
    /// What became of the named streams.
    Named(Result<NamedStreamResult, OperationError>),
    /// Something was done.
    Done(Result<(), IoError>),
    /// The protected access list that was read.
    Dacl(Result<Option<Vec<u8>>, IoError>),
    /// The temporary was committed.
    Committed {
        /// Whether it had been kept for a resume.
        persistent: bool,
        /// Whether it worked.
        done: Result<(), IoError>,
    },
}

/// What an operation came to, as values.
#[verifier::ext_equal]
pub ghost enum PublishReplyView {
    Metadata { observed: Result<ObjectMetadata, IoError>, persistent: bool },
    BaseCheckpointed(Result<CheckpointStatus, ErrorView>),
    Named(Result<NamedResultView, ErrorView>),
    Done(Result<(), IoError>),
    Dacl(Result<Option<Seq<u8>>, IoError>),
    Committed { persistent: bool, done: Result<(), IoError> },
}

impl View for PublishReply {
    type V = PublishReplyView;

    open spec fn view(&self) -> PublishReplyView {
        match *self {
            PublishReply::Metadata { observed, persistent } => PublishReplyView::Metadata {
                observed,
                persistent,
            },
            PublishReply::BaseCheckpointed(Ok(status)) => PublishReplyView::BaseCheckpointed(
                Ok(status),
            ),
            PublishReply::BaseCheckpointed(Err(error)) => PublishReplyView::BaseCheckpointed(
                Err(error@),
            ),
            PublishReply::Named(Ok(result)) => PublishReplyView::Named(Ok(result@)),
            PublishReply::Named(Err(error)) => PublishReplyView::Named(Err(error@)),
            PublishReply::Done(result) => PublishReplyView::Done(result),
            PublishReply::Dacl(Ok(dacl)) => PublishReplyView::Dacl(Ok(opt_bytes(dacl))),
            PublishReply::Dacl(Err(error)) => PublishReplyView::Dacl(Err(error)),
            PublishReply::Committed { persistent, done } => PublishReplyView::Committed {
                persistent,
                done,
            },
        }
    }
}

/// Whether a reply answers a step.
pub open spec fn publish_answers(step: PublishStepView, reply: PublishReplyView) -> bool {
    match step {
        PublishStepView::Revalidate => reply is Metadata,
        PublishStepView::BaseCheckpoint => reply is BaseCheckpointed,
        PublishStepView::CopyNamed => reply is Named,
        PublishStepView::WriteEas => reply is Done,
        PublishStepView::RevalidateAgain => reply is Metadata,
        PublishStepView::CheckDestination => reply is Metadata,
        PublishStepView::ReadDacl => reply is Dacl,
        PublishStepView::ApplyDacl { .. } => reply is Done,
        PublishStepView::Commit { .. } => reply is Committed,
        _ => false,
    }
}

/// Why the object that is replaced no longer counts as the classified one.
pub open spec fn replaced_failure(
    request: EngineRequest,
    expected: ObjectMetadata,
    observed: Result<ObjectMetadata, IoError>,
) -> Option<ErrorView> {
    let rel = request.rel();
    match observed {
        Err(error) => if error.kind is NotFound {
            Some(
                semantic_error_view(
                    ErrorCategory::DestinationChanged,
                    "revalidate_dst"@,
                    rel,
                    "destination disappeared after classification"@,
                ),
            )
        } else {
            Some(operation_view("revalidate_dst"@, rel, error))
        },
        Ok(observed) => if unchanged(observed, expected) {
            None
        } else {
            Some(
                semantic_error_view(
                    ErrorCategory::DestinationChanged,
                    "revalidate_dst"@,
                    rel,
                    "destination identity or metadata changed after classification"@,
                ),
            )
        },
    }
}

/// The failure of reading a protected access list.
pub open spec fn dacl_read_failure(rel: Seq<u16>, error: IoError) -> ErrorView {
    io_error_view(
        if error.kind is InvalidData {
            ErrorCategory::DestinationChanged
        } else {
            category_of(error)
        },
        "read_dacl"@,
        rel,
        error,
    )
}

/// The commit of a file.
pub open spec fn committing(request: EngineRequest) -> PublishStepView {
    PublishStepView::Commit { replace: request.replaced() is Some }
}

/// The step once both sides of the data are final. A new file is not looked at
/// again: its rename fails by itself on a name that appeared meanwhile.
pub open spec fn precommit(request: EngineRequest) -> PublishStepView {
    if request.replaced() is Some {
        PublishStepView::CheckDestination
    } else {
        committing(request)
    }
}

/// The result of a published file.
pub open spec fn published(
    request: EngineRequest,
    file: OpenedView,
    state: PublishView,
    persistent: bool,
) -> ResultView {
    let named = match state.named {
        Some(result) => result,
        None => NamedResultView {
            digests: seq![],
            dropped: 0,
            journal_degraded: false,
            bytes: 0,
        },
    };
    ResultView {
        bytes: sat(state.total, named.bytes),
        digest: match state.digest {
            Some(absorbed) => Some(digest_text(absorbed)),
            None => None,
        },
        stream_digests: named.digests,
        ea_digest: if request.settings.tuning.verify && !file.eas_dropped {
            Some(
                digest_text(
                    match file.extended_attributes {
                        Some(bytes) => bytes,
                        None => Seq::empty(),
                    },
                ),
            )
        } else {
            None
        },
        streams_dropped: named.dropped,
        eas_dropped: file.eas_dropped,
        journal_degraded: state.degraded,
        efs_downgraded: state.efs_downgraded,
        checkpoint_used: persistent,
    }
}

/// The next step in publishing one file, and what it rests on then.
pub open spec fn publish_next(
    request: EngineRequest,
    file: OpenedView,
    state: PublishView,
    step: PublishStepView,
    reply: PublishReplyView,
) -> (PublishStepView, PublishView) {
    let rel = request.rel();
    match (step, reply) {
        (PublishStepView::Revalidate, PublishReplyView::Metadata { observed, persistent }) => {
            match post_read_failure(request, observed) {
                Some(error) => (PublishStepView::Failed { error }, state),
                None => (
                    if request.settings.destination.supports_streams && state.journal
                        && !persistent && has_resumable_name(
                        file.streams,
                        request.settings.tuning.checkpoint_threshold,
                    ) {
                        PublishStepView::BaseCheckpoint
                    } else {
                        PublishStepView::CopyNamed
                    },
                    state,
                ),
            }
        },
        (PublishStepView::BaseCheckpoint, PublishReplyView::BaseCheckpointed(done)) => match done {
            Err(error) => (PublishStepView::Failed { error }, state),
            Ok(status) => (
                PublishStepView::CopyNamed,
                PublishView {
                    degraded: state.degraded || status is Disabled,
                    journal: state.journal && !(status is Disabled),
                    ..state
                },
            ),
        },
        (PublishStepView::CopyNamed, PublishReplyView::Named(copied)) => match copied {
            Err(error) => (PublishStepView::Failed { error }, state),
            Ok(named) => (
                if file.extended_attributes is Some {
                    PublishStepView::WriteEas
                } else {
                    PublishStepView::RevalidateAgain
                },
                PublishView {
                    degraded: state.degraded || named.journal_degraded,
                    journal: state.journal && !named.journal_degraded,
                    named: Some(named),
                    ..state
                },
            ),
        },
        (PublishStepView::WriteEas, PublishReplyView::Done(done)) => match done {
            Err(error) => (
                PublishStepView::Failed { error: operation_view("write_ea"@, rel, error) },
                state,
            ),
            Ok(_) => (PublishStepView::RevalidateAgain, state),
        },
        (PublishStepView::RevalidateAgain, PublishReplyView::Metadata { observed, .. }) => {
            match post_read_failure(request, observed) {
                Some(error) => (PublishStepView::Failed { error }, state),
                None => (precommit(request), state),
            }
        },
        (PublishStepView::CheckDestination, PublishReplyView::Metadata { observed, .. }) => {
            match request.replaced() {
                None => (committing(request), state),
                Some(expected) => match replaced_failure(request, expected, observed) {
                    Some(error) => (PublishStepView::Failed { error }, state),
                    None => (
                        if request.settings.destination.supports_persistent_acls {
                            PublishStepView::ReadDacl
                        } else {
                            committing(request)
                        },
                        state,
                    ),
                },
            }
        },
        (PublishStepView::ReadDacl, PublishReplyView::Dacl(read)) => match read {
            Err(error) => (
                PublishStepView::Failed { error: dacl_read_failure(rel, error) },
                state,
            ),
            Ok(dacl) => (
                match dacl {
                    Some(dacl) => PublishStepView::ApplyDacl { dacl },
                    None => committing(request),
                },
                state,
            ),
        },
        (PublishStepView::ApplyDacl { .. }, PublishReplyView::Done(done)) => match done {
            Err(error) => (
                PublishStepView::Failed { error: operation_view("preserve_dacl"@, rel, error) },
                state,
            ),
            Ok(_) => (committing(request), state),
        },
        (PublishStepView::Commit { .. }, PublishReplyView::Committed { persistent, done }) => {
            match done {
                Err(error) => (
                    PublishStepView::Failed { error: operation_view("commit"@, rel, error) },
                    state,
                ),
                Ok(_) => (
                    PublishStepView::Published {
                        result: published(request, file, state, persistent),
                    },
                    state,
                ),
            }
        },
        _ => (step, state),
    }
}

fn commit_step(request: &EngineRequest) -> (step: PublishStep)
    ensures
        step@ == committing(*request),
{
    PublishStep::Commit { replace: request.replacement_snapshot.is_some() }
}

fn revalidate_replaced(
    request: &EngineRequest,
    expected: &ObjectMetadata,
    observed: &Result<ObjectMetadata, IoError>,
) -> (verdict: Result<(), OperationError>)
    ensures
        crate::revalidate::is_verdict(verdict, replaced_failure(*request, *expected, *observed)),
{
    match observed {
        Err(error) => {
            if error.kind == IoErrorKind::NotFound {
                Err(
                    OperationError::semantic(
                        ErrorCategory::DestinationChanged,
                        "revalidate_dst",
                        request.relative_path.copied(),
                        "destination disappeared after classification".to_owned(),
                    ),
                )
            } else {
                Err(operation_error("revalidate_dst", request.relative_path, error))
            }
        },
        Ok(observed) => {
            if is_unchanged(observed, expected) {
                Ok(())
            } else {
                Err(
                    OperationError::semantic(
                        ErrorCategory::DestinationChanged,
                        "revalidate_dst",
                        request.relative_path.copied(),
                        "destination identity or metadata changed after classification".to_owned(),
                    ),
                )
            }
        },
    }
}

fn dacl_error(request: &EngineRequest, error: &IoError) -> (failure: OperationError)
    ensures
        failure@ == dacl_read_failure(request.rel(), *error),
{
    if error.kind == IoErrorKind::InvalidData {
        OperationError::from_io_as(
            ErrorCategory::DestinationChanged,
            "read_dacl",
            request.relative_path.copied(),
            error,
        )
    } else {
        operation_error("read_dacl", request.relative_path, error)
    }
}

fn finished_result(
    request: &EngineRequest,
    file: &OpenedFile,
    state: &PublishState,
    persistent: bool,
) -> (result: EngineResult)
    ensures
        result_view(result) == published(*request, file@, state@, persistent),
{
    let digest = match &state.hasher {
        Some(hasher) => Some(hasher.finish()),
        None => None,
    };
    let ea_digest = if request.settings.tuning.verify && !file.eas_dropped {
        match &file.extended_attributes {
            Some(bytes) => Some(digest_bytes(bytes.as_slice())),
            None => {
                let empty: Vec<u8> = Vec::new();
                assert(empty@ =~= Seq::<u8>::empty());
                Some(digest_bytes(empty.as_slice()))
            },
        }
    } else {
        None
    };
    let mut bytes: u64 = state.total;
    let mut stream_digests = Vec::new();
    assert(digest_views(stream_digests@) =~= seq![]);
    let mut streams_dropped: u32 = 0;
    if let Some(named) = &state.named {
        bytes = bytes.saturating_add(named.bytes);
        stream_digests = crate::digests::copy_digests(&named.digests);
        streams_dropped = named.dropped;
    }
    EngineResult {
        bytes,
        digest,
        stream_digests,
        ea_digest,
        streams_dropped,
        eas_dropped: file.eas_dropped,
        journal_degraded: state.degraded,
        efs_downgraded: state.efs_downgraded,
        checkpoint_used: persistent,
    }
}

/// Decides the next operation in publishing one file. The first one is to read
/// the source's metadata.
#[verifier::rlimit(60)]
pub fn finish_streamed(
    request: &EngineRequest,
    file: &OpenedFile,
    state: &mut PublishState,
    step: PublishStep,
    reply: PublishReply,
) -> (next: PublishStep)
    requires
        publish_answers(step@, reply@),
    ensures
        publish_next(*request, file@, old(state)@, step@, reply@) == (next@, final(state)@),
{
    let rel = request.relative_path;
    match (step, reply) {
        (PublishStep::Revalidate, PublishReply::Metadata { observed, persistent }) => {
            match post_read_validate(request, &observed) {
                Err(error) => PublishStep::Failed { error },
                Ok(_) => {
                    if needs_base_checkpoint(
                        request.settings.destination.supports_streams,
                        file.streams.as_slice(),
                        request.settings.tuning.checkpoint_threshold,
                        state.journal,
                        persistent,
                    ) {
                        PublishStep::BaseCheckpoint
                    } else {
                        PublishStep::CopyNamed
                    }
                },
            }
        },
        (PublishStep::BaseCheckpoint, PublishReply::BaseCheckpointed(done)) => match done {
            Err(error) => PublishStep::Failed { error },
            Ok(status) => {
                if status == CheckpointStatus::Disabled {
                    state.degraded = true;
                    state.journal = false;
                }
                PublishStep::CopyNamed
            },
        },
        (PublishStep::CopyNamed, PublishReply::Named(copied)) => match copied {
            Err(error) => PublishStep::Failed { error },
            Ok(named) => {
                if named.journal_degraded {
                    state.degraded = true;
                    state.journal = false;
                }
                state.named = Some(named);
                if file.extended_attributes.is_some() {
                    PublishStep::WriteEas
                } else {
                    PublishStep::RevalidateAgain
                }
            },
        },
        (PublishStep::WriteEas, PublishReply::Done(done)) => match done {
            Err(error) => PublishStep::Failed { error: operation_error("write_ea", rel, &error) },
            Ok(_) => PublishStep::RevalidateAgain,
        },
        (PublishStep::RevalidateAgain, PublishReply::Metadata { observed, .. }) => {
            match post_read_validate(request, &observed) {
                Err(error) => PublishStep::Failed { error },
                Ok(_) => {
                    if request.replacement_snapshot.is_some() {
                        PublishStep::CheckDestination
                    } else {
                        commit_step(request)
                    }
                },
            }
        },
        (PublishStep::CheckDestination, PublishReply::Metadata { observed, .. }) => {
            match request.replacement_snapshot {
                None => commit_step(request),
                Some(expected) => match revalidate_replaced(
                    request,
                    &expected.metadata,
                    &observed,
                ) {
                    Err(error) => PublishStep::Failed { error },
                    Ok(_) => {
                        if request.settings.destination.supports_persistent_acls {
                            PublishStep::ReadDacl
                        } else {
                            commit_step(request)
                        }
                    },
                },
            }
        },
        (PublishStep::ReadDacl, PublishReply::Dacl(read)) => match read {
            Err(error) => PublishStep::Failed { error: dacl_error(request, &error) },
            Ok(dacl) => match dacl {
                Some(dacl) => PublishStep::ApplyDacl { dacl },
                None => commit_step(request),
            },
        },
        (PublishStep::ApplyDacl { .. }, PublishReply::Done(done)) => match done {
            Err(error) => PublishStep::Failed {
                error: operation_error("preserve_dacl", rel, &error),
            },
            Ok(_) => commit_step(request),
        },
        (PublishStep::Commit { .. }, PublishReply::Committed { persistent, done }) => match done {
            Err(error) => PublishStep::Failed { error: operation_error("commit", rel, &error) },
            Ok(_) => PublishStep::Published {
                result: finished_result(request, file, state, persistent),
            },
        },
        (step, _) => step,
    }
}

/// A journal that failed once is left alone for the rest of the file: whoever
/// gave up checkpointing, no later stage records a checkpoint.
pub proof fn failed_journal_is_left_alone(
    request: EngineRequest,
    file: OpenedView,
    state: PublishView,
    step: PublishStepView,
    reply: PublishReplyView,
)
    requires
        publish_answers(step, reply),
        state.degraded ==> !state.journal,
    ensures
        ({
            let (next, after) = publish_next(request, file, state, step, reply);
            &&& after.degraded ==> !after.journal
            &&& state.degraded ==> after.degraded
            &&& next is BaseCheckpoint && !(step is BaseCheckpoint) ==> !state.degraded
        }),
{
}

/// A file is committed only after its source was found unchanged behind the
/// last byte, and after the object that it replaces was found as classified.
pub proof fn commit_follows_the_last_checks(
    request: EngineRequest,
    file: OpenedView,
    state: PublishView,
    step: PublishStepView,
    reply: PublishReplyView,
)
    requires
        publish_answers(step, reply),
    ensures
        ({
            let next = publish_next(request, file, state, step, reply).0;
            &&& next is Commit ==> step is RevalidateAgain || step is CheckDestination || step
                is ReadDacl || step is ApplyDacl
            &&& next is Commit && step is RevalidateAgain ==> request.replaced() is None
                && post_read_failure(request, reply->observed) is None
            &&& next is CheckDestination ==> step is RevalidateAgain && post_read_failure(
                request,
                reply->observed,
            ) is None
            &&& (next is ReadDacl || next is Commit) && step is CheckDestination
                && request.replaced() is Some ==> replaced_failure(
                request,
                request.replaced()->0,
                reply->observed,
            ) is None
            &&& next is Published ==> step is Commit
        }),
{
}

/// What is known of one file while it is published: what comes next, what the
/// copy knows, and what was done to the temporary and looked at since the last
/// of its data was written.
pub ghost struct PublishScene {
    pub step: PublishStepView,
    pub state: PublishView,
    pub source_seen: bool,
    pub eas_written: bool,
    pub destination_seen: bool,
    pub dacl: Option<Option<Seq<u8>>>,
    pub applied: Option<Seq<u8>>,
    pub committed: bool,
}

impl PublishScene {
    /// The scene once the data of the file is written.
    pub open spec fn written(state: PublishView) -> PublishScene {
        PublishScene {
            step: PublishStepView::Revalidate,
            state,
            source_seen: false,
            eas_written: false,
            destination_seen: false,
            dacl: None,
            applied: None,
            committed: false,
        }
    }

    /// The scene after an operation.
    pub open spec fn after(
        self,
        request: EngineRequest,
        file: OpenedView,
        reply: PublishReplyView,
    ) -> PublishScene {
        let (step, state) = publish_next(request, file, self.state, self.step, reply);
        let source = request.source_snapshot.metadata;
        let finds_source = reply matches PublishReplyView::Metadata { observed: Ok(seen), .. } && {
            &&& seen.identity == source.identity
            &&& seen.size == source.size
            &&& seen.basic.last_write_time == source.basic.last_write_time
        };
        let old = request.replacement_snapshot->0.metadata;
        let finds_destination = reply matches PublishReplyView::Metadata {
            observed: Ok(seen),
            ..
        } && {
            &&& seen.identity == old.identity
            &&& seen.kind == old.kind
            &&& seen.size == old.size
            &&& seen.basic.last_write_time == old.basic.last_write_time
            &&& seen.basic.attributes == old.basic.attributes
            &&& seen.reparse_tag == old.reparse_tag
        };
        PublishScene {
            step,
            state,
            source_seen: if self.step is CopyNamed || self.step is WriteEas {
                false
            } else if self.step is Revalidate || self.step is RevalidateAgain {
                finds_source
            } else {
                self.source_seen
            },
            eas_written: self.eas_written || (self.step is WriteEas && reply matches
                PublishReplyView::Done(Ok(_))),
            destination_seen: self.destination_seen || (self.step is CheckDestination
                && finds_destination),
            dacl: match (self.step, reply) {
                (PublishStepView::ReadDacl, PublishReplyView::Dacl(Ok(dacl))) => Some(dacl),
                _ => self.dacl,
            },
            applied: match (self.step, reply) {
                (
                    PublishStepView::ApplyDacl { dacl },
                    PublishReplyView::Done(Ok(_)),
                ) => Some(dacl),
                _ => self.applied,
            },
            committed: self.committed || (self.step is Commit && reply matches
                PublishReplyView::Committed { done: Ok(_), .. }),
        }
    }

    /// The scene after a list of operations.
    pub open spec fn played(
        self,
        request: EngineRequest,
        file: OpenedView,
        replies: Seq<PublishReplyView>,
    ) -> PublishScene
        decreases replies.len(),
    {
        if replies.len() == 0 {
            self
        } else {
            self.played(request, file, replies.drop_last()).after(request, file, replies.last())
        }
    }

    /// Whether every reply answers the operation that was asked for.
    pub open spec fn answered_by(
        self,
        request: EngineRequest,
        file: OpenedView,
        replies: Seq<PublishReplyView>,
    ) -> bool
        decreases replies.len(),
    {
        replies.len() > 0 ==> {
            &&& self.answered_by(request, file, replies.drop_last())
            &&& publish_answers(
                self.played(request, file, replies.drop_last()).step,
                replies.last(),
            )
        }
    }

    /// Whether everything of the file is in its temporary, and its source was
    /// found unchanged after that.
    pub open spec fn is_complete(self, file: OpenedView) -> bool {
        &&& self.state.named is Some
        &&& self.source_seen
        &&& file.extended_attributes is Some ==> self.eas_written
    }
}

/// A file is committed only when its named streams and extended attributes are
/// in place and its source was found unchanged after the last of them was
/// written. Another object is replaced only where the classification saw one,
/// and only after it was found as it was then; its protected access list is on
/// the new file first. Only a commit publishes.
pub proof fn commit_is_complete_and_checked(
    request: EngineRequest,
    file: OpenedView,
    state: PublishView,
    replies: Seq<PublishReplyView>,
)
    requires
        state.named is None,
        PublishScene::written(state).answered_by(request, file, replies),
    ensures
        ({
            let scene = PublishScene::written(state).played(request, file, replies);
            let replaces = request.replacement_snapshot is Some;
            let keeps_acls = request.settings.destination.supports_persistent_acls;
            let protects = scene.dacl is Some && (scene.dacl->0 is Some ==> scene.applied
                == scene.dacl->0);
            let last = scene.step is CheckDestination || scene.step is ReadDacl || scene.step
                is ApplyDacl || scene.step is Commit || scene.step is Published;
            &&& scene.step is WriteEas ==> scene.state.named is Some && !scene.committed
                && file.extended_attributes is Some
            &&& scene.step is RevalidateAgain ==> scene.state.named is Some && (
            file.extended_attributes is Some ==> scene.eas_written)
            &&& last ==> scene.is_complete(file)
            &&& scene.step is CheckDestination || scene.step is ReadDacl || scene.step is ApplyDacl
                ==> replaces
            &&& scene.step is ReadDacl || scene.step is ApplyDacl ==> scene.destination_seen
                && keeps_acls
            &&& scene.step matches PublishStepView::ApplyDacl { dacl } ==> scene.dacl == Some(
                Some(dacl),
            )
            &&& scene.step matches PublishStepView::Commit { replace } ==> replace == replaces
            &&& scene.step is Commit || scene.step is Published ==> {
                &&& replaces ==> scene.destination_seen
                &&& replaces && keeps_acls ==> protects
            }
            &&& scene.step is Published <==> scene.committed
        }),
    decreases replies.len(),
{
    if replies.len() > 0 {
        commit_is_complete_and_checked(request, file, state, replies.drop_last());
    }
}

/// What a published file is told as: the bytes and digest of its data, the
/// streams that were copied and dropped with their own bytes, its extended
/// attributes, and whether its checkpoints are still to be retired.
pub proof fn published_file_is_told_as_copied(
    request: EngineRequest,
    file: OpenedView,
    state: PublishView,
    step: PublishStepView,
    reply: PublishReplyView,
)
    requires
        publish_answers(step, reply),
        state.named is Some,
        state.total + state.named->0.bytes <= u64::MAX,
    ensures
        publish_next(request, file, state, step, reply).0 matches PublishStepView::Published {
            result,
        } ==> {
            let named = state.named->0;
            &&& result.bytes == state.total + named.bytes
            &&& result.digest is Some <==> state.digest is Some
            &&& result.digest is Some ==> result.digest->0 == digest_text(state.digest->0)
            &&& result.stream_digests == named.digests
            &&& result.streams_dropped == named.dropped
            &&& result.eas_dropped == file.eas_dropped
            &&& result.ea_digest is Some <==> request.settings.tuning.verify && !file.eas_dropped
            &&& result.ea_digest is Some && file.extended_attributes is Some
                ==> result.ea_digest->0 == digest_text(file.extended_attributes->0)
            &&& result.ea_digest is Some && file.extended_attributes is None
                ==> result.ea_digest->0 == digest_text(seq![])
            &&& result.journal_degraded == state.degraded
            &&& result.efs_downgraded == state.efs_downgraded
            &&& result.checkpoint_used == reply->Committed_persistent
        },
{
}

/// A journal that fails once is not used again for the file, and the failure is
/// told; nothing else makes a copy count as degraded.
pub proof fn failed_journal_is_told(
    request: EngineRequest,
    file: OpenedView,
    state: PublishView,
    step: PublishStepView,
    reply: PublishReplyView,
)
    requires
        publish_answers(step, reply),
    ensures
        ({
            let after = publish_next(request, file, state, step, reply).1;
            let fails = (reply matches PublishReplyView::BaseCheckpointed(Ok(status)) && status
                is Disabled) || (reply matches PublishReplyView::Named(Ok(named))
                && named.journal_degraded);
            &&& after.degraded == (state.degraded || fails)
            &&& after.journal == (state.journal && !fails)
            &&& after.total == state.total
            &&& after.digest == state.digest
            &&& after.efs_downgraded == state.efs_downgraded
        }),
{
}

/// The data gets a checkpoint of its own before the named streams exactly if a
/// named stream that goes along is large enough for checkpoints, the journal
/// works, and the data has none yet.
pub proof fn data_is_checkpointed_before_large_names(
    request: EngineRequest,
    file: OpenedView,
    state: PublishView,
    observed: Result<ObjectMetadata, IoError>,
    persistent: bool,
)
    requires
        observed matches Ok(seen) && {
            &&& seen.identity == request.source_snapshot.metadata.identity
            &&& seen.size == request.source_snapshot.metadata.size
            &&& seen.basic.last_write_time
                == request.source_snapshot.metadata.basic.last_write_time
        },
    ensures
        ({
            let next = publish_next(
                request,
                file,
                state,
                PublishStepView::Revalidate,
                PublishReplyView::Metadata { observed, persistent },
            ).0;
            let large_name = exists|i: int|
                0 <= i < file.streams.len() && !(#[trigger] file.streams[i]).is_unnamed()
                    && file.streams[i].size >= request.settings.tuning.checkpoint_threshold;
            &&& next is BaseCheckpoint || next is CopyNamed
            &&& next is BaseCheckpoint <==> request.settings.destination.supports_streams
                && state.journal && !persistent && large_name
        }),
{
}

/// A destination that is not what the classification saw is told as changed.
pub proof fn replaced_object_must_be_the_classified_one(
    request: EngineRequest,
    expected: ObjectMetadata,
    observed: Result<ObjectMetadata, IoError>,
)
    ensures
        replaced_failure(request, expected, observed) is None <==> (observed matches Ok(seen) && {
            &&& seen.identity == expected.identity
            &&& seen.kind == expected.kind
            &&& seen.size == expected.size
            &&& seen.basic.last_write_time == expected.basic.last_write_time
            &&& seen.basic.attributes == expected.basic.attributes
            &&& seen.reparse_tag == expected.reparse_tag
        }),
        replaced_failure(request, expected, observed) matches Some(failure) ==> failure.operation
            == "revalidate_dst"@ && (observed is Ok || observed->Err_0.kind is NotFound
            ==> failure.category is DestinationChanged),
{
}

/// A file is copied in parts only where nothing of it could be lost or resumed:
/// a large file without holes and named streams, between Windows and the Linux
/// side, that no checkpoint covers.
pub proof fn parts_are_for_files_that_lose_nothing(
    request: EngineRequest,
    file: OpenedView,
    resume_candidate: bool,
)
    requires
        takes_segments(request, file, resume_candidate),
    ensures
        request.settings.source.is_wsl != request.settings.destination.is_wsl,
        request.settings.tuning.transport.kind is Wsl,
        !request.keeps_sparse(),
        !file.routing.checkpoint_eligible,
        !resume_candidate,
        request.source().size >= SEGMENT_THRESHOLD_BYTES,
        forall|i: int| 0 <= i < file.streams.len() ==> (#[trigger] file.streams[i]).is_unnamed(),
{
}

} // verus!
