//! Files that go through a temporary: how it is prepared, and how the bytes of
//! a stream are walked from checkpoint to checkpoint.

use vstd::prelude::*;
use vstd::string::*;

use crate::cursor::{boundary_lies_ahead, CheckpointCursor, CheckpointStatus};
use crate::engine::{
    canceled_error, canceled_view, operation_error, operation_view, EngineRequest,
};
use crate::error::{semantic_error_view, ErrorCategory, ErrorView, IoError, OperationError};
use crate::hashing::StreamDigest;
use crate::path::WidePath;
use crate::pipeline::{digested, opt_digest};
use crate::platform::{has_attribute, is_encrypted, ATTRIBUTE_ENCRYPTED};
use crate::segment::{zero_chunk_error, zero_chunk_view};

verus! {

/// How the data of one file is moved into its temporary.
#[derive(Clone, Copy, Debug, PartialEq, Eq, Structural)]
pub enum BulkKind {
    /// In order.
    Streamed,
    /// In order, with holes left out.
    Sparse,
    /// In parallel segments.
    Segmented,
}

/// What is fixed while one temporary is prepared.
#[derive(Clone, Copy, Debug, PartialEq, Eq, Structural)]
pub struct BulkFacts {
    /// How the data is moved.
    pub kind: BulkKind,
    /// Whether the final path has a parent directory.
    pub has_parent: bool,
    /// Whether the journal has a checkpoint of this file.
    pub has_checkpoint: bool,
}

/// The next operation in preparing one temporary.
#[derive(Debug, PartialEq, Eq)]
pub enum PrepareStep {
    /// Ask for the allocated ranges of the source.
    QueryRanges,
    /// Try to resume from the checkpoint.
    Resume,
    /// Create a temporary.
    CreateTemp {
        /// Whether it is to be encrypted.
        encrypted: bool,
    },
    /// Mark the temporary as sparse.
    MarkSparse,
    /// Allocate the temporary densely.
    Preallocate {
        /// Its size.
        size: u64,
    },
    /// Read the temporary's attributes.
    ReadAttributes,
    /// Set the temporary's length.
    SetLength {
        /// Its size.
        size: u64,
    },
    /// Ask for the temporary's identity.
    Identify,
    /// Open one writer for each segment.
    OpenWriters,
    /// The temporary is ready.
    Ready,
    /// The copy fails.
    Failed {
        /// Why.
        error: OperationError,
    },
}

/// The next operation in preparing one temporary, as values.
#[verifier::ext_equal]
pub ghost enum PrepareView {
    QueryRanges,
    Resume,
    CreateTemp { encrypted: bool },
    MarkSparse,
    Preallocate { size: u64 },
    ReadAttributes,
    SetLength { size: u64 },
    Identify,
    OpenWriters,
    Ready,
    Failed { error: ErrorView },
}

impl View for PrepareStep {
    type V = PrepareView;

    open spec fn view(&self) -> PrepareView {
        match *self {
            PrepareStep::QueryRanges => PrepareView::QueryRanges,
            PrepareStep::Resume => PrepareView::Resume,
            PrepareStep::CreateTemp { encrypted } => PrepareView::CreateTemp { encrypted },
            PrepareStep::MarkSparse => PrepareView::MarkSparse,
            PrepareStep::Preallocate { size } => PrepareView::Preallocate { size },
            PrepareStep::ReadAttributes => PrepareView::ReadAttributes,
            PrepareStep::SetLength { size } => PrepareView::SetLength { size },
            PrepareStep::Identify => PrepareView::Identify,
            PrepareStep::OpenWriters => PrepareView::OpenWriters,
            PrepareStep::Ready => PrepareView::Ready,
            PrepareStep::Failed { error } => PrepareView::Failed { error: error@ },
        }
    }
}

/// What an operation came to.
#[derive(Debug, PartialEq, Eq)]
pub enum PrepareReply {
    /// Something was done.
    Done(Result<(), IoError>),
    /// Whether the copy goes on at the checkpoint.
    Resumed(Result<bool, OperationError>),
    /// The temporary's attributes.
    Attributes(Result<u32, IoError>),
}

/// What an operation came to, as values.
#[verifier::ext_equal]
pub ghost enum PrepareReplyView {
    Done(Result<(), IoError>),
    Resumed(Result<bool, ErrorView>),
    Attributes(Result<u32, IoError>),
}

impl View for PrepareReply {
    type V = PrepareReplyView;

    open spec fn view(&self) -> PrepareReplyView {
        match *self {
            PrepareReply::Done(result) => PrepareReplyView::Done(result),
            PrepareReply::Resumed(Ok(resumed)) => PrepareReplyView::Resumed(Ok(resumed)),
            PrepareReply::Resumed(Err(error)) => PrepareReplyView::Resumed(Err(error@)),
            PrepareReply::Attributes(result) => PrepareReplyView::Attributes(result),
        }
    }
}

/// Whether a reply answers a step.
pub open spec fn prepare_answers(step: PrepareView, reply: PrepareReplyView) -> bool {
    match step {
        PrepareView::Resume => reply is Resumed,
        PrepareView::ReadAttributes => reply is Attributes,
        PrepareView::Ready => false,
        PrepareView::Failed { .. } => false,
        _ => reply is Done,
    }
}

/// The failure of a final path without a parent directory.
pub open spec fn no_parent(rel: Seq<u16>) -> ErrorView {
    semantic_error_view(
        ErrorCategory::Path,
        "create_dst_temp"@,
        rel,
        "destination file has no parent directory"@,
    )
}

/// The creation of a temporary. Encryption and a sparse layout exclude each
/// other, so that a sparse copy never asks for it.
pub open spec fn creating(request: EngineRequest, facts: BulkFacts) -> PrepareView {
    PrepareView::CreateTemp {
        encrypted: !(facts.kind is Sparse) && request.spec_wants_encryption(),
    }
}

/// The step once the parent directory is needed.
pub open spec fn locating(request: EngineRequest, facts: BulkFacts) -> PrepareView {
    if !facts.has_parent {
        PrepareView::Failed { error: no_parent(request.rel()) }
    } else if facts.has_checkpoint && !(facts.kind is Segmented) {
        PrepareView::Resume
    } else {
        creating(request, facts)
    }
}

/// The step once the attributes of the temporary are known.
pub open spec fn sizing(request: EngineRequest, facts: BulkFacts) -> PrepareView {
    match facts.kind {
        BulkKind::Streamed => PrepareView::Ready,
        BulkKind::Sparse => PrepareView::SetLength { size: request.source().size },
        BulkKind::Segmented => if request.settings.tuning.chunk_bytes == 0 {
            PrepareView::Failed { error: zero_chunk_view(request.rel()) }
        } else {
            PrepareView::Identify
        },
    }
}

/// The step once the temporary exists: an encrypted source asks for its
/// attributes.
pub open spec fn judging(request: EngineRequest, facts: BulkFacts) -> PrepareView {
    if has_attribute(request.source().basic.attributes, ATTRIBUTE_ENCRYPTED) {
        PrepareView::ReadAttributes
    } else {
        sizing(request, facts)
    }
}

/// The step after a temporary was created.
pub open spec fn after_creation(request: EngineRequest, facts: BulkFacts) -> PrepareView {
    let size = request.source().size;
    match facts.kind {
        BulkKind::Sparse => PrepareView::MarkSparse,
        BulkKind::Streamed => if request.settings.destination.supports_preallocation {
            PrepareView::Preallocate { size }
        } else {
            judging(request, facts)
        },
        BulkKind::Segmented => if request.settings.destination.supports_preallocation {
            PrepareView::Preallocate { size }
        } else {
            // Parallel writers must not race to extend the file.
            PrepareView::SetLength { size }
        },
    }
}

/// The name of an operation on a temporary.
pub open spec fn prepare_operation(step: PrepareView) -> Seq<char> {
    match step {
        PrepareView::QueryRanges => "query_sparse"@,
        PrepareView::CreateTemp { .. } => "create_dst_temp"@,
        PrepareView::MarkSparse => "set_sparse"@,
        PrepareView::Preallocate { .. } => "preallocate"@,
        PrepareView::SetLength { .. } => "set_eof"@,
        PrepareView::Identify => "identify_dst_temp"@,
        _ => "open_dst_segment"@,
    }
}

/// The first step in preparing one temporary.
pub open spec fn prepare_start(request: EngineRequest, facts: BulkFacts) -> PrepareView {
    if facts.kind is Sparse {
        PrepareView::QueryRanges
    } else {
        locating(request, facts)
    }
}

/// The next step in preparing one temporary.
pub open spec fn prepare_next(
    request: EngineRequest,
    facts: BulkFacts,
    step: PrepareView,
    reply: PrepareReplyView,
) -> PrepareView {
    match (step, reply) {
        (_, PrepareReplyView::Done(Err(error))) => PrepareView::Failed {
            error: operation_view(prepare_operation(step), request.rel(), error),
        },
        (PrepareView::Resume, PrepareReplyView::Resumed(resumed)) => match resumed {
            Err(error) => PrepareView::Failed { error },
            Ok(true) => judging(request, facts),
            Ok(false) => creating(request, facts),
        },
        (PrepareView::ReadAttributes, _) => sizing(request, facts),
        (PrepareView::QueryRanges, _) => locating(request, facts),
        (PrepareView::CreateTemp { .. }, _) => after_creation(request, facts),
        (PrepareView::MarkSparse, _) => judging(request, facts),
        (PrepareView::Preallocate { .. }, _) => judging(request, facts),
        (PrepareView::SetLength { .. }, _) => match facts.kind {
            BulkKind::Segmented => judging(request, facts),
            _ => if request.settings.tuning.chunk_bytes == 0 {
                PrepareView::Failed { error: zero_chunk_view(request.rel()) }
            } else {
                PrepareView::Ready
            },
        },
        (PrepareView::Identify, _) => PrepareView::OpenWriters,
        (PrepareView::OpenWriters, _) => PrepareView::Ready,
        _ => step,
    }
}

fn locate(request: &EngineRequest, facts: BulkFacts) -> (step: PrepareStep)
    ensures
        step@ == locating(*request, facts),
{
    if !facts.has_parent {
        PrepareStep::Failed {
            error: OperationError::semantic(
                ErrorCategory::Path,
                "create_dst_temp",
                request.relative_path.copied(),
                "destination file has no parent directory".to_owned(),
            ),
        }
    } else if facts.has_checkpoint && facts.kind != BulkKind::Segmented {
        PrepareStep::Resume
    } else {
        create_temp(request, facts)
    }
}

fn create_temp(request: &EngineRequest, facts: BulkFacts) -> (step: PrepareStep)
    ensures
        step@ == creating(*request, facts),
{
    PrepareStep::CreateTemp {
        encrypted: facts.kind != BulkKind::Sparse && request.wants_encryption(),
    }
}

fn size_temp(request: &EngineRequest, facts: BulkFacts) -> (step: PrepareStep)
    ensures
        step@ == sizing(*request, facts),
{
    match facts.kind {
        BulkKind::Streamed => PrepareStep::Ready,
        BulkKind::Sparse => PrepareStep::SetLength { size: request.source_snapshot.metadata.size },
        BulkKind::Segmented => {
            if request.settings.tuning.chunk_bytes == 0 {
                PrepareStep::Failed { error: zero_chunk_error(request.relative_path) }
            } else {
                PrepareStep::Identify
            }
        },
    }
}

fn judge(request: &EngineRequest, facts: BulkFacts) -> (step: PrepareStep)
    ensures
        step@ == judging(*request, facts),
{
    if is_encrypted(request.source_snapshot.metadata.basic.attributes) {
        PrepareStep::ReadAttributes
    } else {
        size_temp(request, facts)
    }
}

/// Starts preparing one temporary.
pub fn start_prepare(request: &EngineRequest, facts: BulkFacts) -> (step: PrepareStep)
    ensures
        step@ == prepare_start(*request, facts),
{
    if facts.kind == BulkKind::Sparse {
        PrepareStep::QueryRanges
    } else {
        locate(request, facts)
    }
}

fn prepare_failed(request: &EngineRequest, step: &PrepareStep, error: &IoError) -> (next:
    PrepareStep)
    ensures
        next@ == (PrepareView::Failed {
            error: operation_view(prepare_operation(step@), request.rel(), *error),
        }),
{
    let operation: &str = match step {
        PrepareStep::QueryRanges => "query_sparse",
        PrepareStep::CreateTemp { .. } => "create_dst_temp",
        PrepareStep::MarkSparse => "set_sparse",
        PrepareStep::Preallocate { .. } => "preallocate",
        PrepareStep::SetLength { .. } => "set_eof",
        PrepareStep::Identify => "identify_dst_temp",
        _ => "open_dst_segment",
    };
    PrepareStep::Failed { error: operation_error(operation, request.relative_path, error) }
}

/// Decides the next operation in preparing one temporary.
pub fn continue_prepare(
    request: &EngineRequest,
    facts: BulkFacts,
    step: PrepareStep,
    reply: PrepareReply,
) -> (next: PrepareStep)
    requires
        prepare_answers(step@, reply@),
    ensures
        next@ == prepare_next(*request, facts, step@, reply@),
{
    match reply {
        PrepareReply::Resumed(resumed) => match resumed {
            Err(error) => PrepareStep::Failed { error },
            Ok(resumed) => {
                if resumed {
                    judge(request, facts)
                } else {
                    create_temp(request, facts)
                }
            },
        },
        PrepareReply::Attributes(_) => size_temp(request, facts),
        PrepareReply::Done(done) => match done {
            Err(error) => prepare_failed(request, &step, &error),
            Ok(_) => match step {
                PrepareStep::QueryRanges => locate(request, facts),
                PrepareStep::CreateTemp { .. } => {
                    let size: u64 = request.source_snapshot.metadata.size;
                    match facts.kind {
                        BulkKind::Sparse => PrepareStep::MarkSparse,
                        BulkKind::Streamed => {
                            if request.settings.destination.supports_preallocation {
                                PrepareStep::Preallocate { size }
                            } else {
                                judge(request, facts)
                            }
                        },
                        BulkKind::Segmented => {
                            if request.settings.destination.supports_preallocation {
                                PrepareStep::Preallocate { size }
                            } else {
                                PrepareStep::SetLength { size }
                            }
                        },
                    }
                },
                PrepareStep::MarkSparse => judge(request, facts),
                PrepareStep::Preallocate { .. } => judge(request, facts),
                PrepareStep::SetLength { .. } => {
                    if facts.kind == BulkKind::Segmented {
                        judge(request, facts)
                    } else if request.settings.tuning.chunk_bytes == 0 {
                        PrepareStep::Failed { error: zero_chunk_error(request.relative_path) }
                    } else {
                        PrepareStep::Ready
                    }
                },
                PrepareStep::Identify => PrepareStep::OpenWriters,
                PrepareStep::OpenWriters => PrepareStep::Ready,
                step => step,
            },
        },
    }
}

/// A file copied in parallel segments is never resumed, and its temporary has
/// its full length before any writer is opened.
pub proof fn segments_start_from_a_sized_temporary(
    request: EngineRequest,
    facts: BulkFacts,
    step: PrepareView,
    reply: PrepareReplyView,
)
    requires
        facts.kind is Segmented,
        prepare_answers(step, reply),
        !(step is Resume || step is QueryRanges || step is MarkSparse),
    ensures
        !(prepare_start(request, facts) is Resume),
        !(prepare_next(request, facts, step, reply) is Resume),
        prepare_next(request, facts, step, reply) is OpenWriters ==> step is Identify,
        prepare_next(request, facts, step, reply) is Identify ==> step is Preallocate || step
            is SetLength || step is ReadAttributes,
{
}

/// The next operation of a walk over one stream.
#[derive(Debug, PartialEq, Eq)]
pub enum WalkStep {
    /// Tell whether the copy was canceled.
    Poll,
    /// Seek a position in the source.
    SeekSource {
        /// The position.
        offset: u64,
    },
    /// Seek a position in the destination.
    SeekDestination {
        /// The position.
        offset: u64,
    },
    /// Move up to `bound` bytes.
    Transfer {
        /// No checkpoint boundary lies within.
        bound: u64,
    },
    /// Append a checkpoint.
    Checkpoint {
        /// The prefix that it attests.
        position: u64,
    },
    /// The whole stream was walked.
    Done,
    /// The copy fails.
    Failed {
        /// Why.
        error: OperationError,
    },
}

/// The next operation of a walk, as values.
#[verifier::ext_equal]
pub ghost enum WalkStepView {
    Poll,
    SeekSource { offset: u64 },
    SeekDestination { offset: u64 },
    Transfer { bound: u64 },
    Checkpoint { position: u64 },
    Done,
    Failed { error: ErrorView },
}

impl View for WalkStep {
    type V = WalkStepView;

    open spec fn view(&self) -> WalkStepView {
        match *self {
            WalkStep::Poll => WalkStepView::Poll,
            WalkStep::SeekSource { offset } => WalkStepView::SeekSource { offset },
            WalkStep::SeekDestination { offset } => WalkStepView::SeekDestination { offset },
            WalkStep::Transfer { bound } => WalkStepView::Transfer { bound },
            WalkStep::Checkpoint { position } => WalkStepView::Checkpoint { position },
            WalkStep::Done => WalkStepView::Done,
            WalkStep::Failed { error } => WalkStepView::Failed { error: error@ },
        }
    }
}

/// What an operation of a walk came to.
#[derive(Debug, PartialEq, Eq)]
pub enum WalkReply {
    /// Whether the copy was canceled.
    Polled(bool),
    /// Whether a position was sought.
    Sought(Result<(), IoError>),
    /// How many bytes were moved.
    Moved(Result<u64, OperationError>),
    /// What became of a checkpoint.
    Checkpointed(Result<CheckpointStatus, OperationError>),
}

/// What an operation of a walk came to, as values.
#[verifier::ext_equal]
pub ghost enum WalkReplyView {
    Polled(bool),
    Sought(Result<(), IoError>),
    Moved(Result<u64, ErrorView>),
    Checkpointed(Result<CheckpointStatus, ErrorView>),
}

impl View for WalkReply {
    type V = WalkReplyView;

    open spec fn view(&self) -> WalkReplyView {
        match *self {
            WalkReply::Polled(canceled) => WalkReplyView::Polled(canceled),
            WalkReply::Sought(result) => WalkReplyView::Sought(result),
            WalkReply::Moved(Ok(count)) => WalkReplyView::Moved(Ok(count)),
            WalkReply::Moved(Err(error)) => WalkReplyView::Moved(Err(error@)),
            WalkReply::Checkpointed(Ok(status)) => WalkReplyView::Checkpointed(Ok(status)),
            WalkReply::Checkpointed(Err(error)) => WalkReplyView::Checkpointed(Err(error@)),
        }
    }
}

/// Where a walk stands.
#[derive(Clone, Copy, Debug, PartialEq, Eq, Structural)]
pub enum WalkPhase {
    /// Before the next allocated range.
    PollRange,
    /// Before the source position of a range.
    SeekSource,
    /// Before the destination position of a range.
    SeekDestination,
    /// Before the next transfer.
    PollData,
    /// Moving up to `bound` bytes.
    Moving {
        /// The size of the transfer.
        bound: u64,
    },
    /// At a boundary in the hole before a range.
    GapCheckpoint,
    /// At a boundary inside a range.
    DataCheckpoint,
    /// At a boundary in the hole behind the last range.
    TailCheckpoint,
    /// Nothing is left to do.
    Ended,
}

/// A walk over one stream: over allocated ranges, with the holes between them
/// digested as zeros, or over one range that is the whole stream.
pub struct StreamWalk {
    relative: WidePath,
    ranges: Vec<(u64, u64)>,
    index: usize,
    size: u64,
    position: u64,
    start: u64,
    end: u64,
    cursor: CheckpointCursor,
    degraded: bool,
    seeks: bool,
    polls: bool,
    phase: WalkPhase,
    /// The running digest of everything in front of the position.
    pub hasher: Option<StreamDigest>,
}

/// A walk over one stream, as values.
#[verifier::ext_equal]
pub ghost struct WalkView {
    pub relative: Seq<u16>,
    pub ranges: Seq<(u64, u64)>,
    pub index: int,
    pub size: u64,
    pub position: u64,
    pub start: u64,
    pub end: u64,
    pub cursor: CheckpointCursor,
    pub degraded: bool,
    pub seeks: bool,
    pub polls: bool,
    pub phase: WalkPhase,
    pub digest: Option<Seq<u8>>,
}

impl View for StreamWalk {
    type V = WalkView;

    closed spec fn view(&self) -> WalkView {
        WalkView {
            relative: self.relative@,
            ranges: self.ranges@,
            index: self.index as int,
            size: self.size,
            position: self.position,
            start: self.start,
            end: self.end,
            cursor: self.cursor,
            degraded: self.degraded,
            seeks: self.seeks,
            polls: self.polls,
            phase: self.phase,
            digest: opt_digest(self.hasher),
        }
    }
}

/// That many zero bytes.
pub open spec fn zeros(count: int) -> Seq<u8> {
    Seq::new(count as nat, |i: int| 0u8)
}

/// The failure of an allocated range beyond every offset.
pub open spec fn range_overflow(rel: Seq<u16>) -> ErrorView {
    semantic_error_view(
        ErrorCategory::Internal,
        "query_sparse"@,
        rel,
        "allocated source range overflowed"@,
    )
}

/// The failure of an allocated range beyond the end of the file.
pub open spec fn range_outside(rel: Seq<u16>) -> ErrorView {
    semantic_error_view(
        ErrorCategory::Internal,
        "query_sparse"@,
        rel,
        "allocated source ranges were overlapping or out of bounds"@,
    )
}

impl WalkView {
    /// Whether the walk stands inside its stream and its boundaries lie ahead.
    pub open spec fn wf(self) -> bool {
        &&& 0 <= self.index <= self.ranges.len()
        &&& self.cursor.total_size == self.size
        &&& self.position <= self.size
        &&& match self.phase {
            WalkPhase::PollRange => self.index < self.ranges.len() && self.cursor.stands_at(
                self.position,
            ),
            WalkPhase::SeekSource => self.in_span() && self.cursor.stands_at(self.position),
            WalkPhase::SeekDestination => self.in_span() && self.cursor.stands_at(self.position),
            WalkPhase::PollData => self.in_range() && self.cursor.stands_at(self.position),
            WalkPhase::Moving { bound } => self.in_range() && self.cursor.stands_at(self.position)
                && 0 < bound && bound <= self.cursor.spec_bound(
                self.position,
                (self.end - self.position) as u64,
            ),
            WalkPhase::GapCheckpoint => self.index < self.ranges.len() && self.position
                <= self.start <= self.end <= self.size && self.due(),
            WalkPhase::DataCheckpoint => self.in_span() && self.due(),
            WalkPhase::TailCheckpoint => self.due(),
            WalkPhase::Ended => true,
        }
    }

    /// Whether the position lies in the current range.
    pub open spec fn in_range(self) -> bool {
        self.index < self.ranges.len() && self.position < self.end <= self.size
    }

    /// Whether the position lies in the current range or at its end.
    pub open spec fn in_span(self) -> bool {
        self.index < self.ranges.len() && self.position <= self.end <= self.size
    }

    /// Whether a checkpoint is due at the position.
    pub open spec fn due(self) -> bool {
        self.cursor.next == Some(self.position) && self.cursor.interval > 0
    }

    /// Whether a reply answers the last step.
    pub open spec fn answered_by(self, reply: WalkReplyView) -> bool {
        match self.phase {
            WalkPhase::PollRange => reply is Polled,
            WalkPhase::SeekSource => reply is Sought,
            WalkPhase::SeekDestination => reply is Sought,
            WalkPhase::PollData => reply is Polled,
            WalkPhase::Moving { bound } => reply matches WalkReplyView::Moved(moved) && (
            moved matches Ok(count) ==> 0 < count <= bound),
            WalkPhase::GapCheckpoint => reply is Checkpointed,
            WalkPhase::DataCheckpoint => reply is Checkpointed,
            WalkPhase::TailCheckpoint => reply is Checkpointed,
            WalkPhase::Ended => false,
        }
    }

    /// The walk in another phase.
    pub open spec fn at(self, phase: WalkPhase) -> WalkView {
        WalkView { phase, ..self }
    }

    /// The walk's end.
    pub open spec fn ending(self, step: WalkStepView) -> (WalkView, WalkStepView) {
        (self.at(WalkPhase::Ended), step)
    }

    /// The walk that gives up.
    pub open spec fn failing(self, error: ErrorView) -> (WalkView, WalkStepView) {
        self.ending(WalkStepView::Failed { error })
    }

    /// After a hole up to `limit` or to the boundary before it.
    pub open spec fn past_hole(self, limit: u64) -> WalkView {
        let count = self.cursor.spec_bound(self.position, (limit - self.position) as u64);
        WalkView {
            position: (self.position + count) as u64,
            digest: digested(self.digest, zeros(count as int)),
            ..self
        }
    }

    /// In the hole behind the last range.
    pub open spec fn in_tail(self) -> (WalkView, WalkStepView) {
        if self.position < self.size {
            let next = self.past_hole(self.size);
            if next.due() {
                (
                    next.at(WalkPhase::TailCheckpoint),
                    WalkStepView::Checkpoint { position: next.position },
                )
            } else {
                next.ending(WalkStepView::Done)
            }
        } else {
            self.ending(WalkStepView::Done)
        }
    }

    /// Before the range at the index, or behind the last one.
    pub open spec fn at_range(self) -> (WalkView, WalkStepView) {
        if self.index < self.ranges.len() {
            (self.at(WalkPhase::PollRange), WalkStepView::Poll)
        } else {
            self.in_tail()
        }
    }

    /// Behind the range at the index.
    pub open spec fn behind_range(self) -> (WalkView, WalkStepView) {
        (WalkView { index: self.index + 1, ..self }).at_range()
    }

    /// At the start of the current range.
    pub open spec fn at_start(self) -> (WalkView, WalkStepView) {
        if self.seeks {
            (
                self.at(WalkPhase::SeekSource),
                WalkStepView::SeekSource { offset: self.start },
            )
        } else {
            self.in_data()
        }
    }

    /// In the hole before the current range.
    pub open spec fn in_gap(self) -> (WalkView, WalkStepView) {
        if self.position < self.start {
            let next = self.past_hole(self.start);
            if next.due() {
                (
                    next.at(WalkPhase::GapCheckpoint),
                    WalkStepView::Checkpoint { position: next.position },
                )
            } else {
                next.at_start()
            }
        } else {
            self.at_start()
        }
    }

    /// The next transfer inside the current range.
    pub open spec fn moving(self) -> (WalkView, WalkStepView) {
        let bound = self.cursor.spec_bound(self.position, (self.end - self.position) as u64);
        (self.at(WalkPhase::Moving { bound }), WalkStepView::Transfer { bound })
    }

    /// Inside the current range, or at its end.
    pub open spec fn in_data(self) -> (WalkView, WalkStepView) {
        if self.position < self.end {
            if self.polls {
                (self.at(WalkPhase::PollData), WalkStepView::Poll)
            } else {
                self.moving()
            }
        } else {
            self.behind_range()
        }
    }

    /// The walk that enters the range at the index.
    pub open spec fn entering(self) -> (WalkView, WalkStepView) {
        let (offset, length) = self.ranges[self.index];
        if offset + length > u64::MAX {
            self.failing(range_overflow(self.relative))
        } else if offset + length > self.size {
            self.failing(range_outside(self.relative))
        } else if offset + length <= self.position {
            self.behind_range()
        } else {
            WalkView {
                start: if offset < self.position {
                    self.position
                } else {
                    offset
                },
                end: (offset + length) as u64,
                ..self
            }.in_gap()
        }
    }

    /// The walk after a checkpoint at its position.
    pub open spec fn checkpointed(self, status: CheckpointStatus) -> WalkView {
        WalkView {
            cursor: self.cursor.after(self.position, status),
            degraded: self.degraded || status is Disabled,
            ..self
        }
    }

    /// The walk after a reply, and what it does next.
    pub open spec fn after(self, reply: WalkReplyView) -> (WalkView, WalkStepView) {
        match (self.phase, reply) {
            (WalkPhase::PollRange, WalkReplyView::Polled(canceled)) => if canceled {
                self.failing(canceled_view(self.relative))
            } else {
                self.entering()
            },
            (WalkPhase::SeekSource, WalkReplyView::Sought(sought)) => match sought {
                Err(error) => self.failing(operation_view("seek_src"@, self.relative, error)),
                Ok(_) => (
                    self.at(WalkPhase::SeekDestination),
                    WalkStepView::SeekDestination { offset: self.start },
                ),
            },
            (WalkPhase::SeekDestination, WalkReplyView::Sought(sought)) => match sought {
                Err(error) => self.failing(operation_view("seek_dst"@, self.relative, error)),
                Ok(_) => self.in_data(),
            },
            (WalkPhase::PollData, WalkReplyView::Polled(canceled)) => if canceled {
                self.failing(canceled_view(self.relative))
            } else {
                self.moving()
            },
            (WalkPhase::Moving { .. }, WalkReplyView::Moved(moved)) => match moved {
                Err(error) => self.failing(error),
                Ok(count) => {
                    let next = WalkView { position: (self.position + count) as u64, ..self };
                    if next.due() {
                        (
                            next.at(WalkPhase::DataCheckpoint),
                            WalkStepView::Checkpoint { position: next.position },
                        )
                    } else {
                        next.in_data()
                    }
                },
            },
            (WalkPhase::GapCheckpoint, WalkReplyView::Checkpointed(status)) => match status {
                Err(error) => self.failing(error),
                Ok(status) => self.checkpointed(status).in_gap(),
            },
            (WalkPhase::DataCheckpoint, WalkReplyView::Checkpointed(status)) => match status {
                Err(error) => self.failing(error),
                Ok(status) => self.checkpointed(status).in_data(),
            },
            (WalkPhase::TailCheckpoint, WalkReplyView::Checkpointed(status)) => match status {
                Err(error) => self.failing(error),
                Ok(status) => self.checkpointed(status).in_tail(),
            },
            _ => self.ending(WalkStepView::Done),
        }
    }
}

/// A walk over the allocated ranges of a sparse file, and its first operation.
pub open spec fn ranges_walk(
    relative: Seq<u16>,
    ranges: Seq<(u64, u64)>,
    size: u64,
    position: u64,
    cursor: CheckpointCursor,
    digest: Option<Seq<u8>>,
) -> (WalkView, WalkStepView) {
    (WalkView {
        relative,
        ranges,
        index: 0,
        size,
        position,
        start: 0,
        end: 0,
        cursor,
        degraded: false,
        seeks: true,
        polls: true,
        phase: WalkPhase::PollRange,
        digest,
    }).at_range()
}

/// A walk over a whole stream from a position on, and its first operation.
pub open spec fn stream_walk(
    relative: Seq<u16>,
    size: u64,
    position: u64,
    polls: bool,
    cursor: CheckpointCursor,
    digest: Option<Seq<u8>>,
) -> (WalkView, WalkStepView) {
    (WalkView {
        relative,
        ranges: seq![(0u64, size)],
        index: 0,
        size,
        position,
        start: position,
        end: size,
        cursor,
        degraded: false,
        seeks: false,
        polls,
        phase: WalkPhase::PollRange,
        digest,
    }).in_data()
}

impl StreamWalk {
    fn end_with(&mut self, step: WalkStep) -> (next: WalkStep)
        ensures
            old(self)@.ending(step@) == (final(self)@, next@),
    {
        self.phase = WalkPhase::Ended;
        step
    }

    fn fail(&mut self, error: OperationError) -> (next: WalkStep)
        ensures
            old(self)@.failing(error@) == (final(self)@, next@),
    {
        self.end_with(WalkStep::Failed { error })
    }

    fn pass_hole(&mut self, limit: u64)
        requires
            old(self)@.position <= limit <= old(self)@.size,
            old(self)@.cursor.stands_at(old(self)@.position),
            old(self)@.cursor.total_size == old(self)@.size,
        ensures
            final(self)@ == old(self)@.past_hole(limit),
            final(self)@.position <= limit,
            !final(self)@.due() ==> final(self)@.cursor.stands_at(final(self)@.position),
            !final(self)@.due() ==> final(self)@.position == limit,
    {
        let ghost before = self@;
        let count: u64 = self.cursor.bound(self.position, limit - self.position);
        if let Some(mut digest) = self.hasher.take() {
            digest.update_zeros(count);
            self.hasher = Some(digest);
        }
        self.position = self.position + count;
        assert(zeros(count as int) =~= Seq::new(count as nat, |i: int| 0u8));
        assert(self@ =~= before.past_hole(limit));
    }

    fn tail(&mut self) -> (next: WalkStep)
        requires
            old(self)@.position <= old(self)@.size,
            old(self)@.cursor.stands_at(old(self)@.position),
            old(self)@.cursor.total_size == old(self)@.size,
            0 <= old(self)@.index <= old(self)@.ranges.len(),
        ensures
            old(self)@.in_tail() == (final(self)@, next@),
            final(self)@.wf(),
    {
        if self.position < self.size {
            let size: u64 = self.size;
            self.pass_hole(size);
            if self.cursor.is_due(self.position) {
                self.phase = WalkPhase::TailCheckpoint;
                WalkStep::Checkpoint { position: self.position }
            } else {
                self.end_with(WalkStep::Done)
            }
        } else {
            self.end_with(WalkStep::Done)
        }
    }

    fn next_range(&mut self) -> (next: WalkStep)
        requires
            old(self)@.position <= old(self)@.size,
            old(self)@.cursor.stands_at(old(self)@.position),
            old(self)@.cursor.total_size == old(self)@.size,
            0 <= old(self)@.index <= old(self)@.ranges.len(),
        ensures
            old(self)@.at_range() == (final(self)@, next@),
            final(self)@.wf(),
    {
        if self.index < self.ranges.len() {
            self.phase = WalkPhase::PollRange;
            WalkStep::Poll
        } else {
            self.tail()
        }
    }

    fn leave_range(&mut self) -> (next: WalkStep)
        requires
            old(self)@.position <= old(self)@.size,
            old(self)@.cursor.stands_at(old(self)@.position),
            old(self)@.cursor.total_size == old(self)@.size,
            0 <= old(self)@.index < old(self)@.ranges.len(),
        ensures
            old(self)@.behind_range() == (final(self)@, next@),
            final(self)@.wf(),
    {
        assert(self.index < self.ranges.len());
        self.index = self.index + 1;
        self.next_range()
    }

    fn transfer(&mut self) -> (next: WalkStep)
        requires
            old(self)@.in_range(),
            0 <= old(self)@.index,
            old(self)@.cursor.stands_at(old(self)@.position),
            old(self)@.cursor.total_size == old(self)@.size,
        ensures
            old(self)@.moving() == (final(self)@, next@),
            final(self)@.wf(),
    {
        let bound: u64 = self.cursor.bound(self.position, self.end - self.position);
        self.phase = WalkPhase::Moving { bound };
        WalkStep::Transfer { bound }
    }

    fn go_on(&mut self) -> (next: WalkStep)
        requires
            0 <= old(self)@.index < old(self)@.ranges.len(),
            old(self)@.position <= old(self)@.end <= old(self)@.size,
            old(self)@.cursor.stands_at(old(self)@.position),
            old(self)@.cursor.total_size == old(self)@.size,
        ensures
            old(self)@.in_data() == (final(self)@, next@),
            final(self)@.wf(),
    {
        if self.position < self.end {
            if self.polls {
                self.phase = WalkPhase::PollData;
                WalkStep::Poll
            } else {
                self.transfer()
            }
        } else {
            self.leave_range()
        }
    }

    fn begin_range(&mut self) -> (next: WalkStep)
        requires
            old(self)@.in_span(),
            0 <= old(self)@.index,
            old(self)@.cursor.stands_at(old(self)@.position),
            old(self)@.cursor.total_size == old(self)@.size,
        ensures
            old(self)@.at_start() == (final(self)@, next@),
            final(self)@.wf(),
    {
        if self.seeks {
            self.phase = WalkPhase::SeekSource;
            WalkStep::SeekSource { offset: self.start }
        } else {
            self.go_on()
        }
    }

    fn gap(&mut self) -> (next: WalkStep)
        requires
            0 <= old(self)@.index < old(self)@.ranges.len(),
            old(self)@.position <= old(self)@.start <= old(self)@.end <= old(self)@.size,
            old(self)@.cursor.stands_at(old(self)@.position),
            old(self)@.cursor.total_size == old(self)@.size,
        ensures
            old(self)@.in_gap() == (final(self)@, next@),
            final(self)@.wf(),
    {
        if self.position < self.start {
            let start: u64 = self.start;
            self.pass_hole(start);
            if self.cursor.is_due(self.position) {
                self.phase = WalkPhase::GapCheckpoint;
                WalkStep::Checkpoint { position: self.position }
            } else {
                self.begin_range()
            }
        } else {
            self.begin_range()
        }
    }

    fn enter_range(&mut self) -> (next: WalkStep)
        requires
            old(self)@.wf(),
            old(self)@.phase is PollRange,
        ensures
            old(self)@.entering() == (final(self)@, next@),
            final(self)@.wf(),
    {
        let (offset, length): (u64, u64) = self.ranges[self.index];
        let end = match offset.checked_add(length) {
            Some(end) => end,
            None => {
                let error = OperationError::semantic(
                    ErrorCategory::Internal,
                    "query_sparse",
                    self.relative.copied(),
                    "allocated source range overflowed".to_owned(),
                );
                return self.fail(error);
            },
        };
        if end > self.size {
            let error = OperationError::semantic(
                ErrorCategory::Internal,
                "query_sparse",
                self.relative.copied(),
                "allocated source ranges were overlapping or out of bounds".to_owned(),
            );
            return self.fail(error);
        }
        if end <= self.position {
            return self.leave_range();
        }
        self.start = if offset < self.position {
            self.position
        } else {
            offset
        };
        self.end = end;
        self.gap()
    }

    fn note_checkpoint(&mut self, status: CheckpointStatus)
        requires
            old(self)@.due(),
            old(self)@.position <= old(self)@.size,
            old(self)@.cursor.total_size == old(self)@.size,
        ensures
            final(self)@ == old(self)@.checkpointed(status),
            final(self)@.cursor.stands_at(final(self)@.position),
    {
        let ghost before = self@;
        self.cursor.advance(self.position, status);
        if status == CheckpointStatus::Disabled {
            self.degraded = true;
        }
        assert(self@ =~= before.checkpointed(status));
    }

    /// Starts a walk over the allocated ranges of a sparse file.
    pub fn over_ranges(
        relative: &WidePath,
        ranges: Vec<(u64, u64)>,
        size: u64,
        position: u64,
        cursor: CheckpointCursor,
        hasher: Option<StreamDigest>,
    ) -> (started: (StreamWalk, WalkStep))
        requires
            position <= size,
            cursor.stands_at(position),
            cursor.total_size == size,
        ensures
            started.0@.wf(),
            (started.0@, started.1@) == ranges_walk(
                relative@,
                ranges@,
                size,
                position,
                cursor,
                opt_digest(hasher),
            ),
    {
        let mut walk = StreamWalk {
            relative: relative.copied(),
            ranges,
            index: 0,
            size,
            position,
            start: 0,
            end: 0,
            cursor,
            degraded: false,
            seeks: true,
            polls: true,
            phase: WalkPhase::PollRange,
            hasher,
        };
        let step = walk.next_range();
        (walk, step)
    }

    /// Starts a walk over a whole stream from a position on. The transfers of
    /// the unnamed stream watch for cancellation themselves; those of a named
    /// stream are also preceded by a look.
    pub fn over_stream(
        relative: &WidePath,
        size: u64,
        position: u64,
        polls: bool,
        cursor: CheckpointCursor,
        hasher: Option<StreamDigest>,
    ) -> (started: (StreamWalk, WalkStep))
        requires
            position <= size,
            cursor.stands_at(position),
            cursor.total_size == size,
        ensures
            started.0@.wf(),
            (started.0@, started.1@) == stream_walk(
                relative@,
                size,
                position,
                polls,
                cursor,
                opt_digest(hasher),
            ),
    {
        let mut ranges: Vec<(u64, u64)> = Vec::new();
        ranges.push((0, size));
        assert(ranges@ =~= seq![(0u64, size)]);
        let mut walk = StreamWalk {
            relative: relative.copied(),
            ranges,
            index: 0,
            size,
            position,
            start: position,
            end: size,
            cursor,
            degraded: false,
            seeks: false,
            polls,
            phase: WalkPhase::PollRange,
            hasher,
        };
        let step = walk.go_on();
        (walk, step)
    }

    /// Decides the next operation of a walk. Holes are digested as zeros on the
    /// way; a checkpoint is appended only at a boundary that the walk stands
    /// on, after the transfer that reached it.
    pub fn advance(&mut self, reply: WalkReply) -> (next: WalkStep)
        requires
            old(self)@.wf(),
            old(self)@.answered_by(reply@),
        ensures
            old(self)@.after(reply@) == (final(self)@, next@),
            final(self)@.wf(),
    {
        match (self.phase, reply) {
            (WalkPhase::PollRange, WalkReply::Polled(canceled)) => {
                if canceled {
                    let error = canceled_error(&self.relative);
                    self.fail(error)
                } else {
                    self.enter_range()
                }
            },
            (WalkPhase::SeekSource, WalkReply::Sought(sought)) => match sought {
                Err(error) => {
                    let error = operation_error("seek_src", &self.relative, &error);
                    self.fail(error)
                },
                Ok(_) => {
                    self.phase = WalkPhase::SeekDestination;
                    WalkStep::SeekDestination { offset: self.start }
                },
            },
            (WalkPhase::SeekDestination, WalkReply::Sought(sought)) => match sought {
                Err(error) => {
                    let error = operation_error("seek_dst", &self.relative, &error);
                    self.fail(error)
                },
                Ok(_) => self.go_on(),
            },
            (WalkPhase::PollData, WalkReply::Polled(canceled)) => {
                if canceled {
                    let error = canceled_error(&self.relative);
                    self.fail(error)
                } else {
                    self.transfer()
                }
            },
            (WalkPhase::Moving { .. }, WalkReply::Moved(moved)) => match moved {
                Err(error) => self.fail(error),
                Ok(count) => {
                    self.position = self.position + count;
                    if self.cursor.is_due(self.position) {
                        self.phase = WalkPhase::DataCheckpoint;
                        WalkStep::Checkpoint { position: self.position }
                    } else {
                        self.go_on()
                    }
                },
            },
            (WalkPhase::GapCheckpoint, WalkReply::Checkpointed(status)) => match status {
                Err(error) => self.fail(error),
                Ok(status) => {
                    self.note_checkpoint(status);
                    self.gap()
                },
            },
            (WalkPhase::DataCheckpoint, WalkReply::Checkpointed(status)) => match status {
                Err(error) => self.fail(error),
                Ok(status) => {
                    self.note_checkpoint(status);
                    self.go_on()
                },
            },
            (WalkPhase::TailCheckpoint, WalkReply::Checkpointed(status)) => match status {
                Err(error) => self.fail(error),
                Ok(status) => {
                    self.note_checkpoint(status);
                    self.tail()
                },
            },
            _ => self.end_with(WalkStep::Done),
        }
    }

    /// Where the walk stands.
    pub fn position(&self) -> (position: u64)
        ensures
            position == self@.position,
    {
        self.position
    }

    /// The checkpoint bookkeeping.
    pub fn cursor(&self) -> (cursor: CheckpointCursor)
        ensures
            cursor == self@.cursor,
    {
        self.cursor
    }

    /// The digest of everything that was walked.
    pub fn into_digest(self) -> (hasher: Option<StreamDigest>)
        ensures
            opt_digest(hasher) == self@.digest,
    {
        self.hasher
    }

    /// Whether checkpointing was given up.
    pub fn is_degraded(&self) -> (degraded: bool)
        ensures
            degraded == self@.degraded,
    {
        self.degraded
    }
}

/// Whether the running digest, where there is one, is as long as the walk is
/// far.
pub open spec fn digest_in_step(walk: WalkView) -> bool {
    walk.digest matches Some(absorbed) ==> absorbed.len() == walk.position
}

/// The walk as a transfer leaves it: the bytes that it moved are digested.
pub open spec fn moved_digest(walk: WalkView, moved: Seq<u8>) -> WalkView {
    WalkView { digest: digested(walk.digest, moved), ..walk }
}

spec fn steady(walk: WalkView) -> bool {
    &&& walk.position <= walk.size
    &&& walk.cursor.total_size == walk.size
    &&& walk.cursor.stands_at(walk.position)
    &&& digest_in_step(walk)
}

proof fn lemma_hole(walk: WalkView, limit: u64)
    requires
        steady(walk),
        walk.position <= limit <= walk.size,
    ensures
        digest_in_step(walk.past_hole(limit)),
        !walk.past_hole(limit).due() ==> steady(walk.past_hole(limit)),
{
    let count = walk.cursor.spec_bound(walk.position, (limit - walk.position) as u64);
    if let Some(absorbed) = walk.digest {
        assert((absorbed + zeros(count as int)).len() == absorbed.len() + count);
    }
}

proof fn lemma_tail(walk: WalkView)
    requires
        steady(walk),
    ensures
        digest_in_step(walk.in_tail().0),
        walk.in_tail().1 matches WalkStepView::Checkpoint { position } ==> position
            == walk.in_tail().0.position,
{
    if walk.position < walk.size {
        lemma_hole(walk, walk.size);
    }
}

proof fn lemma_data(walk: WalkView)
    requires
        steady(walk),
    ensures
        digest_in_step(walk.in_data().0),
        digest_in_step(walk.behind_range().0),
        walk.in_data().1 matches WalkStepView::Checkpoint { position } ==> position
            == walk.in_data().0.position,
        walk.behind_range().1 matches WalkStepView::Checkpoint { position } ==> position
            == walk.behind_range().0.position,
{
    lemma_tail(WalkView { index: walk.index + 1, ..walk });
}

proof fn lemma_gap(walk: WalkView)
    requires
        steady(walk),
        walk.start <= walk.size,
    ensures
        digest_in_step(walk.in_gap().0),
        walk.in_gap().1 matches WalkStepView::Checkpoint { position } ==> position
            == walk.in_gap().0.position,
{
    if walk.position < walk.start {
        lemma_hole(walk, walk.start);
        if !walk.past_hole(walk.start).due() {
            lemma_data(walk.past_hole(walk.start));
        }
    } else {
        lemma_data(walk);
    }
}

/// The digest keeps in step with the position: transfers add the bytes that
/// they move, holes add zeros, and checkpoints add nothing. So the digest at a
/// checkpoint is that of exactly the prefix that it attests.
pub proof fn digest_keeps_in_step(walk: WalkView, reply: WalkReplyView, moved: Seq<u8>)
    requires
        walk.wf(),
        walk.answered_by(reply),
        digest_in_step(walk),
        reply matches WalkReplyView::Moved(Ok(count)) ==> moved.len() == count,
        !(reply matches WalkReplyView::Moved(Ok(_))) ==> moved.len() == 0,
    ensures
        !(moved_digest(walk, moved).after(reply).1 is Failed) ==> digest_in_step(
            moved_digest(walk, moved).after(reply).0,
        ),
        moved_digest(walk, moved).after(reply).1 matches WalkStepView::Checkpoint { position }
            ==> position == moved_digest(walk, moved).after(reply).0.position,
{
    let fed = moved_digest(walk, moved);
    if let Some(absorbed) = walk.digest {
        assert((absorbed + moved).len() == absorbed.len() + moved.len());
    }
    match (walk.phase, reply) {
        (WalkPhase::PollRange, WalkReplyView::Polled(false)) => {
            let (offset, length) = fed.ranges[fed.index];
            if offset + length <= fed.size {
                lemma_data(fed);
                if offset + length > fed.position {
                    lemma_gap(
                        WalkView {
                            start: if offset < fed.position {
                                fed.position
                            } else {
                                offset
                            },
                            end: (offset + length) as u64,
                            ..fed
                        },
                    );
                }
            }
        },
        (WalkPhase::SeekDestination, _) => {
            lemma_data(fed);
        },
        (WalkPhase::Moving { .. }, WalkReplyView::Moved(Ok(count))) => {
            let next = WalkView { position: (fed.position + count) as u64, ..fed };
            assert(digest_in_step(next));
            if !next.due() {
                lemma_data(next);
            }
        },
        (_, WalkReplyView::Checkpointed(Ok(status))) => {
            if walk.position < walk.size {
                boundary_lies_ahead(walk.position, walk.cursor.interval, walk.size);
            }
            let next = fed.checkpointed(status);
            assert(steady(next));
            lemma_data(next);
            lemma_tail(next);
            if walk.phase is GapCheckpoint {
                lemma_gap(next);
            }
        },
        _ => {},
    }
}

/// A walk over a whole stream ends at its end; a transfer never leaves its
/// range and never crosses a checkpoint boundary.
#[verifier::spinoff_prover]
#[verifier::rlimit(60)]
pub proof fn walk_covers_the_stream(walk: WalkView, reply: WalkReplyView)
    requires
        walk.wf(),
        walk.answered_by(reply),
    ensures
        ({
            let (next, step) = walk.after(reply);
            &&& next.position >= walk.position
            &&& step is Done ==> next.position == walk.size
            &&& step matches WalkStepView::Transfer { bound } ==> {
                &&& bound > 0
                &&& next.position + bound <= next.end <= walk.size
                &&& next.cursor.next matches Some(boundary) ==> next.position + bound <= boundary
            }
        }),
{
    if walk.due() && walk.position < walk.size {
        boundary_lies_ahead(walk.position, walk.cursor.interval, walk.size);
    }
}

/// The bytes of a file after others were written over them from `at` on.
pub open spec fn written_over(bytes: Seq<u8>, at: int, over: Seq<u8>) -> Seq<u8> {
    Seq::new(
        bytes.len(),
        |i: int|
            if at <= i < at + over.len() {
                over[i - at]
            } else {
                bytes[i]
            },
    )
}

/// A copy seen from outside: the walk and its last step, where the source and
/// the destination stand, and what the destination holds. The files do just
/// what they are told.
#[verifier::ext_equal]
pub ghost struct CopyScene {
    pub walk: WalkView,
    pub step: WalkStepView,
    pub source_at: int,
    pub destination_at: int,
    pub written: Seq<u8>,
}

impl CopyScene {
    /// What the step at hand moves from the source.
    pub open spec fn moved(self, source: Seq<u8>, reply: WalkReplyView) -> Seq<u8> {
        match (self.step, reply) {
            (WalkStepView::Transfer { .. }, WalkReplyView::Moved(Ok(count))) => source.subrange(
                self.source_at,
                self.source_at + count,
            ),
            _ => Seq::empty(),
        }
    }

    /// After the step at hand was carried out with this result: a seek moves
    /// one file, and a transfer reads from the source where that stands and
    /// writes to the destination where that stands.
    pub open spec fn after(self, source: Seq<u8>, reply: WalkReplyView) -> CopyScene {
        let moved = self.moved(source, reply);
        let (walk, step) = moved_digest(self.walk, moved).after(reply);
        CopyScene {
            walk,
            step,
            source_at: match (self.step, reply) {
                (WalkStepView::SeekSource { offset }, WalkReplyView::Sought(Ok(_))) =>
                    offset as int,
                _ => self.source_at + moved.len(),
            },
            destination_at: match (self.step, reply) {
                (WalkStepView::SeekDestination { offset }, WalkReplyView::Sought(Ok(_))) =>
                    offset as int,
                _ => self.destination_at + moved.len(),
            },
            written: written_over(self.written, self.destination_at, moved),
        }
    }

    /// After the first `count` replies.
    pub open spec fn played(
        self,
        source: Seq<u8>,
        replies: Seq<WalkReplyView>,
        count: int,
    ) -> CopyScene
        decreases count,
    {
        if count <= 0 {
            self
        } else {
            self.played(source, replies, count - 1).after(source, replies[count - 1])
        }
    }

    /// Whether each of the replies answers the step before it.
    pub open spec fn answered_by(self, source: Seq<u8>, replies: Seq<WalkReplyView>) -> bool {
        forall|k: int|
            #![trigger self.played(source, replies, k)]
            0 <= k < replies.len() ==> self.played(source, replies, k).walk.answered_by(replies[k])
    }
}

/// Whether an offset lies in an allocated range.
pub open spec fn is_allocated(ranges: Seq<(u64, u64)>, at: int) -> bool {
    exists|k: int|
        0 <= k < ranges.len() && (#[trigger] ranges[k]).0 <= at < ranges[k].0 + ranges[k].1
}

/// Whether ranges come in order and apart.
pub open spec fn in_order_apart(ranges: Seq<(u64, u64)>) -> bool {
    forall|j: int, k: int|
        0 <= j < k < ranges.len() ==> (#[trigger] ranges[j]).0 + ranges[j].1 <= (
        #[trigger] ranges[k]).0
}

/// Whether a file reads as zeros outside its allocated ranges.
pub open spec fn is_zero_outside(source: Seq<u8>, ranges: Seq<(u64, u64)>) -> bool {
    forall|at: int|
        #![trigger source[at]]
        0 <= at < source.len() && !is_allocated(ranges, at) ==> source[at] == 0
}

/// Whether a destination holds the source up to a position and zeros behind it.
pub open spec fn holds_prefix(written: Seq<u8>, source: Seq<u8>, position: int) -> bool {
    &&& written.len() == source.len()
    &&& forall|at: int|
        #![trigger written[at]]
        0 <= at < written.len() ==> written[at] == if at < position {
            source[at]
        } else {
            0
        }
}

/// What holds of a walk and a destination wherever the walk stands.
spec fn keeps_content(walk: WalkView, source: Seq<u8>, written: Seq<u8>) -> bool {
    &&& source.len() == walk.size
    &&& walk.position <= walk.size
    &&& walk.cursor.total_size == walk.size
    &&& 0 <= walk.index <= walk.ranges.len()
    &&& in_order_apart(walk.ranges)
    &&& is_zero_outside(source, walk.ranges)
    &&& holds_prefix(written, source, walk.position as int)
    &&& walk.digest matches Some(absorbed) ==> absorbed == source.take(walk.position as int)
    &&& forall|j: int|
        0 <= j < walk.index ==> (#[trigger] walk.ranges[j]).0 + walk.ranges[j].1 <= walk.position
}

/// Whether the position lies in the range at the index, or at its end.
spec fn in_current(walk: WalkView) -> bool {
    &&& walk.index < walk.ranges.len()
    &&& walk.end == walk.ranges[walk.index].0 + walk.ranges[walk.index].1
    &&& walk.ranges[walk.index].0 <= walk.position <= walk.end <= walk.size
}

/// What holds of a copy between two steps.
spec fn is_faithful(scene: CopyScene, source: Seq<u8>) -> bool {
    let walk = scene.walk;
    let there = scene.source_at == walk.position && scene.destination_at == walk.position;
    &&& walk.wf()
    &&& keeps_content(walk, source, scene.written)
    &&& match walk.phase {
        WalkPhase::PollRange => walk.seeks,
        WalkPhase::SeekSource => walk.seeks && walk.start == walk.position && in_current(walk)
            && scene.step == (
        WalkStepView::SeekSource { offset: walk.position }),
        WalkPhase::SeekDestination => walk.seeks && in_current(walk) && scene.source_at
            == walk.position && scene.step == (WalkStepView::SeekDestination {
            offset: walk.position,
        }),
        WalkPhase::PollData => in_current(walk) && there,
        WalkPhase::Moving { bound } => in_current(walk) && there && scene.step == (
        WalkStepView::Transfer { bound }),
        WalkPhase::GapCheckpoint => walk.seeks && walk.start == walk.ranges[walk.index].0
            && walk.end == walk.ranges[walk.index].0 + walk.ranges[walk.index].1,
        WalkPhase::DataCheckpoint => in_current(walk) && there,
        WalkPhase::TailCheckpoint => walk.index == walk.ranges.len(),
        WalkPhase::Ended => true,
    }
    &&& scene.step is Done ==> walk.position == walk.size
    &&& walk.phase is Ended <==> scene.step is Done || scene.step is Failed
}

spec fn scene_of(
    started: (WalkView, WalkStepView),
    source_at: int,
    destination_at: int,
    written: Seq<u8>,
) -> CopyScene {
    CopyScene { walk: started.0, step: started.1, source_at, destination_at, written }
}

proof fn lemma_content_hole(walk: WalkView, source: Seq<u8>, written: Seq<u8>, limit: u64)
    requires
        keeps_content(walk, source, written),
        walk.cursor.stands_at(walk.position),
        walk.position <= limit <= walk.size,
        forall|at: int| walk.position <= at < limit ==> !#[trigger] is_allocated(walk.ranges, at),
    ensures
        keeps_content(walk.past_hole(limit), source, written),
        walk.past_hole(limit).position <= limit,
        !walk.past_hole(limit).due() ==> walk.past_hole(limit).position == limit
            && walk.past_hole(limit).cursor.stands_at(limit),
{
    let next = walk.past_hole(limit);
    let count = walk.cursor.spec_bound(walk.position, (limit - walk.position) as u64);
    assert forall|at: int| walk.position <= at < next.position implies source[at] == 0 by {
        assert(!is_allocated(walk.ranges, at));
    }
    if let Some(absorbed) = walk.digest {
        assert(absorbed + zeros(count as int) =~= source.take(next.position as int));
    }
}

proof fn lemma_content_tail(
    walk: WalkView,
    source: Seq<u8>,
    written: Seq<u8>,
    source_at: int,
    destination_at: int,
)
    requires
        keeps_content(walk, source, written),
        walk.cursor.stands_at(walk.position),
        walk.index == walk.ranges.len(),
    ensures
        is_faithful(scene_of(walk.in_tail(), source_at, destination_at, written), source),
{
    if walk.position < walk.size {
        assert forall|at: int| walk.position <= at < walk.size implies !#[trigger] is_allocated(
            walk.ranges,
            at,
        ) by {
            if is_allocated(walk.ranges, at) {
                let k = choose|k: int|
                    0 <= k < walk.ranges.len() && (#[trigger] walk.ranges[k]).0 <= at
                        < walk.ranges[k].0 + walk.ranges[k].1;
                assert(walk.ranges[k].0 + walk.ranges[k].1 <= walk.position);
            }
        }
        lemma_content_hole(walk, source, written, walk.size);
    }
}

proof fn lemma_content_range(
    walk: WalkView,
    source: Seq<u8>,
    written: Seq<u8>,
    source_at: int,
    destination_at: int,
)
    requires
        keeps_content(walk, source, written),
        walk.cursor.stands_at(walk.position),
        walk.seeks || walk.index == walk.ranges.len(),
    ensures
        is_faithful(scene_of(walk.at_range(), source_at, destination_at, written), source),
{
    if walk.index == walk.ranges.len() {
        lemma_content_tail(walk, source, written, source_at, destination_at);
    }
}

proof fn lemma_content_data(
    walk: WalkView,
    source: Seq<u8>,
    written: Seq<u8>,
    source_at: int,
    destination_at: int,
)
    requires
        keeps_content(walk, source, written),
        walk.cursor.stands_at(walk.position),
        in_current(walk),
        walk.seeks || walk.ranges.len() == 1,
        source_at == walk.position,
        destination_at == walk.position,
    ensures
        is_faithful(scene_of(walk.in_data(), source_at, destination_at, written), source),
{
    if walk.position >= walk.end {
        let behind = WalkView { index: walk.index + 1, ..walk };
        lemma_content_range(behind, source, written, source_at, destination_at);
    }
}

proof fn lemma_content_gap(
    walk: WalkView,
    source: Seq<u8>,
    written: Seq<u8>,
    source_at: int,
    destination_at: int,
)
    requires
        keeps_content(walk, source, written),
        walk.cursor.stands_at(walk.position),
        walk.seeks,
        walk.index < walk.ranges.len(),
        walk.end == walk.ranges[walk.index].0 + walk.ranges[walk.index].1,
        walk.position <= walk.start <= walk.end <= walk.size,
        walk.start == walk.ranges[walk.index].0 || walk.start == walk.position
            && walk.ranges[walk.index].0 <= walk.position,
    ensures
        is_faithful(scene_of(walk.in_gap(), source_at, destination_at, written), source),
{
    if walk.position < walk.start {
        assert forall|at: int| walk.position <= at < walk.start implies !#[trigger] is_allocated(
            walk.ranges,
            at,
        ) by {
            if is_allocated(walk.ranges, at) {
                let k = choose|k: int|
                    0 <= k < walk.ranges.len() && (#[trigger] walk.ranges[k]).0 <= at
                        < walk.ranges[k].0 + walk.ranges[k].1;
                if k < walk.index {
                    assert(walk.ranges[k].0 + walk.ranges[k].1 <= walk.position);
                } else if k > walk.index {
                    assert(walk.ranges[walk.index].0 + walk.ranges[walk.index].1
                        <= walk.ranges[k].0);
                }
            }
        }
        lemma_content_hole(walk, source, written, walk.start);
    }
}

#[verifier::spinoff_prover]
#[verifier::rlimit(80)]
proof fn lemma_faithful(scene: CopyScene, source: Seq<u8>, reply: WalkReplyView)
    requires
        is_faithful(scene, source),
        scene.walk.answered_by(reply),
        scene.walk.seeks || scene.walk.ranges.len() == 1,
    ensures
        is_faithful(scene.after(source, reply), source),
        scene.after(source, reply).walk.seeks == scene.walk.seeks,
        scene.after(source, reply).walk.ranges == scene.walk.ranges,
        scene.after(source, reply).walk.size == scene.walk.size,
{
    let walk = scene.walk;
    let moved = scene.moved(source, reply);
    let fed = moved_digest(walk, moved);
    let next = scene.after(source, reply);
    if !(reply matches WalkReplyView::Moved(Ok(_))) {
        assert(moved =~= Seq::empty());
        if let Some(absorbed) = walk.digest {
            assert(absorbed + moved =~= absorbed);
        }
        assert(fed =~= walk);
        assert(next.written =~= scene.written);
    }
    match (walk.phase, reply) {
        (WalkPhase::PollRange, WalkReplyView::Polled(false)) => {
            let (offset, length) = walk.ranges[walk.index];
            if offset + length <= walk.size {
                if offset + length <= walk.position {
                    let behind = WalkView { index: walk.index + 1, ..walk };
                    lemma_content_range(
                        behind,
                        source,
                        scene.written,
                        scene.source_at,
                        scene.destination_at,
                    );
                } else {
                    lemma_content_gap(
                        WalkView {
                            start: if offset < walk.position {
                                walk.position
                            } else {
                                offset
                            },
                            end: (offset + length) as u64,
                            ..walk
                        },
                        source,
                        scene.written,
                        scene.source_at,
                        scene.destination_at,
                    );
                }
            }
        },
        (WalkPhase::SeekDestination, WalkReplyView::Sought(Ok(_))) => {
            lemma_content_data(
                walk,
                source,
                scene.written,
                next.source_at,
                next.destination_at,
            );
        },
        (WalkPhase::Moving { bound }, WalkReplyView::Moved(Ok(count))) => {
            let on = WalkView { position: (walk.position + count) as u64, ..fed };
            assert(moved == source.subrange(walk.position as int, walk.position + count));
            if let Some(absorbed) = walk.digest {
                assert(absorbed + moved =~= source.take(on.position as int));
            }
            assert(holds_prefix(next.written, source, on.position as int));
            assert(keeps_content(on, source, next.written));
            if !on.due() {
                lemma_content_data(
                    on,
                    source,
                    next.written,
                    next.source_at,
                    next.destination_at,
                );
            }
        },
        (_, WalkReplyView::Checkpointed(Ok(status))) => {
            if walk.position < walk.size {
                boundary_lies_ahead(walk.position, walk.cursor.interval, walk.size);
            }
            let on = walk.checkpointed(status);
            assert(keeps_content(on, source, scene.written));
            if walk.phase is GapCheckpoint {
                lemma_content_gap(
                    on,
                    source,
                    scene.written,
                    scene.source_at,
                    scene.destination_at,
                );
            } else if walk.phase is DataCheckpoint {
                lemma_content_data(
                    on,
                    source,
                    scene.written,
                    scene.source_at,
                    scene.destination_at,
                );
            } else if walk.phase is TailCheckpoint {
                lemma_content_tail(
                    on,
                    source,
                    scene.written,
                    scene.source_at,
                    scene.destination_at,
                );
            }
        },
        _ => {},
    }
}

proof fn lemma_played(
    scene: CopyScene,
    source: Seq<u8>,
    replies: Seq<WalkReplyView>,
    count: int,
)
    requires
        is_faithful(scene, source),
        scene.walk.seeks || scene.walk.ranges.len() == 1,
        scene.answered_by(source, replies),
        0 <= count <= replies.len(),
    ensures
        is_faithful(scene.played(source, replies, count), source),
        scene.played(source, replies, count).walk.seeks == scene.walk.seeks,
        scene.played(source, replies, count).walk.ranges == scene.walk.ranges,
        scene.played(source, replies, count).walk.size == scene.walk.size,
    decreases count,
{
    if count > 0 {
        lemma_played(scene, source, replies, count - 1);
        lemma_faithful(scene.played(source, replies, count - 1), source, replies[count - 1]);
    }
}

/// What a copy is owed after any number of its steps: the destination holds the
/// source up to the position and nothing behind it, the running digest is that
/// of just this part, every transfer reads and writes at the position on both
/// sides, both seeks of a range go to the same offset, a checkpoint attests the
/// position, and a copy that is done has copied every byte to its own offset.
pub open spec fn copies_faithfully(scene: CopyScene, source: Seq<u8>) -> bool {
    let walk = scene.walk;
    &&& holds_prefix(scene.written, source, walk.position as int)
    &&& walk.digest matches Some(absorbed) ==> absorbed == source.take(walk.position as int)
    &&& scene.step matches WalkStepView::SeekSource { offset } ==> offset == walk.position
    &&& scene.step matches WalkStepView::SeekDestination { offset } ==> offset
        == scene.source_at == walk.position
    &&& scene.step is Transfer ==> scene.source_at == walk.position && scene.destination_at
        == walk.position
    &&& scene.step matches WalkStepView::Checkpoint { position } ==> position == walk.position
    &&& scene.step is Done ==> scene.written == source && (walk.digest matches Some(absorbed)
        ==> absorbed == source)
}

proof fn lemma_is_owed(scene: CopyScene, source: Seq<u8>)
    requires
        is_faithful(scene, source),
        scene.step matches WalkStepView::Checkpoint { position } ==> position
            == scene.walk.position,
        scene.step is SeekSource ==> scene.walk.phase is SeekSource,
        scene.step is SeekDestination ==> scene.walk.phase is SeekDestination,
        scene.step is Transfer ==> scene.walk.phase is Moving,
    ensures
        copies_faithfully(scene, source),
{
    if scene.step is Done {
        assert(scene.written =~= source);
        assert(source.take(scene.walk.position as int) =~= source);
    }
}

/// The step and the phase after any reply speak of the same thing.
#[verifier::spinoff_prover]
#[verifier::rlimit(60)]
proof fn lemma_step_names_phase(walk: WalkView, reply: WalkReplyView)
    requires
        walk.wf(),
        walk.answered_by(reply),
    ensures
        ({
            let (next, step) = walk.after(reply);
            &&& step matches WalkStepView::Checkpoint { position } ==> position == next.position
            &&& step is SeekSource ==> next.phase is SeekSource
            &&& step is SeekDestination ==> next.phase is SeekDestination
            &&& step is Transfer ==> next.phase is Moving
        }),
{
}

proof fn lemma_played_is_owed(
    scene: CopyScene,
    source: Seq<u8>,
    replies: Seq<WalkReplyView>,
)
    requires
        is_faithful(scene, source),
        copies_faithfully(scene, source),
        scene.walk.seeks || scene.walk.ranges.len() == 1,
        scene.answered_by(source, replies),
    ensures
        copies_faithfully(scene.played(source, replies, replies.len() as int), source),
{
    let count = replies.len() as int;
    lemma_played(scene, source, replies, count);
    if count > 0 {
        lemma_played(scene, source, replies, count - 1);
        let before = scene.played(source, replies, count - 1);
        let reply = replies[count - 1];
        let fed = moved_digest(before.walk, before.moved(source, reply));
        lemma_step_names_phase(fed, reply);
        lemma_is_owed(scene.played(source, replies, count), source);
    }
}

/// A sparse file is copied range by range to the very offsets that its data
/// has: whatever the files answer, the destination never holds anything but
/// the source's own bytes at their own offsets and zeros, and a copy that ends
/// well holds the whole source, holes and all, and has digested just that.
pub proof fn sparse_copy_keeps_every_offset(
    relative: Seq<u16>,
    ranges: Seq<(u64, u64)>,
    position: u64,
    cursor: CheckpointCursor,
    digest: Option<Seq<u8>>,
    source: Seq<u8>,
    written: Seq<u8>,
    source_at: int,
    destination_at: int,
    replies: Seq<WalkReplyView>,
)
    requires
        source.len() <= u64::MAX,
        position <= source.len(),
        cursor.stands_at(position),
        cursor.total_size == source.len(),
        in_order_apart(ranges),
        is_zero_outside(source, ranges),
        holds_prefix(written, source, position as int),
        digest matches Some(absorbed) ==> absorbed == source.take(position as int),
        ({
            let (walk, step) = ranges_walk(
                relative,
                ranges,
                source.len() as u64,
                position,
                cursor,
                digest,
            );
            (CopyScene { walk, step, source_at, destination_at, written }).answered_by(
                source,
                replies,
            )
        }),
    ensures
        ({
            let (walk, step) = ranges_walk(
                relative,
                ranges,
                source.len() as u64,
                position,
                cursor,
                digest,
            );
            copies_faithfully(
                (CopyScene { walk, step, source_at, destination_at, written }).played(
                    source,
                    replies,
                    replies.len() as int,
                ),
                source,
            )
        }),
{
    let size = source.len() as u64;
    let first = WalkView {
        relative,
        ranges,
        index: 0,
        size,
        position,
        start: 0,
        end: 0,
        cursor,
        degraded: false,
        seeks: true,
        polls: true,
        phase: WalkPhase::PollRange,
        digest,
    };
    lemma_content_range(first, source, written, source_at, destination_at);
    let scene = scene_of(
        ranges_walk(relative, ranges, size, position, cursor, digest),
        source_at,
        destination_at,
        written,
    );
    lemma_is_owed(scene, source);
    lemma_played_is_owed(scene, source, replies);
}

/// A stream that is copied in order, from where both files stand on, is copied
/// byte for byte: a copy that ends well holds the whole source and has digested
/// just that.
pub proof fn ordered_copy_keeps_every_offset(
    relative: Seq<u16>,
    position: u64,
    polls: bool,
    cursor: CheckpointCursor,
    digest: Option<Seq<u8>>,
    source: Seq<u8>,
    written: Seq<u8>,
    replies: Seq<WalkReplyView>,
)
    requires
        source.len() <= u64::MAX,
        position <= source.len(),
        cursor.stands_at(position),
        cursor.total_size == source.len(),
        holds_prefix(written, source, position as int),
        digest matches Some(absorbed) ==> absorbed == source.take(position as int),
        ({
            let (walk, step) = stream_walk(
                relative,
                source.len() as u64,
                position,
                polls,
                cursor,
                digest,
            );
            (CopyScene {
                walk,
                step,
                source_at: position as int,
                destination_at: position as int,
                written,
            }).answered_by(source, replies)
        }),
    ensures
        ({
            let (walk, step) = stream_walk(
                relative,
                source.len() as u64,
                position,
                polls,
                cursor,
                digest,
            );
            copies_faithfully(
                (CopyScene {
                    walk,
                    step,
                    source_at: position as int,
                    destination_at: position as int,
                    written,
                }).played(source, replies, replies.len() as int),
                source,
            )
        }),
{
    let size = source.len() as u64;
    let first = WalkView {
        relative,
        ranges: seq![(0u64, size)],
        index: 0,
        size,
        position,
        start: position,
        end: size,
        cursor,
        degraded: false,
        seeks: false,
        polls,
        phase: WalkPhase::PollRange,
        digest,
    };
    assert(is_zero_outside(source, first.ranges)) by {
        assert forall|at: int| 0 <= at < source.len() implies #[trigger] is_allocated(
            first.ranges,
            at,
        ) by {
            assert(first.ranges[0].0 <= at < first.ranges[0].0 + first.ranges[0].1);
        }
    }
    lemma_content_data(first, source, written, position as int, position as int);
    let scene = scene_of(
        stream_walk(relative, size, position, polls, cursor, digest),
        position as int,
        position as int,
        written,
    );
    lemma_is_owed(scene, source);
    lemma_played_is_owed(scene, source, replies);
}

/// A walk stops at the first failure that it is told of, and tells it: a
/// request to stop, a seek, a transfer or a checkpoint that failed.
pub proof fn walk_stops_at_a_failure(walk: WalkView, reply: WalkReplyView)
    requires
        walk.wf(),
        walk.answered_by(reply),
    ensures
        reply == WalkReplyView::Polled(true) ==> walk.after(reply).1 == (WalkStepView::Failed {
            error: canceled_view(walk.relative),
        }),
        reply matches WalkReplyView::Sought(Err(error)) ==> (walk.after(
            reply,
        ).1 matches WalkStepView::Failed { error: told } && told.message == error.message@),
        reply matches WalkReplyView::Moved(Err(error)) ==> walk.after(reply).1 == (
        WalkStepView::Failed { error }),
        reply matches WalkReplyView::Checkpointed(Err(error)) ==> walk.after(reply).1 == (
        WalkStepView::Failed { error }),
        walk.after(reply).1 is Failed ==> {
            ||| reply == WalkReplyView::Polled(true)
            ||| reply matches WalkReplyView::Sought(Err(_))
            ||| reply matches WalkReplyView::Moved(Err(_))
            ||| reply matches WalkReplyView::Checkpointed(Err(_))
            ||| walk.phase is PollRange && walk.ranges[walk.index].0 + walk.ranges[walk.index].1
                > walk.size
        },
{
}

} // verus!
