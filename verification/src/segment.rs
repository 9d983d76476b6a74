//! Moving the bytes of one stream: request-at-a-time transfers, phased bursts,
//! pipelined segments, and parallel segments of one large file.

use vstd::prelude::*;
use vstd::string::*;

use crate::engine::{
    canceled_error, canceled_view, ensure_source_unchanged, operation_error, operation_view,
    same_source, source_changed_view, source_open_error, source_open_view, EngineRequest,
    CANCELED_MID_FILE,
};
use crate::error::{
    category_of, semantic_error_view, spec_category_for, spec_hint_for, ErrorCategory, ErrorView,
    IoError, IoErrorKind, OperationError,
};
use crate::hashing::StreamDigest;
use crate::model::{sat, Counters};
use crate::path::WidePath;
use crate::pipeline::{
    digested, feed, opt_digest, PipelinedFailure, PipelinedFailureKind, PipelinedTransfer,
};
use crate::platform::{ObjectMetadata, StreamInfo, StreamView};
use crate::streams::stream_views;
use crate::text::{decimal, push_decimal};
use crate::transport::{BurstBuffer, TransferFailure, TransferFailureKind, TransportProfile};

verus! {

/// Where a transfer takes place; its failures carry the names of that place.
#[derive(Clone, Copy, Debug, PartialEq, Eq, Structural)]
pub enum SegmentSite {
    /// An allocated range of a sparse file.
    Sparse,
    /// The unnamed stream.
    Stream,
    /// A named stream.
    Named,
}

impl SegmentSite {
    /// The name of a read.
    pub open spec fn spec_read_op(self) -> Seq<char> {
        match self {
            SegmentSite::Sparse => "read_sparse"@,
            SegmentSite::Stream => "read"@,
            SegmentSite::Named => "read_stream"@,
        }
    }

    /// The name of a write.
    pub open spec fn spec_write_op(self) -> Seq<char> {
        match self {
            SegmentSite::Sparse => "write_sparse"@,
            SegmentSite::Stream => "write"@,
            SegmentSite::Named => "write_stream"@,
        }
    }

    /// What is said of a source that ends early.
    pub open spec fn spec_truncated(self) -> Seq<char> {
        match self {
            SegmentSite::Sparse => "source ended inside an allocated range"@,
            SegmentSite::Stream => "source ended before its enumerated size"@,
            SegmentSite::Named => "named stream ended before its enumerated size"@,
        }
    }

    /// The name of a read.
    pub fn read_op(self) -> (text: &'static str)
        ensures
            text@ == self.spec_read_op(),
    {
        match self {
            SegmentSite::Sparse => "read_sparse",
            SegmentSite::Stream => "read",
            SegmentSite::Named => "read_stream",
        }
    }

    /// The name of a write.
    pub fn write_op(self) -> (text: &'static str)
        ensures
            text@ == self.spec_write_op(),
    {
        match self {
            SegmentSite::Sparse => "write_sparse",
            SegmentSite::Stream => "write",
            SegmentSite::Named => "write_stream",
        }
    }

    /// What is said of a source that ends early.
    pub fn truncated(self) -> (text: &'static str)
        ensures
            text@ == self.spec_truncated(),
    {
        match self {
            SegmentSite::Sparse => "source ended inside an allocated range",
            SegmentSite::Stream => "source ended before its enumerated size",
            SegmentSite::Named => "named stream ended before its enumerated size",
        }
    }
}

/// The failure of a source that ends early.
pub open spec fn truncated_view(site: SegmentSite, rel: Seq<u16>) -> ErrorView {
    semantic_error_view(
        ErrorCategory::SourceChanged,
        site.spec_read_op(),
        rel,
        site.spec_truncated(),
    )
}

fn truncated_error(site: SegmentSite, relative_path: &WidePath) -> (failure: OperationError)
    ensures
        failure@ == truncated_view(site, relative_path@),
{
    OperationError::semantic(
        ErrorCategory::SourceChanged,
        site.read_op(),
        relative_path.copied(),
        site.truncated().to_owned(),
    )
}

/// Counters with more bytes read.
pub open spec fn with_read(counters: Counters, bytes: u64) -> Counters {
    Counters { bytes_read_source: sat(counters.bytes_read_source, bytes), ..counters }
}

/// Counters with more bytes written.
pub open spec fn with_written(counters: Counters, bytes: u64) -> Counters {
    Counters {
        bytes_written_destination: sat(counters.bytes_written_destination, bytes),
        ..counters
    }
}

fn count_read(counters: &mut Counters, bytes: u64)
    ensures
        *final(counters) == with_read(*old(counters), bytes),
{
    counters.bytes_read_source = counters.bytes_read_source.saturating_add(bytes);
}

fn count_written(counters: &mut Counters, bytes: u64)
    ensures
        *final(counters) == with_written(*old(counters), bytes),
{
    counters.bytes_written_destination = counters.bytes_written_destination.saturating_add(bytes);
}

/// The next operation of a request-at-a-time transfer.
#[derive(Debug, PartialEq, Eq)]
pub enum TransferStep {
    /// Tell whether the copy was canceled.
    Poll {
        /// Bytes moved.
        moved: u64,
    },
    /// Read up to `max` bytes.
    Read {
        /// Bytes moved.
        moved: u64,
        /// The size of the request.
        max: usize,
    },
    /// Write all of these bytes.
    Write {
        /// Bytes moved.
        moved: u64,
        /// The bytes.
        bytes: Vec<u8>,
    },
    /// Everything was moved.
    Done {
        /// Bytes moved.
        moved: u64,
    },
    /// The transfer failed.
    Failed {
        /// Why.
        error: OperationError,
    },
}

/// The next operation of a request-at-a-time transfer, as values.
#[verifier::ext_equal]
pub ghost enum TransferStepView {
    Poll { moved: u64 },
    Read { moved: u64, max: usize },
    Write { moved: u64, bytes: Seq<u8> },
    Done { moved: u64 },
    Failed { error: ErrorView },
}

impl View for TransferStep {
    type V = TransferStepView;

    open spec fn view(&self) -> TransferStepView {
        match *self {
            TransferStep::Poll { moved } => TransferStepView::Poll { moved },
            TransferStep::Read { moved, max } => TransferStepView::Read { moved, max },
            TransferStep::Write { moved, bytes } => TransferStepView::Write {
                moved,
                bytes: bytes@,
            },
            TransferStep::Done { moved } => TransferStepView::Done { moved },
            TransferStep::Failed { error } => TransferStepView::Failed { error: error@ },
        }
    }
}

/// What an operation of a transfer came to.
#[derive(Debug, PartialEq, Eq)]
pub enum TransferReply {
    /// Whether the copy was canceled.
    Polled(bool),
    /// The bytes that the source gave; none at its end.
    Read(Result<Vec<u8>, IoError>),
    /// Whether all bytes were written.
    Written(Result<(), IoError>),
}

/// What an operation of a transfer came to, as values.
#[verifier::ext_equal]
pub ghost enum TransferReplyView {
    Polled(bool),
    Read(Result<Seq<u8>, IoError>),
    Written(Result<(), IoError>),
}

impl View for TransferReply {
    type V = TransferReplyView;

    open spec fn view(&self) -> TransferReplyView {
        match *self {
            TransferReply::Polled(canceled) => TransferReplyView::Polled(canceled),
            TransferReply::Read(Ok(bytes)) => TransferReplyView::Read(Ok(bytes@)),
            TransferReply::Read(Err(error)) => TransferReplyView::Read(Err(error)),
            TransferReply::Written(result) => TransferReplyView::Written(result),
        }
    }
}

/// What a transfer changes besides its position: the counters and the running
/// digest.
#[verifier::ext_equal]
pub ghost struct TransferEffects {
    pub counters: Counters,
    pub digest: Option<Seq<u8>>,
}

/// Whether a reply answers a step of a transfer of `bound` bytes.
pub open spec fn transfer_answers(
    bound: u64,
    step: TransferStepView,
    reply: TransferReplyView,
) -> bool {
    match step {
        TransferStepView::Poll { moved } => moved < bound && reply is Polled,
        TransferStepView::Read { moved, max } => moved + max <= bound && (
        reply matches TransferReplyView::Read(read) && (read matches Ok(bytes) ==> bytes.len()
            <= max)),
        TransferStepView::Write { moved, bytes } => moved + bytes.len() <= bound && reply
            is Written,
        _ => false,
    }
}

/// The step after some bytes were moved.
pub open spec fn transfer_progress(moved: u64, bound: u64) -> TransferStepView {
    if moved < bound {
        TransferStepView::Poll { moved }
    } else {
        TransferStepView::Done { moved }
    }
}

/// The next step of a transfer, and what it changes. Bytes that the source
/// gives are digested before they are written. Those of a sparse range count as
/// read only once they are written.
pub open spec fn transfer_next(
    site: SegmentSite,
    rel: Seq<u16>,
    bound: u64,
    buffer_bytes: usize,
    step: TransferStepView,
    reply: TransferReplyView,
    effects: TransferEffects,
) -> (TransferStepView, TransferEffects) {
    match (step, reply) {
        (TransferStepView::Poll { moved }, TransferReplyView::Polled(canceled)) => if canceled {
            (TransferStepView::Failed { error: canceled_view(rel) }, effects)
        } else {
            (
                TransferStepView::Read {
                    moved,
                    max: if bound - moved < buffer_bytes {
                        (bound - moved) as usize
                    } else {
                        buffer_bytes
                    },
                },
                effects,
            )
        },
        (TransferStepView::Read { moved, .. }, TransferReplyView::Read(read)) => match read {
            Err(error) => (
                TransferStepView::Failed {
                    error: operation_view(site.spec_read_op(), rel, error),
                },
                effects,
            ),
            Ok(bytes) => if bytes.len() == 0 {
                (TransferStepView::Failed { error: truncated_view(site, rel) }, effects)
            } else {
                (
                    TransferStepView::Write { moved, bytes },
                    TransferEffects {
                        counters: if site is Sparse {
                            effects.counters
                        } else {
                            with_read(effects.counters, bytes.len() as u64)
                        },
                        digest: digested(effects.digest, bytes),
                    },
                )
            },
        },
        (TransferStepView::Write { moved, bytes }, TransferReplyView::Written(written)) => {
            match written {
                Err(error) => (
                    TransferStepView::Failed {
                        error: operation_view(site.spec_write_op(), rel, error),
                    },
                    effects,
                ),
                Ok(_) => (
                    transfer_progress((moved + bytes.len()) as u64, bound),
                    TransferEffects {
                        counters: with_written(
                            if site is Sparse {
                                with_read(effects.counters, bytes.len() as u64)
                            } else {
                                effects.counters
                            },
                            bytes.len() as u64,
                        ),
                        ..effects
                    },
                ),
            }
        },
        _ => (step, effects),
    }
}

/// Starts a transfer of `bound` bytes.
pub fn start_transfer(bound: u64) -> (step: TransferStep)
    ensures
        step@ == transfer_progress(0, bound),
{
    if bound > 0 {
        TransferStep::Poll { moved: 0 }
    } else {
        TransferStep::Done { moved: 0 }
    }
}

/// Decides the next operation of a request-at-a-time transfer of `bound` bytes.
pub fn transfer_segment(
    site: SegmentSite,
    relative_path: &WidePath,
    bound: u64,
    buffer_bytes: usize,
    counters: &mut Counters,
    hasher: &mut Option<StreamDigest>,
    step: TransferStep,
    reply: TransferReply,
) -> (next: TransferStep)
    requires
        buffer_bytes > 0,
        transfer_answers(bound, step@, reply@),
    ensures
        transfer_next(
            site,
            relative_path@,
            bound,
            buffer_bytes,
            step@,
            reply@,
            TransferEffects { counters: *old(counters), digest: opt_digest(*old(hasher)) },
        ) == (
            next@,
            TransferEffects { counters: *final(counters), digest: opt_digest(*final(hasher)) },
        ),
{
    match (step, reply) {
        (TransferStep::Poll { moved }, TransferReply::Polled(canceled)) => {
            if canceled {
                TransferStep::Failed { error: canceled_error(relative_path) }
            } else {
                let left: u64 = bound - moved;
                let max: usize = if left < buffer_bytes as u64 {
                    left as usize
                } else {
                    buffer_bytes
                };
                TransferStep::Read { moved, max }
            }
        },
        (TransferStep::Read { moved, .. }, TransferReply::Read(read)) => match read {
            Err(error) => TransferStep::Failed {
                error: operation_error(site.read_op(), relative_path, &error),
            },
            Ok(bytes) => {
                if bytes.len() == 0 {
                    TransferStep::Failed { error: truncated_error(site, relative_path) }
                } else {
                    if site != SegmentSite::Sparse {
                        count_read(counters, bytes.len() as u64);
                    }
                    feed(hasher, bytes.as_slice());
                    TransferStep::Write { moved, bytes }
                }
            },
        },
        (TransferStep::Write { moved, bytes }, TransferReply::Written(written)) => match written {
            Err(error) => TransferStep::Failed {
                error: operation_error(site.write_op(), relative_path, &error),
            },
            Ok(_) => {
                let count: u64 = bytes.len() as u64;
                if site == SegmentSite::Sparse {
                    count_read(counters, count);
                }
                count_written(counters, count);
                let moved: u64 = moved + count;
                if moved < bound {
                    TransferStep::Poll { moved }
                } else {
                    TransferStep::Done { moved }
                }
            },
        },
        (step, _) => step,
    }
}

/// The bytes that a transfer has handed to the destination.
pub open spec fn transfer_moved(step: TransferStepView) -> int {
    match step {
        TransferStepView::Poll { moved } => moved as int,
        TransferStepView::Read { moved, .. } => moved as int,
        TransferStepView::Write { moved, .. } => moved as int,
        TransferStepView::Done { moved } => moved as int,
        TransferStepView::Failed { .. } => 0,
    }
}

/// A transfer ends well exactly with the whole bound: every byte that was read
/// was written, and no more than the bound was asked for.
pub proof fn transfer_moves_exactly_its_bound(
    site: SegmentSite,
    rel: Seq<u16>,
    bound: u64,
    buffer_bytes: usize,
    step: TransferStepView,
    reply: TransferReplyView,
    effects: TransferEffects,
)
    requires
        buffer_bytes > 0,
        transfer_answers(bound, step, reply),
    ensures
        ({
            let next = transfer_next(site, rel, bound, buffer_bytes, step, reply, effects).0;
            &&& transfer_moved(next) <= bound
            &&& next matches TransferStepView::Done { moved } ==> moved == bound
            &&& next matches TransferStepView::Read { moved, max } ==> moved + max <= bound && max
                > 0
            &&& next matches TransferStepView::Write { moved, bytes } ==> moved + bytes.len()
                <= bound
        }),
{
}

/// The failure of one phase of a burst.
pub open spec fn burst_failure_view(
    operation: Seq<char>,
    rel: Seq<u16>,
    kind: TransferFailureKind,
) -> ErrorView {
    match kind {
        TransferFailureKind::Canceled => canceled_view(rel),
        TransferFailureKind::NoProgress => no_progress_view(operation, rel),
        TransferFailureKind::Io(error) => operation_view(operation, rel, error),
    }
}

/// The failure of a destination that takes no byte.
pub open spec fn no_progress_view(operation: Seq<char>, rel: Seq<u16>) -> ErrorView {
    let category = spec_category_for(None, false, IoErrorKind::WriteZero);
    ErrorView {
        category,
        operation,
        path: rel,
        code: None,
        message: "destination made no progress"@,
        hint: spec_hint_for(category),
    }
}

fn no_progress_error(operation: &str, relative_path: &WidePath) -> (failure: OperationError)
    ensures
        failure@ == no_progress_view(operation@, relative_path@),
{
    let error = IoError {
        code: None,
        kind: IoErrorKind::WriteZero,
        cloud: false,
        message: "destination made no progress".to_owned(),
    };
    operation_error(operation, relative_path, &error)
}

fn burst_error(operation: &str, relative_path: &WidePath, kind: &TransferFailureKind) -> (failure:
    OperationError)
    ensures
        failure@ == burst_failure_view(operation@, relative_path@, *kind),
{
    match kind {
        TransferFailureKind::Canceled => canceled_error(relative_path),
        TransferFailureKind::NoProgress => no_progress_error(operation, relative_path),
        TransferFailureKind::Io(error) => operation_error(operation, relative_path, error),
    }
}

/// How many bytes one burst is asked for.
fn burst_request(bound: u64, capacity: usize) -> (requested: usize)
    ensures
        requested == if bound < capacity {
            bound as int
        } else {
            capacity as int
        },
{
    if bound < capacity as u64 {
        bound as usize
    } else {
        capacity
    }
}

/// Accounts the read phase of a burst that was asked for `requested` bytes: a
/// short source has changed.
fn finish_burst_read(
    site: SegmentSite,
    relative_path: &WidePath,
    requested: usize,
    counters: &mut Counters,
    phase: Result<usize, TransferFailure>,
) -> (verdict: Result<(), OperationError>)
    ensures
        match phase {
            Err(failure) => *final(counters) == with_read(
                *old(counters),
                failure.transferred as u64,
            ) && (verdict matches Err(error) && error@ == burst_failure_view(
                site.spec_read_op(),
                relative_path@,
                failure.kind,
            )),
            Ok(count) => *final(counters) == with_read(*old(counters), count as u64) && if count
                == requested {
                verdict is Ok
            } else {
                verdict matches Err(error) && error@ == truncated_view(site, relative_path@)
            },
        },
{
    match phase {
        Err(failure) => {
            count_read(counters, failure.transferred as u64);
            Err(burst_error(site.read_op(), relative_path, &failure.kind))
        },
        Ok(count) => {
            count_read(counters, count as u64);
            if count == requested {
                Ok(())
            } else {
                Err(truncated_error(site, relative_path))
            }
        },
    }
}

/// Accounts the write phase of a burst.
fn finish_burst_write(
    site: SegmentSite,
    relative_path: &WidePath,
    counters: &mut Counters,
    phase: Result<usize, TransferFailure>,
) -> (moved: Result<u64, OperationError>)
    ensures
        match phase {
            Err(failure) => *final(counters) == with_written(
                *old(counters),
                failure.transferred as u64,
            ) && (moved matches Err(error) && error@ == burst_failure_view(
                site.spec_write_op(),
                relative_path@,
                failure.kind,
            )),
            Ok(count) => *final(counters) == with_written(*old(counters), count as u64) && (
            moved matches Ok(bytes) && bytes == count),
        },
{
    match phase {
        Err(failure) => {
            count_written(counters, failure.transferred as u64);
            Err(burst_error(site.write_op(), relative_path, &failure.kind))
        },
        Ok(count) => {
            count_written(counters, count as u64);
            Ok(count as u64)
        },
    }
}

/// The next phase of one burst: the staging buffer is filled from the source
/// before any of it is written.
#[derive(Debug, PartialEq, Eq)]
pub enum BurstTransferStep {
    /// Fill the staging buffer.
    Read {
        /// The size of the burst.
        requested: usize,
    },
    /// Empty the staging buffer.
    Write {
        /// The size of the burst.
        requested: usize,
    },
    /// The burst is moved.
    Done {
        /// Its size.
        moved: u64,
    },
    /// The copy fails.
    Failed {
        /// Why.
        error: OperationError,
    },
}

/// The next phase of one burst, as values.
#[verifier::ext_equal]
pub ghost enum BurstTransferView {
    Read { requested: usize },
    Write { requested: usize },
    Done { moved: u64 },
    Failed { error: ErrorView },
}

impl View for BurstTransferStep {
    type V = BurstTransferView;

    open spec fn view(&self) -> BurstTransferView {
        match *self {
            BurstTransferStep::Read { requested } => BurstTransferView::Read { requested },
            BurstTransferStep::Write { requested } => BurstTransferView::Write { requested },
            BurstTransferStep::Done { moved } => BurstTransferView::Done { moved },
            BurstTransferStep::Failed { error } => BurstTransferView::Failed { error: error@ },
        }
    }
}

/// Whether the end of a phase answers a step of a burst: what was read is
/// staged.
pub open spec fn burst_answers(
    step: BurstTransferView,
    staged: Seq<u8>,
    phase: Result<usize, TransferFailure>,
) -> bool {
    match step {
        BurstTransferView::Read { .. } => phase matches Ok(count) ==> count <= staged.len(),
        BurstTransferView::Write { .. } => true,
        _ => false,
    }
}

/// The next phase of one burst, with the counters and the digest then. A short
/// source has changed; the digest takes the whole burst before it is written.
pub open spec fn burst_next(
    site: SegmentSite,
    rel: Seq<u16>,
    staged: Seq<u8>,
    counters: Counters,
    digest: Option<Seq<u8>>,
    step: BurstTransferView,
    phase: Result<usize, TransferFailure>,
) -> (BurstTransferView, Counters, Option<Seq<u8>>) {
    match (step, phase) {
        (BurstTransferView::Read { .. }, Err(failure)) => (
            BurstTransferView::Failed {
                error: burst_failure_view(site.spec_read_op(), rel, failure.kind),
            },
            with_read(counters, failure.transferred as u64),
            digest,
        ),
        (BurstTransferView::Read { requested }, Ok(count)) => if count == requested {
            (
                BurstTransferView::Write { requested },
                with_read(counters, count as u64),
                digested(digest, staged.take(count as int)),
            )
        } else {
            (
                BurstTransferView::Failed { error: truncated_view(site, rel) },
                with_read(counters, count as u64),
                digest,
            )
        },
        (BurstTransferView::Write { .. }, Err(failure)) => (
            BurstTransferView::Failed {
                error: burst_failure_view(site.spec_write_op(), rel, failure.kind),
            },
            with_written(counters, failure.transferred as u64),
            digest,
        ),
        (BurstTransferView::Write { .. }, Ok(count)) => (
            BurstTransferView::Done { moved: count as u64 },
            with_written(counters, count as u64),
            digest,
        ),
        _ => (step, counters, digest),
    }
}

/// Starts a burst of up to `bound` bytes.
pub fn start_burst(bound: u64, buffer: &BurstBuffer) -> (step: BurstTransferStep)
    ensures
        step@ == (BurstTransferView::Read {
            requested: if bound < buffer@.capacity {
                bound as usize
            } else {
                buffer@.capacity
            },
        }),
{
    BurstTransferStep::Read { requested: burst_request(bound, buffer.capacity()) }
}

/// Decides the next phase of one burst.
pub fn transfer_same_spindle_burst(
    site: SegmentSite,
    relative_path: &WidePath,
    buffer: &BurstBuffer,
    counters: &mut Counters,
    hasher: &mut Option<StreamDigest>,
    step: BurstTransferStep,
    phase: Result<usize, TransferFailure>,
) -> (next: BurstTransferStep)
    requires
        burst_answers(step@, buffer@.staged, phase),
    ensures
        burst_next(
            site,
            relative_path@,
            buffer@.staged,
            *old(counters),
            opt_digest(*old(hasher)),
            step@,
            phase,
        ) == (next@, *final(counters), opt_digest(*final(hasher))),
{
    match step {
        BurstTransferStep::Read { requested } => match finish_burst_read(
            site,
            relative_path,
            requested,
            counters,
            phase,
        ) {
            Err(error) => BurstTransferStep::Failed { error },
            Ok(_) => {
                feed(hasher, buffer.prefix(requested));
                BurstTransferStep::Write { requested }
            },
        },
        BurstTransferStep::Write { .. } => match finish_burst_write(
            site,
            relative_path,
            counters,
            phase,
        ) {
            Err(error) => BurstTransferStep::Failed { error },
            Ok(moved) => BurstTransferStep::Done { moved },
        },
        step => step,
    }
}

/// A burst reads before it writes: nothing is written until the whole burst is
/// staged, and what is written is what the digest took.
pub proof fn bursts_read_before_they_write(
    site: SegmentSite,
    rel: Seq<u16>,
    staged: Seq<u8>,
    counters: Counters,
    digest: Option<Seq<u8>>,
    step: BurstTransferView,
    phase: Result<usize, TransferFailure>,
)
    requires
        burst_answers(step, staged, phase),
    ensures
        ({
            let (next, after, fed) = burst_next(site, rel, staged, counters, digest, step, phase);
            &&& next matches BurstTransferView::Write { requested } ==> {
                &&& step == (BurstTransferView::Read { requested })
                &&& phase == Ok::<usize, TransferFailure>(requested)
                &&& fed == digested(digest, staged.take(requested as int))
                &&& after.bytes_written_destination == counters.bytes_written_destination
            }
            &&& next is Done ==> step is Write && fed == digest
        }),
{
}

/// The failure of a pipelined segment.
pub open spec fn pipeline_failure_view(
    site: SegmentSite,
    rel: Seq<u16>,
    request_bytes: usize,
    kind: PipelinedFailureKind,
) -> ErrorView {
    match kind {
        PipelinedFailureKind::Allocate(reason) => semantic_error_view(
            ErrorCategory::Internal,
            "allocate_redirector_pipeline"@,
            rel,
            "could not reserve two bounded "@ + decimal(request_bytes as nat)
                + "-byte redirector buffers: "@ + reason@,
        ),
        PipelinedFailureKind::Canceled => canceled_view(rel),
        PipelinedFailureKind::Read(error) => operation_view(site.spec_read_op(), rel, error),
        PipelinedFailureKind::Write(error) => operation_view(site.spec_write_op(), rel, error),
        PipelinedFailureKind::NoProgress => no_progress_view(site.spec_write_op(), rel),
        PipelinedFailureKind::UnexpectedEof => truncated_view(site, rel),
        PipelinedFailureKind::ReaderPanicked => semantic_error_view(
            ErrorCategory::Internal,
            "redirector_reader_panic"@,
            rel,
            "redirector reader thread panicked; this is a bigcp bug"@,
        ),
        PipelinedFailureKind::Internal(message) => semantic_error_view(
            ErrorCategory::Internal,
            "redirector_pipeline"@,
            rel,
            message@,
        ),
    }
}

fn pipeline_error(
    site: SegmentSite,
    relative_path: &WidePath,
    request_bytes: usize,
    kind: &PipelinedFailureKind,
) -> (failure: OperationError)
    ensures
        failure@ == pipeline_failure_view(site, relative_path@, request_bytes, *kind),
{
    match kind {
        PipelinedFailureKind::Allocate(reason) => {
            let mut message = "could not reserve two bounded ".to_owned();
            push_decimal(&mut message, request_bytes as u64);
            message.append("-byte redirector buffers: ");
            message.append(reason.as_str());
            OperationError::semantic(
                ErrorCategory::Internal,
                "allocate_redirector_pipeline",
                relative_path.copied(),
                message,
            )
        },
        PipelinedFailureKind::Canceled => canceled_error(relative_path),
        PipelinedFailureKind::Read(error) => operation_error(site.read_op(), relative_path, error),
        PipelinedFailureKind::Write(error) => operation_error(
            site.write_op(),
            relative_path,
            error,
        ),
        PipelinedFailureKind::NoProgress => no_progress_error(site.write_op(), relative_path),
        PipelinedFailureKind::UnexpectedEof => truncated_error(site, relative_path),
        PipelinedFailureKind::ReaderPanicked => OperationError::semantic(
            ErrorCategory::Internal,
            "redirector_reader_panic",
            relative_path.copied(),
            "redirector reader thread panicked; this is a bigcp bug".to_owned(),
        ),
        PipelinedFailureKind::Internal(message) => OperationError::semantic(
            ErrorCategory::Internal,
            "redirector_pipeline",
            relative_path.copied(),
            (*message).to_owned(),
        ),
    }
}

/// Accounts one pipelined segment: its actual I/O counts however it ended.
pub fn transfer_redirector_segment(
    site: SegmentSite,
    relative_path: &WidePath,
    request_bytes: usize,
    counters: &mut Counters,
    result: Result<PipelinedTransfer, PipelinedFailure>,
) -> (moved: Result<u64, OperationError>)
    ensures
        match result {
            Ok(transfer) => *final(counters) == with_written(
                with_read(*old(counters), transfer.bytes_read),
                transfer.bytes_written,
            ) && (moved matches Ok(bytes) && bytes == transfer.bytes_written),
            Err(failure) => *final(counters) == with_written(
                with_read(*old(counters), failure.transfer.bytes_read),
                failure.transfer.bytes_written,
            ) && (moved matches Err(error) && error@ == pipeline_failure_view(
                site,
                relative_path@,
                request_bytes,
                failure.kind,
            )),
        },
{
    match result {
        Ok(transfer) => {
            count_read(counters, transfer.bytes_read);
            count_written(counters, transfer.bytes_written);
            Ok(transfer.bytes_written)
        },
        Err(failure) => {
            count_read(counters, failure.transfer.bytes_read);
            count_written(counters, failure.transfer.bytes_written);
            Err(pipeline_error(site, relative_path, request_bytes, &failure.kind))
        },
    }
}

/// The failure of a profile with an empty chunk.
pub open spec fn zero_chunk_view(rel: Seq<u16>) -> ErrorView {
    semantic_error_view(
        ErrorCategory::Internal,
        "allocate_buffer"@,
        rel,
        "the composed copy profile selected a zero-byte chunk"@,
    )
}

/// The failure of a profile with an empty chunk.
pub fn zero_chunk_error(relative_path: &WidePath) -> (failure: OperationError)
    ensures
        failure@ == zero_chunk_view(relative_path@),
{
    OperationError::semantic(
        ErrorCategory::Internal,
        "allocate_buffer",
        relative_path.copied(),
        "the composed copy profile selected a zero-byte chunk".to_owned(),
    )
}

/// What a stream's transfers need before they start.
#[derive(Clone, Copy, Debug, PartialEq, Eq, Structural)]
pub enum StreamBuffers {
    /// One chunk buffer of this size.
    Standard {
        /// Bytes per request.
        request_bytes: usize,
    },
    /// The pipeline's own buffers of this size.
    Redirector {
        /// Bytes per request.
        request_bytes: usize,
    },
    /// A staging buffer.
    SameSpindle,
}

/// The buffers of one stream; none where the request-at-a-time transport is
/// given an empty chunk.
pub open spec fn spec_stream_buffers(transport: TransportProfile, request_bytes: usize) -> Option<
    StreamBuffers,
> {
    if transport.kind is SameSpindle {
        Some(StreamBuffers::SameSpindle)
    } else if transport.spec_is_redirector() {
        Some(StreamBuffers::Redirector { request_bytes })
    } else if request_bytes == 0 {
        None
    } else {
        Some(StreamBuffers::Standard { request_bytes })
    }
}

/// Chooses the buffers of one stream. The request-at-a-time transport rejects
/// an empty chunk.
pub fn stream_buffers(
    transport: TransportProfile,
    request_bytes: usize,
    relative_path: &WidePath,
) -> (buffers: Result<StreamBuffers, OperationError>)
    ensures
        match spec_stream_buffers(transport, request_bytes) {
            Some(chosen) => buffers == Ok::<StreamBuffers, OperationError>(chosen),
            None => buffers matches Err(error) && error@ == zero_chunk_view(relative_path@),
        },
{
    if transport.is_same_spindle() {
        Ok(StreamBuffers::SameSpindle)
    } else if transport.is_redirector() {
        Ok(StreamBuffers::Redirector { request_bytes })
    } else if request_bytes == 0 {
        Err(zero_chunk_error(relative_path))
    } else {
        Ok(StreamBuffers::Standard { request_bytes })
    }
}

/// The failure of allocating a staging buffer.
pub open spec fn staging_failure(rel: Seq<u16>, burst_bytes: usize, reason: Seq<char>) -> ErrorView {
    semantic_error_view(
        ErrorCategory::Internal,
        "allocate_burst_buffer"@,
        rel,
        "could not reserve the bounded "@ + decimal(burst_bytes as nat)
            + "-byte same-spindle buffer: "@ + reason,
    )
}

/// The failure of allocating a staging buffer.
pub fn allocate_burst_buffer_error(
    relative_path: &WidePath,
    burst_bytes: usize,
    reason: &str,
) -> (failure: OperationError)
    ensures
        failure@ == staging_failure(relative_path@, burst_bytes, reason@),
{
    let mut message = "could not reserve the bounded ".to_owned();
    push_decimal(&mut message, burst_bytes as u64);
    message.append("-byte same-spindle buffer: ");
    message.append(reason);
    OperationError::semantic(
        ErrorCategory::Internal,
        "allocate_burst_buffer",
        relative_path.copied(),
        message,
    )
}

/// Chunk-bounded transfer and digest buffer length, never zero and never larger
/// than the bytes remaining.
pub fn bounded_buffer_len(chunk_bytes: usize, remaining: u64) -> (length: usize)
    ensures
        length == if remaining == 0 || chunk_bytes == 0 {
            1
        } else if remaining < chunk_bytes {
            remaining as int
        } else {
            chunk_bytes as int
        },
{
    let chunk: usize = if chunk_bytes < 1 {
        1
    } else {
        chunk_bytes
    };
    if remaining < chunk as u64 {
        if remaining < 1 {
            1
        } else {
            remaining as usize
        }
    } else {
        chunk
    }
}

/// Minimum unnamed-stream size for the segmented parallel strategy: below it
/// the extra opens and threads outweigh the ceiling of one handle.
pub const SEGMENT_THRESHOLD_BYTES: u64 = 67_108_864;

/// The fewest segments of one file.
pub const SEGMENT_MIN: u64 = 2;

/// The most segments of one file.
pub const SEGMENT_MAX: u64 = 8;

/// Parallel-segment layout for one large file that crosses WSL once.
#[derive(Clone, Debug, PartialEq, Eq)]
pub struct SegmentPlan {
    /// Contiguous offsets and lengths.
    pub ranges: Vec<(u64, u64)>,
}

/// Whether some stream has a name.
pub open spec fn has_named(streams: Seq<StreamView>) -> bool {
    exists|i: int| 0 <= i < streams.len() && !(#[trigger] streams[i]).is_unnamed()
}

/// How many segments a file gets.
pub open spec fn segment_count(size: u64, threshold: u64) -> int {
    let wanted = if threshold == 0 {
        0
    } else {
        size as int / threshold as int
    };
    if wanted < SEGMENT_MIN {
        SEGMENT_MIN as int
    } else if wanted > SEGMENT_MAX {
        SEGMENT_MAX as int
    } else {
        wanted
    }
}

/// The length of every segment but the last: whole chunks.
pub open spec fn segment_base(size: u64, threshold: u64, chunk_bytes: usize) -> int {
    (size as int / segment_count(size, threshold) / chunk_bytes as int) * chunk_bytes as int
}

/// Whether a file may be copied in parallel segments.
pub open spec fn segments_apply(
    transport: TransportProfile,
    source_is_wsl: bool,
    destination_is_wsl: bool,
    preserve_sparse: bool,
    streams: Seq<StreamView>,
    size: u64,
    threshold: u64,
    chunk_bytes: usize,
    checkpoint_eligible: bool,
    resume_candidate: bool,
) -> bool {
    &&& transport.kind is Wsl
    &&& source_is_wsl != destination_is_wsl
    &&& !preserve_sparse
    &&& !has_named(streams)
    &&& size >= threshold
    &&& !checkpoint_eligible
    &&& !resume_candidate
    &&& chunk_bytes > 0
    &&& segment_base(size, threshold, chunk_bytes) > 0
}

/// The segments of a file.
pub open spec fn segment_ranges(size: u64, threshold: u64, chunk_bytes: usize) -> Seq<(u64, u64)> {
    let count = segment_count(size, threshold);
    let base = segment_base(size, threshold, chunk_bytes);
    Seq::new(
        count as nat,
        |i: int|
            (
                (i * base) as u64,
                if i == count - 1 {
                    (size - i * base) as u64
                } else {
                    base as u64
                },
            ),
    )
}

proof fn lemma_segments_fit(size: u64, threshold: u64, chunk_bytes: usize)
    requires
        chunk_bytes > 0,
    ensures
        2 <= segment_count(size, threshold) <= 8,
        0 <= segment_base(size, threshold, chunk_bytes),
        segment_base(size, threshold, chunk_bytes) % (chunk_bytes as int) == 0,
        segment_count(size, threshold) * segment_base(size, threshold, chunk_bytes) <= size,
{
    let count = segment_count(size, threshold);
    let share = size as int / count;
    let chunks = share / chunk_bytes as int;
    let base = chunks * chunk_bytes as int;
    assert(0 <= share && count * share <= size) by (nonlinear_arith)
        requires
            2 <= count <= 8,
            share == size as int / count,
            size >= 0,
    ;
    assert(0 <= base <= share && base % (chunk_bytes as int) == 0) by (nonlinear_arith)
        requires
            chunk_bytes > 0,
            share >= 0,
            chunks == share / chunk_bytes as int,
            base == chunks * chunk_bytes as int,
    ;
    assert(count * base <= count * share) by (nonlinear_arith)
        requires
            2 <= count,
            base <= share,
    ;
}

/// Decides whether a file is copied in parallel segments, and lays them out.
///
/// The transport must be WSL's, and exactly one side may be WSL: the local side
/// hosts the digest pass. Sparse layouts, named streams, checkpoints and resumes
/// keep the ordered path.
pub fn segment_plan(
    transport: TransportProfile,
    source_is_wsl: bool,
    destination_is_wsl: bool,
    preserve_sparse: bool,
    streams: &[StreamInfo],
    size: u64,
    threshold: u64,
    chunk_bytes: usize,
    checkpoint_eligible: bool,
    resume_candidate: bool,
) -> (plan: Option<SegmentPlan>)
    ensures
        plan is Some <==> segments_apply(
            transport,
            source_is_wsl,
            destination_is_wsl,
            preserve_sparse,
            stream_views(streams@),
            size,
            threshold,
            chunk_bytes,
            checkpoint_eligible,
            resume_candidate,
        ),
        plan matches Some(plan) ==> plan.ranges@ == segment_ranges(size, threshold, chunk_bytes),
{
    let mut named = false;
    for i in 0..streams.len()
        invariant
            named == has_named(stream_views(streams@).take(i as int)),
    {
        let ghost part = stream_views(streams@).take(i as int);
        let ghost next = stream_views(streams@).take(i as int + 1);
        assert(next[i as int] == streams@[i as int]@);
        assert(has_named(next) == (has_named(part) || !next[i as int].is_unnamed())) by {
            if has_named(part) {
                let j = choose|j: int| 0 <= j < part.len() && !(#[trigger] part[j]).is_unnamed();
                assert(next[j] == part[j]);
            }
            if has_named(next) {
                let j = choose|j: int| 0 <= j < next.len() && !(#[trigger] next[j]).is_unnamed();
                if j < i {
                    assert(part[j] == next[j]);
                }
            }
        }
        if !streams[i].is_unnamed() {
            named = true;
        }
    }
    assert(stream_views(streams@).take(streams@.len() as int) =~= stream_views(streams@));
    if !transport.is_wsl() || source_is_wsl == destination_is_wsl || preserve_sparse || named
        || size < threshold || checkpoint_eligible || resume_candidate || chunk_bytes == 0 {
        return None;
    }
    let wanted: u64 = if threshold == 0 {
        0
    } else {
        size / threshold
    };
    let segments: u64 = if wanted < SEGMENT_MIN {
        SEGMENT_MIN
    } else if wanted > SEGMENT_MAX {
        SEGMENT_MAX
    } else {
        wanted
    };
    let chunk: u64 = chunk_bytes as u64;
    let ghost count = segment_count(size, threshold);
    let ghost exact = segment_base(size, threshold, chunk_bytes);
    proof {
        lemma_segments_fit(size, threshold, chunk_bytes);
    }
    assert(exact <= size) by (nonlinear_arith)
        requires
            2 <= count,
            0 <= exact,
            count * exact <= size,
    ;
    let chunks: u64 = size / segments / chunk;
    assert(chunks * chunk == exact);
    let base: u64 = chunks * chunk;
    if base == 0 {
        return None;
    }
    let mut ranges: Vec<(u64, u64)> = Vec::new();
    let ghost target = segment_ranges(size, threshold, chunk_bytes);
    let mut index: u64 = 0;
    while index < segments
        invariant
            index <= segments,
            segments == count,
            2 <= count <= 8,
            base == exact,
            count * exact <= size,
            count == segment_count(size, threshold),
            exact == segment_base(size, threshold, chunk_bytes),
            target == segment_ranges(size, threshold, chunk_bytes),
            ranges@ == target.take(index as int),
        decreases segments - index,
    {
        assert(index * base <= count * exact) by (nonlinear_arith)
            requires
                0 <= index <= count,
                base == exact,
        ;
        let offset: u64 = index * base;
        let length: u64 = if index == segments - 1 {
            size - offset
        } else {
            base
        };
        ranges.push((offset, length));
        assert(ranges@ =~= target.take(index as int + 1));
        index = index + 1;
    }
    assert(target.take(count) =~= target);
    Some(SegmentPlan { ranges })
}

/// The segments cover the file exactly: each begins where the one before ends,
/// none is empty, every start is a multiple of the chunk size, and the last one
/// ends the file.
pub proof fn segments_cover_the_file(size: u64, threshold: u64, chunk_bytes: usize, at: int)
    requires
        chunk_bytes > 0,
        segment_base(size, threshold, chunk_bytes) > 0,
        0 <= at < segment_ranges(size, threshold, chunk_bytes).len(),
    ensures
        ({
            let ranges = segment_ranges(size, threshold, chunk_bytes);
            &&& 2 <= ranges.len() <= 8
            &&& ranges[0].0 == 0
            &&& ranges[at].1 > 0
            &&& ranges[at].0 % (chunk_bytes as u64) == 0
            &&& at + 1 < ranges.len() ==> ranges[at + 1].0 == ranges[at].0 + ranges[at].1
                && ranges[at].1 % (chunk_bytes as u64) == 0
            &&& at + 1 == ranges.len() ==> ranges[at].0 + ranges[at].1 == size
        }),
{
    lemma_segments_fit(size, threshold, chunk_bytes);
    let count = segment_count(size, threshold);
    let base = segment_base(size, threshold, chunk_bytes);
    let chunk = chunk_bytes as int;
    assert(0 <= at * base && at * base + base <= count * base && (at + 1) * base == at * base
        + base) by (nonlinear_arith)
        requires
            0 <= at < count,
            base > 0,
    ;
    assert((at * base) % chunk == 0) by (nonlinear_arith)
        requires
            base % chunk == 0,
            chunk > 0,
    {
        assert(base == (base / chunk) * chunk) by (nonlinear_arith)
            requires
                base % chunk == 0,
                chunk > 0,
        ;
        assert(at * base == (at * (base / chunk)) * chunk) by (nonlinear_arith)
            requires
                base == (base / chunk) * chunk,
        ;
        assert(((at * (base / chunk)) * chunk) % chunk == 0) by (nonlinear_arith)
            requires
                chunk > 0,
        ;
    }
    assert(0 * base == 0);
}

/// The next operation of one parallel segment.
#[derive(Debug, PartialEq, Eq)]
pub enum SegmentStep {
    /// Open the source and read its metadata.
    OpenSource,
    /// Seek the start of the segment in the source.
    SeekSource,
    /// Seek the start of the segment in the destination.
    SeekDestination,
    /// Tell whether another segment stopped this one, and whether the copy was
    /// canceled.
    CheckFlags {
        /// Bytes still to be moved.
        remaining: u64,
    },
    /// Read up to `max` bytes.
    Read {
        /// Bytes still to be moved.
        remaining: u64,
        /// The size of the request.
        max: usize,
    },
    /// Write all of these bytes.
    Write {
        /// Bytes still to be moved.
        remaining: u64,
        /// The bytes.
        bytes: Vec<u8>,
    },
    /// Flush the destination.
    Flush,
    /// The segment is over.
    Finished {
        /// Why it failed, if it did.
        failure: Option<OperationError>,
    },
}

/// The next operation of one parallel segment, as values.
#[verifier::ext_equal]
pub ghost enum SegmentStepView {
    OpenSource,
    SeekSource,
    SeekDestination,
    CheckFlags { remaining: u64 },
    Read { remaining: u64, max: usize },
    Write { remaining: u64, bytes: Seq<u8> },
    Flush,
    Finished { failure: Option<ErrorView> },
}

impl View for SegmentStep {
    type V = SegmentStepView;

    open spec fn view(&self) -> SegmentStepView {
        match *self {
            SegmentStep::OpenSource => SegmentStepView::OpenSource,
            SegmentStep::SeekSource => SegmentStepView::SeekSource,
            SegmentStep::SeekDestination => SegmentStepView::SeekDestination,
            SegmentStep::CheckFlags { remaining } => SegmentStepView::CheckFlags { remaining },
            SegmentStep::Read { remaining, max } => SegmentStepView::Read { remaining, max },
            SegmentStep::Write { remaining, bytes } => SegmentStepView::Write {
                remaining,
                bytes: bytes@,
            },
            SegmentStep::Flush => SegmentStepView::Flush,
            SegmentStep::Finished { failure } => SegmentStepView::Finished {
                failure: crate::audit::opt_error(failure),
            },
        }
    }
}

/// What an operation of one parallel segment came to.
#[derive(Debug, PartialEq, Eq)]
pub enum SegmentReply {
    /// Metadata of the opened source.
    Metadata(Result<ObjectMetadata, IoError>),
    /// Something was done.
    Done(Result<(), IoError>),
    /// Whether the segment was stopped or canceled.
    Flags {
        /// Another segment failed.
        stopped: bool,
        /// The copy was canceled.
        canceled: bool,
    },
    /// The bytes that the source gave; none at its end.
    Read(Result<Vec<u8>, IoError>),
}

/// What an operation of one parallel segment came to, as values.
#[verifier::ext_equal]
pub ghost enum SegmentReplyView {
    Metadata(Result<ObjectMetadata, IoError>),
    Done(Result<(), IoError>),
    Flags { stopped: bool, canceled: bool },
    Read(Result<Seq<u8>, IoError>),
}

impl View for SegmentReply {
    type V = SegmentReplyView;

    open spec fn view(&self) -> SegmentReplyView {
        match *self {
            SegmentReply::Metadata(result) => SegmentReplyView::Metadata(result),
            SegmentReply::Done(result) => SegmentReplyView::Done(result),
            SegmentReply::Flags { stopped, canceled } => SegmentReplyView::Flags {
                stopped,
                canceled,
            },
            SegmentReply::Read(Ok(bytes)) => SegmentReplyView::Read(Ok(bytes@)),
            SegmentReply::Read(Err(error)) => SegmentReplyView::Read(Err(error)),
        }
    }
}

/// Whether a reply answers a step of a segment.
pub open spec fn segment_answers(step: SegmentStepView, reply: SegmentReplyView) -> bool {
    match step {
        SegmentStepView::OpenSource => reply is Metadata,
        SegmentStepView::CheckFlags { remaining } => remaining > 0 && reply is Flags,
        SegmentStepView::Read { remaining, max } => max <= remaining && (
        reply matches SegmentReplyView::Read(read) && (read matches Ok(bytes) ==> bytes.len()
            <= max)),
        SegmentStepView::Write { remaining, bytes } => bytes.len() <= remaining && reply is Done,
        SegmentStepView::Finished { .. } => false,
        _ => reply is Done,
    }
}

/// The step with some bytes still to be moved.
pub open spec fn segment_progress(remaining: u64) -> SegmentStepView {
    if remaining > 0 {
        SegmentStepView::CheckFlags { remaining }
    } else {
        SegmentStepView::Flush
    }
}

/// The end of a segment that failed.
pub open spec fn segment_failed(error: ErrorView) -> SegmentStepView {
    SegmentStepView::Finished { failure: Some(error) }
}

/// The next step of one parallel segment of `length` bytes, and the counters
/// then.
pub open spec fn segment_next(
    request: EngineRequest,
    length: u64,
    buffer_bytes: usize,
    step: SegmentStepView,
    reply: SegmentReplyView,
    counters: Counters,
) -> (SegmentStepView, Counters) {
    let rel = request.rel();
    match (step, reply) {
        (SegmentStepView::OpenSource, SegmentReplyView::Metadata(opened)) => match opened {
            Err(error) => (segment_failed(source_open_view("open_src"@, rel, error)), counters),
            Ok(observed) => if same_source(request.source(), observed) {
                (SegmentStepView::SeekSource, counters)
            } else {
                (segment_failed(source_changed_view("open_src"@, rel)), counters)
            },
        },
        (SegmentStepView::SeekSource, SegmentReplyView::Done(done)) => match done {
            Ok(_) => (SegmentStepView::SeekDestination, counters),
            Err(error) => (segment_failed(operation_view("seek_src"@, rel, error)), counters),
        },
        (SegmentStepView::SeekDestination, SegmentReplyView::Done(done)) => match done {
            Ok(_) => (segment_progress(length), counters),
            Err(error) => (segment_failed(operation_view("seek_dst"@, rel, error)), counters),
        },
        (
            SegmentStepView::CheckFlags { remaining },
            SegmentReplyView::Flags { stopped, canceled },
        ) => if stopped {
            (SegmentStepView::Finished { failure: None }, counters)
        } else if canceled {
            (segment_failed(canceled_view(rel)), counters)
        } else {
            (
                SegmentStepView::Read {
                    remaining,
                    max: if remaining < buffer_bytes {
                        remaining as usize
                    } else {
                        buffer_bytes
                    },
                },
                counters,
            )
        },
        (SegmentStepView::Read { remaining, .. }, SegmentReplyView::Read(read)) => match read {
            Err(error) => (segment_failed(operation_view("read"@, rel, error)), counters),
            Ok(bytes) => if bytes.len() == 0 {
                (segment_failed(truncated_view(SegmentSite::Stream, rel)), counters)
            } else {
                (
                    SegmentStepView::Write { remaining, bytes },
                    with_read(counters, bytes.len() as u64),
                )
            },
        },
        (SegmentStepView::Write { remaining, bytes }, SegmentReplyView::Done(done)) => {
            match done {
                Err(error) => (segment_failed(operation_view("write"@, rel, error)), counters),
                Ok(_) => (
                    segment_progress((remaining - bytes.len()) as u64),
                    with_written(counters, bytes.len() as u64),
                ),
            }
        },
        (SegmentStepView::Flush, SegmentReplyView::Done(done)) => match done {
            Ok(_) => (SegmentStepView::Finished { failure: None }, counters),
            Err(error) => (segment_failed(operation_view("write"@, rel, error)), counters),
        },
        _ => (step, counters),
    }
}

fn fail_segment(error: OperationError) -> (step: SegmentStep)
    ensures
        step@ == segment_failed(error@),
{
    SegmentStep::Finished { failure: Some(error) }
}

/// Decides the next operation of one parallel segment. The first one is to open
/// the source: each segment proves its own source object.
#[verifier::rlimit(40)]
pub fn copy_segment_range(
    request: &EngineRequest,
    length: u64,
    buffer_bytes: usize,
    counters: &mut Counters,
    step: SegmentStep,
    reply: SegmentReply,
) -> (next: SegmentStep)
    requires
        buffer_bytes > 0,
        segment_answers(step@, reply@),
    ensures
        segment_next(*request, length, buffer_bytes, step@, reply@, *old(counters)) == (
            next@,
            *final(counters),
        ),
{
    let rel = request.relative_path;
    match (step, reply) {
        (SegmentStep::OpenSource, SegmentReply::Metadata(opened)) => match opened {
            Err(error) => fail_segment(source_open_error("open_src", rel, &error)),
            Ok(observed) => match ensure_source_unchanged(
                request.source_snapshot,
                &observed,
                rel,
                "open_src",
            ) {
                Ok(_) => SegmentStep::SeekSource,
                Err(error) => fail_segment(error),
            },
        },
        (SegmentStep::SeekSource, SegmentReply::Done(done)) => match done {
            Ok(_) => SegmentStep::SeekDestination,
            Err(error) => fail_segment(operation_error("seek_src", rel, &error)),
        },
        (SegmentStep::SeekDestination, SegmentReply::Done(done)) => match done {
            Ok(_) => {
                if length > 0 {
                    SegmentStep::CheckFlags { remaining: length }
                } else {
                    SegmentStep::Flush
                }
            },
            Err(error) => fail_segment(operation_error("seek_dst", rel, &error)),
        },
        (SegmentStep::CheckFlags { remaining }, SegmentReply::Flags { stopped, canceled }) => {
            if stopped {
                // Another segment's failure is authoritative.
                SegmentStep::Finished { failure: None }
            } else if canceled {
                fail_segment(canceled_error(rel))
            } else {
                let max: usize = if remaining < buffer_bytes as u64 {
                    remaining as usize
                } else {
                    buffer_bytes
                };
                SegmentStep::Read { remaining, max }
            }
        },
        (SegmentStep::Read { remaining, .. }, SegmentReply::Read(read)) => match read {
            Err(error) => fail_segment(operation_error("read", rel, &error)),
            Ok(bytes) => {
                if bytes.len() == 0 {
                    fail_segment(truncated_error(SegmentSite::Stream, rel))
                } else {
                    count_read(counters, bytes.len() as u64);
                    SegmentStep::Write { remaining, bytes }
                }
            },
        },
        (SegmentStep::Write { remaining, bytes }, SegmentReply::Done(done)) => match done {
            Err(error) => fail_segment(operation_error("write", rel, &error)),
            Ok(_) => {
                let count: u64 = bytes.len() as u64;
                count_written(counters, count);
                let left: u64 = remaining - count;
                if left > 0 {
                    SegmentStep::CheckFlags { remaining: left }
                } else {
                    SegmentStep::Flush
                }
            },
        },
        (SegmentStep::Flush, SegmentReply::Done(done)) => match done {
            Ok(_) => SegmentStep::Finished { failure: None },
            Err(error) => fail_segment(operation_error("write", rel, &error)),
        },
        (step, _) => step,
    }
}

/// What the segments of one file share: the first failure and the signal to
/// stop.
#[derive(Clone, Debug, PartialEq, Eq)]
pub struct SegmentOutcome {
    /// The first failure.
    pub first_error: Option<OperationError>,
    /// Whether the other segments are to stop.
    pub stop: bool,
}

impl SegmentOutcome {
    /// No segment has failed.
    pub fn new() -> (outcome: SegmentOutcome)
        ensures
            outcome.first_error is None,
            !outcome.stop,
    {
        SegmentOutcome { first_error: None, stop: false }
    }
}

/// Records the first segment failure and stops the other segments; later
/// failures are dropped.
pub fn record_segment_error(outcome: &mut SegmentOutcome, error: OperationError)
    ensures
        final(outcome).stop,
        final(outcome).first_error == if old(outcome).first_error is Some {
            old(outcome).first_error
        } else {
            Some(error)
        },
{
    if outcome.first_error.is_none() {
        outcome.first_error = Some(error);
    }
    outcome.stop = true;
}

/// Adds the I/O of one segment to that of its file.
pub fn add_segment_io(counters: &mut Counters, segment: &Counters)
    ensures
        *final(counters) == with_written(
            with_read(*old(counters), segment.bytes_read_source),
            segment.bytes_written_destination,
        ),
{
    count_read(counters, segment.bytes_read_source);
    count_written(counters, segment.bytes_written_destination);
}

/// The failure of a segment's thread.
pub fn segment_panic_error(relative_path: &WidePath) -> (failure: OperationError)
    ensures
        failure@ == semantic_error_view(
            ErrorCategory::Internal,
            "segment_panic"@,
            relative_path@,
            "segment thread panicked; this is a bigcp bug \u{2014} please file the log"@,
        ),
{
    OperationError::semantic(
        ErrorCategory::Internal,
        "segment_panic",
        relative_path.copied(),
        "segment thread panicked; this is a bigcp bug \u{2014} please file the log".to_owned(),
    )
}

/// Which local file a digest pass reads.
#[derive(Clone, Copy, Debug, PartialEq, Eq, Structural)]
pub enum DigestPass {
    /// The source, while segments write to the other side.
    LocalSource,
    /// The temporary, after every segment has ended.
    LocalTemp,
}

/// The next operation of a digest pass.
#[derive(Debug, PartialEq, Eq)]
pub enum DigestStep {
    /// Seek the start.
    Rewind,
    /// Tell whether a segment stopped the pass, and whether the copy was
    /// canceled.
    CheckFlags {
        /// Bytes still to be read.
        remaining: u64,
    },
    /// Read up to `max` bytes.
    Read {
        /// Bytes still to be read.
        remaining: u64,
        /// The size of the request.
        max: usize,
    },
    /// The pass is over.
    Finished {
        /// Why it failed, if it did.
        failure: Option<OperationError>,
    },
}

/// The next operation of a digest pass, as values.
#[verifier::ext_equal]
pub ghost enum DigestStepView {
    Rewind,
    CheckFlags { remaining: u64 },
    Read { remaining: u64, max: usize },
    Finished { failure: Option<ErrorView> },
}

impl View for DigestStep {
    type V = DigestStepView;

    open spec fn view(&self) -> DigestStepView {
        match *self {
            DigestStep::Rewind => DigestStepView::Rewind,
            DigestStep::CheckFlags { remaining } => DigestStepView::CheckFlags { remaining },
            DigestStep::Read { remaining, max } => DigestStepView::Read { remaining, max },
            DigestStep::Finished { failure } => DigestStepView::Finished {
                failure: crate::audit::opt_error(failure),
            },
        }
    }
}

/// Whether a reply answers a step of a digest pass.
pub open spec fn digest_answers(step: DigestStepView, reply: SegmentReplyView) -> bool {
    match step {
        DigestStepView::Rewind => reply is Done,
        DigestStepView::CheckFlags { remaining } => remaining > 0 && reply is Flags,
        DigestStepView::Read { remaining, max } => max <= remaining && (
        reply matches SegmentReplyView::Read(read) && (read matches Ok(bytes) ==> bytes.len()
            <= max)),
        DigestStepView::Finished { .. } => false,
    }
}

/// The step with some bytes still to be read.
pub open spec fn digest_progress(remaining: u64) -> DigestStepView {
    if remaining > 0 {
        DigestStepView::CheckFlags { remaining }
    } else {
        DigestStepView::Finished { failure: None }
    }
}

/// The end of a digest pass that failed.
pub open spec fn digest_failed(error: ErrorView) -> DigestStepView {
    DigestStepView::Finished { failure: Some(error) }
}

/// The failure of a digest pass whose file ends early.
pub open spec fn short_digest_view(pass: DigestPass, rel: Seq<u16>) -> ErrorView {
    match pass {
        DigestPass::LocalSource => truncated_view(SegmentSite::Stream, rel),
        DigestPass::LocalTemp => semantic_error_view(
            ErrorCategory::Internal,
            "read_dst_temp"@,
            rel,
            "segment-written temporary ended before its pinned size"@,
        ),
    }
}

/// The name of a read of a digest pass.
pub open spec fn digest_read_op(pass: DigestPass) -> Seq<char> {
    match pass {
        DigestPass::LocalSource => "read"@,
        DigestPass::LocalTemp => "read_dst_temp"@,
    }
}

/// The next step of a digest pass over `length` bytes, and what is digested
/// then.
pub open spec fn digest_next(
    pass: DigestPass,
    rel: Seq<u16>,
    length: u64,
    buffer_bytes: usize,
    step: DigestStepView,
    reply: SegmentReplyView,
    digest: Seq<u8>,
) -> (DigestStepView, Seq<u8>) {
    match (step, reply) {
        (DigestStepView::Rewind, SegmentReplyView::Done(done)) => match done {
            Ok(_) => (digest_progress(length), digest),
            Err(error) => (
                digest_failed(
                    operation_view(
                        match pass {
                            DigestPass::LocalSource => "seek_src"@,
                            DigestPass::LocalTemp => "seek_dst_temp"@,
                        },
                        rel,
                        error,
                    ),
                ),
                digest,
            ),
        },
        (
            DigestStepView::CheckFlags { remaining },
            SegmentReplyView::Flags { stopped, canceled },
        ) => if stopped && pass is LocalSource {
            (DigestStepView::Finished { failure: None }, digest)
        } else if canceled {
            (digest_failed(canceled_view(rel)), digest)
        } else {
            (
                DigestStepView::Read {
                    remaining,
                    max: if remaining < buffer_bytes {
                        remaining as usize
                    } else {
                        buffer_bytes
                    },
                },
                digest,
            )
        },
        (DigestStepView::Read { remaining, .. }, SegmentReplyView::Read(read)) => match read {
            Err(error) => (
                digest_failed(operation_view(digest_read_op(pass), rel, error)),
                digest,
            ),
            Ok(bytes) => if bytes.len() == 0 {
                (digest_failed(short_digest_view(pass, rel)), digest)
            } else {
                (digest_progress((remaining - bytes.len()) as u64), digest + bytes)
            },
        },
        _ => (step, digest),
    }
}

fn fail_digest(error: OperationError) -> (step: DigestStep)
    ensures
        step@ == digest_failed(error@),
{
    DigestStep::Finished { failure: Some(error) }
}

/// Decides the next operation of a digest pass over the local side of a file
/// that is copied in parallel segments. The pass is not copy I/O: no counter
/// changes.
pub fn hash_local_file(
    pass: DigestPass,
    relative_path: &WidePath,
    length: u64,
    buffer_bytes: usize,
    hasher: &mut StreamDigest,
    step: DigestStep,
    reply: SegmentReply,
) -> (next: DigestStep)
    requires
        buffer_bytes > 0,
        digest_answers(step@, reply@),
    ensures
        digest_next(
            pass,
            relative_path@,
            length,
            buffer_bytes,
            step@,
            reply@,
            old(hasher)@,
        ) == (next@, final(hasher)@),
{
    match (step, reply) {
        (DigestStep::Rewind, SegmentReply::Done(done)) => match done {
            Ok(_) => {
                if length > 0 {
                    DigestStep::CheckFlags { remaining: length }
                } else {
                    DigestStep::Finished { failure: None }
                }
            },
            Err(error) => {
                let operation: &str = match pass {
                    DigestPass::LocalSource => "seek_src",
                    DigestPass::LocalTemp => "seek_dst_temp",
                };
                fail_digest(operation_error(operation, relative_path, &error))
            },
        },
        (DigestStep::CheckFlags { remaining }, SegmentReply::Flags { stopped, canceled }) => {
            if stopped && pass == DigestPass::LocalSource {
                // A segment's failure is authoritative.
                DigestStep::Finished { failure: None }
            } else if canceled {
                fail_digest(canceled_error(relative_path))
            } else {
                let max: usize = if remaining < buffer_bytes as u64 {
                    remaining as usize
                } else {
                    buffer_bytes
                };
                DigestStep::Read { remaining, max }
            }
        },
        (DigestStep::Read { remaining, .. }, SegmentReply::Read(read)) => match read {
            Err(error) => {
                let operation: &str = match pass {
                    DigestPass::LocalSource => "read",
                    DigestPass::LocalTemp => "read_dst_temp",
                };
                fail_digest(operation_error(operation, relative_path, &error))
            },
            Ok(bytes) => {
                if bytes.len() == 0 {
                    match pass {
                        DigestPass::LocalSource => fail_digest(
                            truncated_error(SegmentSite::Stream, relative_path),
                        ),
                        DigestPass::LocalTemp => fail_digest(
                            OperationError::semantic(
                                ErrorCategory::Internal,
                                "read_dst_temp",
                                relative_path.copied(),
                                "segment-written temporary ended before its pinned size".to_owned(),
                            ),
                        ),
                    }
                } else {
                    hasher.update(bytes.as_slice());
                    let left: u64 = remaining - bytes.len() as u64;
                    if left > 0 {
                        DigestStep::CheckFlags { remaining: left }
                    } else {
                        DigestStep::Finished { failure: None }
                    }
                }
            },
        },
        (step, _) => step,
    }
}

/// A digest pass that ends by itself has digested exactly the file's length:
/// what is still to be read and what was digested always add up.
pub proof fn digest_pass_covers_the_file(
    pass: DigestPass,
    rel: Seq<u16>,
    length: u64,
    buffer_bytes: usize,
    remaining: u64,
    max: usize,
    bytes: Seq<u8>,
    digest: Seq<u8>,
)
    requires
        buffer_bytes > 0,
        0 < bytes.len() <= max <= remaining,
        digest.len() + remaining == length,
    ensures
        ({
            let (next, after) = digest_next(
                pass,
                rel,
                length,
                buffer_bytes,
                DigestStepView::Read { remaining, max },
                SegmentReplyView::Read(Ok(bytes)),
                digest,
            );
            match next {
                DigestStepView::CheckFlags { remaining: left } => after.len() + left == length,
                _ => next == (DigestStepView::Finished { failure: None }) && after.len() == length,
            }
        }),
{
}

/// What is known of one transfer: what comes next, what was counted and
/// digested, and which bytes were read of the source and written to the
/// destination, each in order.
pub ghost struct TransferScene {
    pub step: TransferStepView,
    pub effects: TransferEffects,
    pub read: Seq<u8>,
    pub written: Seq<u8>,
}

impl TransferScene {
    /// The scene before anything was moved.
    pub open spec fn fresh(bound: u64, effects: TransferEffects) -> TransferScene {
        TransferScene {
            step: transfer_progress(0, bound),
            effects,
            read: seq![],
            written: seq![],
        }
    }

    /// The scene after an operation.
    pub open spec fn after(
        self,
        site: SegmentSite,
        rel: Seq<u16>,
        bound: u64,
        buffer_bytes: usize,
        reply: TransferReplyView,
    ) -> TransferScene {
        let (step, effects) = transfer_next(
            site,
            rel,
            bound,
            buffer_bytes,
            self.step,
            reply,
            self.effects,
        );
        TransferScene {
            step,
            effects,
            read: match (self.step, reply) {
                (TransferStepView::Read { .. }, TransferReplyView::Read(Ok(bytes))) => self.read
                    + bytes,
                _ => self.read,
            },
            written: match (self.step, reply) {
                (
                    TransferStepView::Write { bytes, .. },
                    TransferReplyView::Written(Ok(_)),
                ) => self.written + bytes,
                _ => self.written,
            },
        }
    }

    /// The scene after a list of operations.
    pub open spec fn played(
        self,
        site: SegmentSite,
        rel: Seq<u16>,
        bound: u64,
        buffer_bytes: usize,
        replies: Seq<TransferReplyView>,
    ) -> TransferScene
        decreases replies.len(),
    {
        if replies.len() == 0 {
            self
        } else {
            self.played(site, rel, bound, buffer_bytes, replies.drop_last()).after(
                site,
                rel,
                bound,
                buffer_bytes,
                replies.last(),
            )
        }
    }

    /// Whether every reply answers the operation that was asked for.
    pub open spec fn answered_by(
        self,
        site: SegmentSite,
        rel: Seq<u16>,
        bound: u64,
        buffer_bytes: usize,
        replies: Seq<TransferReplyView>,
    ) -> bool
        decreases replies.len(),
    {
        replies.len() > 0 ==> {
            &&& self.answered_by(site, rel, bound, buffer_bytes, replies.drop_last())
            &&& transfer_answers(
                bound,
                self.played(site, rel, bound, buffer_bytes, replies.drop_last()).step,
                replies.last(),
            )
        }
    }
}

/// A transfer writes exactly the bytes that it read, in their order, and is done
/// only once it moved exactly as many as it was to. Every byte is digested once
/// before it is written, and counted once as read and once as written.
pub proof fn transfer_writes_what_it_read(
    site: SegmentSite,
    rel: Seq<u16>,
    bound: u64,
    buffer_bytes: usize,
    effects: TransferEffects,
    replies: Seq<TransferReplyView>,
)
    requires
        TransferScene::fresh(bound, effects).answered_by(site, rel, bound, buffer_bytes, replies),
        effects.counters.bytes_read_source + bound <= u64::MAX,
        effects.counters.bytes_written_destination + bound <= u64::MAX,
    ensures
        ({
            let scene = TransferScene::fresh(bound, effects).played(
                site,
                rel,
                bound,
                buffer_bytes,
                replies,
            );
            let pending = scene.step is Write;
            let whole = !(scene.step is Failed);
            &&& whole ==> scene.effects.digest == digested(effects.digest, scene.read)
            &&& whole ==> scene.effects.counters.bytes_written_destination
                == effects.counters.bytes_written_destination + scene.written.len()
            &&& whole ==> scene.effects.counters.bytes_read_source
                == effects.counters.bytes_read_source + if site is Sparse {
                scene.written.len()
            } else {
                scene.read.len()
            }
            &&& scene.step matches TransferStepView::Write { moved, bytes } ==> scene.read
                == scene.written + bytes && scene.written.len() == moved
            &&& scene.step matches TransferStepView::Read { moved, .. } ==> scene.read
                == scene.written && scene.written.len() == moved
            &&& scene.step matches TransferStepView::Poll { moved } ==> scene.read == scene.written
                && scene.written.len() == moved
            &&& scene.step matches TransferStepView::Done { moved } ==> scene.read == scene.written
                && scene.written.len() == moved && moved == bound
        }),
    decreases replies.len(),
{
    let fresh = TransferScene::fresh(bound, effects);
    if replies.len() > 0 {
        let front = replies.drop_last();
        transfer_writes_what_it_read(site, rel, bound, buffer_bytes, effects, front);
        let before = fresh.played(site, rel, bound, buffer_bytes, front);
        match (before.step, replies.last()) {
            (TransferStepView::Read { .. }, TransferReplyView::Read(Ok(bytes))) => {
                if effects.digest is Some {
                    assert((effects.digest->0 + before.read) + bytes =~= effects.digest->0 + (
                    before.read + bytes));
                }
            },
            _ => {},
        }
    } else {
        assert(fresh.read =~= fresh.written);
        if effects.digest is Some {
            assert(effects.digest->0 + seq![] =~= effects.digest->0);
        }
    }
}

/// A transfer that meets the end of its source, a failure or a cancellation
/// fails, and the failure names it; nothing else stops it early.
pub proof fn transfer_stops_only_for_a_reason(
    site: SegmentSite,
    rel: Seq<u16>,
    bound: u64,
    buffer_bytes: usize,
    step: TransferStepView,
    reply: TransferReplyView,
    effects: TransferEffects,
)
    requires
        transfer_answers(bound, step, reply),
    ensures
        ({
            let next = transfer_next(site, rel, bound, buffer_bytes, step, reply, effects).0;
            let ended = reply matches TransferReplyView::Read(Ok(bytes)) && bytes.len() == 0;
            let broken = reply matches TransferReplyView::Read(Err(_)) || reply matches
                TransferReplyView::Written(Err(_));
            &&& next is Failed <==> ended || broken || reply == TransferReplyView::Polled(true)
            &&& ended ==> next->error.category is SourceChanged
            &&& reply == TransferReplyView::Polled(true) ==> next->error.operation
                == "canceled_mid_file"@
        }),
{
}

/// What is known of one range of a file while it is copied: how far it is, and
/// where in the source and the destination it reads and writes.
pub ghost struct RangeScene {
    pub step: SegmentStepView,
    pub counters: Counters,
    pub read: Seq<u8>,
    pub written: Seq<u8>,
    pub source_seen: bool,
    pub flushed: bool,
    pub stopped: bool,
}

impl RangeScene {
    /// The scene before the source is open.
    pub open spec fn fresh(counters: Counters) -> RangeScene {
        RangeScene {
            step: SegmentStepView::OpenSource,
            counters,
            read: seq![],
            written: seq![],
            source_seen: false,
            flushed: false,
            stopped: false,
        }
    }

    /// The scene after an operation.
    pub open spec fn after(
        self,
        request: EngineRequest,
        length: u64,
        buffer_bytes: usize,
        reply: SegmentReplyView,
    ) -> RangeScene {
        let (step, counters) = segment_next(
            request,
            length,
            buffer_bytes,
            self.step,
            reply,
            self.counters,
        );
        let source = request.source_snapshot.metadata;
        RangeScene {
            step,
            counters,
            read: match (self.step, reply) {
                (SegmentStepView::Read { .. }, SegmentReplyView::Read(Ok(bytes))) => self.read
                    + bytes,
                _ => self.read,
            },
            written: match (self.step, reply) {
                (SegmentStepView::Write { bytes, .. }, SegmentReplyView::Done(Ok(_))) => self.written
                    + bytes,
                _ => self.written,
            },
            source_seen: self.source_seen || (self.step is OpenSource && (
            reply matches SegmentReplyView::Metadata(Ok(seen)) && {
                &&& seen.identity == source.identity
                &&& seen.size == source.size
                &&& seen.basic.last_write_time == source.basic.last_write_time
            })),
            flushed: self.flushed || (self.step is Flush && reply matches SegmentReplyView::Done(
                Ok(_),
            )),
            stopped: self.stopped || (reply matches SegmentReplyView::Flags { stopped, .. }
                && stopped),
        }
    }

    /// The scene after a list of operations.
    pub open spec fn played(
        self,
        request: EngineRequest,
        length: u64,
        buffer_bytes: usize,
        replies: Seq<SegmentReplyView>,
    ) -> RangeScene
        decreases replies.len(),
    {
        if replies.len() == 0 {
            self
        } else {
            self.played(request, length, buffer_bytes, replies.drop_last()).after(
                request,
                length,
                buffer_bytes,
                replies.last(),
            )
        }
    }

    /// Whether every reply answers the operation that was asked for.
    pub open spec fn answered_by(
        self,
        request: EngineRequest,
        length: u64,
        buffer_bytes: usize,
        replies: Seq<SegmentReplyView>,
    ) -> bool
        decreases replies.len(),
    {
        replies.len() > 0 ==> {
            &&& self.answered_by(request, length, buffer_bytes, replies.drop_last())
            &&& segment_answers(
                self.played(request, length, buffer_bytes, replies.drop_last()).step,
                replies.last(),
            )
        }
    }
}

/// A range of a file ends well only once exactly its bytes were read of the
/// enumerated source, written in their order and flushed, unless another range
/// made it stop.
pub proof fn range_is_copied_whole(
    request: EngineRequest,
    length: u64,
    buffer_bytes: usize,
    counters: Counters,
    replies: Seq<SegmentReplyView>,
)
    requires
        RangeScene::fresh(counters).answered_by(request, length, buffer_bytes, replies),
        counters.bytes_read_source + length <= u64::MAX,
        counters.bytes_written_destination + length <= u64::MAX,
    ensures
        ({
            let scene = RangeScene::fresh(counters).played(request, length, buffer_bytes, replies);
            let underway = scene.step is CheckFlags || scene.step is Read || scene.step is Write
                || scene.step is Flush || scene.step is SeekSource || scene.step is SeekDestination;
            let whole = underway || scene.step is OpenSource || scene.step == (
            SegmentStepView::Finished { failure: None });
            &&& underway ==> scene.source_seen && !scene.stopped
            &&& whole ==> scene.counters.bytes_written_destination
                == counters.bytes_written_destination + scene.written.len()
                && scene.counters.bytes_read_source == counters.bytes_read_source
                + scene.read.len()
            &&& scene.step is OpenSource || scene.step is SeekSource || scene.step
                is SeekDestination ==> scene.read.len() == 0 && scene.written.len() == 0
            &&& scene.step is OpenSource ==> !scene.stopped
            &&& scene.step matches SegmentStepView::CheckFlags { remaining } ==> scene.read
                == scene.written && scene.written.len() + remaining == length
            &&& scene.step matches SegmentStepView::Read { remaining, .. } ==> scene.read
                == scene.written && scene.written.len() + remaining == length
            &&& scene.step matches SegmentStepView::Write { remaining, bytes } ==> scene.read
                == scene.written + bytes && scene.written.len() + remaining == length
                && bytes.len() <= remaining
            &&& scene.step is Flush ==> scene.read == scene.written && scene.written.len()
                == length
            &&& scene.step == (SegmentStepView::Finished { failure: None }) ==> scene.stopped || {
                &&& scene.source_seen
                &&& scene.flushed
                &&& scene.read == scene.written
                &&& scene.written.len() == length
            }
        }),
    decreases replies.len(),
{
    if replies.len() > 0 {
        let front = replies.drop_last();
        range_is_copied_whole(request, length, buffer_bytes, counters, front);
        let before = RangeScene::fresh(counters).played(request, length, buffer_bytes, front);
        if before.step is SeekDestination {
            assert(before.read =~= before.written);
        }
    }
}

/// A file is split only between a WSL root and another one, and only where it
/// has neither named streams, a sparse layout nor checkpoints, no copy of it is
/// resumed, and it is large enough.
pub proof fn only_plain_large_wsl_files_are_split(
    transport: TransportProfile,
    source_is_wsl: bool,
    destination_is_wsl: bool,
    preserve_sparse: bool,
    streams: Seq<StreamView>,
    size: u64,
    threshold: u64,
    chunk_bytes: usize,
    checkpoint_eligible: bool,
    resume_candidate: bool,
)
    requires
        segments_apply(
            transport,
            source_is_wsl,
            destination_is_wsl,
            preserve_sparse,
            streams,
            size,
            threshold,
            chunk_bytes,
            checkpoint_eligible,
            resume_candidate,
        ),
    ensures
        transport.kind is Wsl,
        source_is_wsl && !destination_is_wsl || !source_is_wsl && destination_is_wsl,
        !preserve_sparse,
        !checkpoint_eligible,
        !resume_candidate,
        size >= threshold,
        forall|i: int| 0 <= i < streams.len() ==> (#[trigger] streams[i]).is_unnamed(),
{
}

/// The other pass over a file digests exactly its bytes, from its start, and
/// ends well only once it met all of them, unless the copy it goes along with
/// stopped.
pub proof fn digest_pass_ends_whole_or_stopped(
    pass: DigestPass,
    rel: Seq<u16>,
    length: u64,
    buffer_bytes: usize,
    step: DigestStepView,
    reply: SegmentReplyView,
    digest: Seq<u8>,
)
    requires
        digest_answers(step, reply),
    ensures
        ({
            let (next, after) = digest_next(pass, rel, length, buffer_bytes, step, reply, digest);
            let stopped = reply matches SegmentReplyView::Flags { stopped, .. } && stopped && pass
                is LocalSource;
            &&& reply matches SegmentReplyView::Read(Ok(bytes)) ==> (bytes.len() > 0 ==> after
                == digest + bytes) && (bytes.len() == 0 ==> next is Finished
                && next->failure is Some)
            &&& !(reply is Read) ==> after == digest
            &&& next == (DigestStepView::Finished { failure: None }) && !stopped ==> (step
                is Rewind && length == 0) || (step matches DigestStepView::Read { remaining, .. } && (
            reply matches SegmentReplyView::Read(Ok(bytes)) && bytes.len() == remaining))
            &&& step is Rewind && !(next is Finished) ==> next == (DigestStepView::CheckFlags {
                remaining: length,
            })
        }),
{
}

/// Which buffers a stream is copied through: one staging buffer on a shared
/// spindle, two through a redirector, and elsewhere one of the chunk size, which
/// must not be empty.
pub proof fn buffers_follow_the_transport(transport: TransportProfile, request_bytes: usize)
    ensures
        spec_stream_buffers(transport, request_bytes) is None <==> request_bytes == 0
            && !(transport.kind is SameSpindle) && !transport.spec_is_redirector(),
        spec_stream_buffers(transport, request_bytes) == Some(StreamBuffers::SameSpindle)
            <==> transport.kind is SameSpindle,
        spec_stream_buffers(transport, request_bytes) matches Some(
            StreamBuffers::Redirector { request_bytes: bytes },
        ) ==> transport.spec_is_redirector() && bytes == request_bytes,
        spec_stream_buffers(transport, request_bytes) matches Some(
            StreamBuffers::Standard { request_bytes: bytes },
        ) ==> !transport.spec_is_redirector() && bytes == request_bytes && bytes > 0,
{
}

/// A failure of the pipeline is told by its cause: what the system refused keeps
/// the system's code under the side that it came from, a source that ended early
/// has changed, and the rest is the program's own.
pub proof fn pipeline_failure_is_told_by_its_cause(
    site: SegmentSite,
    rel: Seq<u16>,
    request_bytes: usize,
    kind: PipelinedFailureKind,
)
    ensures
        ({
            let told = pipeline_failure_view(site, rel, request_bytes, kind);
            &&& told.path == rel
            &&& kind matches PipelinedFailureKind::Read(error) ==> told.code == error.code
                && told.message == error.message@ && told.category == category_of(error)
                && told.operation == site.spec_read_op()
            &&& kind matches PipelinedFailureKind::Write(error) ==> told.code == error.code
                && told.message == error.message@ && told.category == category_of(error)
                && told.operation == site.spec_write_op()
            &&& kind is NoProgress ==> told.operation == site.spec_write_op() && told.code is None
            &&& kind is UnexpectedEof ==> told.category is SourceChanged && told.operation
                == site.spec_read_op()
            &&& kind is Canceled ==> told.operation == CANCELED_MID_FILE@
            &&& kind is Allocate || kind is ReaderPanicked || kind is Internal || kind is Canceled
                ==> told.category is Internal && told.code is None
        }),
{
}

/// Reading and writing are told by names of their own at every site.
pub proof fn sides_of_a_transfer_are_told_apart(one: SegmentSite, other: SegmentSite)
    ensures
        one.spec_read_op() != other.spec_write_op(),
        one.spec_read_op() == other.spec_read_op() ==> one == other,
        one.spec_write_op() == other.spec_write_op() ==> one == other,
{
    reveal_strlit("read_sparse");
    reveal_strlit("read");
    reveal_strlit("read_stream");
    reveal_strlit("write_sparse");
    reveal_strlit("write");
    reveal_strlit("write_stream");
    assert("read_sparse"@.len() == 11 && "read_sparse"@[0] == 'r' && "read_sparse"@[6] == 'p');
    assert("read"@.len() == 4 && "read"@[0] == 'r');
    assert("read_stream"@.len() == 11 && "read_stream"@[0] == 'r' && "read_stream"@[6] == 't');
    assert("write_sparse"@.len() == 12 && "write_sparse"@[0] == 'w' && "write_sparse"@[7] == 'p');
    assert("write"@.len() == 5 && "write"@[0] == 'w');
    assert("write_stream"@.len() == 12 && "write_stream"@[0] == 'w' && "write_stream"@[7] == 't');
}

} // verus!
