//! Plain small files: read whole, checked, then written directly to their final
//! name.
//!
//! An interrupted write leaves a file that is shorter than its source, which
//! the next run repairs; a full write completes the file. That is why only
//! files without auxiliary data come here.

use vstd::prelude::*;
use vstd::string::*;

use crate::audit::opt_text;
use crate::engine::{
    operation_error, operation_view, post_read_failure, post_read_validate,
    readonly_restore_error, readonly_restore_view, EngineRequest, EngineResult,
};
use crate::error::{
    io_error_view, semantic_error_view, ErrorCategory, ErrorView, IoError, IoErrorKind,
    OperationError,
};
use crate::hashing::{digest_bytes, digest_text};
use crate::model::Counters;
use crate::platform::{
    has_attribute, is_encrypted, is_readonly, without_readonly, BasicMetadata, ObjectMetadata,
    StreamInfo, ATTRIBUTE_ENCRYPTED, ATTRIBUTE_READONLY,
};
use crate::segment::{with_read, with_written};
use crate::text::{decimal, push_decimal};

verus! {

/// A small file that is fully buffered and whose source is unchanged.
#[derive(Clone, Debug, PartialEq, Eq)]
pub struct PreparedPlainSmall {
    /// The content.
    pub bytes: Vec<u8>,
    /// The digest of the content, where it is wanted.
    pub digest: Option<String>,
    /// Named streams that are dropped.
    pub streams_dropped: u32,
    /// Whether extended attributes are dropped.
    pub eas_dropped: bool,
    /// The digest of the extended attributes, where it is wanted.
    pub ea_digest: Option<String>,
}

/// A prepared small file as values.
#[verifier::ext_equal]
pub ghost struct PreparedView {
    pub bytes: Seq<u8>,
    pub digest: Option<Seq<char>>,
    pub streams_dropped: u32,
    pub eas_dropped: bool,
    pub ea_digest: Option<Seq<char>>,
}

impl View for PreparedPlainSmall {
    type V = PreparedView;

    open spec fn view(&self) -> PreparedView {
        PreparedView {
            bytes: self.bytes@,
            digest: opt_text(self.digest),
            streams_dropped: self.streams_dropped,
            eas_dropped: self.eas_dropped,
            ea_digest: opt_text(self.ea_digest),
        }
    }
}

/// What is fixed while one small file is read.
#[derive(Clone, Copy, Debug, PartialEq, Eq, Structural)]
pub struct SmallRoute {
    /// Whether the content is digested.
    pub should_hash: bool,
    /// Named streams that are dropped.
    pub streams_dropped: u32,
    /// Whether extended attributes are dropped.
    pub eas_dropped: bool,
}

/// The next operation in reading one small file.
#[derive(Debug, PartialEq, Eq)]
pub enum SmallReadStep {
    /// Reserve a buffer.
    Reserve {
        /// Its size: the file and one sentinel byte.
        bytes: usize,
    },
    /// Read the file up to a limit.
    Read {
        /// The enumerated size and one sentinel byte, which proves growth.
        limit: u64,
    },
    /// Read the source's metadata again.
    Revalidate {
        /// The content.
        bytes: Vec<u8>,
    },
    /// The file is buffered.
    Ready {
        /// The file.
        prepared: PreparedPlainSmall,
    },
    /// The copy fails.
    Failed {
        /// Why.
        error: OperationError,
    },
}

/// The next operation in reading one small file, as values.
#[verifier::ext_equal]
pub ghost enum SmallReadView {
    Reserve { bytes: usize },
    Read { limit: u64 },
    Revalidate { bytes: Seq<u8> },
    Ready { prepared: PreparedView },
    Failed { error: ErrorView },
}

impl View for SmallReadStep {
    type V = SmallReadView;

    open spec fn view(&self) -> SmallReadView {
        match *self {
            SmallReadStep::Reserve { bytes } => SmallReadView::Reserve { bytes },
            SmallReadStep::Read { limit } => SmallReadView::Read { limit },
            SmallReadStep::Revalidate { bytes } => SmallReadView::Revalidate { bytes: bytes@ },
            SmallReadStep::Ready { prepared } => SmallReadView::Ready { prepared: prepared@ },
            SmallReadStep::Failed { error } => SmallReadView::Failed { error: error@ },
        }
    }
}

/// What an operation came to.
#[derive(Debug, PartialEq, Eq)]
pub enum SmallReadReply {
    /// Why a buffer could not be reserved, if it could not.
    Reserved(Option<String>),
    /// The bytes that were read.
    Read(Result<Vec<u8>, IoError>),
    /// Metadata of the open source.
    Metadata(Result<ObjectMetadata, IoError>),
}

/// What an operation came to, as values.
#[verifier::ext_equal]
pub ghost enum SmallReadReplyView {
    Reserved(Option<Seq<char>>),
    Read(Result<Seq<u8>, IoError>),
    Metadata(Result<ObjectMetadata, IoError>),
}

impl View for SmallReadReply {
    type V = SmallReadReplyView;

    open spec fn view(&self) -> SmallReadReplyView {
        match *self {
            SmallReadReply::Reserved(failure) => SmallReadReplyView::Reserved(opt_text(failure)),
            SmallReadReply::Read(Ok(bytes)) => SmallReadReplyView::Read(Ok(bytes@)),
            SmallReadReply::Read(Err(error)) => SmallReadReplyView::Read(Err(error)),
            SmallReadReply::Metadata(result) => SmallReadReplyView::Metadata(result),
        }
    }
}

/// Whether a reply answers a step.
pub open spec fn small_read_answers(step: SmallReadView, reply: SmallReadReplyView) -> bool {
    match step {
        SmallReadView::Reserve { .. } => reply is Reserved,
        SmallReadView::Read { .. } => reply is Read,
        SmallReadView::Revalidate { .. } => reply is Metadata,
        _ => false,
    }
}

/// The failure of a buffer.
pub open spec fn buffer_failure(rel: Seq<u16>, reason: Seq<char>) -> ErrorView {
    semantic_error_view(ErrorCategory::Internal, "allocate_buffer"@, rel, reason)
}

/// The first step in reading one small file.
pub open spec fn small_read_start(request: EngineRequest) -> SmallReadView {
    let size = request.source().size;
    if size > usize::MAX {
        SmallReadView::Failed {
            error: buffer_failure(
                request.rel(),
                "small-file size does not fit address space"@,
            ),
        }
    } else if size == usize::MAX {
        SmallReadView::Failed {
            error: buffer_failure(
                request.rel(),
                "small-file sentinel buffer size overflowed"@,
            ),
        }
    } else {
        SmallReadView::Reserve { bytes: (size + 1) as usize }
    }
}

/// What is prepared of a file with this content.
pub open spec fn prepared_view(
    request: EngineRequest,
    route: SmallRoute,
    bytes: Seq<u8>,
) -> PreparedView {
    PreparedView {
        bytes,
        digest: if route.should_hash {
            Some(digest_text(bytes))
        } else {
            None
        },
        streams_dropped: route.streams_dropped,
        eas_dropped: route.eas_dropped,
        ea_digest: if request.settings.tuning.verify && !route.eas_dropped {
            Some(digest_text(Seq::empty()))
        } else {
            None
        },
    }
}

/// The failure of a source that is shorter or longer than enumerated.
pub open spec fn wrong_length(request: EngineRequest, count: nat) -> ErrorView {
    semantic_error_view(
        ErrorCategory::SourceChanged,
        "read"@,
        request.rel(),
        "expected "@ + decimal(request.source().size as nat) + " bytes but read "@ + decimal(count),
    )
}

/// The next step in reading one small file, and the counters then.
pub open spec fn small_read_next(
    request: EngineRequest,
    route: SmallRoute,
    step: SmallReadView,
    reply: SmallReadReplyView,
    counters: Counters,
) -> (SmallReadView, Counters) {
    match (step, reply) {
        (SmallReadView::Reserve { .. }, SmallReadReplyView::Reserved(failure)) => match failure {
            Some(reason) => (
                SmallReadView::Failed { error: buffer_failure(request.rel(), reason) },
                counters,
            ),
            None => (
                SmallReadView::Read { limit: crate::model::sat(request.source().size, 1) },
                counters,
            ),
        },
        (SmallReadView::Read { .. }, SmallReadReplyView::Read(read)) => match read {
            Err(error) => (
                SmallReadView::Failed { error: operation_view("read"@, request.rel(), error) },
                counters,
            ),
            Ok(bytes) => (
                if bytes.len() == request.source().size {
                    SmallReadView::Revalidate { bytes }
                } else {
                    SmallReadView::Failed { error: wrong_length(request, bytes.len()) }
                },
                with_read(counters, bytes.len() as u64),
            ),
        },
        (SmallReadView::Revalidate { bytes }, SmallReadReplyView::Metadata(observed)) => (
            match post_read_failure(request, observed) {
                Some(error) => SmallReadView::Failed { error },
                None => SmallReadView::Ready { prepared: prepared_view(request, route, bytes) },
            },
            counters,
        ),
        _ => (step, counters),
    }
}

/// Starts reading one small file.
pub fn start_small_read(request: &EngineRequest) -> (step: SmallReadStep)
    ensures
        step@ == small_read_start(*request),
{
    let size: u64 = request.source_snapshot.metadata.size;
    if size > usize::MAX as u64 {
        return SmallReadStep::Failed {
            error: OperationError::semantic(
                ErrorCategory::Internal,
                "allocate_buffer",
                request.relative_path.copied(),
                "small-file size does not fit address space".to_owned(),
            ),
        };
    }
    let expected: usize = size as usize;
    match expected.checked_add(1) {
        Some(bytes) => SmallReadStep::Reserve { bytes },
        None => SmallReadStep::Failed {
            error: OperationError::semantic(
                ErrorCategory::Internal,
                "allocate_buffer",
                request.relative_path.copied(),
                "small-file sentinel buffer size overflowed".to_owned(),
            ),
        },
    }
}

/// Decides the next operation in reading one small file.
pub fn read_plain_small(
    request: &EngineRequest,
    route: SmallRoute,
    counters: &mut Counters,
    step: SmallReadStep,
    reply: SmallReadReply,
) -> (next: SmallReadStep)
    requires
        small_read_answers(step@, reply@),
    ensures
        small_read_next(*request, route, step@, reply@, *old(counters)) == (
            next@,
            *final(counters),
        ),
{
    match (step, reply) {
        (SmallReadStep::Reserve { .. }, SmallReadReply::Reserved(failure)) => match failure {
            Some(reason) => SmallReadStep::Failed {
                error: OperationError::semantic(
                    ErrorCategory::Internal,
                    "allocate_buffer",
                    request.relative_path.copied(),
                    reason,
                ),
            },
            None => SmallReadStep::Read {
                limit: request.source_snapshot.metadata.size.saturating_add(1),
            },
        },
        (SmallReadStep::Read { .. }, SmallReadReply::Read(read)) => match read {
            Err(error) => SmallReadStep::Failed {
                error: operation_error("read", request.relative_path, &error),
            },
            Ok(bytes) => {
                let count: u64 = bytes.len() as u64;
                counters.bytes_read_source = counters.bytes_read_source.saturating_add(count);
                if count == request.source_snapshot.metadata.size {
                    SmallReadStep::Revalidate { bytes }
                } else {
                    let mut message = "expected ".to_owned();
                    push_decimal(&mut message, request.source_snapshot.metadata.size);
                    message.append(" bytes but read ");
                    push_decimal(&mut message, count);
                    SmallReadStep::Failed {
                        error: OperationError::semantic(
                            ErrorCategory::SourceChanged,
                            "read",
                            request.relative_path.copied(),
                            message,
                        ),
                    }
                }
            },
        },
        (SmallReadStep::Revalidate { bytes }, SmallReadReply::Metadata(observed)) => {
            match post_read_validate(request, &observed) {
                Err(error) => SmallReadStep::Failed { error },
                Ok(_) => {
                    let digest = if route.should_hash {
                        Some(digest_bytes(bytes.as_slice()))
                    } else {
                        None
                    };
                    let ea_digest = if request.settings.tuning.verify && !route.eas_dropped {
                        let empty: Vec<u8> = Vec::new();
                        assert(empty@ =~= Seq::<u8>::empty());
                        Some(digest_bytes(empty.as_slice()))
                    } else {
                        None
                    };
                    SmallReadStep::Ready {
                        prepared: PreparedPlainSmall {
                            bytes,
                            digest,
                            streams_dropped: route.streams_dropped,
                            eas_dropped: route.eas_dropped,
                            ea_digest,
                        },
                    }
                },
            }
        },
        (step, _) => step,
    }
}

/// The next operation in opening the final name of one small file.
#[derive(Debug, PartialEq, Eq)]
pub enum CreateStep {
    /// Open the final name for writing.
    Open {
        /// The object that is expected there, where one is replaced.
        expected: Option<ObjectMetadata>,
    },
    /// Clear the read-only bit of the object that is replaced.
    ClearReadonly {
        /// What it is stamped with.
        cleared: BasicMetadata,
    },
    /// Open the final name again.
    Reopen {
        /// The object that is expected there.
        expected: ObjectMetadata,
    },
    /// Put the original metadata back.
    Restore {
        /// What it is stamped with.
        original: BasicMetadata,
        /// Why the name could not be opened.
        create_error: IoError,
    },
    /// The final name is open.
    Created,
    /// The copy fails.
    Failed {
        /// Why.
        error: OperationError,
    },
}

/// The next operation in opening the final name, as values.
#[verifier::ext_equal]
pub ghost enum CreateView {
    Open { expected: Option<ObjectMetadata> },
    ClearReadonly { cleared: BasicMetadata },
    Reopen { expected: ObjectMetadata },
    Restore { original: BasicMetadata, create_error: IoError },
    Created,
    Failed { error: ErrorView },
}

impl View for CreateStep {
    type V = CreateView;

    open spec fn view(&self) -> CreateView {
        match *self {
            CreateStep::Open { expected } => CreateView::Open { expected },
            CreateStep::ClearReadonly { cleared } => CreateView::ClearReadonly { cleared },
            CreateStep::Reopen { expected } => CreateView::Reopen { expected },
            CreateStep::Restore { original, create_error } => CreateView::Restore {
                original,
                create_error,
            },
            CreateStep::Created => CreateView::Created,
            CreateStep::Failed { error } => CreateView::Failed { error: error@ },
        }
    }
}

/// Whether a step waits for the result of an operation.
pub open spec fn create_waits(step: CreateView) -> bool {
    !(step is Created) && !(step is Failed)
}

/// An object's metadata without the read-only bit.
pub open spec fn cleared_basic(original: BasicMetadata) -> BasicMetadata {
    BasicMetadata { attributes: original.attributes & !ATTRIBUTE_READONLY, ..original }
}

/// The failure of opening the final name.
pub open spec fn create_failure(request: EngineRequest, error: IoError) -> ErrorView {
    let rel = request.rel();
    if error.kind is AlreadyExists {
        io_error_view(ErrorCategory::DestinationChanged, "create_dst"@, rel, error)
    } else if error.kind is InvalidData || (error.kind is NotFound && request.replaced() is Some) {
        io_error_view(ErrorCategory::DestinationChanged, "revalidate_dst"@, rel, error)
    } else {
        operation_view("create_dst"@, rel, error)
    }
}

/// The next step in opening the final name.
pub open spec fn create_next(
    request: EngineRequest,
    step: CreateView,
    done: Result<(), IoError>,
) -> CreateView {
    let rel = request.rel();
    match step {
        CreateView::Open { .. } => match done {
            Ok(_) => CreateView::Created,
            Err(error) => match request.replaced() {
                Some(old) => if error.kind is PermissionDenied {
                    if has_attribute(old.basic.attributes, ATTRIBUTE_READONLY) {
                        CreateView::ClearReadonly { cleared: cleared_basic(old.basic) }
                    } else {
                        CreateView::Failed { error: operation_view("create_dst"@, rel, error) }
                    }
                } else {
                    CreateView::Failed { error: create_failure(request, error) }
                },
                None => CreateView::Failed { error: create_failure(request, error) },
            },
        },
        CreateView::ClearReadonly { cleared } => match (done, request.replaced()) {
            (Ok(_), Some(old)) => CreateView::Reopen {
                expected: ObjectMetadata { basic: cleared, ..old },
            },
            (Err(error), _) => CreateView::Failed {
                error: operation_view("clear_readonly"@, rel, error),
            },
            _ => step,
        },
        CreateView::Reopen { .. } => match (done, request.replaced()) {
            (Ok(_), _) => CreateView::Created,
            (Err(create_error), Some(old)) => CreateView::Restore {
                original: old.basic,
                create_error,
            },
            _ => step,
        },
        CreateView::Restore { create_error, .. } => CreateView::Failed {
            error: match done {
                Ok(_) => operation_view("create_dst"@, rel, create_error),
                Err(restore_error) => readonly_restore_view(rel, create_error, restore_error),
            },
        },
        _ => step,
    }
}

/// Starts opening the final name, and says what the new file is stamped with at
/// once: a destination behind WSL is stamped after the write only.
pub fn start_create(request: &EngineRequest) -> (started: (CreateStep, Option<BasicMetadata>))
    ensures
        started.0@ == (CreateView::Open { expected: request.replaced() }),
        started.1 == if request.settings.destination.is_wsl {
            None
        } else {
            Some(request.destination_metadata)
        },
{
    let expected = match request.replacement_snapshot {
        Some(snapshot) => Some(snapshot.metadata),
        None => None,
    };
    let stamp = if request.settings.destination.is_wsl {
        None
    } else {
        Some(request.destination_metadata)
    };
    (CreateStep::Open { expected }, stamp)
}

fn create_error(request: &EngineRequest, error: &IoError) -> (failure: OperationError)
    ensures
        failure@ == create_failure(*request, *error),
{
    if error.kind == IoErrorKind::AlreadyExists {
        OperationError::from_io_as(
            ErrorCategory::DestinationChanged,
            "create_dst",
            request.relative_path.copied(),
            error,
        )
    } else if error.kind == IoErrorKind::InvalidData || (error.kind == IoErrorKind::NotFound
        && request.replacement_snapshot.is_some()) {
        OperationError::from_io_as(
            ErrorCategory::DestinationChanged,
            "revalidate_dst",
            request.relative_path.copied(),
            error,
        )
    } else {
        operation_error("create_dst", request.relative_path, error)
    }
}

/// Decides the next operation in opening the final name. A read-only bit that
/// the classification already saw is cleared first, and put back where the name
/// still cannot be opened.
pub fn create_final(request: &EngineRequest, step: CreateStep, done: Result<(), IoError>) -> (next:
    CreateStep)
    requires
        create_waits(step@),
    ensures
        next@ == create_next(*request, step@, done),
{
    let rel = request.relative_path;
    match step {
        CreateStep::Open { .. } => match done {
            Ok(_) => CreateStep::Created,
            Err(error) => match request.replacement_snapshot {
                Some(old) => {
                    if error.kind == IoErrorKind::PermissionDenied {
                        if is_readonly(old.metadata.basic.attributes) {
                            let mut cleared = old.metadata.basic;
                            cleared.attributes = without_readonly(cleared.attributes);
                            CreateStep::ClearReadonly { cleared }
                        } else {
                            CreateStep::Failed { error: operation_error("create_dst", rel, &error) }
                        }
                    } else {
                        CreateStep::Failed { error: create_error(request, &error) }
                    }
                },
                None => CreateStep::Failed { error: create_error(request, &error) },
            },
        },
        CreateStep::ClearReadonly { cleared } => match (done, request.replacement_snapshot) {
            (Ok(_), Some(old)) => {
                let mut expected = old.metadata;
                expected.basic = cleared;
                CreateStep::Reopen { expected }
            },
            (Err(error), _) => CreateStep::Failed {
                error: operation_error("clear_readonly", rel, &error),
            },
            _ => CreateStep::ClearReadonly { cleared },
        },
        CreateStep::Reopen { expected } => match (done, request.replacement_snapshot) {
            (Ok(_), _) => CreateStep::Created,
            (Err(create_error), Some(old)) => CreateStep::Restore {
                original: old.metadata.basic,
                create_error,
            },
            _ => CreateStep::Reopen { expected },
        },
        CreateStep::Restore { create_error, .. } => match done {
            Ok(_) => CreateStep::Failed {
                error: operation_error("create_dst", rel, &create_error),
            },
            Err(restore_error) => CreateStep::Failed {
                error: readonly_restore_error(rel, &create_error, &restore_error),
            },
        },
        step => step,
    }
}

/// A read-only destination that was cleared is either opened or put back: a
/// failure after the clearing comes only with an attempt to restore it.
pub proof fn cleared_destination_is_restored(
    request: EngineRequest,
    step: CreateView,
    done: Result<(), IoError>,
)
    requires
        request.replaced() is Some,
        step is Reopen,
        done is Err,
    ensures
        create_next(request, step, done) == (CreateView::Restore {
            original: request.replaced()->0.basic,
            create_error: done->Err_0,
        }),
{
}

/// The next operation in writing one small file whose final name is open.
#[derive(Debug, PartialEq, Eq)]
pub enum SmallWriteStep {
    /// Write the content.
    Write,
    /// Read the source's metadata again.
    Revalidate,
    /// Finish the destination.
    Finish {
        /// What it is stamped with.
        stamp: Option<BasicMetadata>,
    },
    /// The file is written.
    Written {
        /// Whether the source is still to be read again.
        revalidate: bool,
    },
    /// The copy fails.
    Failed {
        /// Why.
        error: OperationError,
    },
}

/// The next operation in writing one small file, as values.
#[verifier::ext_equal]
pub ghost enum SmallWriteView {
    Write,
    Revalidate,
    Finish { stamp: Option<BasicMetadata> },
    Written { revalidate: bool },
    Failed { error: ErrorView },
}

impl View for SmallWriteStep {
    type V = SmallWriteView;

    open spec fn view(&self) -> SmallWriteView {
        match *self {
            SmallWriteStep::Write => SmallWriteView::Write,
            SmallWriteStep::Revalidate => SmallWriteView::Revalidate,
            SmallWriteStep::Finish { stamp } => SmallWriteView::Finish { stamp },
            SmallWriteStep::Written { revalidate } => SmallWriteView::Written { revalidate },
            SmallWriteStep::Failed { error } => SmallWriteView::Failed { error: error@ },
        }
    }
}

/// What an operation came to.
#[derive(Debug, PartialEq, Eq)]
pub enum SmallWriteReply {
    /// Something was done.
    Done(Result<(), IoError>),
    /// Metadata of the open source.
    Metadata(Result<ObjectMetadata, IoError>),
}

/// Whether a reply answers a step.
pub open spec fn small_write_answers(step: SmallWriteView, reply: SmallWriteReply) -> bool {
    match step {
        SmallWriteView::Write => reply is Done,
        SmallWriteView::Revalidate => reply is Metadata,
        SmallWriteView::Finish { .. } => reply is Done,
        _ => false,
    }
}

/// The finishing of a small file.
pub open spec fn small_finish(request: EngineRequest) -> SmallWriteView {
    SmallWriteView::Finish {
        stamp: if request.settings.destination.requires_post_write_stamp {
            Some(request.destination_metadata)
        } else {
            None
        },
    }
}

/// The next step in writing one small file, and the counters then.
pub open spec fn small_write_next(
    request: EngineRequest,
    size: u64,
    defer_revalidation: bool,
    step: SmallWriteView,
    reply: SmallWriteReply,
    counters: Counters,
) -> (SmallWriteView, Counters) {
    let rel = request.rel();
    match (step, reply) {
        (SmallWriteView::Write, SmallWriteReply::Done(done)) => match done {
            Err(error) => (
                SmallWriteView::Failed { error: operation_view("write"@, rel, error) },
                counters,
            ),
            Ok(_) => (
                if defer_revalidation {
                    small_finish(request)
                } else {
                    SmallWriteView::Revalidate
                },
                with_written(counters, size),
            ),
        },
        (SmallWriteView::Revalidate, SmallWriteReply::Metadata(observed)) => (
            match post_read_failure(request, observed) {
                Some(error) => SmallWriteView::Failed { error },
                None => small_finish(request),
            },
            counters,
        ),
        (SmallWriteView::Finish { .. }, SmallWriteReply::Done(done)) => (
            match done {
                Err(error) => SmallWriteView::Failed { error: operation_view("flush"@, rel, error) },
                Ok(_) => SmallWriteView::Written { revalidate: defer_revalidation },
            },
            counters,
        ),
        _ => (step, counters),
    }
}

fn finish_step(request: &EngineRequest) -> (step: SmallWriteStep)
    ensures
        step@ == small_finish(*request),
{
    let stamp = if request.settings.destination.requires_post_write_stamp {
        Some(request.destination_metadata)
    } else {
        None
    };
    SmallWriteStep::Finish { stamp }
}

/// Decides the next operation in writing one small file. A batch may put the
/// last look at the source off until all its destinations are finished; no
/// success is told before that look.
pub fn write_plain_small(
    request: &EngineRequest,
    size: u64,
    defer_revalidation: bool,
    counters: &mut Counters,
    step: SmallWriteStep,
    reply: SmallWriteReply,
) -> (next: SmallWriteStep)
    requires
        small_write_answers(step@, reply),
    ensures
        small_write_next(*request, size, defer_revalidation, step@, reply, *old(counters)) == (
            next@,
            *final(counters),
        ),
{
    match (step, reply) {
        (SmallWriteStep::Write, SmallWriteReply::Done(done)) => match done {
            Err(error) => SmallWriteStep::Failed {
                error: operation_error("write", request.relative_path, &error),
            },
            Ok(_) => {
                counters.bytes_written_destination =
                    counters.bytes_written_destination.saturating_add(size);
                if defer_revalidation {
                    finish_step(request)
                } else {
                    SmallWriteStep::Revalidate
                }
            },
        },
        (SmallWriteStep::Revalidate, SmallWriteReply::Metadata(observed)) => {
            match post_read_validate(request, &observed) {
                Err(error) => SmallWriteStep::Failed { error },
                Ok(_) => finish_step(request),
            }
        },
        (SmallWriteStep::Finish { .. }, SmallWriteReply::Done(done)) => match done {
            Err(error) => SmallWriteStep::Failed {
                error: operation_error("flush", request.relative_path, &error),
            },
            Ok(_) => SmallWriteStep::Written { revalidate: defer_revalidation },
        },
        (step, _) => step,
    }
}

/// Whether an encrypted source lands unencrypted, judged by the attributes of
/// the new file; attributes that cannot be read count as unencrypted.
pub open spec fn lands_unencrypted(attributes: Result<u32, IoError>) -> bool {
    !(attributes matches Ok(bits) && has_attribute(bits, ATTRIBUTE_ENCRYPTED))
}

fn is_unencrypted(attributes: &Result<u32, IoError>) -> (unencrypted: bool)
    ensures
        unencrypted == lands_unencrypted(*attributes),
{
    match attributes {
        Ok(bits) => !is_encrypted(*bits),
        Err(_) => true,
    }
}

/// Whether encryption was asked for a small file and did not come.
pub fn small_efs_downgraded(request: &EngineRequest, attributes: &Result<u32, IoError>) -> (downgraded:
    bool)
    ensures
        downgraded == (request.spec_wants_encryption() && lands_unencrypted(*attributes)),
{
    request.wants_encryption() && is_unencrypted(attributes)
}

/// Whether an encrypted source is landing unencrypted, judged by the live
/// temporary, so that created and resumed ones get the same answer.
pub fn efs_downgraded_for(request: &EngineRequest, attributes: &Result<u32, IoError>) -> (downgraded:
    bool)
    ensures
        downgraded == (has_attribute(request.source().basic.attributes, ATTRIBUTE_ENCRYPTED)
            && lands_unencrypted(*attributes)),
{
    is_encrypted(request.source_snapshot.metadata.basic.attributes) && is_unencrypted(attributes)
}

/// The result of one small file.
pub fn small_result(prepared: PreparedPlainSmall, efs_downgraded: bool) -> (result: EngineResult)
    ensures
        result.bytes == prepared@.bytes.len(),
        opt_text(result.digest) == prepared@.digest,
        result.stream_digests@.len() == 0,
        opt_text(result.ea_digest) == prepared@.ea_digest,
        result.streams_dropped == prepared@.streams_dropped,
        result.eas_dropped == prepared@.eas_dropped,
        !result.journal_degraded,
        result.efs_downgraded == efs_downgraded,
        !result.checkpoint_used,
{
    let stream_digests: Vec<(StreamInfo, String)> = Vec::new();
    EngineResult {
        bytes: prepared.bytes.len() as u64,
        digest: prepared.digest,
        stream_digests,
        ea_digest: prepared.ea_digest,
        streams_dropped: prepared.streams_dropped,
        eas_dropped: prepared.eas_dropped,
        journal_degraded: false,
        efs_downgraded,
        checkpoint_used: false,
    }
}

/// Nothing of a destination is touched before the whole source was read at its
/// enumerated size and found unchanged.
pub proof fn small_file_is_ready_only_when_unchanged(
    request: EngineRequest,
    route: SmallRoute,
    step: SmallReadView,
    reply: SmallReadReplyView,
    counters: Counters,
)
    requires
        small_read_answers(step, reply),
        step matches SmallReadView::Revalidate { bytes } ==> bytes.len() == request.source().size,
    ensures
        ({
            let next = small_read_next(request, route, step, reply, counters).0;
            &&& next matches SmallReadView::Revalidate { bytes } ==> bytes.len()
                == request.source().size
            &&& next matches SmallReadView::Ready { prepared } ==> prepared.bytes.len()
                == request.source().size && post_read_failure(
                request,
                reply->Metadata_0,
            ) is None
        }),
{
}

/// What is known of one small file while it is written: what comes next,
/// whether the content is in place, whether the file carries the metadata it is
/// to have, and whether the source was found unchanged after the write.
pub ghost struct SmallScene {
    pub step: SmallWriteView,
    pub in_place: bool,
    pub stamped: bool,
    pub looked: bool,
    pub counters: Counters,
}

impl SmallScene {
    /// The scene once the final name is open: the new file carries what it was
    /// created with, if anything.
    pub open spec fn opened(
        request: EngineRequest,
        created_with: Option<BasicMetadata>,
        counters: Counters,
    ) -> SmallScene {
        SmallScene {
            step: SmallWriteView::Write,
            in_place: false,
            stamped: created_with == Some(request.destination_metadata),
            looked: false,
            counters,
        }
    }

    /// The scene after an operation. A write disturbs the metadata wherever the
    /// destination stamps the time of a write itself.
    pub open spec fn after(
        self,
        request: EngineRequest,
        size: u64,
        defer_revalidation: bool,
        reply: SmallWriteReply,
    ) -> SmallScene {
        let (step, counters) = small_write_next(
            request,
            size,
            defer_revalidation,
            self.step,
            reply,
            self.counters,
        );
        let wrote = self.step is Write && reply matches SmallWriteReply::Done(Ok(_));
        let finished = self.step is Finish && reply matches SmallWriteReply::Done(Ok(_));
        SmallScene {
            step,
            in_place: self.in_place || wrote,
            stamped: if wrote {
                self.stamped && !request.settings.destination.requires_post_write_stamp
            } else if finished && self.step->stamp is Some {
                self.step->stamp == Some(request.destination_metadata)
            } else {
                self.stamped
            },
            looked: self.looked || (self.in_place && self.step is Revalidate && (
            reply matches SmallWriteReply::Metadata(Ok(seen)) && {
                &&& seen.identity == request.source_snapshot.metadata.identity
                &&& seen.size == request.source_snapshot.metadata.size
                &&& seen.basic.last_write_time
                    == request.source_snapshot.metadata.basic.last_write_time
            })),
            counters,
        }
    }

    /// The scene after a list of operations.
    pub open spec fn played(
        self,
        request: EngineRequest,
        size: u64,
        defer_revalidation: bool,
        replies: Seq<SmallWriteReply>,
    ) -> SmallScene
        decreases replies.len(),
    {
        if replies.len() == 0 {
            self
        } else {
            self.played(request, size, defer_revalidation, replies.drop_last()).after(
                request,
                size,
                defer_revalidation,
                replies.last(),
            )
        }
    }

    /// Whether every reply answers the operation that was asked for.
    pub open spec fn answered_by(
        self,
        request: EngineRequest,
        size: u64,
        defer_revalidation: bool,
        replies: Seq<SmallWriteReply>,
    ) -> bool
        decreases replies.len(),
    {
        replies.len() > 0 ==> {
            &&& self.answered_by(request, size, defer_revalidation, replies.drop_last())
            &&& small_write_answers(
                self.played(request, size, defer_revalidation, replies.drop_last()).step,
                replies.last(),
            )
        }
    }
}

proof fn lemma_small_scene(
    request: EngineRequest,
    size: u64,
    defer_revalidation: bool,
    created_with: Option<BasicMetadata>,
    counters: Counters,
    replies: Seq<SmallWriteReply>,
)
    requires
        created_with is None || created_with == Some(request.destination_metadata),
        created_with is None ==> request.settings.destination.requires_post_write_stamp,
        counters.bytes_written_destination + size <= u64::MAX,
        SmallScene::opened(request, created_with, counters).answered_by(
            request,
            size,
            defer_revalidation,
            replies,
        ),
    ensures
        ({
            let scene = SmallScene::opened(request, created_with, counters).played(
                request,
                size,
                defer_revalidation,
                replies,
            );
            let posted = request.settings.destination.requires_post_write_stamp;
            &&& scene.step is Write ==> !scene.in_place && !scene.looked && scene.stamped == (
            created_with is Some) && scene.counters == counters
            &&& scene.step is Revalidate ==> !defer_revalidation
            &&& scene.step is Revalidate || scene.step is Finish || scene.step is Written ==> {
                &&& scene.in_place
                &&& scene.counters == (Counters {
                    bytes_written_destination: (counters.bytes_written_destination + size) as u64,
                    ..counters
                })
            }
            &&& scene.step is Revalidate || scene.step is Finish ==> scene.stamped == !posted
            &&& scene.step is Finish || scene.step is Written ==> (!defer_revalidation
                ==> scene.looked)
            &&& scene.step matches SmallWriteView::Finish { stamp } ==> stamp == if posted {
                Some(request.destination_metadata)
            } else {
                None
            }
            &&& scene.step matches SmallWriteView::Written { revalidate } ==> scene.stamped
                && revalidate == defer_revalidation
        }),
    decreases replies.len(),
{
    if replies.len() > 0 {
        lemma_small_scene(
            request,
            size,
            defer_revalidation,
            created_with,
            counters,
            replies.drop_last(),
        );
    }
}

/// A small file that is told as written has its content in place and carries
/// the metadata it is to have, after its last write; wherever the destination
/// stamps a write itself, finishing stamped the file again. Its source was found
/// unchanged after the write, unless that look is still to come, and exactly its
/// size was counted as written.
pub proof fn written_small_file_is_stamped(
    request: EngineRequest,
    size: u64,
    defer_revalidation: bool,
    created_with: Option<BasicMetadata>,
    counters: Counters,
    replies: Seq<SmallWriteReply>,
)
    requires
        created_with == if request.settings.destination.is_wsl {
            None
        } else {
            Some(request.destination_metadata)
        },
        request.settings.destination.is_wsl
            ==> request.settings.destination.requires_post_write_stamp,
        counters.bytes_written_destination + size <= u64::MAX,
        SmallScene::opened(request, created_with, counters).answered_by(
            request,
            size,
            defer_revalidation,
            replies,
        ),
    ensures
        ({
            let scene = SmallScene::opened(request, created_with, counters).played(
                request,
                size,
                defer_revalidation,
                replies,
            );
            &&& scene.step matches SmallWriteView::Finish { stamp } ==> (stamp is Some
                <==> request.settings.destination.requires_post_write_stamp) && (stamp is Some
                ==> stamp->0 == request.destination_metadata)
            &&& scene.step matches SmallWriteView::Written { revalidate } ==> {
                &&& scene.in_place
                &&& scene.stamped
                &&& !revalidate ==> scene.looked
                &&& revalidate == defer_revalidation
                &&& scene.counters.bytes_written_destination == counters.bytes_written_destination
                    + size
            }
        }),
{
    lemma_small_scene(
        request,
        size,
        defer_revalidation,
        created_with,
        counters,
        replies,
    );
}

/// A small file is not told as written where an operation failed or the source
/// changed under the write, and the failure names the operation; where all goes
/// well it is written.
pub proof fn small_write_stops_at_a_failure(
    request: EngineRequest,
    size: u64,
    defer_revalidation: bool,
    step: SmallWriteView,
    reply: SmallWriteReply,
    counters: Counters,
)
    requires
        small_write_answers(step, reply),
    ensures
        ({
            let next = small_write_next(
                request,
                size,
                defer_revalidation,
                step,
                reply,
                counters,
            ).0;
            let source = request.source_snapshot.metadata;
            &&& next is Failed <==> reply matches SmallWriteReply::Done(Err(_)) || reply matches
                SmallWriteReply::Metadata(Err(_)) || (reply matches SmallWriteReply::Metadata(
                Ok(seen),
            ) && !(seen.identity == source.identity && seen.size == source.size
                && seen.basic.last_write_time == source.basic.last_write_time))
            &&& next matches SmallWriteView::Failed { error } ==> error.operation == if step
                is Write {
                "write"@
            } else if step is Revalidate {
                "revalidate_src"@
            } else {
                "flush"@
            }
            &&& step is Write && !(next is Failed) ==> (next is Finish <==> defer_revalidation)
                && (next is Revalidate <==> !defer_revalidation)
            &&& step is Revalidate && !(next is Failed) ==> next is Finish
            &&& step is Finish && !(next is Failed) ==> next is Written
        }),
{
}

/// How far reading one small file came after a list of replies, and the
/// counters then.
pub open spec fn small_reading(
    request: EngineRequest,
    route: SmallRoute,
    replies: Seq<SmallReadReplyView>,
    counters: Counters,
) -> (SmallReadView, Counters)
    decreases replies.len(),
{
    if replies.len() == 0 {
        (small_read_start(request), counters)
    } else {
        let (step, before) = small_reading(request, route, replies.drop_last(), counters);
        small_read_next(request, route, step, replies.last(), before)
    }
}

/// Whether every reply answers the operation that was asked for.
pub open spec fn small_reading_is_answered(
    request: EngineRequest,
    route: SmallRoute,
    replies: Seq<SmallReadReplyView>,
    counters: Counters,
) -> bool
    decreases replies.len(),
{
    replies.len() > 0 ==> {
        &&& small_reading_is_answered(request, route, replies.drop_last(), counters)
        &&& small_read_answers(
            small_reading(request, route, replies.drop_last(), counters).0,
            replies.last(),
        )
    }
}

/// A small file is ready for its write only if it was read at exactly its
/// enumerated size, under a limit that would have shown a longer one, and its
/// source was found unchanged after that. What is ready is what was read, with
/// its own digest where digests are wanted; the bytes read are counted.
pub proof fn ready_small_file_is_what_was_read(
    request: EngineRequest,
    route: SmallRoute,
    replies: Seq<SmallReadReplyView>,
    counters: Counters,
)
    requires
        small_reading_is_answered(request, route, replies, counters),
        counters.bytes_read_source + request.source_snapshot.metadata.size <= u64::MAX,
    ensures
        ({
            let (step, after) = small_reading(request, route, replies, counters);
            let source = request.source_snapshot.metadata;
            &&& step matches SmallReadView::Reserve { bytes } ==> bytes == source.size + 1
                && replies.len() == 0 && after == counters
            &&& step matches SmallReadView::Read { limit } ==> limit == source.size + 1
                && replies.len() == 1 && after == counters
            &&& step matches SmallReadView::Revalidate { bytes } ==> replies.len() == 2
                && replies[1] == SmallReadReplyView::Read(Ok(bytes)) && bytes.len() == source.size
                && after.bytes_read_source == counters.bytes_read_source + source.size
            &&& step matches SmallReadView::Ready { prepared } ==> {
                &&& replies.len() == 3
                &&& replies[1] == SmallReadReplyView::Read(Ok(prepared.bytes))
                &&& prepared.bytes.len() == source.size
                &&& replies[2] matches SmallReadReplyView::Metadata(Ok(seen)) && {
                    &&& seen.identity == source.identity
                    &&& seen.size == source.size
                    &&& seen.basic.last_write_time == source.basic.last_write_time
                }
                &&& prepared.digest is Some <==> route.should_hash
                &&& prepared.digest is Some ==> prepared.digest->0 == digest_text(prepared.bytes)
                &&& prepared.ea_digest is Some <==> request.settings.tuning.verify
                    && !route.eas_dropped
                &&& prepared.ea_digest is Some ==> prepared.ea_digest->0 == digest_text(seq![])
                &&& prepared.streams_dropped == route.streams_dropped
                &&& prepared.eas_dropped == route.eas_dropped
                &&& after.bytes_read_source == counters.bytes_read_source + source.size
            }
        }),
    decreases replies.len(),
{
    if replies.len() > 0 {
        ready_small_file_is_what_was_read(request, route, replies.drop_last(), counters);
        assert(replies.last() == replies[replies.len() - 1]);
        if replies.len() > 2 {
            assert(replies.drop_last()[1] == replies[1]);
        }
    }
}

/// A source of another length than was enumerated is a changed source.
pub proof fn wrong_length_is_a_changed_source(
    request: EngineRequest,
    route: SmallRoute,
    limit: u64,
    bytes: Seq<u8>,
    counters: Counters,
)
    requires
        bytes.len() != request.source_snapshot.metadata.size,
    ensures
        small_read_next(
            request,
            route,
            SmallReadView::Read { limit },
            SmallReadReplyView::Read(Ok(bytes)),
            counters,
        ).0 matches SmallReadView::Failed { error } && error.category is SourceChanged
            && error.operation == "read"@,
{
}

/// How far opening a final name came after a list of results.
pub open spec fn creating(request: EngineRequest, done: Seq<Result<(), IoError>>) -> CreateView
    decreases done.len(),
{
    if done.len() == 0 {
        CreateView::Open { expected: request.replaced() }
    } else {
        create_next(request, creating(request, done.drop_last()), done.last())
    }
}

/// Whether every result is that of an operation that was asked for.
pub open spec fn creating_is_answered(
    request: EngineRequest,
    done: Seq<Result<(), IoError>>,
) -> bool
    decreases done.len(),
{
    done.len() > 0 ==> creating_is_answered(request, done.drop_last()) && create_waits(
        creating(request, done.drop_last()),
    )
}

/// A read-only bit is cleared only on the object that the classification saw
/// read-only and only after access was denied; nothing else of that object
/// changes. Where the name cannot be opened after that, the object gets exactly
/// its old metadata back. The name counts as open only after a successful open.
pub proof fn opening_leaves_a_kept_object_as_it_was(
    request: EngineRequest,
    done: Seq<Result<(), IoError>>,
)
    requires
        creating_is_answered(request, done),
    ensures
        ({
            let step = creating(request, done);
            let old = request.replacement_snapshot;
            &&& step matches CreateView::Open { expected } ==> (expected is Some <==> old is Some)
                && (expected is Some ==> expected->0 == old->0.metadata)
            &&& step matches CreateView::ClearReadonly { cleared } ==> {
                &&& old is Some
                &&& done.len() == 1
                &&& done[0] matches Err(error) && error.kind is PermissionDenied
                &&& old->0.metadata.basic.attributes & 1u32 != 0
                &&& cleared.attributes & 1u32 == 0
                &&& cleared.attributes | 1u32 == old->0.metadata.basic.attributes
                &&& cleared.creation_time == old->0.metadata.basic.creation_time
                &&& cleared.last_access_time == old->0.metadata.basic.last_access_time
                &&& cleared.last_write_time == old->0.metadata.basic.last_write_time
            }
            &&& step matches CreateView::Reopen { expected } ==> {
                &&& old is Some
                &&& done.len() == 2
                &&& done[1] is Ok
                &&& expected.identity == old->0.metadata.identity
                &&& expected.size == old->0.metadata.size
                &&& expected.kind == old->0.metadata.kind
                &&& expected.basic.last_write_time == old->0.metadata.basic.last_write_time
                &&& expected.basic.attributes | 1u32 == old->0.metadata.basic.attributes
                &&& expected.basic.attributes & 1u32 == 0
            }
            &&& step matches CreateView::Restore { original, create_error } ==> {
                &&& old is Some
                &&& done.len() == 3
                &&& original == old->0.metadata.basic
                &&& done[2] == Err::<(), IoError>(create_error)
            }
            &&& step is Created ==> done.last() is Ok && (done.len() == 1 || done.len() == 3)
            &&& step is Failed ==> done.len() == 4 || done.last() is Err
        }),
    decreases done.len(),
{
    if done.len() > 0 {
        opening_leaves_a_kept_object_as_it_was(request, done.drop_last());
        if done.len() > 1 {
            assert(done.drop_last()[done.len() - 2] == done[done.len() - 2]);
        }
        if request.replacement_snapshot is Some {
            let attributes = request.replacement_snapshot->0.metadata.basic.attributes;
            assert((attributes & !1u32) & 1u32 == 0) by (bit_vector);
            assert(attributes & 1u32 != 0 ==> (attributes & !1u32) | 1u32 == attributes)
                by (bit_vector);
        }
    }
}

/// A destination that appeared, vanished or became another object since it was
/// classified is told as a changed destination.
pub proof fn changed_destination_is_told(request: EngineRequest, error: IoError)
    ensures
        ({
            let failure = create_failure(request, error);
            &&& error.kind is AlreadyExists || error.kind is InvalidData || (error.kind is NotFound
                && request.replacement_snapshot is Some) ==> failure.category
                is DestinationChanged
            &&& failure.operation == if error.kind is InvalidData || (error.kind is NotFound
                && request.replacement_snapshot is Some) {
                "revalidate_dst"@
            } else {
                "create_dst"@
            }
        }),
{
}

/// A file counts as encrypted only where its attributes were read and say so.
pub proof fn encryption_must_be_seen(attributes: Result<u32, IoError>)
    ensures
        attributes is Err ==> lands_unencrypted(attributes),
        attributes matches Ok(bits) ==> (lands_unencrypted(attributes) <==> bits & 0x0000_4000u32
            == 0),
{
}

} // verus!
