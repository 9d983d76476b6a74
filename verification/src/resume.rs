//! Resuming a partial copy from a checkpoint.
//!
//! A checkpoint is only a hint. It is followed where the source is unchanged,
//! the temporary is the very object that was recorded, and the digest of its
//! prefix is the recorded one; everything else starts over.

use vstd::prelude::*;
use vstd::string::*;

use crate::checkpoints::{recorded, Checkpoint, CheckpointFileIdentity, CheckpointView};
use crate::error::{category_of, io_error_view, ErrorView, IoError, OperationError};
use crate::hashing::{digest_text, StreamDigest};
use crate::model::Counters;
use crate::path::WidePath;
use crate::platform::{FileIdentity, ObjectMetadata};
use crate::readback::verified;
use crate::text::str_eq;

verus! {

/// What is resumed.
#[derive(Clone, Copy, Debug, PartialEq, Eq, Structural)]
pub enum ResumeKind {
    /// The unnamed stream, and with it the temporary itself.
    Unnamed,
    /// One named stream of a temporary that is already open.
    Named,
}

/// The smallest buffer that verifies a prefix.
pub const MINIMUM_VERIFY_BYTES: usize = 65_536;

/// The largest buffer that verifies the prefix of a named stream.
pub const MAXIMUM_STREAM_BYTES: usize = 8_388_608;

/// A number between two limits.
pub open spec fn clamped(value: usize, low: usize, high: usize) -> usize {
    if value < low {
        low
    } else if value > high {
        high
    } else {
        value
    }
}

/// A request size for named streams: the chunk size between 64 KiB and 8 MiB.
pub fn stream_request_bytes(chunk_bytes: usize) -> (bytes: usize)
    ensures
        bytes == clamped(chunk_bytes, MINIMUM_VERIFY_BYTES, MAXIMUM_STREAM_BYTES),
{
    if chunk_bytes < MINIMUM_VERIFY_BYTES {
        MINIMUM_VERIFY_BYTES
    } else if chunk_bytes > MAXIMUM_STREAM_BYTES {
        MAXIMUM_STREAM_BYTES
    } else {
        chunk_bytes
    }
}

/// Whether a recorded identity, where there is one, is that of a file.
pub open spec fn identity_matches(
    expected: Option<crate::checkpoints::IdentityView>,
    actual: FileIdentity,
) -> bool {
    expected == Some(recorded(actual))
}

/// Whether the source is what a checkpoint was taken of.
pub open spec fn source_matches(
    checkpoint: CheckpointView,
    source: ObjectMetadata,
    size: u64,
) -> bool {
    &&& checkpoint.source_size == size
    &&& checkpoint.source_mtime == source.basic.last_write_time
    &&& identity_matches(checkpoint.source_identity, source.identity)
    &&& checkpoint.watermark <= size
}

fn matches_identity(expected: &Option<CheckpointFileIdentity>, actual: FileIdentity) -> (same: bool)
    ensures
        same == identity_matches(crate::checkpoints::opt_identity(*expected), actual),
{
    match expected {
        Some(identity) => identity.matches(actual),
        None => false,
    }
}

/// The next operation of a resume.
#[derive(Debug, PartialEq, Eq)]
pub enum ResumeStep {
    /// Open the temporary, or its named stream.
    Open,
    /// Ask for the temporary's identity.
    Identify,
    /// Ask for the length of what was opened.
    Measure,
    /// Seek its start.
    Rewind,
    /// Read up to `max` bytes of its prefix.
    Verify {
        /// The size of the request.
        max: usize,
    },
    /// Delete the temporary.
    Discard,
    /// Cut it to the watermark.
    Truncate,
    /// Seek the watermark in it.
    SeekTemp,
    /// Seek the watermark in the source.
    SeekSource,
    /// The copy goes on at the watermark.
    Resumed,
    /// The copy starts over.
    NotResumed,
    /// The copy fails.
    Failed {
        /// Why.
        error: OperationError,
    },
}

/// The next operation of a resume, as values.
#[verifier::ext_equal]
pub ghost enum ResumeStepView {
    Open,
    Identify,
    Measure,
    Rewind,
    Verify { max: usize },
    Discard,
    Truncate,
    SeekTemp,
    SeekSource,
    Resumed,
    NotResumed,
    Failed { error: ErrorView },
}

impl View for ResumeStep {
    type V = ResumeStepView;

    open spec fn view(&self) -> ResumeStepView {
        match *self {
            ResumeStep::Open => ResumeStepView::Open,
            ResumeStep::Identify => ResumeStepView::Identify,
            ResumeStep::Measure => ResumeStepView::Measure,
            ResumeStep::Rewind => ResumeStepView::Rewind,
            ResumeStep::Verify { max } => ResumeStepView::Verify { max },
            ResumeStep::Discard => ResumeStepView::Discard,
            ResumeStep::Truncate => ResumeStepView::Truncate,
            ResumeStep::SeekTemp => ResumeStepView::SeekTemp,
            ResumeStep::SeekSource => ResumeStepView::SeekSource,
            ResumeStep::Resumed => ResumeStepView::Resumed,
            ResumeStep::NotResumed => ResumeStepView::NotResumed,
            ResumeStep::Failed { error } => ResumeStepView::Failed { error: error@ },
        }
    }
}

/// What an operation of a resume came to.
#[derive(Debug, PartialEq, Eq)]
pub enum ResumeReply {
    /// Something was done.
    Done(Result<(), IoError>),
    /// The identity of the temporary.
    Identity(Result<FileIdentity, IoError>),
    /// The length of what was opened.
    Length(Result<u64, IoError>),
    /// Bytes of the prefix; none at its end.
    Read(Result<Vec<u8>, IoError>),
}

/// What an operation of a resume came to, as values.
#[verifier::ext_equal]
pub ghost enum ResumeReplyView {
    Done(Result<(), IoError>),
    Identity(Result<FileIdentity, IoError>),
    Length(Result<u64, IoError>),
    Read(Result<Seq<u8>, IoError>),
}

impl View for ResumeReply {
    type V = ResumeReplyView;

    open spec fn view(&self) -> ResumeReplyView {
        match *self {
            ResumeReply::Done(result) => ResumeReplyView::Done(result),
            ResumeReply::Identity(result) => ResumeReplyView::Identity(result),
            ResumeReply::Length(result) => ResumeReplyView::Length(result),
            ResumeReply::Read(Ok(bytes)) => ResumeReplyView::Read(Ok(bytes@)),
            ResumeReply::Read(Err(error)) => ResumeReplyView::Read(Err(error)),
        }
    }
}

/// One attempt to resume a stream.
pub struct ResumeCheck {
    kind: ResumeKind,
    relative: WidePath,
    checkpoint: Checkpoint,
    source_unchanged: bool,
    buffer_bytes: usize,
    verified: u64,
    hasher: StreamDigest,
}

/// One attempt to resume a stream, as values; `prefix` is what was verified of
/// the temporary.
#[verifier::ext_equal]
pub ghost struct ResumeView {
    pub kind: ResumeKind,
    pub relative: Seq<u16>,
    pub checkpoint: CheckpointView,
    pub source_unchanged: bool,
    pub buffer_bytes: usize,
    pub prefix: Seq<u8>,
}

impl View for ResumeCheck {
    type V = ResumeView;

    closed spec fn view(&self) -> ResumeView {
        ResumeView {
            kind: self.kind,
            relative: self.relative@,
            checkpoint: self.checkpoint@,
            source_unchanged: self.source_unchanged,
            buffer_bytes: self.buffer_bytes,
            prefix: self.hasher@,
        }
    }
}

/// The name of an operation of a resume.
pub open spec fn resume_operation(kind: ResumeKind, step: ResumeStepView) -> Seq<char> {
    match kind {
        ResumeKind::Unnamed => match step {
            ResumeStepView::Rewind => "seek_resume_temp"@,
            ResumeStepView::Verify { .. } => "verify_resume_temp"@,
            ResumeStepView::Discard => "discard_resume_temp"@,
            ResumeStepView::Truncate => "truncate_resume_temp"@,
            ResumeStepView::SeekTemp => "seek_resume_temp"@,
            _ => "seek_src"@,
        },
        ResumeKind::Named => match step {
            ResumeStepView::Open => "open_resume_stream"@,
            ResumeStepView::Measure => "stat_resume_stream"@,
            ResumeStepView::Rewind => "seek_resume_stream"@,
            ResumeStepView::Verify { .. } => "verify_resume_stream"@,
            ResumeStepView::Truncate => "truncate_resume_stream"@,
            ResumeStepView::SeekTemp => "seek_resume_stream"@,
            _ => "seek_src_stream"@,
        },
    }
}

impl ResumeView {
    /// Whether no more was verified than is to be.
    pub open spec fn wf(self) -> bool {
        self.prefix.len() <= self.checkpoint.watermark && self.buffer_bytes >= 1
    }

    /// The bytes of the prefix that are still to be verified.
    pub open spec fn remaining(self) -> int {
        self.checkpoint.watermark - self.prefix.len()
    }

    /// Whether a reply answers a step.
    pub open spec fn answered_by(self, step: ResumeStepView, reply: ResumeReplyView) -> bool {
        match step {
            ResumeStepView::Identify => reply is Identity,
            ResumeStepView::Measure => reply is Length,
            ResumeStepView::Verify { max } => max <= self.remaining() && (
            reply matches ResumeReplyView::Read(read) && (read matches Ok(bytes) ==> bytes.len()
                <= max)),
            ResumeStepView::Resumed => false,
            ResumeStepView::NotResumed => false,
            ResumeStepView::Failed { .. } => false,
            _ => reply is Done,
        }
    }

    /// The failure of an operation.
    pub open spec fn failing(self, step: ResumeStepView, error: IoError) -> ResumeStepView {
        ResumeStepView::Failed {
            error: io_error_view(
                category_of(error),
                resume_operation(self.kind, step),
                self.relative,
                error,
            ),
        }
    }

    /// The end of an attempt whose temporary is proven but useless: it is
    /// deleted if it is the file's own, and left for the file otherwise.
    pub open spec fn giving_up(self) -> ResumeStepView {
        match self.kind {
            ResumeKind::Unnamed => ResumeStepView::Discard,
            ResumeKind::Named => ResumeStepView::NotResumed,
        }
    }

    /// The step after the prefix was verified so far.
    pub open spec fn verifying(self) -> ResumeStepView {
        if self.remaining() > 0 {
            ResumeStepView::Verify {
                max: if self.remaining() < self.buffer_bytes {
                    self.remaining() as usize
                } else {
                    self.buffer_bytes
                },
            }
        } else if digest_text(self.prefix) == self.checkpoint.prefix_digest {
            ResumeStepView::Truncate
        } else {
            self.giving_up()
        }
    }

    /// The first step of an attempt.
    pub open spec fn starting(self) -> ResumeStepView {
        match self.kind {
            ResumeKind::Unnamed => ResumeStepView::Open,
            ResumeKind::Named => if self.source_unchanged {
                ResumeStepView::Identify
            } else {
                ResumeStepView::NotResumed
            },
        }
    }

    /// What was verified after a reply.
    pub open spec fn prefix_after(self, step: ResumeStepView, reply: ResumeReplyView) -> Seq<u8> {
        match (step, reply) {
            (ResumeStepView::Verify { .. }, ResumeReplyView::Read(Ok(bytes))) => self.prefix
                + bytes,
            _ => self.prefix,
        }
    }

    /// The next step of an attempt.
    pub open spec fn after(self, step: ResumeStepView, reply: ResumeReplyView) -> ResumeStepView {
        match (step, reply) {
            (ResumeStepView::Open, ResumeReplyView::Done(done)) => match done {
                Ok(_) => match self.kind {
                    ResumeKind::Unnamed => ResumeStepView::Identify,
                    ResumeKind::Named => ResumeStepView::Measure,
                },
                Err(error) => match self.kind {
                    ResumeKind::Unnamed => ResumeStepView::NotResumed,
                    ResumeKind::Named => self.failing(step, error),
                },
            },
            (ResumeStepView::Identify, ResumeReplyView::Identity(identified)) => {
                match identified {
                    Ok(actual) => if identity_matches(self.checkpoint.temp_identity, actual) {
                        match self.kind {
                            ResumeKind::Unnamed => ResumeStepView::Measure,
                            ResumeKind::Named => ResumeStepView::Open,
                        }
                    } else {
                        ResumeStepView::NotResumed
                    },
                    Err(_) => ResumeStepView::NotResumed,
                }
            },
            (ResumeStepView::Measure, ResumeReplyView::Length(measured)) => match self.kind {
                ResumeKind::Unnamed => if self.source_unchanged && (measured matches Ok(length)
                    && length >= self.checkpoint.watermark) {
                    ResumeStepView::Rewind
                } else {
                    ResumeStepView::Discard
                },
                ResumeKind::Named => match measured {
                    Ok(length) => if length >= self.checkpoint.watermark {
                        ResumeStepView::Rewind
                    } else {
                        ResumeStepView::NotResumed
                    },
                    Err(error) => self.failing(step, error),
                },
            },
            (ResumeStepView::Verify { .. }, ResumeReplyView::Read(read)) => match read {
                Ok(bytes) => if bytes.len() == 0 {
                    self.giving_up()
                } else {
                    (ResumeView { prefix: self.prefix + bytes, ..self }).verifying()
                },
                Err(error) => self.failing(step, error),
            },
            (_, ResumeReplyView::Done(Err(error))) => self.failing(step, error),
            (ResumeStepView::Rewind, _) => self.verifying(),
            (ResumeStepView::Discard, _) => ResumeStepView::NotResumed,
            (ResumeStepView::Truncate, _) => ResumeStepView::SeekTemp,
            (ResumeStepView::SeekTemp, _) => ResumeStepView::SeekSource,
            (ResumeStepView::SeekSource, _) => ResumeStepView::Resumed,
            _ => step,
        }
    }
}

impl ResumeCheck {
    /// Starts an attempt to resume a stream of `size` bytes.
    pub fn start(
        kind: ResumeKind,
        relative: &WidePath,
        checkpoint: Checkpoint,
        source: &ObjectMetadata,
        size: u64,
        chunk_bytes: usize,
    ) -> (started: (ResumeCheck, ResumeStep))
        ensures
            started.0@.wf(),
            started.0.counted(),
            started.0@ == attempt(
                kind,
                relative@,
                checkpoint@,
                *source,
                size,
                chunk_bytes,
            ),
            started.1@ == started.0@.starting(),
    {
        let source_unchanged = checkpoint.source_size == size && checkpoint.source_mtime
            == source.basic.last_write_time && matches_identity(
            &checkpoint.source_identity,
            source.identity,
        ) && checkpoint.watermark <= size;
        let buffer_bytes: usize = match kind {
            ResumeKind::Unnamed => {
                if chunk_bytes < MINIMUM_VERIFY_BYTES {
                    MINIMUM_VERIFY_BYTES
                } else {
                    chunk_bytes
                }
            },
            ResumeKind::Named => stream_request_bytes(chunk_bytes),
        };
        let step = match kind {
            ResumeKind::Unnamed => ResumeStep::Open,
            ResumeKind::Named => {
                if source_unchanged {
                    ResumeStep::Identify
                } else {
                    ResumeStep::NotResumed
                }
            },
        };
        (
            ResumeCheck {
                kind,
                relative: relative.copied(),
                checkpoint,
                source_unchanged,
                buffer_bytes,
                verified: 0,
                hasher: StreamDigest::new(),
            },
            step,
        )
    }

    /// Whether the count of verified bytes is that of the prefix.
    pub closed spec fn counted(self) -> bool {
        self.verified == self.hasher@.len()
    }

    fn fail(&self, step: &ResumeStep, error: &IoError) -> (next: ResumeStep)
        ensures
            next@ == self@.failing(step@, *error),
    {
        let operation: &str = match self.kind {
            ResumeKind::Unnamed => match step {
                ResumeStep::Rewind => "seek_resume_temp",
                ResumeStep::Verify { .. } => "verify_resume_temp",
                ResumeStep::Discard => "discard_resume_temp",
                ResumeStep::Truncate => "truncate_resume_temp",
                ResumeStep::SeekTemp => "seek_resume_temp",
                _ => "seek_src",
            },
            ResumeKind::Named => match step {
                ResumeStep::Open => "open_resume_stream",
                ResumeStep::Measure => "stat_resume_stream",
                ResumeStep::Rewind => "seek_resume_stream",
                ResumeStep::Verify { .. } => "verify_resume_stream",
                ResumeStep::Truncate => "truncate_resume_stream",
                ResumeStep::SeekTemp => "seek_resume_stream",
                _ => "seek_src_stream",
            },
        };
        ResumeStep::Failed {
            error: OperationError::from_io(operation, self.relative.copied(), error),
        }
    }

    fn give_up(&self) -> (next: ResumeStep)
        ensures
            next@ == self@.giving_up(),
    {
        match self.kind {
            ResumeKind::Unnamed => ResumeStep::Discard,
            ResumeKind::Named => ResumeStep::NotResumed,
        }
    }

    fn verify_on(&self) -> (next: ResumeStep)
        requires
            self@.wf(),
            self.counted(),
        ensures
            next@ == self@.verifying(),
    {
        let remaining: u64 = self.checkpoint.watermark - self.verified;
        if remaining > 0 {
            let max: usize = if remaining < self.buffer_bytes as u64 {
                remaining as usize
            } else {
                self.buffer_bytes
            };
            ResumeStep::Verify { max }
        } else {
            let digest = self.hasher.finish();
            if str_eq(digest.as_str(), self.checkpoint.prefix_digest.as_str()) {
                ResumeStep::Truncate
            } else {
                self.give_up()
            }
        }
    }

    /// Decides the next operation of an attempt. What is read back of the
    /// temporary counts as verified, whatever comes of the attempt.
    pub fn advance(&mut self, counters: &mut Counters, step: ResumeStep, reply: ResumeReply) -> (next:
        ResumeStep)
        requires
            old(self)@.wf(),
            old(self).counted(),
            old(self)@.answered_by(step@, reply@),
        ensures
            next@ == old(self)@.after(step@, reply@),
            final(self)@ == (ResumeView {
                prefix: old(self)@.prefix_after(step@, reply@),
                ..old(self)@
            }),
            *final(counters) == verified(
                *old(counters),
                (final(self)@.prefix.len() - old(self)@.prefix.len()) as nat,
            ),
            final(self)@.wf(),
            final(self).counted(),
    {
        match (step, reply) {
            (ResumeStep::Open, ResumeReply::Done(done)) => match done {
                Ok(_) => match self.kind {
                    ResumeKind::Unnamed => ResumeStep::Identify,
                    ResumeKind::Named => ResumeStep::Measure,
                },
                Err(error) => match self.kind {
                    ResumeKind::Unnamed => ResumeStep::NotResumed,
                    ResumeKind::Named => self.fail(&ResumeStep::Open, &error),
                },
            },
            (ResumeStep::Identify, ResumeReply::Identity(identified)) => match identified {
                Ok(actual) => {
                    if matches_identity(&self.checkpoint.temp_identity, actual) {
                        match self.kind {
                            ResumeKind::Unnamed => ResumeStep::Measure,
                            ResumeKind::Named => ResumeStep::Open,
                        }
                    } else {
                        ResumeStep::NotResumed
                    }
                },
                Err(_) => ResumeStep::NotResumed,
            },
            (ResumeStep::Measure, ResumeReply::Length(measured)) => match self.kind {
                ResumeKind::Unnamed => {
                    let long_enough = match measured {
                        Ok(length) => length >= self.checkpoint.watermark,
                        Err(_) => false,
                    };
                    if self.source_unchanged && long_enough {
                        ResumeStep::Rewind
                    } else {
                        ResumeStep::Discard
                    }
                },
                ResumeKind::Named => match measured {
                    Ok(length) => {
                        if length >= self.checkpoint.watermark {
                            ResumeStep::Rewind
                        } else {
                            ResumeStep::NotResumed
                        }
                    },
                    Err(error) => self.fail(&ResumeStep::Measure, &error),
                },
            },
            (ResumeStep::Verify { max }, ResumeReply::Read(read)) => match read {
                Ok(bytes) => {
                    let ghost before = self@.prefix;
                    self.hasher.update(bytes.as_slice());
                    self.verified = self.verified + bytes.len() as u64;
                    counters.bytes_verified =
                        counters.bytes_verified.saturating_add(bytes.len() as u64);
                    if bytes.len() == 0 {
                        assert(before + bytes@ =~= before);
                        self.give_up()
                    } else {
                        self.verify_on()
                    }
                },
                Err(error) => self.fail(&ResumeStep::Verify { max }, &error),
            },
            (step, ResumeReply::Done(done)) => match done {
                Err(error) => self.fail(&step, &error),
                Ok(_) => match step {
                    ResumeStep::Rewind => self.verify_on(),
                    ResumeStep::Discard => ResumeStep::NotResumed,
                    ResumeStep::Truncate => ResumeStep::SeekTemp,
                    ResumeStep::SeekTemp => ResumeStep::SeekSource,
                    ResumeStep::SeekSource => ResumeStep::Resumed,
                    step => step,
                },
            },
            (step, _) => step,
        }
    }

    /// Bytes of the temporary that were read and verified.
    pub fn verified(&self) -> (bytes: u64)
        requires
            self.counted(),
        ensures
            bytes == self@.prefix.len(),
    {
        self.verified
    }

    /// Where the copy goes on, and the running digest of what is in front.
    pub fn into_position(self) -> (position: (u64, StreamDigest))
        ensures
            position.0 == self@.checkpoint.watermark,
            position.1@ == self@.prefix,
    {
        (self.checkpoint.watermark, self.hasher)
    }
}

/// Whether a step follows only upon a verified prefix.
pub open spec fn is_proven(step: ResumeStepView) -> bool {
    step is Truncate || step is SeekTemp || step is SeekSource || step is Resumed
}

/// A copy goes on only at a watermark whose whole prefix was read from the
/// temporary and has the recorded digest; the temporary's identity was checked
/// before anything of it was read, changed or deleted.
pub proof fn resume_needs_a_verified_prefix(
    check: ResumeView,
    step: ResumeStepView,
    reply: ResumeReplyView,
)
    requires
        check.wf(),
        check.answered_by(step, reply),
        is_proven(step) ==> check.prefix.len() == check.checkpoint.watermark && digest_text(
            check.prefix,
        ) == check.checkpoint.prefix_digest,
    ensures
        is_proven(check.after(step, reply)) ==> check.prefix_after(step, reply).len()
            == check.checkpoint.watermark && digest_text(check.prefix_after(step, reply))
            == check.checkpoint.prefix_digest,
        step is Identify && !(check.after(step, reply) is NotResumed) ==> (
        reply matches ResumeReplyView::Identity(Ok(actual)) && identity_matches(
            check.checkpoint.temp_identity,
            actual,
        )),
        check.after(step, reply) is Discard ==> check.kind is Unnamed && (step is Measure || step
            is Rewind || step is Verify),
{
    if step is Verify {
        if let ResumeReplyView::Read(Ok(bytes)) = reply {
            assert(bytes.len() == 0 ==> check.prefix + bytes =~= check.prefix);
        }
    }
}

/// A checkpoint without a recorded identity of its temporary is never resumed.
pub proof fn unproven_checkpoint_is_not_resumed(check: ResumeView, reply: ResumeReplyView)
    requires
        check.checkpoint.temp_identity is None,
        check.answered_by(ResumeStepView::Identify, reply),
    ensures
        check.after(ResumeStepView::Identify, reply) is NotResumed,
{
}

/// The beginning of an attempt to resume a stream.
pub open spec fn attempt(
    kind: ResumeKind,
    relative: Seq<u16>,
    checkpoint: CheckpointView,
    source: ObjectMetadata,
    size: u64,
    chunk_bytes: usize,
) -> ResumeView {
    ResumeView {
        kind,
        relative,
        checkpoint,
        source_unchanged: source_matches(checkpoint, source, size),
        buffer_bytes: match kind {
            ResumeKind::Unnamed => if chunk_bytes < MINIMUM_VERIFY_BYTES {
                MINIMUM_VERIFY_BYTES
            } else {
                chunk_bytes
            },
            ResumeKind::Named => clamped(chunk_bytes, MINIMUM_VERIFY_BYTES, MAXIMUM_STREAM_BYTES),
        },
        prefix: Seq::empty(),
    }
}

/// An attempt and its step after the first `count` replies.
pub open spec fn attempted(
    check: ResumeView,
    replies: Seq<ResumeReplyView>,
    count: int,
) -> (ResumeView, ResumeStepView)
    decreases count,
{
    if count <= 0 {
        (check, check.starting())
    } else {
        let (before, step) = attempted(check, replies, count - 1);
        (
            ResumeView { prefix: before.prefix_after(step, replies[count - 1]), ..before },
            before.after(step, replies[count - 1]),
        )
    }
}

/// Whether each of the replies answers the step before it.
pub open spec fn attempt_is_answered(check: ResumeView, replies: Seq<ResumeReplyView>) -> bool {
    forall|k: int|
        #![trigger attempted(check, replies, k)]
        0 <= k < replies.len() ==> attempted(check, replies, k).0.answered_by(
            attempted(check, replies, k).1,
            replies[k],
        )
}

/// Whether the file that was opened turned out to be the recorded temporary.
pub open spec fn met_the_temporary(
    checkpoint: CheckpointView,
    replies: Seq<ResumeReplyView>,
    count: int,
) -> bool {
    exists|k: int|
        0 <= k < count && (#[trigger] replies[k] matches ResumeReplyView::Identity(Ok(actual))
            && checkpoint.temp_identity == Some(recorded(actual)))
}

/// Whether the temporary turned out to reach the watermark.
pub open spec fn met_the_watermark(
    checkpoint: CheckpointView,
    replies: Seq<ResumeReplyView>,
    count: int,
) -> bool {
    exists|k: int|
        0 <= k < count && (#[trigger] replies[k] matches ResumeReplyView::Length(Ok(length))
            && length >= checkpoint.watermark)
}

/// The bytes that the first `count` replies read of the temporary.
pub open spec fn bytes_read_back(replies: Seq<ResumeReplyView>, count: int) -> Seq<u8>
    decreases count,
{
    if count <= 0 {
        Seq::empty()
    } else {
        bytes_read_back(replies, count - 1) + match replies[count - 1] {
            ResumeReplyView::Read(Ok(bytes)) => bytes,
            _ => Seq::empty(),
        }
    }
}

spec fn attempt_holds(
    check: ResumeView,
    source: ObjectMetadata,
    size: u64,
    replies: Seq<ResumeReplyView>,
    count: int,
) -> bool {
    let (now, step) = attempted(check, replies, count);
    let checkpoint = check.checkpoint;
    let same_source = checkpoint.source_size == size && checkpoint.source_mtime
        == source.basic.last_write_time && checkpoint.source_identity == Some(
        recorded(source.identity),
    ) && checkpoint.watermark <= size;
    let temporary = met_the_temporary(checkpoint, replies, count);
    let long_enough = met_the_watermark(checkpoint, replies, count);
    let beyond = step is Rewind || step is Verify || is_proven(step);
    &&& now == ResumeView { prefix: now.prefix, ..check }
    &&& now.wf()
    &&& now.prefix == bytes_read_back(replies, count)
    &&& check.kind is Named && !(step is NotResumed) && !(step is Failed) ==> same_source
    &&& step is Open && check.kind is Named ==> temporary
    &&& step is Measure ==> temporary
    &&& step is Discard ==> temporary && check.kind is Unnamed
    &&& beyond ==> temporary && long_enough && same_source
    &&& step matches ResumeStepView::Verify { max } ==> 0 < max <= now.remaining()
    &&& is_proven(step) ==> now.prefix.len() == checkpoint.watermark && digest_text(now.prefix)
        == checkpoint.prefix_digest
    &&& !(step is Verify) && !is_proven(step) && !(step is Discard) && !(step is NotResumed)
        && !(step is Failed) ==> now.prefix.len() == 0
}

proof fn lemma_attempt(
    check: ResumeView,
    source: ObjectMetadata,
    size: u64,
    replies: Seq<ResumeReplyView>,
    count: int,
)
    requires
        0 <= count <= replies.len(),
        check.source_unchanged == source_matches(check.checkpoint, source, size),
        check.prefix.len() == 0,
        check.wf(),
        attempt_is_answered(check, replies),
    ensures
        attempt_holds(check, source, size, replies, count),
    decreases count,
{
    if count > 0 {
        lemma_attempt(check, source, size, replies, count - 1);
        let (before, step) = attempted(check, replies, count - 1);
        let reply = replies[count - 1];
        let checkpoint = check.checkpoint;
        assert(before.answered_by(step, reply));
        if met_the_temporary(checkpoint, replies, count - 1) {
            let k = choose|k: int|
                0 <= k < count - 1 && (#[trigger] replies[k] matches ResumeReplyView::Identity(
                    Ok(actual),
                ) && checkpoint.temp_identity == Some(recorded(actual)));
            assert(0 <= k < count);
            assert(met_the_temporary(checkpoint, replies, count));
        }
        if met_the_watermark(checkpoint, replies, count - 1) {
            let k = choose|k: int|
                0 <= k < count - 1 && (#[trigger] replies[k] matches ResumeReplyView::Length(
                    Ok(length),
                ) && length >= checkpoint.watermark);
            assert(0 <= k < count);
            assert(met_the_watermark(checkpoint, replies, count));
        }
        if let ResumeReplyView::Read(Ok(bytes)) = reply {
            assert(step is Verify);
            assert(bytes.len() == 0 ==> before.prefix + bytes =~= before.prefix);
        } else {
            assert(before.prefix + Seq::<u8>::empty() =~= before.prefix);
        }
    } else {
        assert(check.prefix =~= Seq::<u8>::empty());
    }
}

/// A copy goes on at a watermark only if the current source has the size, the
/// last-write time and the identity that the checkpoint recorded, the temporary
/// is the recorded file and reaches the watermark, and exactly that much was
/// read back of it and has the recorded digest. Nothing but a temporary with
/// the recorded identity is ever deleted.
pub proof fn resumed_copy_continues_this_source(
    kind: ResumeKind,
    relative: Seq<u16>,
    checkpoint: CheckpointView,
    source: ObjectMetadata,
    size: u64,
    chunk_bytes: usize,
    replies: Seq<ResumeReplyView>,
)
    requires
        attempt_is_answered(
            attempt(kind, relative, checkpoint, source, size, chunk_bytes),
            replies,
        ),
    ensures
        ({
            let (last, step) = attempted(
                attempt(kind, relative, checkpoint, source, size, chunk_bytes),
                replies,
                replies.len() as int,
            );
            let count = replies.len() as int;
            &&& step is Truncate || step is SeekTemp || step is SeekSource || step is Resumed ==> {
                &&& checkpoint.source_size == size
                &&& checkpoint.source_mtime == source.basic.last_write_time
                &&& checkpoint.source_identity == Some(recorded(source.identity))
                &&& checkpoint.watermark <= size
                &&& met_the_temporary(checkpoint, replies, count)
                &&& met_the_watermark(checkpoint, replies, count)
                &&& last.prefix == bytes_read_back(replies, count)
                &&& last.prefix.len() == checkpoint.watermark
                &&& digest_text(last.prefix) == checkpoint.prefix_digest
            }
            &&& step is Discard ==> kind is Unnamed && met_the_temporary(
                checkpoint,
                replies,
                count,
            )
        }),
{
    lemma_attempt(
        attempt(kind, relative, checkpoint, source, size, chunk_bytes),
        source,
        size,
        replies,
        replies.len() as int,
    );
}

/// A copy starts over only for a reason: the source is not the recorded one,
/// or an operation failed, or the file at the temporary's name is another one
/// or too short, or its prefix has another digest.
pub proof fn good_checkpoint_is_not_wasted(
    check: ResumeView,
    source: ObjectMetadata,
    size: u64,
    step: ResumeStepView,
    reply: ResumeReplyView,
)
    requires
        check.wf(),
        check.answered_by(step, reply),
        check.source_unchanged == source_matches(check.checkpoint, source, size),
        check.checkpoint.source_size == size,
        check.checkpoint.source_mtime == source.basic.last_write_time,
        check.checkpoint.source_identity == Some(recorded(source.identity)),
        check.checkpoint.watermark <= size,
        reply matches ResumeReplyView::Done(done) ==> done is Ok,
        reply matches ResumeReplyView::Identity(found) ==> (found matches Ok(actual)
            && check.checkpoint.temp_identity == Some(recorded(actual))),
        reply matches ResumeReplyView::Length(found) ==> (found matches Ok(length) && length
            >= check.checkpoint.watermark),
        reply matches ResumeReplyView::Read(found) ==> (found matches Ok(bytes) && bytes.len()
            > 0),
        check.prefix_after(step, reply).len() == check.checkpoint.watermark ==> digest_text(
            check.prefix_after(step, reply),
        ) == check.checkpoint.prefix_digest,
        !(step is Discard),
    ensures
        !(check.starting() is NotResumed),
        !(check.after(step, reply) is NotResumed),
        !(check.after(step, reply) is Discard),
        !(check.after(step, reply) is Failed),
        step is SeekSource ==> check.after(step, reply) is Resumed,
        step is SeekTemp ==> check.after(step, reply) is SeekSource,
        step is Truncate ==> check.after(step, reply) is SeekTemp,
        step is Rewind || step is Verify ==> check.after(step, reply) is Verify || check.after(
            step,
            reply,
        ) is Truncate,
        step is Measure ==> check.after(step, reply) is Rewind,
{
}

/// A temporary of the file's own that turned out useless is deleted, and a named
/// stream's, which belongs to a temporary that goes on, is left alone.
pub proof fn useless_temporary_is_not_left_behind(check: ResumeView)
    ensures
        check.kind is Unnamed ==> check.giving_up() is Discard,
        check.kind is Named ==> check.giving_up() is NotResumed,
        !(check.giving_up() is Truncate) && !(check.giving_up() is SeekTemp),
{
}

} // verus!
