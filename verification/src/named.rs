//! Copying the named streams of one file into its temporary.

use vstd::prelude::*;
use vstd::string::*;

use crate::bulk::{stream_walk, StreamWalk, WalkStep};
use crate::checkpoints::Checkpoint;
use crate::cursor::CheckpointCursor;
use crate::digests::{digest_views, place_digest, placed};
use crate::engine::{
    operation_error, operation_view, source_open_error, source_open_view, EngineRequest,
};
use crate::error::{semantic_error_view, ErrorCategory, ErrorView, IoError, OperationError};
use crate::hashing::StreamDigest;
use crate::model::sat;
use crate::platform::{FileIdentity, StreamInfo, StreamView};
use crate::streams::{named_of, named_streams, stream_views};
use crate::text::str_eq;

verus! {

/// What became of the named streams of one file.
#[derive(Clone, Debug, PartialEq, Eq)]
pub struct NamedStreamResult {
    /// Digests in name order.
    pub digests: Vec<(StreamInfo, String)>,
    /// Streams that the destination cannot hold.
    pub dropped: u32,
    /// Whether checkpointing was given up.
    pub journal_degraded: bool,
    /// Logical bytes of the copied streams.
    pub bytes: u64,
}

/// What became of the named streams, as values.
#[verifier::ext_equal]
pub ghost struct NamedResultView {
    pub digests: Seq<(StreamView, Seq<char>)>,
    pub dropped: u32,
    pub journal_degraded: bool,
    pub bytes: u64,
}

impl View for NamedStreamResult {
    type V = NamedResultView;

    open spec fn view(&self) -> NamedResultView {
        NamedResultView {
            digests: digest_views(self.digests@),
            dropped: self.dropped,
            journal_degraded: self.journal_degraded,
            bytes: self.bytes,
        }
    }
}

/// A count that fits, or the largest one.
pub open spec fn dropped_count(count: nat) -> u32 {
    if count <= u32::MAX {
        count as u32
    } else {
        u32::MAX
    }
}

/// How one named stream is to be walked.
#[derive(Clone, Copy, Debug, PartialEq, Eq, Structural)]
pub struct NamedWalk {
    /// Whether the walk goes on at a checkpoint.
    pub resumed: bool,
    /// Whether the stream is checkpointed.
    pub eligible: bool,
    /// Whether the stream is digested.
    pub hash: bool,
}

/// The next operation in copying named streams.
#[derive(Debug, PartialEq, Eq)]
pub enum NamedStep {
    /// Open the source stream.
    OpenSource,
    /// Ask for the identity of the source stream's file.
    Identify,
    /// Look for a checkpoint of the stream that names this temporary.
    FindCheckpoint,
    /// Try to resume from it.
    Resume,
    /// Create the stream at the temporary.
    CreateStream,
    /// Walk the stream.
    Walk(NamedWalk),
    /// Flush the stream.
    Flush,
    /// Every stream is copied.
    Finished {
        /// What became of them.
        result: NamedStreamResult,
    },
    /// The copy fails.
    Failed {
        /// Why.
        error: OperationError,
    },
}

/// The next operation in copying named streams, as values.
#[verifier::ext_equal]
pub ghost enum NamedStepView {
    OpenSource,
    Identify,
    FindCheckpoint,
    Resume,
    CreateStream,
    Walk(NamedWalk),
    Flush,
    Finished { result: NamedResultView },
    Failed { error: ErrorView },
}

impl View for NamedStep {
    type V = NamedStepView;

    open spec fn view(&self) -> NamedStepView {
        match *self {
            NamedStep::OpenSource => NamedStepView::OpenSource,
            NamedStep::Identify => NamedStepView::Identify,
            NamedStep::FindCheckpoint => NamedStepView::FindCheckpoint,
            NamedStep::Resume => NamedStepView::Resume,
            NamedStep::CreateStream => NamedStepView::CreateStream,
            NamedStep::Walk(walk) => NamedStepView::Walk(walk),
            NamedStep::Flush => NamedStepView::Flush,
            NamedStep::Finished { result } => NamedStepView::Finished { result: result@ },
            NamedStep::Failed { error } => NamedStepView::Failed { error: error@ },
        }
    }
}

/// What a walk over one named stream came to.
#[derive(Clone, Debug, PartialEq, Eq)]
pub struct WalkedStream {
    /// The digest of the stream, where it was wanted.
    pub digest: Option<String>,
    /// Whether checkpointing was given up.
    pub degraded: bool,
}

/// What an operation came to.
#[derive(Debug, PartialEq, Eq)]
pub enum NamedReply {
    /// Something was done.
    Done(Result<(), IoError>),
    /// The identity of the source stream's file.
    Identity(Result<FileIdentity, IoError>),
    /// Whether there is a checkpoint that names this temporary.
    Found(bool),
    /// Whether the stream goes on at the checkpoint.
    Resumed(Result<bool, OperationError>),
    /// What a walk came to.
    Walked(Result<WalkedStream, OperationError>),
}

/// What an operation came to, as values.
#[verifier::ext_equal]
pub ghost enum NamedReplyView {
    Done(Result<(), IoError>),
    Identity(Result<FileIdentity, IoError>),
    Found(bool),
    Resumed(Result<bool, ErrorView>),
    Walked(Result<(Option<Seq<char>>, bool), ErrorView>),
}

impl View for NamedReply {
    type V = NamedReplyView;

    open spec fn view(&self) -> NamedReplyView {
        match *self {
            NamedReply::Done(result) => NamedReplyView::Done(result),
            NamedReply::Identity(result) => NamedReplyView::Identity(result),
            NamedReply::Found(found) => NamedReplyView::Found(found),
            NamedReply::Resumed(Ok(resumed)) => NamedReplyView::Resumed(Ok(resumed)),
            NamedReply::Resumed(Err(error)) => NamedReplyView::Resumed(Err(error@)),
            NamedReply::Walked(Ok(walked)) => NamedReplyView::Walked(
                Ok((crate::audit::opt_text(walked.digest), walked.degraded)),
            ),
            NamedReply::Walked(Err(error)) => NamedReplyView::Walked(Err(error@)),
        }
    }
}

/// Where the copying of named streams stands.
#[derive(Clone, Copy, Debug, PartialEq, Eq, Structural)]
pub enum NamedPhase {
    /// Opening a source stream.
    Opening,
    /// Asking for its file's identity.
    Identifying,
    /// Looking for a checkpoint.
    Finding,
    /// Resuming.
    Resuming,
    /// Creating the stream.
    Creating,
    /// Walking the stream.
    Walking,
    /// Flushing the stream.
    Flushing,
    /// Nothing is left to do.
    Ended,
}

/// The named streams of one file on their way.
pub struct NamedCopy {
    named: Vec<StreamInfo>,
    index: usize,
    digests: Vec<(StreamInfo, String)>,
    digest: Option<String>,
    bytes: u64,
    journal_available: bool,
    degraded: bool,
    phase: NamedPhase,
}

/// The named streams of one file on their way, as values.
#[verifier::ext_equal]
pub ghost struct NamedView {
    pub named: Seq<StreamView>,
    pub index: int,
    pub digests: Seq<(StreamView, Seq<char>)>,
    pub digest: Option<Seq<char>>,
    pub bytes: u64,
    pub journal_available: bool,
    pub degraded: bool,
    pub phase: NamedPhase,
}

impl View for NamedCopy {
    type V = NamedView;

    closed spec fn view(&self) -> NamedView {
        NamedView {
            named: stream_views(self.named@),
            index: self.index as int,
            digests: digest_views(self.digests@),
            digest: crate::audit::opt_text(self.digest),
            bytes: self.bytes,
            journal_available: self.journal_available,
            degraded: self.degraded,
            phase: self.phase,
        }
    }
}

/// The failure of a stream of another file.
pub open spec fn foreign_stream(rel: Seq<u16>) -> ErrorView {
    semantic_error_view(
        ErrorCategory::SourceChanged,
        "identify_src_stream"@,
        rel,
        "named stream belongs to a different source object"@,
    )
}

impl NamedView {
    /// Whether a stream is at hand while one is copied.
    pub open spec fn wf(self) -> bool {
        0 <= self.index <= self.named.len() && (!(self.phase is Ended) ==> self.index
            < self.named.len())
    }

    /// Whether a reply answers the last step.
    pub open spec fn answered_by(self, reply: NamedReplyView) -> bool {
        match self.phase {
            NamedPhase::Opening => reply is Done,
            NamedPhase::Identifying => reply is Identity,
            NamedPhase::Finding => reply is Found,
            NamedPhase::Resuming => reply is Resumed,
            NamedPhase::Creating => reply is Done,
            NamedPhase::Walking => reply is Walked,
            NamedPhase::Flushing => reply is Done,
            NamedPhase::Ended => false,
        }
    }

    /// The copying in another phase.
    pub open spec fn at(self, phase: NamedPhase) -> NamedView {
        NamedView { phase, ..self }
    }

    /// The end of a copy that fails.
    pub open spec fn failing(self, error: ErrorView) -> (NamedView, NamedStepView) {
        (self.at(NamedPhase::Ended), NamedStepView::Failed { error })
    }

    /// Before the stream at the index, or behind the last one.
    pub open spec fn at_stream(self) -> (NamedView, NamedStepView) {
        if self.index < self.named.len() {
            (self.at(NamedPhase::Opening), NamedStepView::OpenSource)
        } else {
            (
                self.at(NamedPhase::Ended),
                NamedStepView::Finished {
                    result: NamedResultView {
                        digests: self.digests,
                        dropped: 0,
                        journal_degraded: self.degraded,
                        bytes: self.bytes,
                    },
                },
            )
        }
    }

    /// The walk over the current stream. Every stream that can reach a
    /// checkpoint is digested.
    pub open spec fn walking(self, request: EngineRequest, resumed: bool) -> (
        NamedView,
        NamedStepView,
    ) {
        let size = self.named[self.index].size;
        let tuning = request.settings.tuning;
        let eligible = size >= tuning.checkpoint_threshold && self.journal_available;
        (
            self.at(NamedPhase::Walking),
            NamedStepView::Walk(
                NamedWalk {
                    resumed,
                    eligible,
                    hash: resumed || tuning.verify || size >= tuning.large_threshold || eligible,
                },
            ),
        )
    }

    /// After the current stream was flushed.
    pub open spec fn flushed(self) -> NamedView {
        NamedView {
            index: self.index + 1,
            digests: match self.digest {
                Some(text) => placed(self.digests, (self.named[self.index], text)),
                None => self.digests,
            },
            digest: None,
            bytes: sat(self.bytes, self.named[self.index].size),
            ..self
        }
    }

    /// The copying after a reply, and what it does next.
    pub open spec fn after(self, request: EngineRequest, reply: NamedReplyView) -> (
        NamedView,
        NamedStepView,
    ) {
        let rel = request.rel();
        match (self.phase, reply) {
            (NamedPhase::Opening, NamedReplyView::Done(done)) => match done {
                Err(error) => self.failing(source_open_view("open_src_stream"@, rel, error)),
                Ok(_) => (self.at(NamedPhase::Identifying), NamedStepView::Identify),
            },
            (NamedPhase::Identifying, NamedReplyView::Identity(identified)) => match identified {
                Err(error) => self.failing(source_open_view("identify_src_stream"@, rel, error)),
                Ok(identity) => if identity == request.source().identity {
                    (self.at(NamedPhase::Finding), NamedStepView::FindCheckpoint)
                } else {
                    self.failing(foreign_stream(rel))
                },
            },
            (NamedPhase::Finding, NamedReplyView::Found(found)) => if found {
                (self.at(NamedPhase::Resuming), NamedStepView::Resume)
            } else {
                (self.at(NamedPhase::Creating), NamedStepView::CreateStream)
            },
            (NamedPhase::Resuming, NamedReplyView::Resumed(resumed)) => match resumed {
                Err(error) => self.failing(error),
                Ok(true) => self.walking(request, true),
                Ok(false) => (self.at(NamedPhase::Creating), NamedStepView::CreateStream),
            },
            (NamedPhase::Creating, NamedReplyView::Done(done)) => match done {
                Err(error) => self.failing(operation_view("create_dst_stream"@, rel, error)),
                Ok(_) => self.walking(request, false),
            },
            (NamedPhase::Walking, NamedReplyView::Walked(walked)) => match walked {
                Err(error) => self.failing(error),
                Ok((digest, degraded)) => (
                    NamedView {
                        digest,
                        degraded: self.degraded || degraded,
                        journal_available: self.journal_available && !degraded,
                        phase: NamedPhase::Flushing,
                        ..self
                    },
                    NamedStepView::Flush,
                ),
            },
            (NamedPhase::Flushing, NamedReplyView::Done(done)) => match done {
                Err(error) => self.failing(operation_view("flush_stream"@, rel, error)),
                Ok(_) => self.flushed().at_stream(),
            },
            _ => self.at_stream(),
        }
    }
}

/// The start of copying these streams.
pub open spec fn named_start(
    streams: Seq<StreamView>,
    supported: bool,
    journal_available: bool,
) -> (NamedView, NamedStepView) {
    let named = named_of(streams);
    let start = NamedView {
        named,
        index: 0,
        digests: seq![],
        digest: None,
        bytes: 0,
        journal_available,
        degraded: false,
        phase: NamedPhase::Opening,
    };
    if supported {
        start.at_stream()
    } else {
        (
            start.at(NamedPhase::Ended),
            NamedStepView::Finished {
                result: NamedResultView {
                    digests: seq![],
                    dropped: dropped_count(named.len()),
                    journal_degraded: false,
                    bytes: 0,
                },
            },
        )
    }
}

impl NamedCopy {
    fn fail(&mut self, error: OperationError) -> (next: NamedStep)
        ensures
            old(self)@.failing(error@) == (final(self)@, next@),
    {
        self.phase = NamedPhase::Ended;
        NamedStep::Failed { error }
    }

    fn next_stream(&mut self) -> (next: NamedStep)
        requires
            0 <= old(self)@.index <= old(self)@.named.len(),
        ensures
            old(self)@.at_stream() == (final(self)@, next@),
            final(self)@.wf(),
    {
        assert(stream_views(self.named@).len() == self.named.len());
        if self.index < self.named.len() {
            self.phase = NamedPhase::Opening;
            NamedStep::OpenSource
        } else {
            self.phase = NamedPhase::Ended;
            NamedStep::Finished {
                result: NamedStreamResult {
                    digests: crate::digests::copy_digests(&self.digests),
                    dropped: 0,
                    journal_degraded: self.degraded,
                    bytes: self.bytes,
                },
            }
        }
    }

    /// Starts copying the named streams of one file. A destination without
    /// named streams drops them all.
    pub fn start(request: &EngineRequest, streams: &[StreamInfo], journal_available: bool) -> (started:
        (NamedCopy, NamedStep))
        ensures
            started.0@.wf(),
            (started.0@, started.1@) == named_start(
                stream_views(streams@),
                request.settings.destination.supports_streams,
                journal_available,
            ),
    {
        let named = named_streams(streams);
        assert(stream_views(named@).len() == named.len());
        let mut copy = NamedCopy {
            named,
            index: 0,
            digests: Vec::new(),
            digest: None,
            bytes: 0,
            journal_available,
            degraded: false,
            phase: NamedPhase::Opening,
        };
        assert(copy@.digests =~= seq![]);
        if request.settings.destination.supports_streams {
            let step = copy.next_stream();
            (copy, step)
        } else {
            copy.phase = NamedPhase::Ended;
            let count: usize = copy.named.len();
            let dropped: u32 = if count as u64 <= u32::MAX as u64 {
                count as u32
            } else {
                u32::MAX
            };
            let result = NamedStreamResult {
                digests: Vec::new(),
                dropped,
                journal_degraded: false,
                bytes: 0,
            };
            assert(result@.digests =~= seq![]);
            (copy, NamedStep::Finished { result })
        }
    }

    /// The stream that is being copied.
    pub fn current(&self) -> (stream: &StreamInfo)
        requires
            self@.wf(),
            !(self@.phase is Ended),
        ensures
            stream@ == self@.named[self@.index],
    {
        &self.named[self.index]
    }

    fn walk(&mut self, request: &EngineRequest, resumed: bool) -> (next: NamedStep)
        requires
            old(self)@.wf(),
            !(old(self)@.phase is Ended),
        ensures
            old(self)@.walking(*request, resumed) == (final(self)@, next@),
            final(self)@.wf(),
    {
        let size: u64 = self.named[self.index].size;
        let tuning = request.settings.tuning;
        let eligible = size >= tuning.checkpoint_threshold && self.journal_available;
        let hash = resumed || tuning.verify || size >= tuning.large_threshold || eligible;
        self.phase = NamedPhase::Walking;
        NamedStep::Walk(NamedWalk { resumed, eligible, hash })
    }

    /// Starts the walk over the current stream, from the beginning or from where
    /// it was resumed with the digest of its prefix.
    pub fn start_walk(
        &self,
        request: &EngineRequest,
        walk: NamedWalk,
        resumed: Option<(u64, StreamDigest)>,
        temp_identity: Option<FileIdentity>,
    ) -> (started: (StreamWalk, WalkStep))
        requires
            self@.wf(),
            self@.phase is Walking,
            walk.resumed == (resumed is Some),
            resumed matches Some((offset, _)) ==> offset <= self@.named[self@.index].size,
        ensures
            started.0@.wf(),
            ({
                let size = self@.named[self@.index].size;
                let offset = match resumed {
                    Some((offset, _)) => offset,
                    None => 0,
                };
                let digest = match resumed {
                    Some((_, prefix)) => Some(prefix@),
                    None => if walk.hash {
                        Some(Seq::<u8>::empty())
                    } else {
                        None
                    },
                };
                (started.0@, started.1@) == stream_walk(
                    request.rel(),
                    size,
                    offset,
                    true,
                    CheckpointCursor::scheduled(walk.eligible, offset, size, temp_identity),
                    digest,
                )
            }),
    {
        let size: u64 = self.named[self.index].size;
        let (offset, hasher): (u64, Option<StreamDigest>) = match resumed {
            Some((offset, prefix)) => (offset, Some(prefix)),
            None => (
                0,
                if walk.hash {
                    Some(StreamDigest::new())
                } else {
                    None
                },
            ),
        };
        let cursor = CheckpointCursor::new(walk.eligible, offset, size, temp_identity);
        StreamWalk::over_stream(request.relative_path, size, offset, true, cursor, hasher)
    }

    /// Decides the next operation in copying named streams.
    pub fn copy_named_streams(&mut self, request: &EngineRequest, reply: NamedReply) -> (next: NamedStep)
        requires
            old(self)@.wf(),
            old(self)@.answered_by(reply@),
        ensures
            old(self)@.after(*request, reply@) == (final(self)@, next@),
            final(self)@.wf(),
    {
        let rel = request.relative_path;
        match (self.phase, reply) {
            (NamedPhase::Opening, NamedReply::Done(done)) => match done {
                Err(error) => self.fail(source_open_error("open_src_stream", rel, &error)),
                Ok(_) => {
                    self.phase = NamedPhase::Identifying;
                    NamedStep::Identify
                },
            },
            (NamedPhase::Identifying, NamedReply::Identity(identified)) => match identified {
                Err(error) => self.fail(source_open_error("identify_src_stream", rel, &error)),
                Ok(identity) => {
                    if identity.same_as(&request.source_snapshot.metadata.identity) {
                        self.phase = NamedPhase::Finding;
                        NamedStep::FindCheckpoint
                    } else {
                        self.fail(
                            OperationError::semantic(
                                ErrorCategory::SourceChanged,
                                "identify_src_stream",
                                rel.copied(),
                                "named stream belongs to a different source object".to_owned(),
                            ),
                        )
                    }
                },
            },
            (NamedPhase::Finding, NamedReply::Found(found)) => {
                if found {
                    self.phase = NamedPhase::Resuming;
                    NamedStep::Resume
                } else {
                    self.phase = NamedPhase::Creating;
                    NamedStep::CreateStream
                }
            },
            (NamedPhase::Resuming, NamedReply::Resumed(resumed)) => match resumed {
                Err(error) => self.fail(error),
                Ok(resumed) => {
                    if resumed {
                        self.walk(request, true)
                    } else {
                        self.phase = NamedPhase::Creating;
                        NamedStep::CreateStream
                    }
                },
            },
            (NamedPhase::Creating, NamedReply::Done(done)) => match done {
                Err(error) => self.fail(operation_error("create_dst_stream", rel, &error)),
                Ok(_) => self.walk(request, false),
            },
            (NamedPhase::Walking, NamedReply::Walked(walked)) => match walked {
                Err(error) => self.fail(error),
                Ok(walked) => {
                    self.digest = walked.digest;
                    if walked.degraded {
                        self.degraded = true;
                        self.journal_available = false;
                    }
                    self.phase = NamedPhase::Flushing;
                    NamedStep::Flush
                },
            },
            (NamedPhase::Flushing, NamedReply::Done(done)) => match done {
                Err(error) => self.fail(operation_error("flush_stream", rel, &error)),
                Ok(_) => {
                    let ghost before = self@;
                    assert(stream_views(self.named@).len() == self.named.len());
                    let stream = self.named[self.index].copied();
                    let size: u64 = stream.size;
                    let mut digest: Option<String> = None;
                    std::mem::swap(&mut digest, &mut self.digest);
                    if let Some(text) = digest {
                        place_digest(&mut self.digests, stream, text);
                    }
                    self.bytes = self.bytes.saturating_add(size);
                    self.index = self.index + 1;
                    assert(self@ =~= before.flushed());
                    self.next_stream()
                },
            },
            _ => self.next_stream(),
        }
    }
}

/// Whether a checkpoint names the temporary that is open, so that its stream
/// may be resumed. A temporary whose name is no text is named by none.
pub fn names_temporary(candidate: &Option<Checkpoint>, temp_name: &Option<String>) -> (names: bool)
    ensures
        names == (candidate is Some && temp_name is Some && candidate->0@.temp_name
            == temp_name->0@),
{
    match (candidate, temp_name) {
        (Some(checkpoint), Some(name)) => str_eq(checkpoint.temp_name.as_str(), name.as_str()),
        _ => false,
    }
}

/// Every stream that is checkpointed is digested, so that a checkpoint always
/// has a digest to attest.
pub proof fn checkpointed_streams_are_digested(
    copy: NamedView,
    request: EngineRequest,
    reply: NamedReplyView,
)
    requires
        copy.wf(),
        copy.answered_by(reply),
    ensures
        copy.after(request, reply).1 matches NamedStepView::Walk(walk) ==> (walk.eligible
            ==> walk.hash),
{
}

/// The streams are taken one after the other, each exactly once, and their
/// sizes add up.
pub proof fn every_named_stream_is_copied(
    copy: NamedView,
    request: EngineRequest,
    reply: NamedReplyView,
)
    requires
        copy.wf(),
        copy.answered_by(reply),
        copy.bytes == crate::streams::sizes_on(0, copy.named.take(copy.index)),
    ensures
        ({
            let (next, step) = copy.after(request, reply);
            &&& next.named == copy.named
            &&& next.bytes == crate::streams::sizes_on(0, next.named.take(next.index))
            &&& step is Finished ==> next.index == copy.named.len()
            &&& next.index == copy.index || next.index == copy.index + 1
        }),
{
    if copy.index < copy.named.len() {
        let next = copy.named.take(copy.index + 1);
        assert(next.drop_last() =~= copy.named.take(copy.index));
        assert(next.last() == copy.named[copy.index]);
    }
}

/// How far copying the named streams of one file came after a list of replies.
pub open spec fn naming(
    request: EngineRequest,
    streams: Seq<StreamView>,
    journal_available: bool,
    replies: Seq<NamedReplyView>,
) -> (NamedView, NamedStepView)
    decreases replies.len(),
{
    if replies.len() == 0 {
        named_start(streams, request.settings.destination.supports_streams, journal_available)
    } else {
        naming(request, streams, journal_available, replies.drop_last()).0.after(
            request,
            replies.last(),
        )
    }
}

/// Whether every reply answers the operation that was asked for.
pub open spec fn naming_is_answered(
    request: EngineRequest,
    streams: Seq<StreamView>,
    journal_available: bool,
    replies: Seq<NamedReplyView>,
) -> bool
    decreases replies.len(),
{
    replies.len() > 0 ==> {
        &&& naming_is_answered(request, streams, journal_available, replies.drop_last())
        &&& naming(request, streams, journal_available, replies.drop_last()).0.answered_by(
            replies.last(),
        )
    }
}

/// How many streams were walked to their end.
pub open spec fn walks(replies: Seq<NamedReplyView>) -> int
    decreases replies.len(),
{
    if replies.len() == 0 {
        0
    } else {
        walks(replies.drop_last()) + if replies.last() matches NamedReplyView::Walked(Ok(_)) {
            1int
        } else {
            0
        }
    }
}

/// Where the destination can hold named streams, copying them ends well only
/// once every one of them was opened, found to belong to the enumerated source
/// and walked to its end, and none counts as dropped; where it cannot, all of
/// them count as dropped and none is opened. A failed journal is told, and asked
/// for no more checkpoints.
pub proof fn named_streams_are_all_copied_or_all_dropped(
    request: EngineRequest,
    streams: Seq<StreamView>,
    journal_available: bool,
    replies: Seq<NamedReplyView>,
)
    requires
        naming_is_answered(request, streams, journal_available, replies),
        named_of(streams).len() <= u32::MAX,
    ensures
        ({
            let (copy, step) = naming(request, streams, journal_available, replies);
            let supported = request.settings.destination.supports_streams;
            let names = named_of(streams).len() as int;
            let walked = copy.phase is Flushing;
            &&& copy.wf()
            &&& copy.named == named_of(streams)
            &&& step is Failed ==> copy.phase is Ended
            &&& copy.phase is Ended <==> step is Finished || step is Failed
            &&& !supported ==> replies.len() == 0 && (step matches NamedStepView::Finished {
                result,
            } && result.dropped == names && result.bytes == 0 && result.digests.len() == 0)
            &&& supported && !(step is Failed) ==> walks(replies) == copy.index + if walked {
                1int
            } else {
                0
            }
            &&& supported ==> (step matches NamedStepView::Finished { result } ==> {
                &&& result.dropped == 0
                &&& walks(replies) == names
                &&& result.digests == copy.digests
                &&& result.bytes == copy.bytes
                &&& result.journal_degraded == copy.degraded
            })
            &&& copy.degraded ==> !copy.journal_available
        }),
    decreases replies.len(),
{
    if replies.len() > 0 {
        named_streams_are_all_copied_or_all_dropped(
            request,
            streams,
            journal_available,
            replies.drop_last(),
        );
    }
}

/// A stream is written only after it was found to belong to the enumerated
/// source; a checkpoint of it is sought before a new one is begun; a stream that
/// is resumed, verified, large or checkpointed is digested, and no other.
pub proof fn named_stream_belongs_to_the_source(
    copy: NamedView,
    request: EngineRequest,
    reply: NamedReplyView,
)
    requires
        copy.wf(),
        copy.answered_by(reply),
    ensures
        ({
            let (next, step) = copy.after(request, reply);
            let size = copy.named[copy.index].size;
            let tuning = request.settings.tuning;
            &&& step is FindCheckpoint ==> copy.phase is Identifying && (
            reply matches NamedReplyView::Identity(Ok(identity)) && identity
                == request.source_snapshot.metadata.identity)
            &&& step is Resume <==> copy.phase is Finding && reply == NamedReplyView::Found(true)
            &&& step is CreateStream <==> (copy.phase is Finding && reply == NamedReplyView::Found(
                false,
            )) || (copy.phase is Resuming && (reply matches NamedReplyView::Resumed(Ok(resumed))
                && !resumed))
            &&& step matches NamedStepView::Walk(walk) ==> {
                &&& walk.resumed <==> copy.phase is Resuming
                &&& walk.eligible <==> size >= tuning.checkpoint_threshold
                    && copy.journal_available
                &&& walk.hash <==> walk.resumed || tuning.verify || size >= tuning.large_threshold
                    || walk.eligible
            }
            &&& step is Flush <==> copy.phase is Walking && (reply matches NamedReplyView::Walked(
                Ok(_),
            ))
            &&& copy.phase is Flushing && (reply matches NamedReplyView::Done(Ok(_))) ==> {
                &&& next.index == copy.index + 1
                &&& copy.bytes + size <= u64::MAX ==> next.bytes == copy.bytes + size
            }
        }),
{
}

} // verus!
