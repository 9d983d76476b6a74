//! The stages of one file that goes through a temporary: it is prepared, its
//! data is moved in order, around its holes or in parallel segments, and it is
//! published.

use vstd::prelude::*;
use vstd::string::*;

use crate::audit::opt_error;
use crate::bulk::{
    ranges_walk, stream_walk, BulkKind, StreamWalk, WalkStep, WalkStepView, WalkView,
};
use crate::cursor::{checkpoint_eligible, CheckpointCursor};
use crate::engine::{any_reaches, opened_view, EngineRequest, OpenedFile, OpenedView};
use crate::error::{ErrorView, IoError, OperationError};
use crate::hashing::StreamDigest;
use crate::pipeline::opt_digest;
use crate::platform::{has_attribute, FileIdentity, StreamView, ATTRIBUTE_ENCRYPTED};
use crate::publish::{PublishState, PublishView};
use crate::segment::{
    allocate_burst_buffer_error, spec_stream_buffers, staging_failure, stream_buffers,
    zero_chunk_view, SegmentSite, StreamBuffers,
};
use crate::small::{efs_downgraded_for, lands_unencrypted};

verus! {

/// A temporary that is ready for data.
pub struct PreparedTemp {
    /// Where the copy goes on, and the digest of everything in front.
    pub resumed: Option<(u64, StreamDigest)>,
    /// The allocated ranges of a sparse source.
    pub ranges: Vec<(u64, u64)>,
    /// The temporary's attributes; they count for an encrypted source alone.
    pub attributes: Result<u32, IoError>,
}

/// A temporary that is ready for data, as values.
#[verifier::ext_equal]
pub ghost struct PreparedView {
    pub resumed: Option<(u64, Seq<u8>)>,
    pub ranges: Seq<(u64, u64)>,
    pub attributes: Result<u32, IoError>,
}

impl View for PreparedTemp {
    type V = PreparedView;

    open spec fn view(&self) -> PreparedView {
        PreparedView {
            resumed: match self.resumed {
                Some((offset, digest)) => Some((offset, digest@)),
                None => None,
            },
            ranges: self.ranges@,
            attributes: self.attributes,
        }
    }
}

/// The next stage of one file.
pub enum StageStep {
    /// Prepare the temporary.
    Prepare,
    /// Ask for the temporary's identity, which checkpoints record.
    IdentifyTemp,
    /// Reserve a staging buffer.
    ReserveStaging {
        /// The most bytes that one transfer can need.
        remaining: u64,
    },
    /// Walk the unnamed stream.
    Walk {
        /// The walk.
        walk: StreamWalk,
        /// Its first operation.
        first: WalkStep,
        /// Where its transfers take place.
        site: SegmentSite,
        /// What they need.
        buffers: StreamBuffers,
    },
    /// Copy the segments in parallel, and digest the source meanwhile where a
    /// digest is given.
    CopySegments {
        /// The digest that takes the source.
        digest: Option<StreamDigest>,
    },
    /// Digest the temporary that the segments wrote.
    DigestTemp {
        /// The digest that takes it.
        digest: StreamDigest,
    },
    /// Publish the temporary.
    Publish {
        /// What the publishing rests on.
        state: PublishState,
    },
    /// The copy fails.
    Failed {
        /// Why.
        error: OperationError,
    },
}

/// The next stage of one file, as values.
#[verifier::ext_equal]
pub ghost enum StageStepView {
    Prepare,
    IdentifyTemp,
    ReserveStaging { remaining: u64 },
    Walk { walk: WalkView, first: WalkStepView, site: SegmentSite, buffers: StreamBuffers },
    CopySegments { digest: Option<Seq<u8>> },
    DigestTemp { digest: Seq<u8> },
    Publish { state: PublishView },
    Failed { error: ErrorView },
}

impl View for StageStep {
    type V = StageStepView;

    open spec fn view(&self) -> StageStepView {
        match *self {
            StageStep::Prepare => StageStepView::Prepare,
            StageStep::IdentifyTemp => StageStepView::IdentifyTemp,
            StageStep::ReserveStaging { remaining } => StageStepView::ReserveStaging { remaining },
            StageStep::Walk { walk, first, site, buffers } => StageStepView::Walk {
                walk: walk@,
                first: first@,
                site,
                buffers,
            },
            StageStep::CopySegments { digest } => StageStepView::CopySegments {
                digest: opt_digest(digest),
            },
            StageStep::DigestTemp { digest } => StageStepView::DigestTemp { digest: digest@ },
            StageStep::Publish { state } => StageStepView::Publish { state: state@ },
            StageStep::Failed { error } => StageStepView::Failed { error: error@ },
        }
    }
}

/// What a stage came to.
pub enum StageReply {
    /// The temporary was prepared.
    Prepared(Result<PreparedTemp, OperationError>),
    /// The temporary's identity, where it could be read.
    Identity(Option<FileIdentity>),
    /// Whether a staging buffer was reserved, or why not.
    Staged(Result<(), String>),
    /// The walk that ended.
    Walked(Result<StreamWalk, OperationError>),
    /// Every segment has ended.
    Segments {
        /// The first failure.
        failure: Option<OperationError>,
        /// The digest that took the source.
        digest: Option<StreamDigest>,
    },
    /// The temporary was digested.
    Digested(Result<StreamDigest, OperationError>),
}

/// What a stage came to, as values.
#[verifier::ext_equal]
pub ghost enum StageReplyView {
    Prepared(Result<PreparedView, ErrorView>),
    Identity(Option<FileIdentity>),
    Staged(Result<(), Seq<char>>),
    Walked(Result<WalkView, ErrorView>),
    Segments { failure: Option<ErrorView>, digest: Option<Seq<u8>> },
    Digested(Result<Seq<u8>, ErrorView>),
}

impl View for StageReply {
    type V = StageReplyView;

    open spec fn view(&self) -> StageReplyView {
        match *self {
            StageReply::Prepared(Ok(temp)) => StageReplyView::Prepared(Ok(temp@)),
            StageReply::Prepared(Err(error)) => StageReplyView::Prepared(Err(error@)),
            StageReply::Identity(identity) => StageReplyView::Identity(identity),
            StageReply::Staged(Ok(done)) => StageReplyView::Staged(Ok(done)),
            StageReply::Staged(Err(reason)) => StageReplyView::Staged(Err(reason@)),
            StageReply::Walked(Ok(walk)) => StageReplyView::Walked(Ok(walk@)),
            StageReply::Walked(Err(error)) => StageReplyView::Walked(Err(error@)),
            StageReply::Segments { failure, digest } => StageReplyView::Segments {
                failure: opt_error(failure),
                digest: opt_digest(digest),
            },
            StageReply::Digested(Ok(digest)) => StageReplyView::Digested(Ok(digest@)),
            StageReply::Digested(Err(error)) => StageReplyView::Digested(Err(error@)),
        }
    }
}

/// Where one file stands.
#[derive(Clone, Copy, Debug, PartialEq, Eq, Structural)]
pub enum StagePhase {
    /// The temporary is being prepared.
    Preparing,
    /// Its identity is asked for before the buffers are chosen.
    IdentifyingFirst,
    /// A staging buffer is being reserved.
    Reserving {
        /// The chosen buffers.
        buffers: StreamBuffers,
    },
    /// The temporary's identity is asked for after the buffers were chosen.
    IdentifyingLast {
        /// The chosen buffers.
        buffers: StreamBuffers,
    },
    /// The unnamed stream is being walked.
    Walking,
    /// The segments are being copied.
    Copying,
    /// The temporary is being digested.
    Digesting,
    /// The stages are over.
    Ended,
}

/// One file on its way through a temporary.
pub struct BulkCopy {
    kind: BulkKind,
    journal: bool,
    offset: u64,
    hasher: Option<StreamDigest>,
    efs_downgraded: bool,
    ranges: Vec<(u64, u64)>,
    identity: Option<FileIdentity>,
    phase: StagePhase,
}

/// One file on its way, as values.
#[verifier::ext_equal]
pub ghost struct StageView {
    pub kind: BulkKind,
    pub journal: bool,
    pub offset: u64,
    pub digest: Option<Seq<u8>>,
    pub efs_downgraded: bool,
    pub ranges: Seq<(u64, u64)>,
    pub identity: Option<FileIdentity>,
    pub phase: StagePhase,
}

impl View for BulkCopy {
    type V = StageView;

    closed spec fn view(&self) -> StageView {
        StageView {
            kind: self.kind,
            journal: self.journal,
            offset: self.offset,
            digest: opt_digest(self.hasher),
            efs_downgraded: self.efs_downgraded,
            ranges: self.ranges@,
            identity: self.identity,
            phase: self.phase,
        }
    }
}

/// The length of the longest range.
pub open spec fn longest(ranges: Seq<(u64, u64)>) -> u64
    decreases ranges.len(),
{
    if ranges.len() == 0 {
        0
    } else {
        let rest = longest(ranges.drop_last());
        if ranges.last().1 > rest {
            ranges.last().1
        } else {
            rest
        }
    }
}

fn longest_range(ranges: &Vec<(u64, u64)>) -> (length: u64)
    ensures
        length == longest(ranges@),
{
    let mut length: u64 = 0;
    assert(ranges@.take(0) =~= Seq::<(u64, u64)>::empty());
    for i in 0..ranges.len()
        invariant
            length == longest(ranges@.take(i as int)),
    {
        assert(ranges@.take(i + 1).drop_last() =~= ranges@.take(i as int));
        if ranges[i].1 > length {
            length = ranges[i].1;
        }
    }
    assert(ranges@.take(ranges.len() as int) =~= ranges@);
    length
}

/// The first view of one file.
pub open spec fn stage_start(kind: BulkKind, journal: bool) -> StageView {
    StageView {
        kind,
        journal,
        offset: 0,
        digest: None,
        efs_downgraded: false,
        ranges: seq![],
        identity: None,
        phase: StagePhase::Preparing,
    }
}

impl StageView {
    /// Whether a reply answers the last stage.
    pub open spec fn answered_by(self, request: EngineRequest, reply: StageReplyView) -> bool {
        match self.phase {
            StagePhase::Preparing => reply matches StageReplyView::Prepared(prepared) && (
            prepared matches Ok(temp) ==> (temp.resumed matches Some((offset, _)) ==> offset
                <= request.source().size)),
            StagePhase::IdentifyingFirst => reply is Identity,
            StagePhase::Reserving { .. } => reply is Staged,
            StagePhase::IdentifyingLast { .. } => reply is Identity,
            StagePhase::Walking => reply is Walked,
            StagePhase::Copying => reply is Segments,
            StagePhase::Digesting => reply is Digested,
            StagePhase::Ended => false,
        }
    }

    /// Whether the copy starts inside the file.
    pub open spec fn wf(self, request: EngineRequest) -> bool {
        self.offset <= request.source().size
    }

    /// Whether the unnamed stream is checkpointed.
    pub open spec fn eligible(self, request: EngineRequest) -> bool {
        request.source().size >= request.settings.tuning.checkpoint_threshold && self.journal
    }

    /// The file in another phase.
    pub open spec fn at(self, phase: StagePhase) -> StageView {
        StageView { phase, ..self }
    }

    /// The end of a copy that fails.
    pub open spec fn failing(self, error: ErrorView) -> (StageView, StageStepView) {
        (self.at(StagePhase::Ended), StageStepView::Failed { error })
    }

    /// The file with its temporary prepared. A resumed copy goes on with the
    /// digest of its prefix; any other starts a new one where the data is
    /// digested.
    pub open spec fn with_temp(
        self,
        request: EngineRequest,
        file: OpenedView,
        temp: PreparedView,
    ) -> StageView {
        StageView {
            offset: match temp.resumed {
                Some((offset, _)) => offset,
                None => 0,
            },
            digest: match temp.resumed {
                Some((_, prefix)) => Some(prefix),
                None => if file.should_hash {
                    Some(Seq::empty())
                } else {
                    None
                },
            },
            efs_downgraded: has_attribute(request.source().basic.attributes, ATTRIBUTE_ENCRYPTED)
                && lands_unencrypted(temp.attributes),
            ranges: temp.ranges,
            ..self
        }
    }

    /// The walk over the unnamed stream: around the holes of a sparse file, and
    /// from where the copy starts. The transfers of an ordered walk watch for
    /// cancellation themselves.
    pub open spec fn walking(self, request: EngineRequest, buffers: StreamBuffers) -> (
        StageView,
        StageStepView,
    ) {
        let size = request.source().size;
        let cursor = CheckpointCursor::scheduled(
            self.eligible(request),
            self.offset,
            size,
            self.identity,
        );
        let (walk, first) = if self.kind is Sparse {
            ranges_walk(request.rel(), self.ranges, size, self.offset, cursor, self.digest)
        } else {
            stream_walk(request.rel(), size, self.offset, false, cursor, self.digest)
        };
        let site = if self.kind is Sparse {
            SegmentSite::Sparse
        } else {
            SegmentSite::Stream
        };
        (
            StageView { digest: None, ranges: seq![], phase: StagePhase::Walking, ..self },
            StageStepView::Walk { walk, first, site, buffers },
        )
    }

    /// The stage with its buffers at hand: a sparse file asks for its
    /// temporary's identity only now.
    pub open spec fn buffered(self, request: EngineRequest, buffers: StreamBuffers) -> (
        StageView,
        StageStepView,
    ) {
        if self.kind is Sparse && self.eligible(request) {
            (self.at(StagePhase::IdentifyingLast { buffers }), StageStepView::IdentifyTemp)
        } else {
            self.walking(request, buffers)
        }
    }

    /// The stage that chooses the buffers; a staging buffer is reserved for the
    /// longest range, or for everything that is left.
    pub open spec fn buffering(self, request: EngineRequest) -> (StageView, StageStepView) {
        let tuning = request.settings.tuning;
        match spec_stream_buffers(tuning.transport, tuning.chunk_bytes) {
            None => self.failing(zero_chunk_view(request.rel())),
            Some(buffers) => if buffers is SameSpindle {
                (
                    self.at(StagePhase::Reserving { buffers }),
                    StageStepView::ReserveStaging {
                        remaining: if self.kind is Sparse {
                            longest(self.ranges)
                        } else {
                            (request.source().size - self.offset) as u64
                        },
                    },
                )
            } else {
                self.buffered(request, buffers)
            },
        }
    }

    /// The stage that publishes what was moved.
    pub open spec fn publishing(self, total: u64, digest: Option<Seq<u8>>, degraded: bool) -> (
        StageView,
        StageStepView,
    ) {
        (
            StageView { digest: None, phase: StagePhase::Ended, ..self },
            StageStepView::Publish {
                state: PublishView {
                    total,
                    digest,
                    degraded,
                    efs_downgraded: self.efs_downgraded,
                    named: None,
                    journal: self.journal && !degraded,
                },
            },
        )
    }

    /// The stages that ordered and sparse files share once the temporary is
    /// prepared.
    pub open spec fn after_data(self, request: EngineRequest, reply: StageReplyView) -> (
        StageView,
        StageStepView,
    ) {
        match (self.phase, reply) {
            (StagePhase::IdentifyingFirst, StageReplyView::Identity(identity)) => (StageView {
                identity,
                ..self
            }).buffering(request),
            (StagePhase::Reserving { buffers }, StageReplyView::Staged(staged)) => match staged {
                Err(reason) => self.failing(
                    staging_failure(
                        request.rel(),
                        request.settings.tuning.transport.burst_bytes,
                        reason,
                    ),
                ),
                Ok(_) => self.buffered(request, buffers),
            },
            (StagePhase::IdentifyingLast { buffers }, StageReplyView::Identity(identity)) => (
            StageView { identity, ..self }).walking(request, buffers),
            (StagePhase::Walking, StageReplyView::Walked(walked)) => match walked {
                Err(error) => self.failing(error),
                Ok(walk) => self.publishing(walk.position, walk.digest, walk.degraded),
            },
            _ => (self, StageStepView::Prepare),
        }
    }

    /// The next stage of a file that is copied in order.
    pub open spec fn after_streamed(
        self,
        request: EngineRequest,
        file: OpenedView,
        reply: StageReplyView,
    ) -> (StageView, StageStepView) {
        match reply {
            StageReplyView::Prepared(Err(error)) => self.failing(error),
            StageReplyView::Prepared(Ok(temp)) => {
                let next = self.with_temp(request, file, temp);
                if next.eligible(request) {
                    (next.at(StagePhase::IdentifyingFirst), StageStepView::IdentifyTemp)
                } else {
                    next.buffering(request)
                }
            },
            _ => self.after_data(request, reply),
        }
    }

    /// The next stage of a sparse file.
    pub open spec fn after_sparse(
        self,
        request: EngineRequest,
        file: OpenedView,
        reply: StageReplyView,
    ) -> (StageView, StageStepView) {
        match reply {
            StageReplyView::Prepared(Err(error)) => self.failing(error),
            StageReplyView::Prepared(Ok(temp)) => self.with_temp(request, file, temp).buffering(
                request,
            ),
            _ => self.after_data(request, reply),
        }
    }

    /// The next stage of a file that is copied in parallel segments. The side
    /// that is not WSL's hosts the digest: the source while the segments run,
    /// or the temporary once all of them have ended well.
    pub open spec fn after_segmented(
        self,
        request: EngineRequest,
        file: OpenedView,
        reply: StageReplyView,
    ) -> (StageView, StageStepView) {
        let to_wsl = request.settings.destination.is_wsl;
        match (self.phase, reply) {
            (StagePhase::Preparing, StageReplyView::Prepared(Err(error))) => self.failing(error),
            (StagePhase::Preparing, StageReplyView::Prepared(Ok(temp))) => {
                let next = self.with_temp(request, file, temp);
                (
                    StageView { digest: None, phase: StagePhase::Copying, ..next },
                    StageStepView::CopySegments {
                        digest: if to_wsl {
                            next.digest
                        } else {
                            None
                        },
                    },
                )
            },
            (StagePhase::Copying, StageReplyView::Segments { failure, digest }) => match failure {
                Some(error) => self.failing(error),
                None => if to_wsl {
                    self.publishing(request.source().size, digest, false)
                } else if file.should_hash {
                    (
                        self.at(StagePhase::Digesting),
                        StageStepView::DigestTemp { digest: Seq::empty() },
                    )
                } else {
                    self.publishing(request.source().size, None, false)
                },
            },
            (StagePhase::Digesting, StageReplyView::Digested(digested)) => match digested {
                Err(error) => self.failing(error),
                Ok(digest) => self.publishing(request.source().size, Some(digest), false),
            },
            _ => (self, StageStepView::Prepare),
        }
    }

    /// The next stage of one file.
    pub open spec fn after(
        self,
        request: EngineRequest,
        file: OpenedView,
        reply: StageReplyView,
    ) -> (StageView, StageStepView) {
        match self.kind {
            BulkKind::Streamed => self.after_streamed(request, file, reply),
            BulkKind::Sparse => self.after_sparse(request, file, reply),
            BulkKind::Segmented => self.after_segmented(request, file, reply),
        }
    }
}

impl BulkCopy {
    /// Starts one file; its first stage is to prepare the temporary.
    pub fn start(kind: BulkKind, journal: bool) -> (copy: BulkCopy)
        ensures
            copy@ == stage_start(kind, journal),
    {
        let copy = BulkCopy {
            kind,
            journal,
            offset: 0,
            hasher: None,
            efs_downgraded: false,
            ranges: Vec::new(),
            identity: None,
            phase: StagePhase::Preparing,
        };
        assert(copy@ =~= stage_start(kind, journal));
        copy
    }

    fn fail(&mut self, error: OperationError) -> (next: StageStep)
        ensures
            old(self)@.failing(error@) == (final(self)@, next@),
    {
        self.phase = StagePhase::Ended;
        StageStep::Failed { error }
    }

    fn is_eligible(&self, request: &EngineRequest) -> (eligible: bool)
        ensures
            eligible == self@.eligible(*request),
    {
        checkpoint_eligible(
            request.source_snapshot.metadata.size,
            request.settings.tuning.checkpoint_threshold,
            self.journal,
        )
    }

    fn take_temp(&mut self, request: &EngineRequest, file: &OpenedFile, temp: PreparedTemp)
        requires
            temp.resumed matches Some((offset, _)) ==> offset <= request.source().size,
        ensures
            final(self)@ == old(self)@.with_temp(*request, file@, temp@),
            final(self)@.wf(*request),
    {
        self.efs_downgraded = efs_downgraded_for(request, &temp.attributes);
        self.ranges = temp.ranges;
        match temp.resumed {
            Some((offset, digest)) => {
                self.offset = offset;
                self.hasher = Some(digest);
            },
            None => {
                self.offset = 0;
                self.hasher = if file.should_hash {
                    Some(StreamDigest::new())
                } else {
                    None
                };
            },
        }
        assert(self@ =~= old(self)@.with_temp(*request, file@, temp@));
    }

    fn walk(&mut self, request: &EngineRequest, buffers: StreamBuffers) -> (next: StageStep)
        requires
            old(self)@.wf(*request),
        ensures
            old(self)@.walking(*request, buffers) == (final(self)@, next@),
            next matches StageStep::Walk { walk, .. } && walk@.wf(),
    {
        let size: u64 = request.source_snapshot.metadata.size;
        let cursor = CheckpointCursor::new(
            self.is_eligible(request),
            self.offset,
            size,
            self.identity,
        );
        let mut hasher: Option<StreamDigest> = None;
        std::mem::swap(&mut hasher, &mut self.hasher);
        let mut ranges: Vec<(u64, u64)> = Vec::new();
        std::mem::swap(&mut ranges, &mut self.ranges);
        self.phase = StagePhase::Walking;
        assert(self@ =~= old(self)@.walking(*request, buffers).0);
        if self.kind == BulkKind::Sparse {
            let (walk, first) = StreamWalk::over_ranges(
                request.relative_path,
                ranges,
                size,
                self.offset,
                cursor,
                hasher,
            );
            StageStep::Walk { walk, first, site: SegmentSite::Sparse, buffers }
        } else {
            let (walk, first) = StreamWalk::over_stream(
                request.relative_path,
                size,
                self.offset,
                false,
                cursor,
                hasher,
            );
            StageStep::Walk { walk, first, site: SegmentSite::Stream, buffers }
        }
    }

    fn use_buffers(&mut self, request: &EngineRequest, buffers: StreamBuffers) -> (next: StageStep)
        requires
            old(self)@.wf(*request),
        ensures
            old(self)@.buffered(*request, buffers) == (final(self)@, next@),
            next matches StageStep::Walk { walk, .. } ==> walk@.wf(),
            final(self)@.wf(*request),
    {
        if self.kind == BulkKind::Sparse && self.is_eligible(request) {
            self.phase = StagePhase::IdentifyingLast { buffers };
            StageStep::IdentifyTemp
        } else {
            self.walk(request, buffers)
        }
    }

    fn choose_buffers(&mut self, request: &EngineRequest) -> (next: StageStep)
        requires
            old(self)@.wf(*request),
        ensures
            old(self)@.buffering(*request) == (final(self)@, next@),
            next matches StageStep::Walk { walk, .. } ==> walk@.wf(),
            final(self)@.wf(*request),
    {
        let tuning = request.settings.tuning;
        match stream_buffers(tuning.transport, tuning.chunk_bytes, request.relative_path) {
            Err(error) => self.fail(error),
            Ok(buffers) => {
                if buffers == StreamBuffers::SameSpindle {
                    let remaining: u64 = if self.kind == BulkKind::Sparse {
                        longest_range(&self.ranges)
                    } else {
                        request.source_snapshot.metadata.size - self.offset
                    };
                    self.phase = StagePhase::Reserving { buffers };
                    StageStep::ReserveStaging { remaining }
                } else {
                    self.use_buffers(request, buffers)
                }
            },
        }
    }

    fn publish(&mut self, total: u64, hasher: Option<StreamDigest>, degraded: bool) -> (next:
        StageStep)
        ensures
            old(self)@.publishing(total, opt_digest(hasher), degraded) == (final(self)@, next@),
    {
        self.hasher = None;
        self.phase = StagePhase::Ended;
        StageStep::Publish {
            state: PublishState {
                total,
                hasher,
                degraded,
                efs_downgraded: self.efs_downgraded,
                named: None,
                journal: self.journal && !degraded,
            },
        }
    }

    fn move_data(&mut self, request: &EngineRequest, reply: StageReply) -> (next: StageStep)
        requires
            old(self)@.wf(*request),
            old(self)@.answered_by(*request, reply@),
            !(reply is Prepared),
        ensures
            old(self)@.after_data(*request, reply@) == (final(self)@, next@),
            next matches StageStep::Walk { walk, .. } ==> walk@.wf(),
            final(self)@.wf(*request),
    {
        match (self.phase, reply) {
            (StagePhase::IdentifyingFirst, StageReply::Identity(identity)) => {
                self.identity = identity;
                self.choose_buffers(request)
            },
            (StagePhase::Reserving { buffers }, StageReply::Staged(staged)) => match staged {
                Err(reason) => {
                    let error = allocate_burst_buffer_error(
                        request.relative_path,
                        request.settings.tuning.transport.burst_bytes,
                        reason.as_str(),
                    );
                    self.fail(error)
                },
                Ok(_) => self.use_buffers(request, buffers),
            },
            (StagePhase::IdentifyingLast { buffers }, StageReply::Identity(identity)) => {
                self.identity = identity;
                self.walk(request, buffers)
            },
            (StagePhase::Walking, StageReply::Walked(walked)) => match walked {
                Err(error) => self.fail(error),
                Ok(walk) => {
                    let total: u64 = walk.position();
                    let degraded = walk.is_degraded();
                    let hasher = walk.into_digest();
                    self.publish(total, hasher, degraded)
                },
            },
            _ => StageStep::Prepare,
        }
    }

    /// Decides the next stage of a file that is copied in order.
    pub fn copy_streamed(&mut self, request: &EngineRequest, file: &OpenedFile, reply: StageReply) -> (next:
        StageStep)
        requires
            old(self)@.wf(*request),
            old(self)@.answered_by(*request, reply@),
        ensures
            old(self)@.after_streamed(*request, file@, reply@) == (final(self)@, next@),
            next matches StageStep::Walk { walk, .. } ==> walk@.wf(),
            final(self)@.wf(*request),
    {
        match reply {
            StageReply::Prepared(Err(error)) => self.fail(error),
            StageReply::Prepared(Ok(temp)) => {
                self.take_temp(request, file, temp);
                if self.is_eligible(request) {
                    self.phase = StagePhase::IdentifyingFirst;
                    StageStep::IdentifyTemp
                } else {
                    self.choose_buffers(request)
                }
            },
            reply => self.move_data(request, reply),
        }
    }

    /// Decides the next stage of a sparse file.
    pub fn copy_sparse(&mut self, request: &EngineRequest, file: &OpenedFile, reply: StageReply) -> (next:
        StageStep)
        requires
            old(self)@.wf(*request),
            old(self)@.answered_by(*request, reply@),
        ensures
            old(self)@.after_sparse(*request, file@, reply@) == (final(self)@, next@),
            next matches StageStep::Walk { walk, .. } ==> walk@.wf(),
            final(self)@.wf(*request),
    {
        match reply {
            StageReply::Prepared(Err(error)) => self.fail(error),
            StageReply::Prepared(Ok(temp)) => {
                self.take_temp(request, file, temp);
                self.choose_buffers(request)
            },
            reply => self.move_data(request, reply),
        }
    }

    /// Decides the next stage of a file that is copied in parallel segments.
    pub fn copy_streamed_segmented(
        &mut self,
        request: &EngineRequest,
        file: &OpenedFile,
        reply: StageReply,
    ) -> (next: StageStep)
        requires
            old(self)@.wf(*request),
            old(self)@.answered_by(*request, reply@),
        ensures
            old(self)@.after_segmented(*request, file@, reply@) == (final(self)@, next@),
            next matches StageStep::Walk { walk, .. } ==> walk@.wf(),
            final(self)@.wf(*request),
    {
        let to_wsl = request.settings.destination.is_wsl;
        let size: u64 = request.source_snapshot.metadata.size;
        match (self.phase, reply) {
            (StagePhase::Preparing, StageReply::Prepared(prepared)) => match prepared {
                Err(error) => self.fail(error),
                Ok(temp) => {
                    self.take_temp(request, file, temp);
                    let mut digest: Option<StreamDigest> = None;
                    std::mem::swap(&mut digest, &mut self.hasher);
                    self.phase = StagePhase::Copying;
                    StageStep::CopySegments {
                        digest: if to_wsl {
                            digest
                        } else {
                            None
                        },
                    }
                },
            },
            (StagePhase::Copying, StageReply::Segments { failure, digest }) => match failure {
                Some(error) => self.fail(error),
                None => {
                    if to_wsl {
                        self.publish(size, digest, false)
                    } else if file.should_hash {
                        self.phase = StagePhase::Digesting;
                        StageStep::DigestTemp { digest: StreamDigest::new() }
                    } else {
                        self.publish(size, None, false)
                    }
                },
            },
            (StagePhase::Digesting, StageReply::Digested(digested)) => match digested {
                Err(error) => self.fail(error),
                Ok(digest) => self.publish(size, Some(digest), false),
            },
            _ => StageStep::Prepare,
        }
    }

    /// Decides the next stage of one file.
    pub fn advance(&mut self, request: &EngineRequest, file: &OpenedFile, reply: StageReply) -> (next:
        StageStep)
        requires
            old(self)@.wf(*request),
            old(self)@.answered_by(*request, reply@),
        ensures
            old(self)@.after(*request, file@, reply@) == (final(self)@, next@),
            next matches StageStep::Walk { walk, .. } ==> walk@.wf(),
            final(self)@.wf(*request),
    {
        match self.kind {
            BulkKind::Streamed => self.copy_streamed(request, file, reply),
            BulkKind::Sparse => self.copy_sparse(request, file, reply),
            BulkKind::Segmented => self.copy_streamed_segmented(request, file, reply),
        }
    }
}

/// A file is published only behind its data: after a walk that ended well, or
/// after every segment has.
pub proof fn publishing_follows_the_data(
    copy: StageView,
    request: EngineRequest,
    file: OpenedView,
    reply: StageReplyView,
)
    requires
        copy.wf(request),
        copy.answered_by(request, reply),
    ensures
        ({
            let (next, step) = copy.after(request, file, reply);
            &&& next.kind == copy.kind
            &&& next.journal == copy.journal
            &&& step matches StageStepView::Publish { state } ==> {
                &&& next.phase is Ended
                &&& copy.phase is Walking && (reply matches StageReplyView::Walked(Ok(walk))
                    && state.total == walk.position && state.digest == walk.digest)
                    || copy.phase is Copying && reply is Segments && reply->failure is None
                    || copy.phase is Digesting && reply is Digested && reply->Digested_0 is Ok
                &&& state.degraded ==> !state.journal
            }
        }),
{
}

/// Data that is checkpointed is digested, so that a checkpoint has a digest to
/// attest: a file whose stream list shows its unnamed stream at full size is
/// digested wherever that stream is long enough for checkpoints.
pub proof fn checkpointed_data_is_digested(
    copy: StageView,
    request: EngineRequest,
    streams: Seq<StreamView>,
    extended_attributes: Option<Seq<u8>>,
    temp: PreparedView,
    at: int,
)
    requires
        0 <= at < streams.len(),
        streams[at].is_unnamed(),
        streams[at].size == request.source().size,
    ensures
        ({
            let file = opened_view(request, copy.journal, streams, extended_attributes);
            let next = copy.with_temp(request, file, temp);
            next.eligible(request) ==> next.digest is Some
        }),
{
    assert(streams[at].size >= request.settings.tuning.checkpoint_threshold ==> any_reaches(
        streams,
        request.settings.destination.supports_streams,
        request.settings.tuning.checkpoint_threshold,
    ));
}

/// A copy goes on exactly where its temporary ends: from the start of a new one,
/// or from the checked prefix of a resumed one, whose digest goes along. A new
/// one is digested exactly if the file is. An encrypted source that does not
/// land encrypted is told.
pub proof fn copy_goes_on_where_its_temporary_ends(
    copy: StageView,
    request: EngineRequest,
    file: OpenedView,
    temp: PreparedView,
)
    ensures
        ({
            let next = copy.with_temp(request, file, temp);
            &&& temp.resumed matches Some((offset, prefix)) ==> next.offset == offset
                && next.digest == Some(prefix)
            &&& temp.resumed is None ==> next.offset == 0 && (next.digest is Some
                <==> file.should_hash) && (next.digest is Some ==> next.digest->0.len() == 0)
            &&& next.efs_downgraded <==> request.source_snapshot.metadata.basic.attributes
                & 0x4000u32 != 0 && !(temp.attributes matches Ok(bits) && bits & 0x4000u32 != 0)
            &&& next.ranges == temp.ranges
            &&& next.journal == copy.journal
            &&& next.kind == copy.kind
        }),
{
}

/// The data is walked from where the temporary ends to the size that was
/// enumerated, sparse data through its allocated ranges. A walk takes
/// checkpoints exactly if the journal is there and the data is large enough for
/// them, and then under the identity that was asked of the temporary.
pub proof fn walk_covers_the_rest_of_the_data(
    copy: StageView,
    request: EngineRequest,
    buffers: StreamBuffers,
)
    requires
        copy.offset <= request.source_snapshot.metadata.size,
    ensures
        ({
            let (next, step) = copy.walking(request, buffers);
            let size = request.source_snapshot.metadata.size;
            let eligible = copy.journal && size >= request.settings.tuning.checkpoint_threshold;
            &&& next.phase is Walking
            &&& step matches StageStepView::Walk { walk, site, buffers: used, .. } && {
                &&& used == buffers
                &&& walk.size == size
                &&& walk.cursor.temp_identity == copy.identity
                &&& walk.cursor.next is Some <==> eligible
                &&& walk.cursor.total_size == size
                &&& copy.kind is Sparse ==> walk.ranges == copy.ranges && site is Sparse
                &&& !(copy.kind is Sparse) ==> site is Stream && walk.position == copy.offset
                    && walk.end == size && walk.digest == copy.digest
            }
        }),
{
}

/// Where a copy takes checkpoints, the identity of its temporary is asked for
/// before its data is walked.
pub proof fn checkpointed_temporary_is_identified(
    copy: StageView,
    request: EngineRequest,
    file: OpenedView,
    reply: StageReplyView,
)
    requires
        copy.wf(request),
        copy.answered_by(request, reply),
        !(copy.kind is Segmented),
        copy.journal,
        request.source_snapshot.metadata.size >= request.settings.tuning.checkpoint_threshold,
    ensures
        ({
            let (next, step) = copy.after(request, file, reply);
            &&& copy.phase is Preparing ==> !(step is Walk)
            &&& copy.kind is Sparse && !(copy.phase is IdentifyingLast) && !(copy.phase
                is IdentifyingFirst) ==> !(step is Walk)
            &&& reply matches StageReplyView::Identity(identity) ==> next.identity == identity
            &&& copy.kind is Streamed && copy.phase is Preparing && !(step is Failed) ==> step
                is IdentifyTemp
        }),
{
}

/// A file that was copied in parts is published at its enumerated size, with the
/// digest that went along towards WSL, with that of its temporary elsewhere where
/// one is wanted, and with none otherwise; a failed part publishes nothing.
pub proof fn parts_are_published_with_their_digest(
    copy: StageView,
    request: EngineRequest,
    file: OpenedView,
    reply: StageReplyView,
)
    requires
        copy.kind is Segmented,
        copy.answered_by(request, reply),
    ensures
        ({
            let (next, step) = copy.after(request, file, reply);
            let to_wsl = request.settings.destination.is_wsl;
            &&& step matches StageStepView::Publish { state } ==> {
                &&& state.total == request.source_snapshot.metadata.size
                &&& !state.degraded
                &&& state.efs_downgraded == copy.efs_downgraded
                &&& state.named is None
                &&& to_wsl && copy.phase is Copying ==> state.digest == reply->Segments_digest
                &&& !to_wsl && copy.phase is Copying ==> !file.should_hash && state.digest is None
                &&& copy.phase is Digesting ==> reply == StageReplyView::Digested(
                    Ok(state.digest->0),
                ) && state.digest is Some
            }
            &&& step is DigestTemp <==> copy.phase is Copying && reply->failure is None && !to_wsl
                && file.should_hash
            &&& step matches StageStepView::DigestTemp { digest } ==> digest.len() == 0
            &&& copy.phase is Copying && reply->failure is Some ==> step is Failed
        }),
{
}

/// A walk that is published is told as it ended: its position as the bytes, its
/// digest, and a journal that failed under it.
pub proof fn walked_data_is_published_as_it_ended(
    copy: StageView,
    request: EngineRequest,
    file: OpenedView,
    walk: WalkView,
)
    requires
        copy.phase is Walking,
        !(copy.kind is Segmented),
    ensures
        copy.after(request, file, StageReplyView::Walked(Ok(walk))).1 matches
            StageStepView::Publish { state } && {
            &&& state.total == walk.position
            &&& state.digest == walk.digest
            &&& state.degraded == walk.degraded
            &&& state.journal == (copy.journal && !walk.degraded)
            &&& state.efs_downgraded == copy.efs_downgraded
            &&& state.named is None
        },
{
}

/// One staging buffer on a shared spindle is asked for what is left of the
/// data, or for the longest allocated range of sparse data.
pub proof fn staging_fits_the_longest_part(ranges: Seq<(u64, u64)>, i: int)
    requires
        0 <= i < ranges.len(),
    ensures
        ranges[i].1 <= longest(ranges),
        exists|j: int| 0 <= j < ranges.len() && (#[trigger] ranges[j]).1 == longest(ranges),
    decreases ranges.len(),
{
    let front = ranges.drop_last();
    if front.len() > 0 {
        staging_fits_the_longest_part(front, if i < front.len() {
            i
        } else {
            0
        });
        let j = choose|j: int| 0 <= j < front.len() && (#[trigger] front[j]).1 == longest(front);
        assert(ranges[j] == front[j]);
        if i < front.len() {
            assert(ranges[i] == front[i]);
        }
    } else {
        assert(longest(front) == 0);
    }
    assert(ranges[ranges.len() - 1] == ranges.last());
    if front.len() == 0 && ranges.last().1 == 0 {
        assert(ranges[0].1 == longest(ranges));
    }
}

} // verus!
