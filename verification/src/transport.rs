//! Static copy-transport policy selected from preflight topology, and the staging
//! buffer of the phased transport.
//!
//! The standard transport keeps one request-sized buffer. A rotational source
//! and destination that share a physical disk use a larger bounded staging
//! buffer, so that reads and writes happen in coarse phases.

use vstd::prelude::*;

use std::collections::TryReserveError;

use crate::error::{IoError, IoErrorKind};

verus! {

/// Effective data-transport strategy recorded in logs and reports.
#[derive(Clone, Copy, Debug, PartialEq, Eq, Structural)]
pub enum TransportKind {
    /// Request-at-a-time buffered streaming.
    Standard,
    /// Bounded read/write overlap for generic UNC and mapped-network paths.
    Redirector,
    /// WSL's local Plan 9 redirector.
    Wsl,
    /// Phased reads and writes for intersecting rotational media.
    SameSpindle,
}

/// Immutable transport settings selected before copy I/O starts.
#[derive(Clone, Copy, Debug, PartialEq, Eq, Structural)]
pub struct TransportProfile {
    /// Selected strategy.
    pub kind: TransportKind,
    /// Standard, redirector and WSL request bytes, or maximum same-spindle
    /// staging.
    pub burst_bytes: usize,
}

impl Default for TransportProfile {
    fn default() -> (profile: Self)
        ensures
            profile.kind is Standard,
            profile.burst_bytes == 0,
    {
        TransportProfile { kind: TransportKind::Standard, burst_bytes: 0 }
    }
}

impl TransportProfile {
    /// Creates the unchanged request-at-a-time transport.
    pub fn standard(chunk_bytes: usize) -> (profile: Self)
        ensures
            profile == (TransportProfile { kind: TransportKind::Standard, burst_bytes: chunk_bytes }),
    {
        TransportProfile { kind: TransportKind::Standard, burst_bytes: chunk_bytes }
    }

    /// Creates the rotational same-device phased transport.
    pub fn same_spindle(burst_bytes: usize) -> (profile: Self)
        ensures
            profile == (TransportProfile { kind: TransportKind::SameSpindle, burst_bytes }),
    {
        TransportProfile { kind: TransportKind::SameSpindle, burst_bytes }
    }

    /// Creates the bounded redirector pipeline.
    pub fn redirector(chunk_bytes: usize) -> (profile: Self)
        ensures
            profile == (TransportProfile {
                kind: TransportKind::Redirector,
                burst_bytes: chunk_bytes,
            }),
    {
        TransportProfile { kind: TransportKind::Redirector, burst_bytes: chunk_bytes }
    }

    /// Creates the bounded WSL Plan 9 pipeline.
    pub fn wsl(chunk_bytes: usize) -> (profile: Self)
        ensures
            profile == (TransportProfile { kind: TransportKind::Wsl, burst_bytes: chunk_bytes }),
    {
        TransportProfile { kind: TransportKind::Wsl, burst_bytes: chunk_bytes }
    }

    /// Whether streamed files overlap reads and writes.
    pub open spec fn spec_is_redirector(self) -> bool {
        self.kind is Redirector || self.kind is Wsl
    }

    /// Whether reads and writes must be serialized into coarse phases.
    pub fn is_same_spindle(self) -> (r: bool)
        ensures
            r == self.kind is SameSpindle,
    {
        matches!(self.kind, TransportKind::SameSpindle)
    }

    /// Whether streamed files should overlap source reads and destination
    /// writes through the bounded redirector pipeline.
    pub fn is_redirector(self) -> (r: bool)
        ensures
            r == self.spec_is_redirector(),
    {
        matches!(self.kind, TransportKind::Redirector | TransportKind::Wsl)
    }

    /// Whether the transfer crosses WSL's Plan 9 provider.
    pub fn is_wsl(self) -> (r: bool)
        ensures
            r == self.kind is Wsl,
    {
        matches!(self.kind, TransportKind::Wsl)
    }
}

/// Progress retained when a phased read or write is interrupted.
#[derive(Clone, Debug, PartialEq, Eq)]
pub struct TransferFailure {
    /// Why it was interrupted.
    pub kind: TransferFailureKind,
    /// Bytes that were moved before.
    pub transferred: usize,
}

/// Cause of an interrupted phased operation.
#[derive(Clone, Debug, PartialEq, Eq)]
pub enum TransferFailureKind {
    /// The copy was canceled.
    Canceled,
    /// The destination took no byte.
    NoProgress,
    /// A request failed.
    Io(IoError),
}

/// The next request of one phase of a burst.
#[derive(Clone, Debug, PartialEq, Eq)]
pub enum BurstStep {
    /// Ask whether the copy was canceled.
    Poll {
        /// Bytes moved in this phase.
        done: usize,
    },
    /// Move up to `length` bytes.
    Request {
        /// Bytes moved in this phase.
        done: usize,
        /// The size of the request.
        length: usize,
    },
    /// The phase is over.
    Finished {
        /// Bytes moved in this phase.
        count: usize,
    },
    /// The phase was interrupted.
    Failed {
        /// Why, and how far it got.
        failure: TransferFailure,
    },
}

/// What a request of a read phase came to.
#[derive(Debug, PartialEq, Eq)]
pub enum ReadReply {
    /// Whether the copy was canceled.
    Polled(bool),
    /// The bytes that the source gave; none at its end.
    Read(Result<Vec<u8>, IoError>),
}

/// What a request of a read phase came to, as values.
#[verifier::ext_equal]
pub ghost enum ReadReplyView {
    Polled(bool),
    Read(Result<Seq<u8>, IoError>),
}

impl View for ReadReply {
    type V = ReadReplyView;

    open spec fn view(&self) -> ReadReplyView {
        match *self {
            ReadReply::Polled(canceled) => ReadReplyView::Polled(canceled),
            ReadReply::Read(Ok(bytes)) => ReadReplyView::Read(Ok(bytes@)),
            ReadReply::Read(Err(error)) => ReadReplyView::Read(Err(error)),
        }
    }
}

/// What a request of a write phase came to.
#[derive(Debug, PartialEq, Eq)]
pub enum WriteReply {
    /// Whether the copy was canceled.
    Polled(bool),
    /// How many bytes the destination took.
    Written(Result<usize, IoError>),
}

/// A staging buffer as values: what it holds, how much it can hold, and the
/// size of one request.
#[verifier::ext_equal]
pub ghost struct BurstView {
    pub staged: Seq<u8>,
    pub capacity: usize,
    pub request_bytes: usize,
}

/// The step after `done` of `limit` bytes were moved.
pub open spec fn burst_progress(done: int, limit: int) -> BurstStep {
    if done < limit {
        BurstStep::Poll { done: done as usize }
    } else {
        BurstStep::Finished { count: done as usize }
    }
}

/// The step that an interrupted phase ends with.
pub open spec fn burst_failed(kind: TransferFailureKind, done: usize) -> BurstStep {
    BurstStep::Failed { failure: TransferFailure { kind, transferred: done } }
}

impl BurstView {
    /// Whether a buffer can stage at least one byte at a time.
    pub open spec fn wf(self) -> bool {
        1 <= self.request_bytes <= self.capacity && self.staged.len() <= self.capacity
    }

    /// The request after `done` of `limit` bytes were moved.
    pub open spec fn request(self, done: usize, limit: usize) -> BurstStep {
        BurstStep::Request {
            done,
            length: if limit - done < self.request_bytes {
                (limit - done) as usize
            } else {
                self.request_bytes
            },
        }
    }

    /// Whether a reply answers a step of a read phase over `limit` bytes.
    pub open spec fn read_answers(
        self,
        limit: usize,
        step: BurstStep,
        reply: ReadReplyView,
    ) -> bool {
        match step {
            BurstStep::Poll { done } => reply is Polled && done < limit && self.staged.len()
                == done,
            BurstStep::Request { done, length } => {
                &&& self.staged.len() == done
                &&& done + length <= limit
                &&& reply matches ReadReplyView::Read(read) && (read matches Ok(bytes)
                    ==> bytes.len() <= length)
            },
            _ => false,
        }
    }

    /// The next step of a read phase over `limit` bytes, and what is staged
    /// then.
    pub open spec fn after_read(self, limit: usize, step: BurstStep, reply: ReadReplyView) -> (
        BurstStep,
        Seq<u8>,
    ) {
        match (step, reply) {
            (BurstStep::Poll { done }, ReadReplyView::Polled(canceled)) => if canceled {
                (burst_failed(TransferFailureKind::Canceled, done), self.staged)
            } else {
                (self.request(done, limit), self.staged)
            },
            (BurstStep::Request { done, .. }, ReadReplyView::Read(Ok(bytes))) => {
                if bytes.len() == 0 {
                    (BurstStep::Finished { count: done }, self.staged)
                } else {
                    (burst_progress(done + bytes.len(), limit as int), self.staged + bytes)
                }
            },
            (BurstStep::Request { done, .. }, ReadReplyView::Read(Err(error))) => {
                if error.kind is Interrupted {
                    (burst_progress(done as int, limit as int), self.staged)
                } else {
                    (burst_failed(TransferFailureKind::Io(error), done), self.staged)
                }
            },
            _ => (step, self.staged),
        }
    }

    /// Whether a reply answers a step of a write phase over `length` bytes.
    pub open spec fn write_answers(
        self,
        length: usize,
        step: BurstStep,
        reply: WriteReply,
    ) -> bool {
        match step {
            BurstStep::Poll { done } => reply is Polled && done < length,
            BurstStep::Request { done, length: window } => {
                &&& done + window <= length
                &&& reply matches WriteReply::Written(written) && (written matches Ok(count)
                    ==> count <= window)
            },
            _ => false,
        }
    }

    /// The next step of a write phase over `length` bytes.
    pub open spec fn after_write(
        self,
        length: usize,
        step: BurstStep,
        reply: WriteReply,
    ) -> BurstStep {
        match (step, reply) {
            (BurstStep::Poll { done }, WriteReply::Polled(canceled)) => if canceled {
                burst_failed(TransferFailureKind::Canceled, done)
            } else {
                self.request(done, length)
            },
            (BurstStep::Request { done, .. }, WriteReply::Written(Ok(count))) => if count == 0 {
                burst_failed(TransferFailureKind::NoProgress, done)
            } else {
                burst_progress(done + count, length as int)
            },
            (BurstStep::Request { done, .. }, WriteReply::Written(Err(error))) => {
                if error.kind is Interrupted {
                    burst_progress(done as int, length as int)
                } else {
                    burst_failed(TransferFailureKind::Io(error), done)
                }
            },
            _ => step,
        }
    }
}

/// The capacity of a staging buffer: no more than the stream still needs, and
/// at least one byte.
pub open spec fn burst_capacity(burst_bytes: usize, remaining: u64) -> int {
    if burst_bytes <= remaining {
        if burst_bytes < 1 {
            1
        } else {
            burst_bytes as int
        }
    } else if remaining < 1 {
        1
    } else {
        remaining as int
    }
}

/// Fallibly allocated buffer that performs request-sized I/O inside one burst.
pub struct BurstBuffer {
    staged: Vec<u8>,
    capacity: usize,
    request_bytes: usize,
}

impl View for BurstBuffer {
    type V = BurstView;

    closed spec fn view(&self) -> BurstView {
        BurstView {
            staged: self.staged@,
            capacity: self.capacity,
            request_bytes: self.request_bytes,
        }
    }
}

/// The size of one request of a staging buffer: at least one byte, and no more
/// than the buffer can hold.
pub open spec fn burst_request_bytes(request_bytes: usize, capacity: usize) -> usize {
    if request_bytes < 1 {
        1
    } else if request_bytes < capacity {
        request_bytes
    } else {
        capacity
    }
}

/// How many bytes a staging buffer reserves.
pub fn staging_bytes(profile: TransportProfile, remaining: u64) -> (bytes: usize)
    ensures
        bytes == burst_capacity(profile.burst_bytes, remaining),
{
    let wanted: usize = if profile.burst_bytes as u64 <= remaining {
        profile.burst_bytes
    } else {
        remaining as usize
    };
    if wanted < 1 {
        1
    } else {
        wanted
    }
}

impl BurstBuffer {
    /// The buffer over a reservation of [`staging_bytes`], or the allocator's
    /// refusal: nothing else stands in the way of a buffer.
    pub fn over(
        profile: TransportProfile,
        request_bytes: usize,
        remaining: u64,
        reserved: Result<Vec<u8>, TryReserveError>,
    ) -> (buffer: Result<Self, TryReserveError>)
        ensures
            match reserved {
                Err(refusal) => buffer == Err::<BurstBuffer, TryReserveError>(refusal),
                Ok(_) => buffer matches Ok(buffer) && {
                    &&& buffer@.wf()
                    &&& buffer@.staged == Seq::<u8>::empty()
                    &&& buffer@.capacity == burst_capacity(profile.burst_bytes, remaining)
                    &&& buffer@.request_bytes == burst_request_bytes(
                        request_bytes,
                        buffer@.capacity,
                    )
                },
            },
    {
        match reserved {
            Err(refusal) => Err(refusal),
            Ok(storage) => {
                let mut staged = storage;
                staged.clear();
                let capacity: usize = staging_bytes(profile, remaining);
                let request_bytes: usize = if request_bytes < 1 {
                    1
                } else if request_bytes < capacity {
                    request_bytes
                } else {
                    capacity
                };
                Ok(BurstBuffer { staged, capacity, request_bytes })
            },
        }
    }

    /// Allocates at most the stream bytes still needing transfer. Whether there
    /// is a buffer is the allocator's decision, and its refusal is handed on as
    /// [`BurstBuffer::over`] says.
    pub fn new(profile: TransportProfile, request_bytes: usize, remaining: u64) -> (buffer: Result<
        Self,
        TryReserveError,
    >)
        ensures
            buffer matches Ok(buffer) ==> {
                &&& buffer@.wf()
                &&& buffer@.staged == Seq::<u8>::empty()
                &&& buffer@.capacity == burst_capacity(profile.burst_bytes, remaining)
                &&& buffer@.request_bytes == burst_request_bytes(request_bytes, buffer@.capacity)
            },
    {
        let mut storage: Vec<u8> = Vec::new();
        let reserved: Result<Vec<u8>, TryReserveError> = match storage.try_reserve(
            staging_bytes(profile, remaining),
        ) {
            Err(refusal) => Err(refusal),
            Ok(_) => Ok(storage),
        };
        BurstBuffer::over(profile, request_bytes, remaining, reserved)
    }

    /// Starts a read phase over `limit` bytes.
    pub fn begin_read(&mut self, limit: usize) -> (step: BurstStep)
        ensures
            final(self)@ == (BurstView { staged: Seq::empty(), ..old(self)@ }),
            step == burst_progress(0, limit as int),
    {
        self.staged.clear();
        assert(self@ =~= (BurstView { staged: Seq::empty(), ..old(self)@ }));
        if limit > 0 {
            BurstStep::Poll { done: 0 }
        } else {
            BurstStep::Finished { count: 0 }
        }
    }

    fn request(&self, done: usize, limit: usize) -> (step: BurstStep)
        requires
            done <= limit,
        ensures
            step == self@.request(done, limit),
    {
        let left: usize = limit - done;
        let length: usize = if left < self.request_bytes {
            left
        } else {
            self.request_bytes
        };
        BurstStep::Request { done, length }
    }

    /// Stages what the source gave, polling cancellation between requests. A
    /// short source ends the phase with fewer bytes, so that the caller can
    /// tell a source change with exact counters.
    pub fn read_from(&mut self, limit: usize, step: BurstStep, reply: ReadReply) -> (next: BurstStep)
        requires
            old(self)@.wf(),
            limit <= old(self)@.capacity,
            old(self)@.read_answers(limit, step, reply@),
        ensures
            old(self)@.after_read(limit, step, reply@) == (next, final(self)@.staged),
            final(self)@ == (BurstView { staged: final(self)@.staged, ..old(self)@ }),
            final(self)@.wf(),
    {
        let ghost before = self@;
        match (step, reply) {
            (BurstStep::Poll { done }, ReadReply::Polled(canceled)) => {
                if canceled {
                    let kind = TransferFailureKind::Canceled;
                    BurstStep::Failed { failure: TransferFailure { kind, transferred: done } }
                } else {
                    self.request(done, limit)
                }
            },
            (BurstStep::Request { done, .. }, ReadReply::Read(read)) => match read {
                Ok(bytes) => {
                    if bytes.len() == 0 {
                        BurstStep::Finished { count: done }
                    } else {
                        self.staged.extend_from_slice(bytes.as_slice());
                        assert(self.staged@ =~= before.staged + bytes@);
                        let done: usize = done + bytes.len();
                        if done < limit {
                            BurstStep::Poll { done }
                        } else {
                            BurstStep::Finished { count: done }
                        }
                    }
                },
                Err(error) => {
                    if error.kind == IoErrorKind::Interrupted {
                        if done < limit {
                            BurstStep::Poll { done }
                        } else {
                            BurstStep::Finished { count: done }
                        }
                    } else {
                        let kind = TransferFailureKind::Io(error);
                        BurstStep::Failed { failure: TransferFailure { kind, transferred: done } }
                    }
                },
            },
            (step, _) => step,
        }
    }

    /// Starts a write phase over a staged prefix.
    pub fn begin_write(&self, length: usize) -> (step: BurstStep)
        ensures
            step == burst_progress(0, length as int),
    {
        if length > 0 {
            BurstStep::Poll { done: 0 }
        } else {
            BurstStep::Finished { count: 0 }
        }
    }

    /// The bytes of one write request.
    pub fn window(&self, done: usize, length: usize) -> (bytes: &[u8])
        requires
            done + length <= self@.staged.len(),
        ensures
            bytes@ == self@.staged.subrange(done as int, done + length),
    {
        let staged = self.staged.as_slice();
        assert(done + length <= staged.len());
        vstd::slice::slice_subrange(staged, done, done + length)
    }

    /// Decides the next write request of a staged prefix, polling cancellation
    /// between requests.
    pub fn write_to(&self, length: usize, step: BurstStep, reply: WriteReply) -> (next: BurstStep)
        requires
            self@.wf(),
            length <= self@.staged.len(),
            self@.write_answers(length, step, reply),
        ensures
            next == self@.after_write(length, step, reply),
    {
        match (step, reply) {
            (BurstStep::Poll { done }, WriteReply::Polled(canceled)) => {
                if canceled {
                    let kind = TransferFailureKind::Canceled;
                    BurstStep::Failed { failure: TransferFailure { kind, transferred: done } }
                } else {
                    self.request(done, length)
                }
            },
            (BurstStep::Request { done, .. }, WriteReply::Written(written)) => match written {
                Ok(count) => {
                    if count == 0 {
                        let kind = TransferFailureKind::NoProgress;
                        BurstStep::Failed { failure: TransferFailure { kind, transferred: done } }
                    } else {
                        let done: usize = done + count;
                        if done < length {
                            BurstStep::Poll { done }
                        } else {
                            BurstStep::Finished { count: done }
                        }
                    }
                },
                Err(error) => {
                    if error.kind == IoErrorKind::Interrupted {
                        if done < length {
                            BurstStep::Poll { done }
                        } else {
                            BurstStep::Finished { count: done }
                        }
                    } else {
                        let kind = TransferFailureKind::Io(error);
                        BurstStep::Failed { failure: TransferFailure { kind, transferred: done } }
                    }
                },
            },
            (step, _) => step,
        }
    }

    /// Returns the staged prefix for hashing.
    pub fn prefix(&self, length: usize) -> (bytes: &[u8])
        requires
            length <= self@.staged.len(),
        ensures
            bytes@ == self@.staged.take(length as int),
    {
        let bytes = vstd::slice::slice_subrange(self.staged.as_slice(), 0, length);
        assert(bytes@ =~= self@.staged.take(length as int));
        bytes
    }

    /// Maximum bytes in one read phase.
    pub fn capacity(&self) -> (capacity: usize)
        ensures
            capacity == self@.capacity,
    {
        self.capacity
    }
}

/// The bytes that a step has moved.
pub open spec fn burst_done(step: BurstStep) -> int {
    match step {
        BurstStep::Poll { done } => done as int,
        BurstStep::Request { done, .. } => done as int,
        BurstStep::Finished { count } => count as int,
        BurstStep::Failed { failure } => failure.transferred as int,
    }
}

/// A read phase stages the source's bytes in order and counts exactly what it
/// staged, however it goes on.
pub proof fn read_phase_stages_in_order(
    buffer: BurstView,
    limit: usize,
    step: BurstStep,
    reply: ReadReplyView,
)
    requires
        buffer.wf(),
        limit <= buffer.capacity,
        buffer.read_answers(limit, step, reply),
    ensures
        burst_done(buffer.after_read(limit, step, reply).0) == buffer.after_read(
            limit,
            step,
            reply,
        ).1.len(),
        buffer.staged.is_prefix_of(buffer.after_read(limit, step, reply).1),
        buffer.after_read(limit, step, reply).1.len() <= limit,
{
    let staged = buffer.after_read(limit, step, reply).1;
    assert(staged.take(buffer.staged.len() as int) =~= buffer.staged);
}

/// A write phase gives the destination the staged bytes in order: where the
/// destination holds the first bytes of the staged prefix and takes some bytes
/// of the window it is offered, it then holds that many more, and the phase
/// counts exactly what it holds.
pub proof fn write_phase_reproduces_the_prefix(
    buffer: BurstView,
    length: usize,
    step: BurstStep,
    reply: WriteReply,
    destination: Seq<u8>,
)
    requires
        buffer.wf(),
        length <= buffer.staged.len(),
        buffer.write_answers(length, step, reply),
        destination == buffer.staged.take(burst_done(step)),
    ensures
        ({
            let next = buffer.after_write(length, step, reply);
            let taken = match (step, reply) {
                (BurstStep::Request { done, length: window }, WriteReply::Written(Ok(count))) =>
                    buffer.staged.subrange(done as int, done + window).take(count as int),
                _ => Seq::<u8>::empty(),
            };
            &&& destination + taken == buffer.staged.take(burst_done(next))
            &&& burst_done(next) <= length
            &&& next is Finished ==> burst_done(next) == length
        }),
{
    let next = buffer.after_write(length, step, reply);
    if let BurstStep::Request { done, length: window } = step {
        if let WriteReply::Written(Ok(count)) = reply {
            assert(destination + buffer.staged.subrange(done as int, done + window).take(
                count as int,
            ) =~= buffer.staged.take(done + count));
        }
    }
    assert(destination + Seq::<u8>::empty() =~= destination);
}

/// A burst takes at least one byte and never more than its bound or what is
/// left; each request in it takes at least one byte and never more than its own
/// bound or the burst.
pub proof fn burst_is_bounded_and_moves(
    burst_bytes: usize,
    remaining: u64,
    request_bytes: usize,
    capacity: usize,
)
    requires
        capacity >= 1,
    ensures
        burst_capacity(burst_bytes, remaining) >= 1,
        burst_bytes >= 1 && remaining >= 1 ==> {
            let bytes = burst_capacity(burst_bytes, remaining);
            bytes <= burst_bytes && bytes <= remaining && (bytes == burst_bytes || bytes
                == remaining)
        },
        burst_request_bytes(request_bytes, capacity) >= 1,
        request_bytes >= 1 ==> {
            let bytes = burst_request_bytes(request_bytes, capacity);
            bytes <= request_bytes && bytes <= capacity && (bytes == request_bytes || bytes
                == capacity)
        },
{
}

/// A phase of a burst fails exactly for a cancellation, for an operation that
/// failed otherwise than by an interruption, or for a write that takes nothing;
/// an interruption is tried again with nothing lost. Each request asks for what
/// is left, up to its bound.
pub proof fn burst_fails_only_for_a_reason(
    buffer: BurstView,
    limit: usize,
    step: BurstStep,
    read: ReadReplyView,
    write: WriteReply,
)
    requires
        buffer.wf(),
    ensures
        buffer.read_answers(limit, step, read) ==> {
            let (next, staged) = buffer.after_read(limit, step, read);
            let broken = read matches ReadReplyView::Read(Err(error)) && !(error.kind
                is Interrupted);
            &&& next is Failed <==> broken || read == ReadReplyView::Polled(true)
            &&& read matches ReadReplyView::Read(Ok(bytes)) ==> staged == buffer.staged + bytes
            &&& !(read matches ReadReplyView::Read(Ok(_))) ==> staged == buffer.staged
            &&& next matches BurstStep::Finished { count } ==> count == staged.len() && (count
                >= limit || (read matches ReadReplyView::Read(Ok(bytes)) && bytes.len() == 0))
            &&& next matches BurstStep::Request { done, length } ==> 1 <= length
                <= buffer.request_bytes && done + length <= limit
        },
        buffer.write_answers(limit, step, write) ==> {
            let next = buffer.after_write(limit, step, write);
            let broken = write matches WriteReply::Written(Err(error)) && !(error.kind
                is Interrupted);
            let stuck = write == WriteReply::Written(Ok(0usize));
            &&& next is Failed <==> broken || stuck || write == WriteReply::Polled(true)
            &&& next matches BurstStep::Finished { count } ==> count >= limit
            &&& next matches BurstStep::Request { done, length } ==> 1 <= length
                <= buffer.request_bytes && done + length <= limit
        },
{
    if buffer.read_answers(limit, step, read) {
        if let ReadReplyView::Read(Ok(bytes)) = read {
            if bytes.len() == 0 {
                assert(buffer.staged + bytes =~= buffer.staged);
            }
        }
    }
}

} // verus!
