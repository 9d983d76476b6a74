//! The redirector pipeline: one source read and one destination write are in
//! flight at the same time, over a bounded number of request buffers.
//!
//! A reader fills free buffers and queues them; a writer takes them from the
//! queue in order, feeds the running digest and writes them out. Both sides are
//! state machines here; the threads and queues around them are the caller's.

use vstd::prelude::*;

use crate::error::{IoError, IoErrorKind};
use crate::hashing::StreamDigest;

verus! {

/// Fixed number of request buffers owned by one redirector transfer.
///
/// Two buffers are enough to overlap one synchronous read with one synchronous
/// write.
pub const PIPELINE_BUFFERS: usize = 2;

/// Actual I/O completed by a redirector pipeline, with read-ahead that was
/// already issued when a later write or cancellation stopped the copy.
#[derive(Clone, Copy, Debug, PartialEq, Eq, Structural)]
pub struct PipelinedTransfer {
    /// Bytes read from the source.
    pub bytes_read: u64,
    /// Bytes written to the destination.
    pub bytes_written: u64,
}

impl Default for PipelinedTransfer {
    fn default() -> (transfer: Self)
        ensures
            transfer.bytes_read == 0,
            transfer.bytes_written == 0,
    {
        PipelinedTransfer { bytes_read: 0, bytes_written: 0 }
    }
}

/// Cause and exact I/O counters of an interrupted redirector pipeline.
#[derive(Clone, Debug, PartialEq, Eq)]
pub struct PipelinedFailure {
    /// Where and why it stopped.
    pub kind: PipelinedFailureKind,
    /// What was moved before.
    pub transfer: PipelinedTransfer,
}

/// Stage at which a redirector pipeline stopped.
#[derive(Clone, Debug, PartialEq, Eq)]
pub enum PipelinedFailureKind {
    /// The buffers could not be allocated.
    Allocate(String),
    /// The copy was canceled.
    Canceled,
    /// A read failed.
    Read(IoError),
    /// A write failed.
    Write(IoError),
    /// The destination took no byte.
    NoProgress,
    /// The source ended early.
    UnexpectedEof,
    /// The reader ended without a word.
    ReaderPanicked,
    /// The queues failed.
    Internal(&'static str),
}

/// What the reader queues for the writer.
#[derive(Debug, PartialEq, Eq)]
pub enum ReadPacket {
    /// The next bytes of the source.
    Data(Vec<u8>),
    /// A read failed.
    Failed(IoError),
    /// The source ended early.
    UnexpectedEof,
    /// Everything was read.
    Done,
}

/// What the reader queues for the writer, as values.
#[verifier::ext_equal]
pub ghost enum PacketView {
    Data(Seq<u8>),
    Failed(IoError),
    UnexpectedEof,
    Done,
}

impl View for ReadPacket {
    type V = PacketView;

    open spec fn view(&self) -> PacketView {
        match *self {
            ReadPacket::Data(bytes) => PacketView::Data(bytes@),
            ReadPacket::Failed(error) => PacketView::Failed(error),
            ReadPacket::UnexpectedEof => PacketView::UnexpectedEof,
            ReadPacket::Done => PacketView::Done,
        }
    }
}

/// Where the reader stands.
#[derive(Clone, Copy, Debug, PartialEq, Eq, Structural)]
pub enum ReaderPhase {
    /// Before the next buffer.
    Gate,
    /// Waiting for a free buffer.
    Waiting,
    /// Reading up to `max` bytes.
    Reading {
        /// The size of the request.
        max: usize,
    },
    /// After an interrupted read.
    Retrying {
        /// The size of the request.
        max: usize,
    },
    /// Queueing a packet.
    Sending {
        /// Whether nothing follows the packet.
        terminal: bool,
    },
    /// Before the last packet.
    Finishing,
    /// Nothing is left to do.
    Ended,
}

/// What the reader does next.
#[derive(Debug, PartialEq, Eq)]
pub enum ReaderAction {
    /// Tell whether the transfer was stopped or canceled.
    CheckFlags,
    /// Wait for a free buffer.
    TakeBuffer,
    /// Read up to `max` bytes.
    Read {
        /// The size of the request.
        max: usize,
    },
    /// Queue a packet.
    Send {
        /// The packet.
        packet: ReadPacket,
    },
    /// End the reader.
    Exit {
        /// Whether the whole transfer is to stop.
        stop: bool,
    },
}

/// What the reader does next, as values.
#[verifier::ext_equal]
pub ghost enum ReaderActionView {
    CheckFlags,
    TakeBuffer,
    Read { max: usize },
    Send { packet: PacketView },
    Exit { stop: bool },
}

impl View for ReaderAction {
    type V = ReaderActionView;

    open spec fn view(&self) -> ReaderActionView {
        match *self {
            ReaderAction::CheckFlags => ReaderActionView::CheckFlags,
            ReaderAction::TakeBuffer => ReaderActionView::TakeBuffer,
            ReaderAction::Read { max } => ReaderActionView::Read { max },
            ReaderAction::Send { packet } => ReaderActionView::Send { packet: packet@ },
            ReaderAction::Exit { stop } => ReaderActionView::Exit { stop },
        }
    }
}

/// What an action of the reader came to.
#[derive(Debug, PartialEq, Eq)]
pub enum ReaderReply {
    /// Whether the transfer was stopped or canceled.
    Flags {
        /// The writer gave up.
        stopped: bool,
        /// The copy was canceled.
        canceled: bool,
    },
    /// Whether a free buffer came.
    Buffer(bool),
    /// The bytes that the source gave; none at its end.
    Read(Result<Vec<u8>, IoError>),
    /// Whether the queue took the packet.
    Sent(bool),
}

/// What an action of the reader came to, as values.
#[verifier::ext_equal]
pub ghost enum ReaderReplyView {
    Flags { stopped: bool, canceled: bool },
    Buffer(bool),
    Read(Result<Seq<u8>, IoError>),
    Sent(bool),
}

impl View for ReaderReply {
    type V = ReaderReplyView;

    open spec fn view(&self) -> ReaderReplyView {
        match *self {
            ReaderReply::Flags { stopped, canceled } => ReaderReplyView::Flags {
                stopped,
                canceled,
            },
            ReaderReply::Buffer(available) => ReaderReplyView::Buffer(available),
            ReaderReply::Read(Ok(bytes)) => ReaderReplyView::Read(Ok(bytes@)),
            ReaderReply::Read(Err(error)) => ReaderReplyView::Read(Err(error)),
            ReaderReply::Sent(accepted) => ReaderReplyView::Sent(accepted),
        }
    }
}

/// The reader's side of one transfer.
#[derive(Clone, Copy, Debug, PartialEq, Eq, Structural)]
pub struct PipelineReader {
    /// Bytes still to be read.
    pub remaining: u64,
    /// Bytes read so far.
    pub bytes_read: u64,
    /// Bytes per request.
    pub request_bytes: usize,
    /// Where it stands.
    pub phase: ReaderPhase,
}

/// The size of the next request.
pub open spec fn next_request(remaining: u64, request_bytes: usize) -> usize {
    if remaining < request_bytes {
        remaining as usize
    } else {
        request_bytes
    }
}

impl PipelineReader {
    /// Whether requests are not empty and the counters fit.
    pub open spec fn wf(self) -> bool {
        &&& 1 <= self.request_bytes
        &&& self.remaining + self.bytes_read <= u64::MAX
        &&& self.phase matches ReaderPhase::Reading { max } ==> 1 <= max <= self.remaining
        &&& self.phase matches ReaderPhase::Retrying { max } ==> 1 <= max <= self.remaining
        &&& self.phase is Gate || self.phase is Waiting ==> self.remaining > 0
    }

    /// Whether a reply answers the reader's last action.
    pub open spec fn answered_by(self, reply: ReaderReplyView) -> bool {
        match self.phase {
            ReaderPhase::Gate => reply is Flags,
            ReaderPhase::Waiting => reply is Buffer,
            ReaderPhase::Reading { max } => reply matches ReaderReplyView::Read(read) && (
            read matches Ok(bytes) ==> bytes.len() <= max),
            ReaderPhase::Retrying { .. } => reply is Flags,
            ReaderPhase::Sending { .. } => reply is Sent,
            ReaderPhase::Finishing => reply is Flags,
            ReaderPhase::Ended => false,
        }
    }

    /// The reader in another phase.
    pub open spec fn at(self, phase: ReaderPhase) -> PipelineReader {
        PipelineReader { phase, ..self }
    }

    /// The reader's end.
    pub open spec fn ending(self, stop: bool) -> (PipelineReader, ReaderActionView) {
        (self.at(ReaderPhase::Ended), ReaderActionView::Exit { stop })
    }

    /// The reader with a packet to queue.
    pub open spec fn sending(self, packet: PacketView) -> (PipelineReader, ReaderActionView) {
        (
            self.at(ReaderPhase::Sending { terminal: !(packet is Data) }),
            ReaderActionView::Send { packet },
        )
    }

    /// The reader before its next buffer, or before its last packet.
    pub open spec fn looping(self) -> (PipelineReader, ReaderActionView) {
        if self.remaining > 0 {
            (self.at(ReaderPhase::Gate), ReaderActionView::CheckFlags)
        } else {
            (self.at(ReaderPhase::Finishing), ReaderActionView::CheckFlags)
        }
    }

    /// The reader after a reply, and what it does next.
    pub open spec fn after(self, reply: ReaderReplyView) -> (PipelineReader, ReaderActionView) {
        match (self.phase, reply) {
            (ReaderPhase::Gate, ReaderReplyView::Flags { stopped, canceled }) => if stopped {
                self.ending(false)
            } else if canceled {
                self.ending(true)
            } else {
                (self.at(ReaderPhase::Waiting), ReaderActionView::TakeBuffer)
            },
            (ReaderPhase::Waiting, ReaderReplyView::Buffer(available)) => if available {
                let max = next_request(self.remaining, self.request_bytes);
                (self.at(ReaderPhase::Reading { max }), ReaderActionView::Read { max })
            } else {
                self.ending(false)
            },
            (ReaderPhase::Reading { max }, ReaderReplyView::Read(read)) => match read {
                Ok(bytes) => if bytes.len() == 0 {
                    self.sending(PacketView::UnexpectedEof)
                } else {
                    PipelineReader {
                        remaining: (self.remaining - bytes.len()) as u64,
                        bytes_read: (self.bytes_read + bytes.len()) as u64,
                        ..self
                    }.sending(PacketView::Data(bytes))
                },
                Err(error) => if error.kind is Interrupted {
                    (self.at(ReaderPhase::Retrying { max }), ReaderActionView::CheckFlags)
                } else {
                    self.sending(PacketView::Failed(error))
                },
            },
            (ReaderPhase::Retrying { max }, ReaderReplyView::Flags { stopped, canceled }) => {
                if stopped || canceled {
                    self.ending(false)
                } else {
                    (self.at(ReaderPhase::Reading { max }), ReaderActionView::Read { max })
                }
            },
            (ReaderPhase::Sending { terminal }, ReaderReplyView::Sent(accepted)) => {
                if terminal || !accepted {
                    self.ending(false)
                } else {
                    self.looping()
                }
            },
            (ReaderPhase::Finishing, ReaderReplyView::Flags { stopped, .. }) => if stopped {
                self.ending(false)
            } else {
                self.sending(PacketView::Done)
            },
            _ => self.ending(false),
        }
    }

    /// A reader of exactly `length` bytes, and its first action.
    pub fn start(length: u64, request_bytes: usize) -> (started: (PipelineReader, ReaderAction))
        ensures
            started.0.wf(),
            (started.0, started.1@) == (PipelineReader {
                remaining: length,
                bytes_read: 0,
                request_bytes: if request_bytes < 1 {
                    1
                } else {
                    request_bytes
                },
                phase: ReaderPhase::Gate,
            }).looping(),
    {
        let request_bytes: usize = if request_bytes < 1 {
            1
        } else {
            request_bytes
        };
        let phase = if length > 0 {
            ReaderPhase::Gate
        } else {
            ReaderPhase::Finishing
        };
        (
            PipelineReader { remaining: length, bytes_read: 0, request_bytes, phase },
            ReaderAction::CheckFlags,
        )
    }

    fn send(&mut self, packet: ReadPacket) -> (action: ReaderAction)
        ensures
            old(self).sending(packet@) == (*final(self), action@),
    {
        let terminal = !matches!(packet, ReadPacket::Data(_));
        self.phase = ReaderPhase::Sending { terminal };
        ReaderAction::Send { packet }
    }

    fn end(&mut self, stop: bool) -> (action: ReaderAction)
        ensures
            old(self).ending(stop) == (*final(self), action@),
    {
        self.phase = ReaderPhase::Ended;
        ReaderAction::Exit { stop }
    }

    /// Decides what the reader does after its last action.
    pub fn advance(&mut self, reply: ReaderReply) -> (action: ReaderAction)
        requires
            old(self).wf(),
            old(self).answered_by(reply@),
        ensures
            old(self).after(reply@) == (*final(self), action@),
            final(self).wf(),
    {
        match (self.phase, reply) {
            (ReaderPhase::Gate, ReaderReply::Flags { stopped, canceled }) => {
                if stopped {
                    self.end(false)
                } else if canceled {
                    self.end(true)
                } else {
                    self.phase = ReaderPhase::Waiting;
                    ReaderAction::TakeBuffer
                }
            },
            (ReaderPhase::Waiting, ReaderReply::Buffer(available)) => {
                if available {
                    let max: usize = if self.remaining < self.request_bytes as u64 {
                        self.remaining as usize
                    } else {
                        self.request_bytes
                    };
                    self.phase = ReaderPhase::Reading { max };
                    ReaderAction::Read { max }
                } else {
                    self.end(false)
                }
            },
            (ReaderPhase::Reading { max }, ReaderReply::Read(read)) => match read {
                Ok(bytes) => {
                    if bytes.len() == 0 {
                        self.send(ReadPacket::UnexpectedEof)
                    } else {
                        self.remaining = self.remaining - bytes.len() as u64;
                        self.bytes_read = self.bytes_read + bytes.len() as u64;
                        self.send(ReadPacket::Data(bytes))
                    }
                },
                Err(error) => {
                    if error.kind == IoErrorKind::Interrupted {
                        self.phase = ReaderPhase::Retrying { max };
                        ReaderAction::CheckFlags
                    } else {
                        self.send(ReadPacket::Failed(error))
                    }
                },
            },
            (ReaderPhase::Retrying { max }, ReaderReply::Flags { stopped, canceled }) => {
                if stopped || canceled {
                    self.end(false)
                } else {
                    self.phase = ReaderPhase::Reading { max };
                    ReaderAction::Read { max }
                }
            },
            (ReaderPhase::Sending { terminal }, ReaderReply::Sent(accepted)) => {
                if terminal || !accepted {
                    self.end(false)
                } else if self.remaining > 0 {
                    self.phase = ReaderPhase::Gate;
                    ReaderAction::CheckFlags
                } else {
                    self.phase = ReaderPhase::Finishing;
                    ReaderAction::CheckFlags
                }
            },
            (ReaderPhase::Finishing, ReaderReply::Flags { stopped, .. }) => {
                if stopped {
                    self.end(false)
                } else {
                    self.send(ReadPacket::Done)
                }
            },
            _ => self.end(false),
        }
    }
}

/// Where the writer stands.
#[derive(Clone, Debug, PartialEq, Eq)]
pub enum WriterPhase {
    /// Before the next packet.
    Polling,
    /// Waiting for a packet.
    Receiving,
    /// Before the next write.
    WritePolling,
    /// Writing.
    Writing,
    /// Giving a buffer back.
    Returning,
    /// Stopping the reader.
    Stopping {
        /// Why the transfer failed, if it did.
        failure: Option<PipelinedFailureKind>,
    },
    /// Nothing is left to do.
    Ended,
}

/// What the writer does next.
#[derive(Debug, PartialEq, Eq)]
pub enum WriterAction {
    /// Tell whether the copy was canceled.
    Poll,
    /// Wait for a packet, unless the copy is canceled meanwhile.
    Receive,
    /// Write what is pending.
    Write,
    /// Give a buffer back to the reader.
    ReturnBuffer {
        /// The buffer.
        buffer: Vec<u8>,
    },
    /// Stop the reader and wait for its end.
    Stop,
    /// The transfer is over.
    Finish {
        /// How it ended.
        result: Result<PipelinedTransfer, PipelinedFailure>,
    },
}

/// What the writer does next, as values.
#[verifier::ext_equal]
pub ghost enum WriterActionView {
    Poll,
    Receive,
    Write,
    ReturnBuffer,
    Stop,
    Finish { result: Result<PipelinedTransfer, PipelinedFailure> },
}

impl View for WriterAction {
    type V = WriterActionView;

    open spec fn view(&self) -> WriterActionView {
        match *self {
            WriterAction::Poll => WriterActionView::Poll,
            WriterAction::Receive => WriterActionView::Receive,
            WriterAction::Write => WriterActionView::Write,
            WriterAction::ReturnBuffer { .. } => WriterActionView::ReturnBuffer,
            WriterAction::Stop => WriterActionView::Stop,
            WriterAction::Finish { result } => WriterActionView::Finish { result },
        }
    }
}

/// What an action of the writer came to.
#[derive(Debug, PartialEq, Eq)]
pub enum WriterReply {
    /// Whether the copy was canceled.
    Polled(bool),
    /// A packet came.
    Packet(ReadPacket),
    /// The copy was canceled before a packet came.
    CanceledWaiting,
    /// The reader is gone.
    Disconnected,
    /// How many bytes the destination took.
    Written(Result<usize, IoError>),
    /// The buffer was given back.
    Returned,
    /// The reader ended.
    Joined {
        /// Whether it panicked.
        panicked: bool,
        /// What it had read.
        bytes_read: u64,
    },
}

/// What an action of the writer came to, as values.
#[verifier::ext_equal]
pub ghost enum WriterReplyView {
    Polled(bool),
    Packet(PacketView),
    CanceledWaiting,
    Disconnected,
    Written(Result<usize, IoError>),
    Returned,
    Joined { panicked: bool, bytes_read: u64 },
}

impl View for WriterReply {
    type V = WriterReplyView;

    open spec fn view(&self) -> WriterReplyView {
        match *self {
            WriterReply::Polled(canceled) => WriterReplyView::Polled(canceled),
            WriterReply::Packet(packet) => WriterReplyView::Packet(packet@),
            WriterReply::CanceledWaiting => WriterReplyView::CanceledWaiting,
            WriterReply::Disconnected => WriterReplyView::Disconnected,
            WriterReply::Written(written) => WriterReplyView::Written(written),
            WriterReply::Returned => WriterReplyView::Returned,
            WriterReply::Joined { panicked, bytes_read } => WriterReplyView::Joined {
                panicked,
                bytes_read,
            },
        }
    }
}

/// The writer's side of one transfer.
pub struct PipelineWriter {
    length: u64,
    written: u64,
    current: Vec<u8>,
    offset: usize,
    phase: WriterPhase,
}

/// The writer's side of one transfer, as values: the bytes to move, the bytes
/// moved, what is still to be written of the current packet, and where it
/// stands.
#[verifier::ext_equal]
pub ghost struct WriterView {
    pub length: u64,
    pub written: u64,
    pub pending: Seq<u8>,
    pub phase: WriterPhase,
}

impl View for PipelineWriter {
    type V = WriterView;

    closed spec fn view(&self) -> WriterView {
        WriterView {
            length: self.length,
            written: self.written,
            pending: self.current@.subrange(self.offset as int, self.current@.len() as int),
            phase: self.phase,
        }
    }
}

/// A running digest as values: what it absorbed.
pub open spec fn opt_digest(hasher: Option<StreamDigest>) -> Option<Seq<u8>> {
    match hasher {
        Some(digest) => Some(digest@),
        None => None,
    }
}

/// A running digest that absorbed more bytes.
pub open spec fn digested(hasher: Option<Seq<u8>>, bytes: Seq<u8>) -> Option<Seq<u8>> {
    match hasher {
        Some(absorbed) => Some(absorbed + bytes),
        None => None,
    }
}

/// Feeds bytes to a running digest.
pub fn feed(hasher: &mut Option<StreamDigest>, bytes: &[u8])
    ensures
        opt_digest(*final(hasher)) == digested(opt_digest(*old(hasher)), bytes@),
{
    if let Some(mut digest) = hasher.take() {
        digest.update(bytes);
        *hasher = Some(digest);
    }
}

impl WriterView {
    /// Whether something is pending exactly while it is being written.
    pub open spec fn wf(self) -> bool {
        &&& self.phase is WritePolling || self.phase is Writing ==> self.pending.len() > 0
        &&& self.phase is Polling || self.phase is Receiving || self.phase is Returning
            ==> self.pending.len() == 0
        &&& self.phase is Polling || self.phase is Receiving ==> self.written < self.length
    }

    /// Whether a reply answers the writer's last action.
    pub open spec fn answered_by(self, reply: WriterReplyView) -> bool {
        match self.phase {
            WriterPhase::Polling => reply is Polled,
            WriterPhase::Receiving => reply is Packet || reply is CanceledWaiting || reply
                is Disconnected,
            WriterPhase::WritePolling => reply is Polled,
            WriterPhase::Writing => reply matches WriterReplyView::Written(written) && (
            written matches Ok(count) ==> count <= self.pending.len()),
            WriterPhase::Returning => reply is Returned,
            WriterPhase::Stopping { .. } => reply is Joined,
            WriterPhase::Ended => false,
        }
    }

    /// The writer in another phase.
    pub open spec fn at(self, phase: WriterPhase) -> WriterView {
        WriterView { phase, ..self }
    }

    /// The writer that gives up.
    pub open spec fn failing(self, kind: PipelinedFailureKind) -> (WriterView, WriterActionView) {
        (self.at(WriterPhase::Stopping { failure: Some(kind) }), WriterActionView::Stop)
    }

    /// The writer before its next packet, or at its end.
    pub open spec fn looping(self) -> (WriterView, WriterActionView) {
        if self.written < self.length {
            (self.at(WriterPhase::Polling), WriterActionView::Poll)
        } else {
            (self.at(WriterPhase::Stopping { failure: None }), WriterActionView::Stop)
        }
    }

    /// The writer before its next write, or with an empty buffer.
    pub open spec fn writing_on(self) -> (WriterView, WriterActionView) {
        if self.pending.len() > 0 {
            (self.at(WriterPhase::WritePolling), WriterActionView::Poll)
        } else {
            (self.at(WriterPhase::Returning), WriterActionView::ReturnBuffer)
        }
    }

    /// How the transfer ends.
    pub open spec fn outcome(
        self,
        failure: Option<PipelinedFailureKind>,
        panicked: bool,
        bytes_read: u64,
    ) -> Result<PipelinedTransfer, PipelinedFailure> {
        let transfer = PipelinedTransfer { bytes_read, bytes_written: self.written };
        match failure {
            Some(kind) => Err(PipelinedFailure { kind, transfer }),
            None => if panicked {
                Err(PipelinedFailure { kind: PipelinedFailureKind::ReaderPanicked, transfer })
            } else {
                Ok(transfer)
            },
        }
    }

    /// The writer after a reply, and what it does next.
    pub open spec fn after(self, reply: WriterReplyView) -> (WriterView, WriterActionView) {
        match (self.phase, reply) {
            (WriterPhase::Polling, WriterReplyView::Polled(canceled)) => if canceled {
                self.failing(PipelinedFailureKind::Canceled)
            } else {
                (self.at(WriterPhase::Receiving), WriterActionView::Receive)
            },
            (WriterPhase::Receiving, WriterReplyView::Disconnected) => self.failing(
                PipelinedFailureKind::ReaderPanicked,
            ),
            (WriterPhase::Receiving, WriterReplyView::CanceledWaiting) => self.failing(
                PipelinedFailureKind::Canceled,
            ),
            (WriterPhase::Receiving, WriterReplyView::Packet(packet)) => match packet {
                PacketView::Data(bytes) => (WriterView { pending: bytes, ..self }).writing_on(),
                PacketView::Failed(error) => self.failing(PipelinedFailureKind::Read(error)),
                PacketView::UnexpectedEof => self.failing(PipelinedFailureKind::UnexpectedEof),
                PacketView::Done => self.failing(PipelinedFailureKind::UnexpectedEof),
            },
            (WriterPhase::WritePolling, WriterReplyView::Polled(canceled)) => if canceled {
                self.failing(PipelinedFailureKind::Canceled)
            } else {
                (self.at(WriterPhase::Writing), WriterActionView::Write)
            },
            (WriterPhase::Writing, WriterReplyView::Written(written)) => match written {
                Ok(count) => if count == 0 {
                    self.failing(PipelinedFailureKind::NoProgress)
                } else {
                    WriterView {
                        written: crate::model::sat(self.written, count as u64),
                        pending: self.pending.skip(count as int),
                        ..self
                    }.writing_on()
                },
                Err(error) => if error.kind is Interrupted {
                    self.writing_on()
                } else {
                    self.failing(PipelinedFailureKind::Write(error))
                },
            },
            (WriterPhase::Returning, WriterReplyView::Returned) => self.looping(),
            (
                WriterPhase::Stopping { failure },
                WriterReplyView::Joined { panicked, bytes_read },
            ) => (
                self.at(WriterPhase::Ended),
                WriterActionView::Finish { result: self.outcome(failure, panicked, bytes_read) },
            ),
            _ => self.failing(PipelinedFailureKind::Canceled),
        }
    }
}

/// What a reply adds to the running digest: the bytes of a packet, before they
/// are written.
pub open spec fn reply_bytes(reply: WriterReplyView) -> Seq<u8> {
    match reply {
        WriterReplyView::Packet(PacketView::Data(bytes)) => bytes,
        _ => Seq::empty(),
    }
}

impl PipelineWriter {
    /// Whether the next write starts inside the current packet.
    pub closed spec fn in_bounds(self) -> bool {
        self.offset <= self.current@.len()
    }

    /// A writer of exactly `length` bytes, and its first action.
    pub fn start(length: u64) -> (started: (PipelineWriter, WriterAction))
        ensures
            started.0.in_bounds(),
            started.0@.wf(),
            (started.0@, started.1@) == (WriterView {
                length,
                written: 0,
                pending: Seq::empty(),
                phase: WriterPhase::Polling,
            }).looping(),
    {
        let current: Vec<u8> = Vec::new();
        assert(current@.subrange(0, 0) =~= Seq::<u8>::empty());
        if length > 0 {
            (
                PipelineWriter {
                    length,
                    written: 0,
                    current,
                    offset: 0,
                    phase: WriterPhase::Polling,
                },
                WriterAction::Poll,
            )
        } else {
            (
                PipelineWriter {
                    length,
                    written: 0,
                    current,
                    offset: 0,
                    phase: WriterPhase::Stopping { failure: None },
                },
                WriterAction::Stop,
            )
        }
    }

    /// The bytes of the next write.
    pub fn pending(&self) -> (bytes: &[u8])
        requires
            self.in_bounds(),
        ensures
            bytes@ == self@.pending,
    {
        vstd::slice::slice_subrange(self.current.as_slice(), self.offset, self.current.len())
    }

    fn fail(&mut self, kind: PipelinedFailureKind) -> (action: WriterAction)
        requires
            old(self).in_bounds(),
        ensures
            old(self)@.failing(kind) == (final(self)@, action@),
            final(self).in_bounds(),
    {
        self.phase = WriterPhase::Stopping { failure: Some(kind) };
        WriterAction::Stop
    }

    fn write_on(&mut self) -> (action: WriterAction)
        requires
            old(self).in_bounds(),
        ensures
            old(self)@.writing_on() == (final(self)@, action@),
            final(self).in_bounds(),
    {
        if self.offset < self.current.len() {
            self.phase = WriterPhase::WritePolling;
            WriterAction::Poll
        } else {
            self.phase = WriterPhase::Returning;
            let mut buffer: Vec<u8> = Vec::new();
            std::mem::swap(&mut buffer, &mut self.current);
            self.offset = 0;
            assert(self@.pending =~= old(self)@.pending);
            WriterAction::ReturnBuffer { buffer }
        }
    }

    /// Decides what the writer does after its last action. The running digest
    /// absorbs every packet before it is written, so only after a transfer that
    /// succeeded does it stand for what the destination holds.
    pub fn transfer_pipelined(&mut self, hasher: &mut Option<StreamDigest>, reply: WriterReply) -> (action:
        WriterAction)
        requires
            old(self).in_bounds(),
            old(self)@.wf(),
            old(self)@.answered_by(reply@),
        ensures
            old(self)@.after(reply@) == (final(self)@, action@),
            opt_digest(*final(hasher)) == digested(opt_digest(*old(hasher)), reply_bytes(reply@)),
            final(self).in_bounds(),
            final(self)@.wf(),
    {
        let ghost before = self@;
        let ghost fed = opt_digest(*hasher);
        assert(digested(fed, Seq::empty()) == fed) by {
            if let Some(absorbed) = fed {
                assert(absorbed + Seq::<u8>::empty() =~= absorbed);
            }
        }
        let mut phase = WriterPhase::Ended;
        std::mem::swap(&mut phase, &mut self.phase);
        let ghost taken = self@;
        assert(taken.pending == before.pending);
        match (phase, reply) {
            (WriterPhase::Polling, WriterReply::Polled(canceled)) => {
                if canceled {
                    self.fail(PipelinedFailureKind::Canceled)
                } else {
                    self.phase = WriterPhase::Receiving;
                    WriterAction::Receive
                }
            },
            (WriterPhase::Receiving, WriterReply::Disconnected) => {
                self.fail(PipelinedFailureKind::ReaderPanicked)
            },
            (WriterPhase::Receiving, WriterReply::CanceledWaiting) => {
                self.fail(PipelinedFailureKind::Canceled)
            },
            (WriterPhase::Receiving, WriterReply::Packet(packet)) => match packet {
                ReadPacket::Data(bytes) => {
                    feed(hasher, bytes.as_slice());
                    self.current = bytes;
                    self.offset = 0;
                    assert(self@.pending =~= bytes@);
                    self.write_on()
                },
                ReadPacket::Failed(error) => self.fail(PipelinedFailureKind::Read(error)),
                ReadPacket::UnexpectedEof => self.fail(PipelinedFailureKind::UnexpectedEof),
                // The reader has nothing more although bytes are missing.
                ReadPacket::Done => self.fail(PipelinedFailureKind::UnexpectedEof),
            },
            (WriterPhase::WritePolling, WriterReply::Polled(canceled)) => {
                if canceled {
                    self.fail(PipelinedFailureKind::Canceled)
                } else {
                    self.phase = WriterPhase::Writing;
                    WriterAction::Write
                }
            },
            (WriterPhase::Writing, WriterReply::Written(written)) => match written {
                Ok(count) => {
                    if count == 0 {
                        self.fail(PipelinedFailureKind::NoProgress)
                    } else {
                        assert(self.offset + count <= self.current.len());
                        self.offset = self.offset + count;
                        self.written = self.written.saturating_add(count as u64);
                        assert(self@.pending =~= before.pending.skip(count as int));
                        self.write_on()
                    }
                },
                Err(error) => {
                    if error.kind == IoErrorKind::Interrupted {
                        self.write_on()
                    } else {
                        self.fail(PipelinedFailureKind::Write(error))
                    }
                },
            },
            (WriterPhase::Returning, WriterReply::Returned) => {
                if self.written < self.length {
                    self.phase = WriterPhase::Polling;
                    WriterAction::Poll
                } else {
                    self.phase = WriterPhase::Stopping { failure: None };
                    WriterAction::Stop
                }
            },
            (WriterPhase::Stopping { failure }, WriterReply::Joined { panicked, bytes_read }) => {
                let transfer = PipelinedTransfer { bytes_read, bytes_written: self.written };
                let result = match failure {
                    Some(kind) => Err(PipelinedFailure { kind, transfer }),
                    None => {
                        if panicked {
                            let kind = PipelinedFailureKind::ReaderPanicked;
                            Err(PipelinedFailure { kind, transfer })
                        } else {
                            Ok(transfer)
                        }
                    },
                };
                WriterAction::Finish { result }
            },
            _ => self.fail(PipelinedFailureKind::Canceled),
        }
    }
}

/// The bytes of queued packets, in order.
pub open spec fn queued_bytes(queue: Seq<PacketView>) -> Seq<u8>
    decreases queue.len(),
{
    if queue.len() == 0 {
        Seq::empty()
    } else {
        let head = match queue[0] {
            PacketView::Data(bytes) => bytes,
            _ => Seq::empty(),
        };
        head + queued_bytes(queue.drop_first())
    }
}

/// How many queued packets carry bytes, and so hold a buffer.
pub open spec fn queued_buffers(queue: Seq<PacketView>) -> nat
    decreases queue.len(),
{
    if queue.len() == 0 {
        0
    } else {
        let head: nat = if queue[0] is Data {
            1
        } else {
            0
        };
        head + queued_buffers(queue.drop_first())
    }
}

/// One transfer seen as a whole: the buffers that are free, what the source
/// gave, what is queued, and what the destination took.
#[verifier::ext_equal]
pub ghost struct PipelineState {
    pub free: nat,
    pub read: Seq<u8>,
    pub queue: Seq<PacketView>,
    pub reader: PipelineReader,
    pub writer: WriterView,
    pub destination: Seq<u8>,
}

impl PipelineState {
    /// Nothing is lost, doubled or reordered between the two sides.
    pub open spec fn in_order(self) -> bool {
        &&& self.reader.wf()
        &&& self.writer.wf()
        &&& self.destination + self.writer.pending + queued_bytes(self.queue) == self.read
        &&& self.read.len() == self.reader.bytes_read
        &&& self.reader.bytes_read + self.reader.remaining == self.writer.length
        &&& self.destination.len() == self.writer.written
    }

    /// Buffers that the reader has a request on.
    pub open spec fn reader_holds(self) -> nat {
        if self.reader.phase is Reading || self.reader.phase is Retrying {
            1
        } else {
            0
        }
    }

    /// Buffers that the writer has not given back.
    pub open spec fn writer_holds(self) -> nat {
        if self.writer.pending.len() > 0 || self.writer.phase is Returning {
            1
        } else {
            0
        }
    }

    /// Requests on their way: being read, queued, or being written.
    pub open spec fn in_flight(self) -> nat {
        self.reader_holds() + queued_buffers(self.queue) + self.writer_holds()
    }

    /// Whether every request on its way has a buffer of its own and fits in it.
    pub open spec fn bounded(self) -> bool {
        let most = self.reader.request_bytes;
        &&& self.free + self.in_flight() <= PIPELINE_BUFFERS
        &&& self.reader.phase matches ReaderPhase::Reading { max } ==> max <= most
        &&& self.reader.phase matches ReaderPhase::Retrying { max } ==> max <= most
        &&& self.writer.pending.len() <= most
        &&& forall|i: int|
            0 <= i < self.queue.len() ==> (#[trigger] self.queue[i] matches PacketView::Data(bytes)
                ==> bytes.len() <= most)
    }

    /// After the reader got a reply; a buffer that it got is no longer free,
    /// and a packet that it sends joins the queue.
    pub open spec fn after_reader(self, reply: ReaderReplyView) -> PipelineState {
        let (reader, action) = self.reader.after(reply);
        PipelineState {
            free: if reply == ReaderReplyView::Buffer(true) {
                (self.free - 1) as nat
            } else {
                self.free
            },
            reader,
            read: self.read + match (self.reader.phase, reply) {
                (ReaderPhase::Reading { .. }, ReaderReplyView::Read(Ok(bytes))) => bytes,
                _ => Seq::empty(),
            },
            queue: match action {
                ReaderActionView::Send { packet } => self.queue.push(packet),
                _ => self.queue,
            },
            ..self
        }
    }

    /// After the writer got a reply; a packet that it received leaves the
    /// queue, what the destination took is there, and a buffer given back is
    /// free.
    pub open spec fn after_writer(self, reply: WriterReplyView) -> PipelineState {
        PipelineState {
            free: if reply is Returned {
                self.free + 1
            } else {
                self.free
            },
            writer: self.writer.after(reply).0,
            queue: match reply {
                WriterReplyView::Packet(_) => self.queue.drop_first(),
                _ => self.queue,
            },
            destination: self.destination + match reply {
                WriterReplyView::Written(Ok(count)) => self.writer.pending.take(count as int),
                _ => Seq::empty(),
            },
            ..self
        }
    }
}

proof fn lemma_queue_push(queue: Seq<PacketView>, packet: PacketView)
    ensures
        queued_bytes(queue.push(packet)) == queued_bytes(queue) + match packet {
            PacketView::Data(bytes) => bytes,
            _ => Seq::empty(),
        },
    decreases queue.len(),
{
    let tail = match packet {
        PacketView::Data(bytes) => bytes,
        _ => Seq::<u8>::empty(),
    };
    if queue.len() == 0 {
        assert(queue.push(packet).drop_first() =~= Seq::<PacketView>::empty());
        assert(queued_bytes(Seq::<PacketView>::empty()) == Seq::<u8>::empty());
        assert(queued_bytes(queue.push(packet)) =~= tail + Seq::<u8>::empty());
        assert(queued_bytes(queue) + tail =~= tail);
    } else {
        lemma_queue_push(queue.drop_first(), packet);
        assert(queue.push(packet).drop_first() =~= queue.drop_first().push(packet));
        assert(queued_bytes(queue.push(packet)) =~= queued_bytes(queue) + tail);
    }
}

/// The reader keeps the order: what it read joins the queue behind what is
/// there.
pub proof fn reader_keeps_the_order(state: PipelineState, reply: ReaderReplyView)
    requires
        state.in_order(),
        state.reader.answered_by(reply),
    ensures
        state.after_reader(reply).in_order(),
{
    let next = state.after_reader(reply);
    let (reader, action) = state.reader.after(reply);
    if let ReaderActionView::Send { packet } = action {
        lemma_queue_push(state.queue, packet);
    }
    assert(next.destination + next.writer.pending + queued_bytes(next.queue) =~= next.read);
}

/// The writer keeps the order: the destination gets what the source gave, from
/// the start and without gaps.
pub proof fn writer_keeps_the_order(state: PipelineState, reply: WriterReplyView)
    requires
        state.in_order(),
        state.writer.answered_by(reply),
        reply matches WriterReplyView::Packet(packet) ==> state.queue.len() > 0 && packet
            == state.queue[0],
    ensures
        state.after_writer(reply).in_order(),
{
    let next = state.after_writer(reply);
    let total = state.destination + state.writer.pending + queued_bytes(state.queue);
    assert(total.len() == state.destination.len() + state.writer.pending.len() + queued_bytes(
        state.queue,
    ).len());
    assert(next.destination + next.writer.pending + queued_bytes(next.queue) =~= next.read) by {
        if let WriterReplyView::Written(Ok(count)) = reply {
            if state.writer.phase is Writing && count > 0 {
                assert(state.writer.pending =~= state.writer.pending.take(count as int)
                    + state.writer.pending.skip(count as int));
            }
        }
    }
}

proof fn lemma_queued_buffers_push(queue: Seq<PacketView>, packet: PacketView)
    ensures
        queued_buffers(queue.push(packet)) == queued_buffers(queue) + if packet is Data {
            1nat
        } else {
            0nat
        },
    decreases queue.len(),
{
    if queue.len() == 0 {
        assert(queue.push(packet).drop_first() =~= Seq::<PacketView>::empty());
        assert(queued_buffers(Seq::<PacketView>::empty()) == 0);
    } else {
        lemma_queued_buffers_push(queue.drop_first(), packet);
        assert(queue.push(packet).drop_first() =~= queue.drop_first().push(packet));
    }
}

proof fn lemma_queued_bytes_fit(queue: Seq<PacketView>, most: usize)
    requires
        forall|i: int|
            0 <= i < queue.len() ==> (#[trigger] queue[i] matches PacketView::Data(bytes)
                ==> bytes.len() <= most),
    ensures
        queued_bytes(queue).len() <= queued_buffers(queue) * most,
    decreases queue.len(),
{
    if queue.len() > 0 {
        let rest = queue.drop_first();
        assert forall|i: int| 0 <= i < rest.len() implies (#[trigger] rest[i] matches PacketView::Data(
            bytes,
        ) ==> bytes.len() <= most) by {
            assert(rest[i] == queue[i + 1]);
        }
        lemma_queued_bytes_fit(rest, most);
        let others = queued_buffers(rest) as int;
        assert((others + 1) * most == others * most + most) by (nonlinear_arith);
    } else {
        assert(queued_bytes(queue).len() == 0);
    }
}

/// A transfer starts with every buffer free and nothing on its way.
pub proof fn transfer_starts_bounded(state: PipelineState)
    requires
        state.free == PIPELINE_BUFFERS,
        state.queue.len() == 0,
        state.writer.pending.len() == 0,
        state.reader.phase is Gate || state.reader.phase is Finishing,
        state.writer.phase is Polling || state.writer.phase is Stopping,
    ensures
        state.bounded(),
        state.in_flight() == 0,
{
}

/// The reader keeps the bound: it starts a request only with a free buffer.
pub proof fn reader_keeps_the_bound(state: PipelineState, reply: ReaderReplyView)
    requires
        state.bounded(),
        state.reader.wf(),
        state.reader.answered_by(reply),
        reply == ReaderReplyView::Buffer(true) ==> state.free > 0,
    ensures
        state.after_reader(reply).bounded(),
{
    let (reader, action) = state.reader.after(reply);
    if let ReaderActionView::Send { packet } = action {
        lemma_queued_buffers_push(state.queue, packet);
    }
}

/// The writer keeps the bound: a buffer is free again only once all of it is
/// written.
pub proof fn writer_keeps_the_bound(state: PipelineState, reply: WriterReplyView)
    requires
        state.bounded(),
        state.writer.wf(),
        state.writer.answered_by(reply),
        reply matches WriterReplyView::Packet(packet) ==> state.queue.len() > 0 && packet
            == state.queue[0],
    ensures
        state.after_writer(reply).bounded(),
{
    let next = state.after_writer(reply);
    if reply is Packet {
        assert forall|i: int| 0 <= i < next.queue.len() implies (
        #[trigger] next.queue[i] matches PacketView::Data(bytes) ==> bytes.len()
            <= state.reader.request_bytes) by {
            assert(next.queue[i] == state.queue[i + 1]);
        }
    }
}

/// The reader is never more than the buffers ahead of the writer: there are at
/// most that many requests on their way, and what was read and is not yet
/// written fits in them.
pub proof fn reader_is_boundedly_ahead(state: PipelineState)
    requires
        state.in_order(),
        state.bounded(),
    ensures
        state.in_flight() <= PIPELINE_BUFFERS,
        state.reader.bytes_read - state.writer.written <= PIPELINE_BUFFERS
            * state.reader.request_bytes,
{
    let most = state.reader.request_bytes;
    let total = state.destination + state.writer.pending + queued_bytes(state.queue);
    assert(total.len() == state.destination.len() + state.writer.pending.len() + queued_bytes(
        state.queue,
    ).len());
    lemma_queued_bytes_fit(state.queue, most);
    let held = state.writer_holds() as int;
    let queued = queued_buffers(state.queue) as int;
    assert(held * most + queued * most <= PIPELINE_BUFFERS * most) by (nonlinear_arith)
        requires
            0 <= held,
            0 <= queued,
            held + queued <= PIPELINE_BUFFERS,
    ;
    assert(state.writer.pending.len() <= held * most) by (nonlinear_arith)
        requires
            state.writer.pending.len() <= most,
            held == 1 || (held == 0 && state.writer.pending.len() == 0),
    ;
}

/// A transfer that succeeds has moved the whole length, and the destination
/// holds exactly what the source gave.
pub proof fn finished_transfer_is_complete(
    state: PipelineState,
    panicked: bool,
    bytes_read: u64,
)
    requires
        state.in_order(),
        state.writer.phase matches WriterPhase::Stopping { failure: None },
        state.writer.written >= state.writer.length,
    ensures
        state.destination == state.read,
        state.destination.len() == state.writer.length,
        state.writer.outcome(None, panicked, bytes_read) is Ok <==> !panicked,
{
    let total = state.destination + state.writer.pending + queued_bytes(state.queue);
    assert(total.len() == state.destination.len() + state.writer.pending.len() + queued_bytes(
        state.queue,
    ).len());
    assert(state.destination =~= total);
}

/// The writer stops without a failure only once the whole length is written.
pub proof fn success_needs_the_whole_length(writer: WriterView, reply: WriterReplyView)
    requires
        writer.wf(),
        writer.answered_by(reply),
    ensures
        writer.after(reply).0.phase matches WriterPhase::Stopping { failure: None }
            ==> writer.after(reply).0.written >= writer.length,
{
}

/// Why a transfer through the pipeline fails: each failure of its own, and never
/// without a cause; an interruption is tried again. A reader that ends early or
/// says that it is done before everything was written is no success.
pub proof fn pipeline_fails_only_for_its_cause(writer: WriterView, reply: WriterReplyView)
    requires
        writer.wf(),
        writer.answered_by(reply),
    ensures
        ({
            let next = writer.after(reply).0;
            let fails = next.phase matches WriterPhase::Stopping { failure: Some(_) };
            let broken = reply matches WriterReplyView::Written(Err(error)) && !(error.kind
                is Interrupted);
            let stuck = reply == WriterReplyView::Written(Ok(0usize));
            let unread = reply matches WriterReplyView::Packet(packet) && !(packet is Data);
            &&& !(writer.phase is Stopping) ==> (fails <==> broken || stuck || unread || reply
                is CanceledWaiting || reply is Disconnected || reply == WriterReplyView::Polled(
                true,
            ))
            &&& reply matches WriterReplyView::Written(Ok(count)) ==> count > 0 && writer.written
                + count <= u64::MAX ==> next.written == writer.written + count && next.pending
                == writer.pending.skip(count as int)
            &&& !(reply matches WriterReplyView::Written(Ok(_))) ==> next.written == writer.written
            &&& reply matches WriterReplyView::Packet(PacketView::Data(bytes)) ==> next.pending
                == bytes
        }),
        writer.phase matches WriterPhase::Stopping { failure } ==> (
        writer.after(reply).1 matches WriterActionView::Finish { result } && (result is Ok
            <==> failure is None && !reply->panicked) && (result matches Ok(transfer)
            ==> transfer.bytes_written == writer.written && transfer.bytes_read
            == reply->bytes_read)),
{
}

/// The reader asks for no more than its bound and than what is left, sends
/// exactly what it read, and says that it is done only once nothing is left.
pub proof fn reader_sends_what_it_read(reader: PipelineReader, reply: ReaderReplyView)
    requires
        reader.wf(),
        reader.answered_by(reply),
    ensures
        ({
            let (next, action) = reader.after(reply);
            &&& action matches ReaderActionView::Read { max } ==> 1 <= max <= reader.remaining && (
            reader.phase is Waiting ==> max <= reader.request_bytes && (max == reader.remaining
                || max == reader.request_bytes))
            &&& action matches ReaderActionView::Send { packet } ==> {
                &&& packet matches PacketView::Data(bytes) ==> reply == ReaderReplyView::Read(
                    Ok(bytes),
                ) && bytes.len() > 0
                &&& packet is Done ==> reader.phase is Finishing
                &&& packet is UnexpectedEof ==> (reply matches ReaderReplyView::Read(Ok(bytes))
                    && bytes.len() == 0)
                &&& packet matches PacketView::Failed(error) ==> reply == ReaderReplyView::Read(
                    Err(error),
                )
            }
            &&& next.phase is Finishing ==> next.remaining == 0
            &&& next.bytes_read - reader.bytes_read == reader.remaining - next.remaining
        }),
{
}

/// The reader goes on behind data that was taken, and behind nothing else: a
/// failure, an early end and the last packet end it, and so does a writer that
/// takes no more.
pub proof fn reader_goes_on_only_behind_data(
    reader: PipelineReader,
    reply: ReaderReplyView,
    accepted: bool,
)
    requires
        reader.after(reply).1 is Send,
    ensures
        ({
            let (sent, action) = reader.after(reply);
            let later = sent.after(ReaderReplyView::Sent(accepted)).1;
            &&& later is CheckFlags <==> accepted && action->packet is Data
            &&& later is Exit <==> !accepted || !(action->packet is Data)
        }),
{
}

} // verus!
