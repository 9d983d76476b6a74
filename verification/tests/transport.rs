use std::collections::VecDeque;

use bigcp_core::error::{IoError, IoErrorKind};
use bigcp_core::hashing::{digest_bytes, StreamDigest};
use bigcp_core::path::WidePath;
use bigcp_core::pipeline::{
    PipelineReader, PipelineWriter, PipelinedFailure, PipelinedFailureKind, PipelinedTransfer,
    ReadPacket, ReaderAction, ReaderReply, WriterAction, WriterReply, PIPELINE_BUFFERS,
};
use bigcp_core::segment::{
    start_burst, transfer_same_spindle_burst, BurstTransferStep, SegmentSite,
};
use bigcp_core::transport::{
    staging_bytes, BurstBuffer, BurstStep, ReadReply, TransferFailure, TransferFailureKind,
    TransportProfile, WriteReply,
};
use bigcp_core::{Counters, ErrorCategory};

fn fault(kind: IoErrorKind, message: &str) -> IoError {
    IoError { code: None, kind, cloud: false, message: message.to_owned() }
}

/// A source in memory that gives at most `maximum` bytes at a time.
struct Source {
    bytes: Vec<u8>,
    at: usize,
    maximum: usize,
    interrupt: bool,
    reads: usize,
}

impl Source {
    fn new(bytes: Vec<u8>) -> Source {
        Source { bytes, at: 0, maximum: usize::MAX, interrupt: false, reads: 0 }
    }

    fn read(&mut self, max: usize) -> Result<Vec<u8>, IoError> {
        if self.interrupt {
            self.interrupt = false;
            return Err(fault(IoErrorKind::Interrupted, "interrupted"));
        }
        let count = max.min(self.maximum).min(self.bytes.len() - self.at);
        let bytes = self.bytes[self.at..self.at + count].to_vec();
        self.at += count;
        if count > 0 {
            self.reads += 1;
        }
        Ok(bytes)
    }
}

/// A destination in memory that takes at most `maximum` bytes at a time.
struct Destination {
    bytes: Vec<u8>,
    maximum: usize,
    interrupt: bool,
    fail_after: Option<usize>,
}

impl Destination {
    fn new() -> Destination {
        Destination { bytes: Vec::new(), maximum: usize::MAX, interrupt: false, fail_after: None }
    }

    fn write(&mut self, bytes: &[u8]) -> Result<usize, IoError> {
        if self.interrupt {
            self.interrupt = false;
            return Err(fault(IoErrorKind::Interrupted, "interrupted"));
        }
        if self.fail_after.is_some_and(|limit| self.bytes.len() >= limit) {
            return Err(fault(IoErrorKind::Other, "write fault"));
        }
        let count = bytes.len().min(self.maximum);
        self.bytes.extend_from_slice(&bytes[..count]);
        Ok(count)
    }
}

fn read_phase(
    buffer: &mut BurstBuffer,
    source: &mut Source,
    limit: usize,
    cancel: &mut dyn FnMut() -> bool,
) -> Result<usize, TransferFailure> {
    let mut step = buffer.begin_read(limit);
    loop {
        let reply = match step {
            BurstStep::Poll { .. } => ReadReply::Polled(cancel()),
            BurstStep::Request { length, .. } => ReadReply::Read(source.read(length)),
            BurstStep::Finished { count } => return Ok(count),
            BurstStep::Failed { failure } => return Err(failure),
        };
        step = buffer.read_from(limit, step, reply);
    }
}

fn write_phase(
    buffer: &BurstBuffer,
    destination: &mut Destination,
    length: usize,
    cancel: &mut dyn FnMut() -> bool,
) -> Result<usize, TransferFailure> {
    let mut step = buffer.begin_write(length);
    loop {
        let reply = match step {
            BurstStep::Poll { .. } => WriteReply::Polled(cancel()),
            BurstStep::Request { done, length } => {
                WriteReply::Written(destination.write(buffer.window(done, length)))
            }
            BurstStep::Finished { count } => return Ok(count),
            BurstStep::Failed { failure } => return Err(failure),
        };
        step = buffer.write_to(length, step, reply);
    }
}

/// Runs reader and writer in turns: the reader goes as far as its buffers
/// allow before each step of the writer.
fn transfer_pipelined(
    read: &mut dyn FnMut(usize) -> Option<Result<Vec<u8>, IoError>>,
    write: &mut dyn FnMut(&[u8], u64) -> Result<usize, IoError>,
    length: u64,
    request_bytes: usize,
    cancel: &dyn Fn() -> bool,
    hasher: &mut Option<StreamDigest>,
) -> Result<PipelinedTransfer, PipelinedFailure> {
    let mut free = PIPELINE_BUFFERS;
    let mut packets: VecDeque<ReadPacket> = VecDeque::new();
    let mut stopped = false;
    let mut panicked = false;
    let mut total_read = 0_u64;
    let (mut reader, action) = PipelineReader::start(length, request_bytes);
    let mut action = Some(action);
    let (mut writer, mut next) = PipelineWriter::start(length);
    loop {
        while let Some(current) = action.take() {
            let reply = match current {
                ReaderAction::CheckFlags => {
                    ReaderReply::Flags { stopped, canceled: cancel() }
                }
                ReaderAction::TakeBuffer => {
                    if free > 0 {
                        free -= 1;
                        ReaderReply::Buffer(true)
                    } else if stopped {
                        ReaderReply::Buffer(false)
                    } else {
                        action = Some(ReaderAction::TakeBuffer);
                        break;
                    }
                }
                ReaderAction::Read { max } => match read(max) {
                    Some(result) => {
                        if let Ok(bytes) = &result {
                            total_read += bytes.len() as u64;
                        }
                        ReaderReply::Read(result)
                    }
                    None => {
                        panicked = true;
                        break;
                    }
                },
                ReaderAction::Send { packet } => {
                    packets.push_back(packet);
                    ReaderReply::Sent(true)
                }
                ReaderAction::Exit { stop } => {
                    stopped |= stop;
                    break;
                }
            };
            action = Some(reader.advance(reply));
        }
        let reply = match next {
            WriterAction::Poll => WriterReply::Polled(cancel()),
            WriterAction::Receive => match packets.pop_front() {
                Some(packet) => WriterReply::Packet(packet),
                None if action.is_none() => WriterReply::Disconnected,
                None => WriterReply::CanceledWaiting,
            },
            WriterAction::Write => WriterReply::Written(write(writer.pending(), total_read)),
            WriterAction::ReturnBuffer { .. } => {
                free += 1;
                WriterReply::Returned
            }
            WriterAction::Stop => {
                action = None;
                WriterReply::Joined { panicked, bytes_read: total_read }
            }
            WriterAction::Finish { result } => return result,
        };
        next = writer.transfer_pipelined(hasher, reply);
    }
}

fn pipelined(
    source: &mut Source,
    destination: &mut Destination,
    length: u64,
    request_bytes: usize,
) -> Result<PipelinedTransfer, PipelinedFailure> {
    transfer_pipelined(
        &mut |max| Some(source.read(max)),
        &mut |bytes, _| destination.write(bytes),
        length,
        request_bytes,
        &|| false,
        &mut None,
    )
}

#[test]
fn same_spindle_buffer_phases_multiple_requests() {
    let profile = TransportProfile::same_spindle(12);
    let Ok(mut buffer) = BurstBuffer::new(profile, 4, 12) else {
        return;
    };
    let mut source = Source::new((0_u8..12).collect::<Vec<_>>());
    let read = read_phase(&mut buffer, &mut source, 12, &mut || false);
    assert_eq!(read.ok(), Some(12));

    let mut destination = Destination::new();
    let written = write_phase(&buffer, &mut destination, 12, &mut || false);
    assert_eq!(written.ok(), Some(12));
    assert_eq!(destination.bytes, (0_u8..12).collect::<Vec<_>>());
}

#[test]
fn cancellation_reports_completed_prefix_without_writing_more() {
    let profile = TransportProfile::same_spindle(12);
    let Ok(mut buffer) = BurstBuffer::new(profile, 4, 12) else {
        return;
    };
    let mut source = Source::new((0_u8..12).collect::<Vec<_>>());
    let mut polls = 0_u8;
    let result = read_phase(&mut buffer, &mut source, 12, &mut || {
        polls = polls.saturating_add(1);
        polls >= 3
    });
    assert!(result.is_err_and(|failure| {
        matches!(failure.kind, TransferFailureKind::Canceled) && failure.transferred == 8
    }));
}

#[test]
fn the_reader_is_never_more_than_its_buffers_ahead() {
    let data = (0_u8..64).collect::<Vec<_>>();
    let mut source = Source::new(data.clone());
    let mut written = 0_u64;
    let mut ahead = 0_u64;
    let result = transfer_pipelined(
        &mut |max| Some(source.read(max)),
        &mut |bytes, read| {
            ahead = ahead.max(read - written);
            written += bytes.len() as u64;
            Ok(bytes.len())
        },
        64,
        8,
        &|| false,
        &mut None,
    );
    assert_eq!(result, Ok(PipelinedTransfer { bytes_read: 64, bytes_written: 64 }));
    // Both buffers are filled, and no third request is started.
    assert_eq!(ahead, 8 * PIPELINE_BUFFERS as u64);
}

#[test]
fn redirector_pipeline_preserves_order_across_short_reads_and_writes() {
    let expected = (0_u8..31).collect::<Vec<_>>();
    let mut source = Source { maximum: 3, ..Source::new(expected.clone()) };
    let mut destination = Destination { maximum: 2, ..Destination::new() };
    let mut hasher = Some(StreamDigest::new());
    let result = transfer_pipelined(
        &mut |max| Some(source.read(max)),
        &mut |bytes, _| destination.write(bytes),
        expected.len() as u64,
        8,
        &|| false,
        &mut hasher,
    );
    assert_eq!(
        result.ok(),
        Some(PipelinedTransfer {
            bytes_read: expected.len() as u64,
            bytes_written: expected.len() as u64,
        })
    );
    assert_eq!(destination.bytes, expected);
    assert_eq!(hasher.map(|digest| digest.finish()), Some(digest_bytes(&expected)));
}

#[test]
fn redirector_pipeline_actually_overlaps_read_ahead_with_writes() {
    let mut source = Source::new((0_u8..8).collect());
    let mut written = Vec::new();
    let mut ahead = Vec::new();
    let result = transfer_pipelined(
        &mut |max| Some(source.read(max)),
        &mut |bytes, read| {
            ahead.push(read);
            written.extend_from_slice(bytes);
            Ok(bytes.len())
        },
        8,
        4,
        &|| false,
        &mut None,
    );
    assert!(result.is_ok());
    // The second buffer was read before the first one was written.
    assert_eq!(ahead.first(), Some(&8));
    assert_eq!(written, (0_u8..8).collect::<Vec<_>>());
}

#[test]
fn redirector_pipeline_reports_short_source_and_actual_io() {
    let mut source = Source::new(vec![1_u8; 5]);
    let mut destination = Destination::new();
    let result = pipelined(&mut source, &mut destination, 9, 4);
    assert!(result.is_err_and(|failure| {
        matches!(failure.kind, PipelinedFailureKind::UnexpectedEof)
            && failure.transfer.bytes_read == 5
            && failure.transfer.bytes_written == 5
    }));
}

#[test]
fn redirector_pipeline_retries_interrupted_writes_like_write_all() {
    let expected = (0_u8..16).collect::<Vec<_>>();
    let mut source = Source::new(expected.clone());
    let mut destination = Destination { interrupt: true, ..Destination::new() };
    let result = pipelined(&mut source, &mut destination, expected.len() as u64, 8);
    assert!(result.is_ok());
    assert_eq!(destination.bytes, expected);
}

#[test]
fn transports_retry_interrupted_reads_and_phased_writes() {
    let expected = (0_u8..12).collect::<Vec<_>>();
    let mut pipeline_source = Source { interrupt: true, ..Source::new(expected.clone()) };
    let mut pipeline_destination = Destination::new();
    assert!(pipelined(
        &mut pipeline_source,
        &mut pipeline_destination,
        expected.len() as u64,
        4,
    )
    .is_ok());
    assert_eq!(pipeline_destination.bytes, expected);

    let profile = TransportProfile::same_spindle(expected.len());
    let Ok(mut buffer) = BurstBuffer::new(profile, 4, expected.len() as u64) else {
        return;
    };
    let mut phased_source = Source { interrupt: true, ..Source::new(expected.clone()) };
    assert_eq!(
        read_phase(&mut buffer, &mut phased_source, expected.len(), &mut || false).ok(),
        Some(expected.len())
    );
    let mut phased_destination = Destination { interrupt: true, ..Destination::new() };
    assert_eq!(
        write_phase(&buffer, &mut phased_destination, expected.len(), &mut || false).ok(),
        Some(expected.len())
    );
    assert_eq!(phased_destination.bytes, expected);
}

#[test]
fn redirector_pipeline_preserves_stage_specific_io_errors() {
    let mut destination = Destination::new();
    let read_result = transfer_pipelined(
        &mut |_| Some(Err(fault(IoErrorKind::PermissionDenied, "read fault"))),
        &mut |bytes, _| destination.write(bytes),
        8,
        4,
        &|| false,
        &mut None,
    );
    assert!(read_result.is_err_and(|failure| {
        matches!(failure.kind, PipelinedFailureKind::Read(_))
            && failure.transfer == PipelinedTransfer::default()
    }));

    let mut source = Source::new(vec![1_u8; 8]);
    let mut destination = Destination { maximum: 2, fail_after: Some(2), ..Destination::new() };
    let write_result = pipelined(&mut source, &mut destination, 8, 4);
    assert!(write_result.is_err_and(|failure| {
        matches!(failure.kind, PipelinedFailureKind::Write(_))
            && failure.transfer.bytes_read >= 4
            && failure.transfer.bytes_written == 2
    }));
}

#[test]
fn redirector_pipeline_honors_shared_cancellation() {
    let canceled = std::cell::Cell::new(false);
    let mut source = Source::new(vec![7_u8; 32]);
    let mut written = Vec::new();
    let result = transfer_pipelined(
        &mut |max| Some(source.read(max)),
        &mut |bytes, _| {
            written.extend_from_slice(bytes);
            canceled.set(true);
            Ok(bytes.len())
        },
        32,
        8,
        &|| canceled.get(),
        &mut None,
    );
    assert!(result.is_err_and(|failure| {
        matches!(failure.kind, PipelinedFailureKind::Canceled)
            && failure.transfer.bytes_written == 8
            && failure.transfer.bytes_read >= failure.transfer.bytes_written
    }));
}

#[test]
fn redirector_pipeline_turns_reader_panic_into_a_bounded_failure() {
    let mut destination = Destination::new();
    let result = transfer_pipelined(
        &mut |_| None,
        &mut |bytes, _| destination.write(bytes),
        8,
        4,
        &|| false,
        &mut None,
    );
    assert!(result.is_err_and(|failure| {
        matches!(failure.kind, PipelinedFailureKind::ReaderPanicked)
            && failure.transfer.bytes_read == 0
            && failure.transfer.bytes_written == 0
    }));
}

#[test]
fn a_destination_that_takes_nothing_stops_the_transfer() {
    let mut source = Source::new(vec![1_u8; 8]);
    let mut destination = Destination { maximum: 0, ..Destination::new() };
    let result = pipelined(&mut source, &mut destination, 8, 4);
    assert!(result.is_err_and(|failure| failure.kind == PipelinedFailureKind::NoProgress));

    let Ok(mut buffer) = BurstBuffer::new(TransportProfile::same_spindle(8), 4, 8) else {
        return;
    };
    let mut source = Source::new(vec![1_u8; 8]);
    assert_eq!(read_phase(&mut buffer, &mut source, 8, &mut || false).ok(), Some(8));
    let result = write_phase(&buffer, &mut destination, 8, &mut || false);
    assert!(result.is_err_and(|failure| {
        failure.kind == TransferFailureKind::NoProgress && failure.transferred == 0
    }));
}

#[test]
fn a_short_source_ends_the_read_phase_early() {
    let Ok(mut buffer) = BurstBuffer::new(TransportProfile::same_spindle(12), 4, 12) else {
        return;
    };
    let mut source = Source::new(vec![5_u8; 7]);
    assert_eq!(read_phase(&mut buffer, &mut source, 12, &mut || false).ok(), Some(7));
    assert_eq!(buffer.prefix(7), &[5_u8; 7]);
    assert_eq!(source.reads, 2);
}

#[test]
fn buffers_hold_no_more_than_remains() {
    let Ok(buffer) = BurstBuffer::new(TransportProfile::same_spindle(1 << 20), 4, 100) else {
        return;
    };
    assert_eq!(buffer.capacity(), 100);
}

#[test]
fn a_burst_is_staged_before_it_is_written() {
    let Ok(mut buffer) = BurstBuffer::new(TransportProfile::same_spindle(8), 4, 100) else {
        return;
    };
    let relative = WidePath::from_text("a");
    let mut source = Source::new((1_u8..10).collect::<Vec<_>>());
    let mut destination = Destination::new();
    let mut counters = Counters::default();
    let mut hasher = Some(StreamDigest::new());
    let step = start_burst(100, &buffer);
    assert_eq!(step, BurstTransferStep::Read { requested: 8 });
    let phase = read_phase(&mut buffer, &mut source, 8, &mut || false);
    let step = transfer_same_spindle_burst(
        SegmentSite::Stream,
        &relative,
        &buffer,
        &mut counters,
        &mut hasher,
        step,
        phase,
    );
    assert_eq!(step, BurstTransferStep::Write { requested: 8 });
    assert_eq!(counters.bytes_read_source, 8);
    assert_eq!(counters.bytes_written_destination, 0);
    let phase = write_phase(&buffer, &mut destination, 8, &mut || false);
    let step = transfer_same_spindle_burst(
        SegmentSite::Stream,
        &relative,
        &buffer,
        &mut counters,
        &mut hasher,
        step,
        phase,
    );
    assert_eq!(step, BurstTransferStep::Done { moved: 8 });
    assert_eq!(counters.bytes_written_destination, 8);
    assert_eq!(hasher.map(|digest| digest.finish()), Some(digest_bytes(&destination.bytes)));

    let step = start_burst(100, &buffer);
    let phase = read_phase(&mut buffer, &mut source, 8, &mut || false);
    let step = transfer_same_spindle_burst(
        SegmentSite::Stream,
        &relative,
        &buffer,
        &mut counters,
        &mut None,
        step,
        phase,
    );
    let BurstTransferStep::Failed { error } = step else {
        panic!("a short source was expected");
    };
    assert_eq!(error.category, ErrorCategory::SourceChanged);
    assert_eq!(counters.bytes_read_source, 9);
}

#[test]
fn only_the_allocator_refuses_a_staging_buffer() {
    let profile = TransportProfile::same_spindle(12);
    assert_eq!(staging_bytes(profile, 100), 12);
    assert_eq!(staging_bytes(profile, 5), 5);
    assert_eq!(staging_bytes(profile, 0), 1);
    let Ok(mut buffer) = BurstBuffer::over(profile, 4, 5, Ok(vec![9; 3])) else {
        panic!("a reservation is a buffer");
    };
    assert_eq!(buffer.capacity(), 5);
    assert_eq!(buffer.prefix(0).len(), 0);
    assert_eq!(buffer.begin_read(5), BurstStep::Poll { done: 0 });
    let step = buffer.read_from(5, BurstStep::Poll { done: 0 }, ReadReply::Polled(false));
    assert_eq!(step, BurstStep::Request { done: 0, length: 4 });

    let refusal = Vec::<u8>::new().try_reserve(usize::MAX).unwrap_err();
    let refused = BurstBuffer::over(profile, 4, 5, Err(refusal.clone()));
    assert_eq!(refused.err(), Some(refusal));
}
