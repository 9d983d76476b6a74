//! Copying the named streams of one directory when it is left.

use vstd::prelude::*;
use vstd::string::*;

use crate::error::{semantic_error_view, ErrorCategory, ErrorView, IoError, OperationError};
use crate::ledger::{Ledger, LedgerView};
use crate::model::sat;
use crate::options::RunRules;
use crate::path::{lossy_text, WidePath};
use crate::platform::{FileIdentity, StreamInfo, StreamView};
use crate::revalidate::{
    destination_access_error, destination_access_view, is_verdict, source_access_error,
    source_access_view,
};
use crate::segment::{with_read, with_written};
use crate::streams::{named_of, named_streams, stream_views};

verus! {

/// The next operation in copying the streams of one directory.
#[derive(Debug, PartialEq, Eq)]
pub enum DirectoryStreamStep {
    /// List the source's streams.
    List,
    /// Open the source stream.
    OpenSource,
    /// Ask for the identity of the source stream's object.
    IdentifySource,
    /// Create the destination stream.
    Create,
    /// Ask for the identity of the destination stream's object.
    IdentifyDestination,
    /// Read up to `max` bytes.
    Read {
        /// The size of the request.
        max: usize,
    },
    /// Write these bytes.
    Write {
        /// The bytes.
        bytes: Vec<u8>,
    },
    /// Flush the destination stream.
    Flush,
    /// Every stream is copied or dropped.
    Finished {
        /// Streams that the destination cannot hold.
        dropped: u64,
    },
    /// The copy fails.
    Failed {
        /// Why.
        error: OperationError,
    },
}

/// The next operation in copying the streams of one directory, as values.
#[verifier::ext_equal]
pub ghost enum DirectoryStreamView {
    List,
    OpenSource,
    IdentifySource,
    Create,
    IdentifyDestination,
    Read { max: usize },
    Write { bytes: Seq<u8> },
    Flush,
    Finished { dropped: u64 },
    Failed { error: ErrorView },
}

impl View for DirectoryStreamStep {
    type V = DirectoryStreamView;

    open spec fn view(&self) -> DirectoryStreamView {
        match *self {
            DirectoryStreamStep::List => DirectoryStreamView::List,
            DirectoryStreamStep::OpenSource => DirectoryStreamView::OpenSource,
            DirectoryStreamStep::IdentifySource => DirectoryStreamView::IdentifySource,
            DirectoryStreamStep::Create => DirectoryStreamView::Create,
            DirectoryStreamStep::IdentifyDestination => DirectoryStreamView::IdentifyDestination,
            DirectoryStreamStep::Read { max } => DirectoryStreamView::Read { max },
            DirectoryStreamStep::Write { bytes } => DirectoryStreamView::Write { bytes: bytes@ },
            DirectoryStreamStep::Flush => DirectoryStreamView::Flush,
            DirectoryStreamStep::Finished { dropped } => DirectoryStreamView::Finished { dropped },
            DirectoryStreamStep::Failed { error } => DirectoryStreamView::Failed { error: error@ },
        }
    }
}

/// What an operation came to.
#[derive(Debug, PartialEq, Eq)]
pub enum DirectoryStreamReply {
    /// The source's streams.
    Listed(Result<Vec<StreamInfo>, IoError>),
    /// Something was done.
    Done(Result<(), IoError>),
    /// An identity.
    Identity(Result<FileIdentity, IoError>),
    /// Bytes of the source; none at its end.
    Read(Result<Vec<u8>, IoError>),
}

/// What an operation came to, as values.
#[verifier::ext_equal]
pub ghost enum DirectoryStreamReplyView {
    Listed(Result<Seq<StreamView>, IoError>),
    Done(Result<(), IoError>),
    Identity(Result<FileIdentity, IoError>),
    Read(Result<Seq<u8>, IoError>),
}

impl View for DirectoryStreamReply {
    type V = DirectoryStreamReplyView;

    open spec fn view(&self) -> DirectoryStreamReplyView {
        match *self {
            DirectoryStreamReply::Listed(Ok(streams)) => DirectoryStreamReplyView::Listed(
                Ok(stream_views(streams@)),
            ),
            DirectoryStreamReply::Listed(Err(error)) => DirectoryStreamReplyView::Listed(
                Err(error),
            ),
            DirectoryStreamReply::Done(result) => DirectoryStreamReplyView::Done(result),
            DirectoryStreamReply::Identity(result) => DirectoryStreamReplyView::Identity(result),
            DirectoryStreamReply::Read(Ok(bytes)) => DirectoryStreamReplyView::Read(Ok(bytes@)),
            DirectoryStreamReply::Read(Err(error)) => DirectoryStreamReplyView::Read(Err(error)),
        }
    }
}

/// The streams of one directory on their way.
pub struct DirectoryStreamCopy {
    relative: WidePath,
    source: FileIdentity,
    destination: FileIdentity,
    buffer_bytes: usize,
    named: Vec<StreamInfo>,
    index: usize,
    copied: u64,
}

/// The streams of one directory on their way, as values.
#[verifier::ext_equal]
pub ghost struct DirectoryCopyView {
    pub relative: Seq<u16>,
    pub source: FileIdentity,
    pub destination: FileIdentity,
    pub buffer_bytes: usize,
    pub named: Seq<StreamView>,
    pub index: int,
    pub copied: u64,
}

impl View for DirectoryStreamCopy {
    type V = DirectoryCopyView;

    closed spec fn view(&self) -> DirectoryCopyView {
        DirectoryCopyView {
            relative: self.relative@,
            source: self.source,
            destination: self.destination,
            buffer_bytes: self.buffer_bytes,
            named: stream_views(self.named@),
            index: self.index as int,
            copied: self.copied,
        }
    }
}

/// Bytes of the buffer through which directory streams are copied: the chunk
/// size, at least 64 KiB and at most 8 MiB.
pub open spec fn spec_buffer_bytes(chunk_bytes: usize) -> usize {
    if chunk_bytes < 65_536 {
        65_536
    } else if chunk_bytes > 8_388_608 {
        8_388_608
    } else {
        chunk_bytes
    }
}

fn directory_buffer_bytes(chunk_bytes: usize) -> (bytes: usize)
    ensures
        bytes == spec_buffer_bytes(chunk_bytes),
{
    if chunk_bytes < 65_536 {
        65_536
    } else if chunk_bytes > 8_388_608 {
        8_388_608
    } else {
        chunk_bytes
    }
}

/// Why an opened source stream does not belong to the directory at hand.
pub open spec fn foreign_source(
    identity: Result<FileIdentity, IoError>,
    expected: FileIdentity,
    relative: Seq<u16>,
) -> Option<ErrorView> {
    match identity {
        Err(error) => Some(source_access_view("identify_dir_stream"@, relative, error)),
        Ok(identity) => if identity == expected {
            None
        } else {
            Some(
                semantic_error_view(
                    ErrorCategory::SourceChanged,
                    "identify_dir_stream"@,
                    relative,
                    "directory stream belongs to a different source object"@,
                ),
            )
        },
    }
}

fn check_source_stream(
    identity: &Result<FileIdentity, IoError>,
    expected: &FileIdentity,
    relative: &WidePath,
) -> (verdict: Result<(), OperationError>)
    ensures
        is_verdict(verdict, foreign_source(*identity, *expected, relative@)),
{
    match identity {
        Err(error) => Err(source_access_error("identify_dir_stream", relative, error)),
        Ok(identity) => {
            if identity.same_as(expected) {
                Ok(())
            } else {
                Err(
                    OperationError::semantic(
                        ErrorCategory::SourceChanged,
                        "identify_dir_stream",
                        relative.copied(),
                        "directory stream belongs to a different source object".to_owned(),
                    ),
                )
            }
        },
    }
}

/// Why an opened destination stream does not belong to the directory at hand.
pub open spec fn foreign_destination(
    identity: Result<FileIdentity, IoError>,
    expected: FileIdentity,
    relative: Seq<u16>,
) -> Option<ErrorView> {
    match identity {
        Err(error) => Some(destination_access_view("identify_dir_stream"@, relative, error)),
        Ok(identity) => if identity == expected {
            None
        } else {
            Some(
                semantic_error_view(
                    ErrorCategory::DestinationChanged,
                    "identify_dir_stream"@,
                    relative,
                    "directory stream belongs to a different destination object"@,
                ),
            )
        },
    }
}

fn check_destination_stream(
    identity: &Result<FileIdentity, IoError>,
    expected: &FileIdentity,
    relative: &WidePath,
) -> (verdict: Result<(), OperationError>)
    ensures
        is_verdict(verdict, foreign_destination(*identity, *expected, relative@)),
{
    match identity {
        Err(error) => Err(destination_access_error("identify_dir_stream", relative, error)),
        Ok(identity) => {
            if identity.same_as(expected) {
                Ok(())
            } else {
                Err(
                    OperationError::semantic(
                        ErrorCategory::DestinationChanged,
                        "identify_dir_stream",
                        relative.copied(),
                        "directory stream belongs to a different destination object".to_owned(),
                    ),
                )
            }
        },
    }
}

/// The failure of a directory stream that changed its size.
pub open spec fn stream_resized(relative: Seq<u16>, name: Seq<u16>) -> ErrorView {
    semantic_error_view(
        ErrorCategory::SourceChanged,
        "read_dir_stream"@,
        relative,
        "directory stream "@ + lossy_text(name) + " changed size during copy"@,
    )
}

fn check_stream_size(stream: &StreamInfo, copied: u64, relative: &WidePath) -> (verdict: Result<
    (),
    OperationError,
>)
    ensures
        copied == stream.size ==> verdict is Ok,
        copied != stream.size ==> (verdict matches Err(failure) && failure@ == stream_resized(
            relative@,
            stream.name@,
        )),
{
    if copied == stream.size {
        Ok(())
    } else {
        let mut message = "directory stream ".to_owned();
        message.append(stream.name.to_text_lossy().as_str());
        message.append(" changed size during copy");
        Err(
            OperationError::semantic(
                ErrorCategory::SourceChanged,
                "read_dir_stream",
                relative.copied(),
                message,
            ),
        )
    }
}

impl DirectoryCopyView {
    /// Whether a stream is at hand while one is copied.
    pub open spec fn wf(self, step: DirectoryStreamView) -> bool {
        &&& 0 <= self.index <= self.named.len()
        &&& step is List || step is Finished || step is Failed || self.index < self.named.len()
    }

    /// Whether a reply answers a step.
    pub open spec fn answered_by(
        self,
        step: DirectoryStreamView,
        reply: DirectoryStreamReplyView,
    ) -> bool {
        match step {
            DirectoryStreamView::List => reply is Listed,
            DirectoryStreamView::OpenSource => reply is Done,
            DirectoryStreamView::IdentifySource => reply is Identity,
            DirectoryStreamView::Create => reply is Done,
            DirectoryStreamView::IdentifyDestination => reply is Identity,
            DirectoryStreamView::Read { .. } => reply is Read,
            DirectoryStreamView::Write { .. } => reply is Done,
            DirectoryStreamView::Flush => reply is Done,
            _ => false,
        }
    }

    /// Before the stream at the index, or behind the last one.
    pub open spec fn at_stream(self) -> DirectoryStreamView {
        if self.index < self.named.len() {
            DirectoryStreamView::OpenSource
        } else {
            DirectoryStreamView::Finished { dropped: 0 }
        }
    }

    /// The copying, the accounts and the next operation after a reply.
    pub open spec fn after(
        self,
        rules: RunRules,
        ledger: LedgerView,
        step: DirectoryStreamView,
        reply: DirectoryStreamReplyView,
    ) -> (DirectoryCopyView, LedgerView, DirectoryStreamView) {
        let rel = self.relative;
        match (step, reply) {
            (DirectoryStreamView::List, DirectoryStreamReplyView::Listed(listed)) => match listed {
                Err(error) => (
                    self,
                    ledger,
                    DirectoryStreamView::Failed {
                        error: source_access_view("list_dir_streams"@, rel, error),
                    },
                ),
                Ok(streams) => {
                    let named = named_of(streams);
                    if rules.policy.capabilities.named_streams {
                        let next = DirectoryCopyView { named, index: 0, copied: 0, ..self };
                        (next, ledger, next.at_stream())
                    } else {
                        (
                            self,
                            ledger.tallied_times("streams_dropped"@, named.len() as u64),
                            DirectoryStreamView::Finished { dropped: named.len() as u64 },
                        )
                    }
                },
            },
            (DirectoryStreamView::OpenSource, DirectoryStreamReplyView::Done(done)) => (
                self,
                ledger,
                match done {
                    Err(error) => DirectoryStreamView::Failed {
                        error: source_access_view("open_dir_stream"@, rel, error),
                    },
                    Ok(_) => DirectoryStreamView::IdentifySource,
                },
            ),
            (DirectoryStreamView::IdentifySource, DirectoryStreamReplyView::Identity(identity)) => (
                self,
                ledger,
                match foreign_source(identity, self.source, rel) {
                    Some(error) => DirectoryStreamView::Failed { error },
                    None => DirectoryStreamView::Create,
                },
            ),
            (DirectoryStreamView::Create, DirectoryStreamReplyView::Done(done)) => (
                self,
                ledger,
                match done {
                    Err(error) => DirectoryStreamView::Failed {
                        error: destination_access_view("create_dir_stream"@, rel, error),
                    },
                    Ok(_) => DirectoryStreamView::IdentifyDestination,
                },
            ),
            (
                DirectoryStreamView::IdentifyDestination,
                DirectoryStreamReplyView::Identity(identity),
            ) => (
                self,
                ledger,
                match foreign_destination(identity, self.destination, rel) {
                    Some(error) => DirectoryStreamView::Failed { error },
                    None => DirectoryStreamView::Read { max: self.buffer_bytes },
                },
            ),
            (DirectoryStreamView::Read { .. }, DirectoryStreamReplyView::Read(read)) => (
                self,
                ledger,
                match read {
                    Err(error) => DirectoryStreamView::Failed {
                        error: source_access_view("read_dir_stream"@, rel, error),
                    },
                    Ok(bytes) => if bytes.len() > 0 {
                        DirectoryStreamView::Write { bytes }
                    } else if self.copied == self.named[self.index].size {
                        DirectoryStreamView::Flush
                    } else {
                        DirectoryStreamView::Failed {
                            error: stream_resized(rel, self.named[self.index].name),
                        }
                    },
                },
            ),
            (DirectoryStreamView::Write { bytes }, DirectoryStreamReplyView::Done(done)) => {
                match done {
                    Err(error) => (
                        self,
                        ledger,
                        DirectoryStreamView::Failed {
                            error: destination_access_view("write_dir_stream"@, rel, error),
                        },
                    ),
                    Ok(_) => (
                        DirectoryCopyView { copied: sat(self.copied, bytes.len() as u64), ..self },
                        ledger.counting(
                            with_written(
                                with_read(ledger.counters, bytes.len() as u64),
                                bytes.len() as u64,
                            ),
                        ),
                        DirectoryStreamView::Read { max: self.buffer_bytes },
                    ),
                }
            },
            (DirectoryStreamView::Flush, DirectoryStreamReplyView::Done(done)) => match done {
                Err(error) => (
                    self,
                    ledger,
                    DirectoryStreamView::Failed {
                        error: destination_access_view("flush_dir_stream"@, rel, error),
                    },
                ),
                Ok(_) => {
                    let next = DirectoryCopyView { index: self.index + 1, copied: 0, ..self };
                    (next, ledger, next.at_stream())
                },
            },
            _ => (self, ledger, step),
        }
    }
}

impl DirectoryStreamCopy {
    /// Starts to copy the streams of one directory. Where the source has none,
    /// nothing is listed.
    pub fn start(
        rules: &RunRules,
        relative: &WidePath,
        source: FileIdentity,
        destination: FileIdentity,
        chunk_bytes: usize,
    ) -> (started: (DirectoryStreamCopy, DirectoryStreamStep))
        ensures
            started.0@ == (DirectoryCopyView {
                relative: relative@,
                source,
                destination,
                buffer_bytes: spec_buffer_bytes(chunk_bytes),
                named: seq![],
                index: 0,
                copied: 0,
            }),
            started.1@ == (if rules.source_supports_streams {
                DirectoryStreamView::List
            } else {
                DirectoryStreamView::Finished { dropped: 0 }
            }),
            started.0@.wf(started.1@),
    {
        let copy = DirectoryStreamCopy {
            relative: relative.copied(),
            source,
            destination,
            buffer_bytes: directory_buffer_bytes(chunk_bytes),
            named: Vec::new(),
            index: 0,
            copied: 0,
        };
        assert(stream_views(copy.named@) =~= seq![]);
        if rules.source_supports_streams {
            (copy, DirectoryStreamStep::List)
        } else {
            (copy, DirectoryStreamStep::Finished { dropped: 0 })
        }
    }

    /// The stream that is being copied.
    pub fn current(&self) -> (stream: &StreamInfo)
        requires
            0 <= self@.index < self@.named.len(),
        ensures
            stream@ == self@.named[self@.index],
    {
        &self.named[self.index]
    }

    fn next_stream(&self) -> (next: DirectoryStreamStep)
        ensures
            next@ == self@.at_stream(),
    {
        assert(stream_views(self.named@).len() == self.named.len());
        if self.index < self.named.len() {
            DirectoryStreamStep::OpenSource
        } else {
            DirectoryStreamStep::Finished { dropped: 0 }
        }
    }

    fn take_listing(&mut self, rules: &RunRules, ledger: &mut Ledger, streams: &[StreamInfo]) -> (next:
        DirectoryStreamStep)
        requires
            old(self)@.wf(DirectoryStreamView::List),
        ensures
            old(self)@.after(
                *rules,
                old(ledger)@,
                DirectoryStreamView::List,
                DirectoryStreamReplyView::Listed(Ok(stream_views(streams@))),
            ) == (final(self)@, final(ledger)@, next@),
            final(self)@.wf(next@),
    {
        let named = named_streams(streams);
        assert(stream_views(named@).len() == named.len());
        if rules.policy.supports_streams() {
            self.named = named;
            self.index = 0;
            self.copied = 0;
            self.next_stream()
        } else {
            let dropped: u64 = named.len() as u64;
            ledger.increment_warning_by("streams_dropped", dropped);
            DirectoryStreamStep::Finished { dropped }
        }
    }

    /// Decides the next operation in copying the streams of one directory.
    #[verifier::rlimit(40)]
    pub fn copy_directory_streams(
        &mut self,
        rules: &RunRules,
        ledger: &mut Ledger,
        step: DirectoryStreamStep,
        reply: DirectoryStreamReply,
    ) -> (next: DirectoryStreamStep)
        requires
            old(self)@.wf(step@),
            old(self)@.answered_by(step@, reply@),
        ensures
            old(self)@.after(*rules, old(ledger)@, step@, reply@) == (
                final(self)@,
                final(ledger)@,
                next@,
            ),
            final(self)@.wf(next@),
    {
        let ghost before = ledger@;
        assert(stream_views(self.named@).len() == self.named.len());
        match (step, reply) {
            (DirectoryStreamStep::List, DirectoryStreamReply::Listed(listed)) => match listed {
                Err(error) => DirectoryStreamStep::Failed {
                    error: source_access_error("list_dir_streams", &self.relative, &error),
                },
                Ok(streams) => self.take_listing(rules, ledger, streams.as_slice()),
            },
            (DirectoryStreamStep::OpenSource, DirectoryStreamReply::Done(done)) => match done {
                Err(error) => DirectoryStreamStep::Failed {
                    error: source_access_error("open_dir_stream", &self.relative, &error),
                },
                Ok(_) => DirectoryStreamStep::IdentifySource,
            },
            (DirectoryStreamStep::IdentifySource, DirectoryStreamReply::Identity(identity)) => {
                match check_source_stream(&identity, &self.source, &self.relative) {
                    Err(error) => DirectoryStreamStep::Failed { error },
                    Ok(_) => DirectoryStreamStep::Create,
                }
            },
            (DirectoryStreamStep::Create, DirectoryStreamReply::Done(done)) => match done {
                Err(error) => DirectoryStreamStep::Failed {
                    error: destination_access_error("create_dir_stream", &self.relative, &error),
                },
                Ok(_) => DirectoryStreamStep::IdentifyDestination,
            },
            (
                DirectoryStreamStep::IdentifyDestination,
                DirectoryStreamReply::Identity(identity),
            ) => match check_destination_stream(&identity, &self.destination, &self.relative) {
                Err(error) => DirectoryStreamStep::Failed { error },
                Ok(_) => DirectoryStreamStep::Read { max: self.buffer_bytes },
            },
            (DirectoryStreamStep::Read { .. }, DirectoryStreamReply::Read(read)) => match read {
                Err(error) => DirectoryStreamStep::Failed {
                    error: source_access_error("read_dir_stream", &self.relative, &error),
                },
                Ok(bytes) => {
                    if bytes.len() > 0 {
                        DirectoryStreamStep::Write { bytes }
                    } else {
                        match check_stream_size(
                            &self.named[self.index],
                            self.copied,
                            &self.relative,
                        ) {
                            Err(error) => DirectoryStreamStep::Failed { error },
                            Ok(_) => DirectoryStreamStep::Flush,
                        }
                    }
                },
            },
            (DirectoryStreamStep::Write { bytes }, DirectoryStreamReply::Done(done)) => match done {
                Err(error) => DirectoryStreamStep::Failed {
                    error: destination_access_error("write_dir_stream", &self.relative, &error),
                },
                Ok(_) => {
                    let count: u64 = bytes.len() as u64;
                    self.copied = self.copied.saturating_add(count);
                    ledger.counters.bytes_read_source =
                        ledger.counters.bytes_read_source.saturating_add(count);
                    ledger.counters.bytes_written_destination =
                        ledger.counters.bytes_written_destination.saturating_add(count);
                    assert(ledger@ =~= before.counting(
                        with_written(with_read(before.counters, count), count),
                    ));
                    DirectoryStreamStep::Read { max: self.buffer_bytes }
                },
            },
            (DirectoryStreamStep::Flush, DirectoryStreamReply::Done(done)) => match done {
                Err(error) => DirectoryStreamStep::Failed {
                    error: destination_access_error("flush_dir_stream", &self.relative, &error),
                },
                Ok(_) => {
                    self.index = self.index + 1;
                    self.copied = 0;
                    self.next_stream()
                },
            },
            (step, _) => step,
        }
    }
}

/// A stream is left only whole: it is flushed, and the next one opened, only
/// after as many bytes were written as it was listed with; nothing is written
/// before both of its ends were found to belong to the directories at hand.
pub proof fn directory_streams_are_copied_whole(
    copy: DirectoryCopyView,
    rules: RunRules,
    ledger: LedgerView,
    step: DirectoryStreamView,
    reply: DirectoryStreamReplyView,
)
    requires
        copy.wf(step),
        copy.answered_by(step, reply),
    ensures
        ({
            let (next, _, decided) = copy.after(rules, ledger, step, reply);
            &&& decided is Flush ==> step is Read && copy.copied == copy.named[copy.index].size
            &&& next.index != copy.index && !(step is List) ==> step is Flush && next.index
                == copy.index + 1
            &&& decided is Create ==> step is IdentifySource && foreign_source(
                reply->Identity_0,
                copy.source,
                copy.relative,
            ) is None
            &&& decided is Read && step is IdentifyDestination ==> foreign_destination(
                reply->Identity_0,
                copy.destination,
                copy.relative,
            ) is None
            &&& decided is Write ==> step is Read
        }),
{
}

/// A directory's stream is written only between the enumerated source and the
/// captured destination; exactly what was read is written, counted as read and
/// as written; and it is flushed only once it is as long as it was listed. Where
/// the destination cannot hold streams, each of them counts as dropped.
pub proof fn directory_stream_is_written_as_read(
    copy: DirectoryCopyView,
    rules: RunRules,
    ledger: LedgerView,
    step: DirectoryStreamView,
    reply: DirectoryStreamReplyView,
)
    requires
        copy.wf(step),
        copy.answered_by(step, reply),
        step matches DirectoryStreamView::Write { bytes } ==> {
            &&& copy.copied + bytes.len() <= u64::MAX
            &&& ledger.counters.bytes_read_source + bytes.len() <= u64::MAX
            &&& ledger.counters.bytes_written_destination + bytes.len() <= u64::MAX
        },
    ensures
        ({
            let (next, after, decided) = copy.after(rules, ledger, step, reply);
            let wrote = step is Write && (reply matches DirectoryStreamReplyView::Done(Ok(_)));
            let count = if wrote {
                step->bytes.len() as int
            } else {
                0
            };
            &&& decided is Create <==> step is IdentifySource && reply
                == DirectoryStreamReplyView::Identity(Ok(copy.source))
            &&& step is IdentifyDestination ==> (decided is Read <==> reply
                == DirectoryStreamReplyView::Identity(Ok(copy.destination)))
            &&& decided matches DirectoryStreamView::Write { bytes } ==> step is Read && reply
                == DirectoryStreamReplyView::Read(Ok(bytes)) && bytes.len() > 0
            &&& wrote ==> next.copied == copy.copied + count && decided is Read
            &&& after.counters.bytes_read_source == ledger.counters.bytes_read_source + count
            &&& after.counters.bytes_written_destination
                == ledger.counters.bytes_written_destination + count
            &&& decided is Flush <==> step is Read && (reply matches DirectoryStreamReplyView::Read(
                Ok(bytes),
            ) && bytes.len() == 0) && copy.copied == copy.named[copy.index].size
            &&& next.index == copy.index + 1 && step is Flush ==> next.copied == 0
            &&& step is List ==> (reply matches DirectoryStreamReplyView::Listed(Ok(streams)) ==> {
                &&& rules.policy.capabilities.named_streams ==> next.named == named_of(streams)
                    && next.index == 0 && next.copied == 0
                &&& !rules.policy.capabilities.named_streams && named_of(streams).len() <= u64::MAX
                    ==> (decided matches DirectoryStreamView::Finished { dropped } && dropped
                    == named_of(streams).len())
            })
            &&& decided matches DirectoryStreamView::Finished { dropped } ==> (step is Flush
                ==> dropped == 0 && next.index >= next.named.len())
        }),
{
}

/// A buffer for directory streams takes 64 KiB to 8 MiB.
pub proof fn directory_buffer_is_bounded(chunk_bytes: usize)
    ensures
        0x1_0000 <= spec_buffer_bytes(chunk_bytes) <= 0x80_0000,
        0x1_0000 <= chunk_bytes <= 0x80_0000 ==> spec_buffer_bytes(chunk_bytes) == chunk_bytes,
{
}

} // verus!
