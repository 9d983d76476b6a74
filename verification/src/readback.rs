//! Reading objects back for verification: digests of file contents, named
//! streams and extended attributes, guarded by metadata on both sides.

use vstd::prelude::*;
use vstd::string::*;

use crate::digests::{digest_views, place_digest, placed, same_digests};
use crate::error::{
    category_of, io_error_view, semantic_error_view, ErrorCategory, ErrorView, IoError,
    OperationError,
};
use crate::hashing::{digest_bytes, digest_text, StreamDigest};
use crate::model::{sat, Counters};
use crate::path::{lossy_text, WidePath};
use crate::platform::{ObjectMetadata, StreamInfo, StreamView, VolumeInfo};
use crate::streams::{named_of, named_streams, stream_views};

verus! {

/// Bytes of one read of a file.
pub const VERIFY_FILE_BUFFER: usize = 8_388_608;

/// Bytes of one read of a named stream.
pub const VERIFY_STREAM_BUFFER: usize = 1_048_576;

/// Which auxiliary data an object is read with.
#[derive(Clone, Copy, Debug, PartialEq, Eq, Structural)]
pub struct VerificationFeatures {
    /// Whether named streams are read.
    pub streams: bool,
    /// Whether extended attributes are read.
    pub eas: bool,
}

impl VerificationFeatures {
    /// What a volume can hold.
    pub fn of_volume(volume: &VolumeInfo) -> (features: VerificationFeatures)
        ensures
            features == (VerificationFeatures {
                streams: volume.capabilities.named_streams,
                eas: volume.capabilities.extended_attributes,
            }),
    {
        VerificationFeatures {
            streams: volume.capabilities.named_streams,
            eas: volume.capabilities.extended_attributes,
        }
    }

    /// What both sides can hold.
    pub open spec fn shared(self, other: VerificationFeatures) -> VerificationFeatures {
        VerificationFeatures {
            streams: self.streams && other.streams,
            eas: self.eas && other.eas,
        }
    }

    /// What both sides can hold.
    pub fn shared_with(self, other: VerificationFeatures) -> (features: VerificationFeatures)
        ensures
            features == self.shared(other),
    {
        VerificationFeatures {
            streams: self.streams && other.streams,
            eas: self.eas && other.eas,
        }
    }
}

/// One file as it was read back.
#[derive(Clone, Debug, PartialEq, Eq)]
pub struct DigestedFile {
    /// Bytes of the unnamed stream.
    pub size: u64,
    /// Digest of the unnamed stream.
    pub digest: String,
    /// Digests of the named streams, in name order.
    pub streams: Vec<(StreamInfo, String)>,
    /// Digest of the extended attributes.
    pub ea_digest: String,
}

/// One file as it was read back, as values.
#[verifier::ext_equal]
pub ghost struct DigestedView {
    pub size: u64,
    pub digest: Seq<char>,
    pub streams: Seq<(StreamView, Seq<char>)>,
    pub ea_digest: Seq<char>,
}

impl View for DigestedFile {
    type V = DigestedView;

    open spec fn view(&self) -> DigestedView {
        DigestedView {
            size: self.size,
            digest: self.digest@,
            streams: digest_views(self.streams@),
            ea_digest: self.ea_digest@,
        }
    }
}

/// The failure of an operation on an object.
pub open spec fn read_failure(operation: Seq<char>, path: Seq<u16>, error: IoError) -> ErrorView {
    io_error_view(category_of(error), operation, path, error)
}

/// The counters with more verified bytes.
pub open spec fn verified(counters: Counters, bytes: nat) -> Counters {
    Counters { bytes_verified: sat(counters.bytes_verified, bytes as u64), ..counters }
}

/// The next operation in digesting the unnamed stream of a file.
#[derive(Debug, PartialEq, Eq)]
pub enum FileStep {
    /// Open the file and read its metadata.
    Open,
    /// Read up to `max` bytes.
    Read {
        /// The size of the request.
        max: usize,
    },
    /// Read the metadata of the open file.
    Revalidate,
    /// The file is digested.
    Finished {
        /// Its size.
        size: u64,
        /// Its digest.
        digest: String,
    },
    /// The file cannot be digested.
    Failed {
        /// Why.
        error: OperationError,
    },
}

/// The next operation, as values.
#[verifier::ext_equal]
pub ghost enum FileStepView {
    Open,
    Read { max: usize },
    Revalidate,
    Finished { size: u64, digest: Seq<char> },
    Failed { error: ErrorView },
}

impl View for FileStep {
    type V = FileStepView;

    open spec fn view(&self) -> FileStepView {
        match *self {
            FileStep::Open => FileStepView::Open,
            FileStep::Read { max } => FileStepView::Read { max },
            FileStep::Revalidate => FileStepView::Revalidate,
            FileStep::Finished { size, digest } => FileStepView::Finished { size, digest: digest@ },
            FileStep::Failed { error } => FileStepView::Failed { error: error@ },
        }
    }
}

/// What an operation came to.
#[derive(Debug, PartialEq, Eq)]
pub enum FileReply {
    /// Metadata that was read.
    Metadata(Result<ObjectMetadata, IoError>),
    /// Bytes that were read; none at the end.
    Read(Result<Vec<u8>, IoError>),
}

/// What an operation came to, as values.
#[verifier::ext_equal]
pub ghost enum FileReplyView {
    Metadata(Result<ObjectMetadata, IoError>),
    Read(Result<Seq<u8>, IoError>),
}

impl View for FileReply {
    type V = FileReplyView;

    open spec fn view(&self) -> FileReplyView {
        match *self {
            FileReply::Metadata(result) => FileReplyView::Metadata(result),
            FileReply::Read(Ok(bytes)) => FileReplyView::Read(Ok(bytes@)),
            FileReply::Read(Err(error)) => FileReplyView::Read(Err(error)),
        }
    }
}

/// Whether a reply answers a step.
pub open spec fn file_answers(step: FileStepView, reply: FileReplyView) -> bool {
    match step {
        FileStepView::Open => reply is Metadata,
        FileStepView::Read { max } => reply matches FileReplyView::Read(read) && (read
            matches Ok(bytes) ==> bytes.len() <= max <= u64::MAX),
        FileStepView::Revalidate => reply is Metadata,
        _ => false,
    }
}

/// The unnamed stream of a file on its way through a digest.
pub struct FileDigest {
    opened: Option<ObjectMetadata>,
    hasher: StreamDigest,
    total: u64,
}

/// The unnamed stream of a file on its way, as values.
#[verifier::ext_equal]
pub ghost struct FileDigestView {
    pub opened: Option<ObjectMetadata>,
    pub content: Seq<u8>,
    pub total: u64,
}

impl View for FileDigest {
    type V = FileDigestView;

    closed spec fn view(&self) -> FileDigestView {
        FileDigestView { opened: self.opened, content: self.hasher@, total: self.total }
    }
}

/// Whether a file kept its identity, size and last-write time, and was read in
/// full.
pub open spec fn same_file(
    opened: ObjectMetadata,
    observed: ObjectMetadata,
    total: u64,
) -> bool {
    observed.identity == opened.identity && observed.size == opened.size
        && observed.basic.last_write_time == opened.basic.last_write_time && observed.size == total
}

impl FileDigestView {
    /// Before the file is opened.
    pub open spec fn start() -> FileDigestView {
        FileDigestView { opened: None, content: seq![], total: 0 }
    }

    /// The digest, the counters and the next step after a reply.
    pub open spec fn after(
        self,
        path: Seq<u16>,
        counters: Counters,
        step: FileStepView,
        reply: FileReplyView,
    ) -> (FileDigestView, Counters, FileStepView) {
        match (step, reply) {
            (FileStepView::Open, FileReplyView::Metadata(read)) => match read {
                Err(error) => (
                    self,
                    counters,
                    FileStepView::Failed { error: read_failure("verify_open"@, path, error) },
                ),
                Ok(metadata) => (
                    FileDigestView { opened: Some(metadata), ..self },
                    counters,
                    FileStepView::Read { max: VERIFY_FILE_BUFFER },
                ),
            },
            (FileStepView::Read { .. }, FileReplyView::Read(read)) => match read {
                Err(error) => (
                    self,
                    counters,
                    FileStepView::Failed { error: read_failure("verify_read"@, path, error) },
                ),
                Ok(bytes) => if bytes.len() == 0 {
                    (self, counters, FileStepView::Revalidate)
                } else {
                    (
                        FileDigestView {
                            content: self.content + bytes,
                            total: sat(self.total, bytes.len() as u64),
                            ..self
                        },
                        verified(counters, bytes.len()),
                        FileStepView::Read { max: VERIFY_FILE_BUFFER },
                    )
                },
            },
            (FileStepView::Revalidate, FileReplyView::Metadata(read)) => match read {
                Err(error) => (
                    self,
                    counters,
                    FileStepView::Failed { error: read_failure("verify_revalidate"@, path, error) },
                ),
                Ok(observed) => if self.opened matches Some(opened) && same_file(
                    opened,
                    observed,
                    self.total,
                ) {
                    (
                        self,
                        counters,
                        FileStepView::Finished {
                            size: self.total,
                            digest: digest_text(self.content),
                        },
                    )
                } else {
                    (
                        self,
                        counters,
                        FileStepView::Failed {
                            error: semantic_error_view(
                                ErrorCategory::SourceChanged,
                                "verify_revalidate"@,
                                path,
                                "file size changed during verification"@,
                            ),
                        },
                    )
                },
            },
            _ => (self, counters, step),
        }
    }
}

impl FileDigest {
    /// Before the file is opened.
    pub fn start() -> (digest: FileDigest)
        ensures
            digest@ == FileDigestView::start(),
    {
        let digest = FileDigest { opened: None, hasher: StreamDigest::new(), total: 0 };
        assert(digest@ =~= FileDigestView::start());
        digest
    }

    /// Decides the next operation in digesting the unnamed stream of a file.
    /// The first one is to open it.
    pub fn digest_file(
        &mut self,
        path: &WidePath,
        counters: &mut Counters,
        step: FileStep,
        reply: FileReply,
    ) -> (next: FileStep)
        requires
            file_answers(step@, reply@),
        ensures
            old(self)@.after(path@, *old(counters), step@, reply@) == (
                final(self)@,
                *final(counters),
                next@,
            ),
    {
        match (step, reply) {
            (FileStep::Open, FileReply::Metadata(read)) => match read {
                Err(error) => FileStep::Failed {
                    error: OperationError::from_io("verify_open", path.copied(), &error),
                },
                Ok(metadata) => {
                    self.opened = Some(metadata);
                    FileStep::Read { max: VERIFY_FILE_BUFFER }
                },
            },
            (FileStep::Read { max }, FileReply::Read(read)) => match read {
                Err(error) => FileStep::Failed {
                    error: OperationError::from_io("verify_read", path.copied(), &error),
                },
                Ok(bytes) => {
                    if bytes.len() == 0 {
                        FileStep::Revalidate
                    } else {
                        self.hasher.update(bytes.as_slice());
                        self.total = self.total.saturating_add(bytes.len() as u64);
                        counters.bytes_verified =
                            counters.bytes_verified.saturating_add(bytes.len() as u64);
                        FileStep::Read { max: VERIFY_FILE_BUFFER }
                    }
                },
            },
            (FileStep::Revalidate, FileReply::Metadata(read)) => match read {
                Err(error) => FileStep::Failed {
                    error: OperationError::from_io("verify_revalidate", path.copied(), &error),
                },
                Ok(observed) => {
                    let same = match &self.opened {
                        Some(opened) => observed.identity.same_as(&opened.identity)
                            && observed.size == opened.size && observed.basic.last_write_time
                            == opened.basic.last_write_time && observed.size == self.total,
                        None => false,
                    };
                    if same {
                        FileStep::Finished { size: self.total, digest: self.hasher.finish() }
                    } else {
                        FileStep::Failed {
                            error: OperationError::semantic(
                                ErrorCategory::SourceChanged,
                                "verify_revalidate",
                                path.copied(),
                                "file size changed during verification".to_owned(),
                            ),
                        }
                    }
                },
            },
            (step, _) => step,
        }
    }
}

/// The next operation in digesting named streams.
#[derive(Debug, PartialEq, Eq)]
pub enum StreamStep {
    /// List the streams.
    List,
    /// Open the stream at hand.
    Open,
    /// Read up to `max` bytes of it.
    Read {
        /// The size of the request.
        max: usize,
    },
    /// Every stream is digested.
    Finished {
        /// The digests in name order.
        digests: Vec<(StreamInfo, String)>,
    },
    /// The streams cannot be digested.
    Failed {
        /// Why.
        error: OperationError,
    },
}

/// The next operation, as values.
#[verifier::ext_equal]
pub ghost enum StreamStepView {
    List,
    Open,
    Read { max: usize },
    Finished { digests: Seq<(StreamView, Seq<char>)> },
    Failed { error: ErrorView },
}

impl View for StreamStep {
    type V = StreamStepView;

    open spec fn view(&self) -> StreamStepView {
        match *self {
            StreamStep::List => StreamStepView::List,
            StreamStep::Open => StreamStepView::Open,
            StreamStep::Read { max } => StreamStepView::Read { max },
            StreamStep::Finished { digests } => StreamStepView::Finished {
                digests: digest_views(digests@),
            },
            StreamStep::Failed { error } => StreamStepView::Failed { error: error@ },
        }
    }
}

/// What an operation came to.
#[derive(Debug, PartialEq, Eq)]
pub enum StreamReply {
    /// The streams of the object.
    Listed(Result<Vec<StreamInfo>, IoError>),
    /// Something was done.
    Done(Result<(), IoError>),
    /// Bytes that were read; none at the end.
    Read(Result<Vec<u8>, IoError>),
}

/// What an operation came to, as values.
#[verifier::ext_equal]
pub ghost enum StreamReplyView {
    Listed(Result<Seq<StreamView>, IoError>),
    Done(Result<(), IoError>),
    Read(Result<Seq<u8>, IoError>),
}

impl View for StreamReply {
    type V = StreamReplyView;

    open spec fn view(&self) -> StreamReplyView {
        match *self {
            StreamReply::Listed(Ok(streams)) => StreamReplyView::Listed(
                Ok(stream_views(streams@)),
            ),
            StreamReply::Listed(Err(error)) => StreamReplyView::Listed(Err(error)),
            StreamReply::Done(result) => StreamReplyView::Done(result),
            StreamReply::Read(Ok(bytes)) => StreamReplyView::Read(Ok(bytes@)),
            StreamReply::Read(Err(error)) => StreamReplyView::Read(Err(error)),
        }
    }
}

/// The named streams of an object on their way through digests.
pub struct StreamDigests {
    named: Vec<StreamInfo>,
    index: usize,
    hasher: StreamDigest,
    total: u64,
    digests: Vec<(StreamInfo, String)>,
}

/// The named streams of an object on their way, as values.
#[verifier::ext_equal]
pub ghost struct StreamDigestsView {
    pub named: Seq<StreamView>,
    pub index: int,
    pub content: Seq<u8>,
    pub total: u64,
    pub digests: Seq<(StreamView, Seq<char>)>,
}

impl View for StreamDigests {
    type V = StreamDigestsView;

    closed spec fn view(&self) -> StreamDigestsView {
        StreamDigestsView {
            named: stream_views(self.named@),
            index: self.index as int,
            content: self.hasher@,
            total: self.total,
            digests: digest_views(self.digests@),
        }
    }
}

impl StreamDigestsView {
    /// Before the streams are listed.
    pub open spec fn start() -> StreamDigestsView {
        StreamDigestsView { named: seq![], index: 0, content: seq![], total: 0, digests: seq![] }
    }

    /// Whether a reply answers a step.
    pub open spec fn answered_by(self, step: StreamStepView, reply: StreamReplyView) -> bool {
        match step {
            StreamStepView::List => self.index == 0 && self.content.len() == 0 && self.total == 0
                && reply is Listed,
            StreamStepView::Open => 0 <= self.index < self.named.len() && reply is Done,
            StreamStepView::Read { max } => 0 <= self.index < self.named.len() && (reply
                matches StreamReplyView::Read(read) && (read matches Ok(bytes) ==> bytes.len()
                <= max)),
            _ => false,
        }
    }

    /// Before the stream at the index, or behind the last one.
    pub open spec fn at_stream(self) -> StreamStepView {
        if self.index < self.named.len() {
            StreamStepView::Open
        } else {
            StreamStepView::Finished { digests: self.digests }
        }
    }

    /// After the current stream was read to its end.
    pub open spec fn closed_stream(self) -> StreamDigestsView {
        StreamDigestsView {
            index: self.index + 1,
            content: seq![],
            total: 0,
            digests: placed(
                self.digests,
                (self.named[self.index], digest_text(self.content)),
            ),
            ..self
        }
    }

    /// The digests, the counters and the next step after a reply.
    pub open spec fn after(
        self,
        path: Seq<u16>,
        counters: Counters,
        step: StreamStepView,
        reply: StreamReplyView,
    ) -> (StreamDigestsView, Counters, StreamStepView) {
        match (step, reply) {
            (StreamStepView::List, StreamReplyView::Listed(listed)) => match listed {
                Err(error) => (
                    self,
                    counters,
                    StreamStepView::Failed { error: read_failure("verify_streams"@, path, error) },
                ),
                Ok(streams) => {
                    let next = StreamDigestsView { named: named_of(streams), ..self };
                    (next, counters, next.at_stream())
                },
            },
            (StreamStepView::Open, StreamReplyView::Done(done)) => match done {
                Err(error) => (
                    self,
                    counters,
                    StreamStepView::Failed {
                        error: read_failure("verify_open_stream"@, path, error),
                    },
                ),
                Ok(_) => (self, counters, StreamStepView::Read { max: VERIFY_STREAM_BUFFER }),
            },
            (StreamStepView::Read { .. }, StreamReplyView::Read(read)) => match read {
                Err(error) => (
                    self,
                    counters,
                    StreamStepView::Failed {
                        error: read_failure("verify_read_stream"@, path, error),
                    },
                ),
                Ok(bytes) => if bytes.len() > 0 {
                    (
                        StreamDigestsView {
                            content: self.content + bytes,
                            total: sat(self.total, bytes.len() as u64),
                            ..self
                        },
                        verified(counters, bytes.len()),
                        StreamStepView::Read { max: VERIFY_STREAM_BUFFER },
                    )
                } else if self.total != self.named[self.index].size {
                    (
                        self,
                        counters,
                        StreamStepView::Failed {
                            error: semantic_error_view(
                                ErrorCategory::SourceChanged,
                                "verify_read_stream"@,
                                path,
                                "named stream size changed during verification"@,
                            ),
                        },
                    )
                } else {
                    (self.closed_stream(), counters, self.closed_stream().at_stream())
                },
            },
            _ => (self, counters, step),
        }
    }
}

impl StreamDigests {
    /// Before the streams are listed.
    pub fn start() -> (digests: StreamDigests)
        ensures
            digests@ == StreamDigestsView::start(),
    {
        let digests = StreamDigests {
            named: Vec::new(),
            index: 0,
            hasher: StreamDigest::new(),
            total: 0,
            digests: Vec::new(),
        };
        assert(digests@ =~= StreamDigestsView::start());
        digests
    }

    /// The stream that is being digested.
    pub fn current(&self) -> (stream: &StreamInfo)
        requires
            0 <= self@.index < self@.named.len(),
        ensures
            stream@ == self@.named[self@.index],
    {
        &self.named[self.index]
    }

    fn at_stream(&self) -> (step: StreamStep)
        requires
            0 <= self@.index <= self@.named.len(),
        ensures
            step@ == self@.at_stream(),
    {
        assert(stream_views(self.named@).len() == self.named.len());
        if self.index < self.named.len() {
            StreamStep::Open
        } else {
            StreamStep::Finished { digests: crate::digests::copy_digests(&self.digests) }
        }
    }

    /// Decides the next operation in digesting the named streams of an object.
    /// The first one is to list them.
    pub fn digest_named_streams(
        &mut self,
        path: &WidePath,
        counters: &mut Counters,
        step: StreamStep,
        reply: StreamReply,
    ) -> (next: StreamStep)
        requires
            old(self)@.answered_by(step@, reply@),
        ensures
            old(self)@.after(path@, *old(counters), step@, reply@) == (
                final(self)@,
                *final(counters),
                next@,
            ),
    {
        let ghost before = self@;
        match (step, reply) {
            (StreamStep::List, StreamReply::Listed(listed)) => match listed {
                Err(error) => StreamStep::Failed {
                    error: OperationError::from_io("verify_streams", path.copied(), &error),
                },
                Ok(streams) => {
                    self.named = named_streams(streams.as_slice());
                    assert(self@ =~= (StreamDigestsView {
                        named: named_of(stream_views(streams@)),
                        ..before
                    }));
                    self.at_stream()
                },
            },
            (StreamStep::Open, StreamReply::Done(done)) => match done {
                Err(error) => StreamStep::Failed {
                    error: OperationError::from_io("verify_open_stream", path.copied(), &error),
                },
                Ok(_) => StreamStep::Read { max: VERIFY_STREAM_BUFFER },
            },
            (StreamStep::Read { .. }, StreamReply::Read(read)) => match read {
                Err(error) => StreamStep::Failed {
                    error: OperationError::from_io("verify_read_stream", path.copied(), &error),
                },
                Ok(bytes) => {
                    if bytes.len() > 0 {
                        self.hasher.update(bytes.as_slice());
                        self.total = self.total.saturating_add(bytes.len() as u64);
                        counters.bytes_verified =
                            counters.bytes_verified.saturating_add(bytes.len() as u64);
                        return StreamStep::Read { max: VERIFY_STREAM_BUFFER };
                    }
                    assert(stream_views(self.named@).len() == self.named.len());
                    let stream = self.named[self.index].copied();
                    if self.total != stream.size {
                        return StreamStep::Failed {
                            error: OperationError::semantic(
                                ErrorCategory::SourceChanged,
                                "verify_read_stream",
                                path.copied(),
                                "named stream size changed during verification".to_owned(),
                            ),
                        };
                    }
                    let digest = self.hasher.finish();
                    place_digest(&mut self.digests, stream, digest);
                    self.hasher = StreamDigest::new();
                    self.total = 0;
                    self.index = self.index + 1;
                    assert(self@ =~= before.closed_stream());
                    self.at_stream()
                },
            },
            (step, _) => step,
        }
    }
}

/// The next operation in reading one file back.
#[derive(Debug, PartialEq, Eq)]
pub enum ObjectStep {
    /// Read the file's metadata.
    Stat,
    /// Digest its unnamed stream.
    DigestFile {
        /// The metadata before.
        before: ObjectMetadata,
    },
    /// Digest its named streams.
    DigestStreams {
        /// The metadata before.
        before: ObjectMetadata,
        /// What was read so far.
        read: DigestedFile,
    },
    /// Read its extended attributes.
    ReadEas {
        /// The metadata before.
        before: ObjectMetadata,
        /// What was read so far.
        read: DigestedFile,
    },
    /// Read its metadata again.
    StatAgain {
        /// The metadata before.
        before: ObjectMetadata,
        /// What was read.
        read: DigestedFile,
    },
    /// The file was read back.
    Finished {
        /// What was read.
        read: DigestedFile,
    },
    /// The file cannot be read back.
    Failed {
        /// Why.
        error: OperationError,
    },
}

/// The next operation, as values.
#[verifier::ext_equal]
pub ghost enum ObjectStepView {
    Stat,
    DigestFile { before: ObjectMetadata },
    DigestStreams { before: ObjectMetadata, read: DigestedView },
    ReadEas { before: ObjectMetadata, read: DigestedView },
    StatAgain { before: ObjectMetadata, read: DigestedView },
    Finished { read: DigestedView },
    Failed { error: ErrorView },
}

impl View for ObjectStep {
    type V = ObjectStepView;

    open spec fn view(&self) -> ObjectStepView {
        match *self {
            ObjectStep::Stat => ObjectStepView::Stat,
            ObjectStep::DigestFile { before } => ObjectStepView::DigestFile { before },
            ObjectStep::DigestStreams { before, read } => ObjectStepView::DigestStreams {
                before,
                read: read@,
            },
            ObjectStep::ReadEas { before, read } => ObjectStepView::ReadEas { before, read: read@ },
            ObjectStep::StatAgain { before, read } => ObjectStepView::StatAgain {
                before,
                read: read@,
            },
            ObjectStep::Finished { read } => ObjectStepView::Finished { read: read@ },
            ObjectStep::Failed { error } => ObjectStepView::Failed { error: error@ },
        }
    }
}

/// What an operation came to.
#[derive(Debug, PartialEq, Eq)]
pub enum ObjectReply {
    /// Metadata that was read.
    Metadata(Result<ObjectMetadata, IoError>),
    /// The size and digest of the unnamed stream.
    Digested(Result<(u64, String), OperationError>),
    /// The digests of the named streams.
    Streams(Result<Vec<(StreamInfo, String)>, OperationError>),
    /// The extended attributes.
    Eas(Result<Vec<u8>, IoError>),
}

/// What an operation came to, as values.
#[verifier::ext_equal]
pub ghost enum ObjectReplyView {
    Metadata(Result<ObjectMetadata, IoError>),
    Digested(Result<(u64, Seq<char>), ErrorView>),
    Streams(Result<Seq<(StreamView, Seq<char>)>, ErrorView>),
    Eas(Result<Seq<u8>, IoError>),
}

impl View for ObjectReply {
    type V = ObjectReplyView;

    open spec fn view(&self) -> ObjectReplyView {
        match *self {
            ObjectReply::Metadata(result) => ObjectReplyView::Metadata(result),
            ObjectReply::Digested(Ok((size, digest))) => ObjectReplyView::Digested(
                Ok((size, digest@)),
            ),
            ObjectReply::Digested(Err(error)) => ObjectReplyView::Digested(Err(error@)),
            ObjectReply::Streams(Ok(digests)) => ObjectReplyView::Streams(
                Ok(digest_views(digests@)),
            ),
            ObjectReply::Streams(Err(error)) => ObjectReplyView::Streams(Err(error@)),
            ObjectReply::Eas(Ok(bytes)) => ObjectReplyView::Eas(Ok(bytes@)),
            ObjectReply::Eas(Err(error)) => ObjectReplyView::Eas(Err(error)),
        }
    }
}

/// Whether a reply answers a step.
pub open spec fn object_answers(step: ObjectStepView, reply: ObjectReplyView) -> bool {
    match step {
        ObjectStepView::Stat => reply is Metadata,
        ObjectStepView::DigestFile { .. } => reply is Digested,
        ObjectStepView::DigestStreams { .. } => reply is Streams,
        ObjectStepView::ReadEas { .. } => reply is Eas,
        ObjectStepView::StatAgain { .. } => reply is Metadata,
        _ => false,
    }
}

/// Whether an object kept its identity, size and last-write time.
pub open spec fn kept_still(before: ObjectMetadata, after: ObjectMetadata) -> bool {
    before.identity == after.identity && before.size == after.size && before.basic.last_write_time
        == after.basic.last_write_time
}

/// The step after the named streams.
pub open spec fn after_streams(
    features: VerificationFeatures,
    before: ObjectMetadata,
    read: DigestedView,
) -> ObjectStepView {
    if features.eas {
        ObjectStepView::ReadEas { before, read }
    } else {
        ObjectStepView::StatAgain { before, read }
    }
}

/// The next step in reading one file back.
pub open spec fn object_next(
    path: Seq<u16>,
    features: VerificationFeatures,
    step: ObjectStepView,
    reply: ObjectReplyView,
) -> ObjectStepView {
    match (step, reply) {
        (ObjectStepView::Stat, ObjectReplyView::Metadata(read)) => match read {
            Err(error) => ObjectStepView::Failed {
                error: read_failure("verify_stat"@, path, error),
            },
            Ok(before) => ObjectStepView::DigestFile { before },
        },
        (ObjectStepView::DigestFile { before }, ObjectReplyView::Digested(digested)) => {
            match digested {
                Err(error) => ObjectStepView::Failed { error },
                Ok((size, digest)) => {
                    let read = DigestedView {
                        size,
                        digest,
                        streams: seq![],
                        ea_digest: digest_text(seq![]),
                    };
                    if features.streams {
                        ObjectStepView::DigestStreams { before, read }
                    } else {
                        after_streams(features, before, read)
                    }
                },
            }
        },
        (ObjectStepView::DigestStreams { before, read }, ObjectReplyView::Streams(digested)) => {
            match digested {
                Err(error) => ObjectStepView::Failed { error },
                Ok(streams) => after_streams(features, before, DigestedView { streams, ..read }),
            }
        },
        (ObjectStepView::ReadEas { before, read }, ObjectReplyView::Eas(eas)) => match eas {
            Err(error) => ObjectStepView::Failed {
                error: read_failure("verify_ea"@, path, error),
            },
            Ok(bytes) => ObjectStepView::StatAgain {
                before,
                read: DigestedView { ea_digest: digest_text(bytes), ..read },
            },
        },
        (ObjectStepView::StatAgain { before, read }, ObjectReplyView::Metadata(observed)) => {
            match observed {
                Err(error) => ObjectStepView::Failed {
                    error: read_failure("verify_revalidate"@, path, error),
                },
                Ok(after) => if kept_still(before, after) {
                    ObjectStepView::Finished { read }
                } else {
                    ObjectStepView::Failed {
                        error: semantic_error_view(
                            ErrorCategory::SourceChanged,
                            "verify_revalidate"@,
                            path,
                            "file identity, size, or last-write time changed during stream verification"@,
                        ),
                    }
                },
            }
        },
        _ => step,
    }
}

fn read_eas_next(
    features: VerificationFeatures,
    before: ObjectMetadata,
    read: DigestedFile,
) -> (step: ObjectStep)
    ensures
        step@ == after_streams(features, before, read@),
{
    if features.eas {
        ObjectStep::ReadEas { before, read }
    } else {
        ObjectStep::StatAgain { before, read }
    }
}

/// Decides the next operation in reading one file back: contents, named
/// streams and extended attributes count only if the file kept still. The
/// first operation is to read the file's metadata.
pub fn digest_file_streams_and_eas(
    path: &WidePath,
    features: VerificationFeatures,
    step: ObjectStep,
    reply: ObjectReply,
) -> (next: ObjectStep)
    requires
        object_answers(step@, reply@),
    ensures
        next@ == object_next(path@, features, step@, reply@),
{
    match (step, reply) {
        (ObjectStep::Stat, ObjectReply::Metadata(read)) => match read {
            Err(error) => ObjectStep::Failed {
                error: OperationError::from_io("verify_stat", path.copied(), &error),
            },
            Ok(before) => ObjectStep::DigestFile { before },
        },
        (ObjectStep::DigestFile { before }, ObjectReply::Digested(digested)) => match digested {
            Err(error) => ObjectStep::Failed { error },
            Ok((size, digest)) => {
                let empty: Vec<u8> = Vec::new();
                assert(empty@ =~= Seq::<u8>::empty());
                let read = DigestedFile {
                    size,
                    digest,
                    streams: Vec::new(),
                    ea_digest: digest_bytes(empty.as_slice()),
                };
                assert(read@.streams =~= seq![]);
                if features.streams {
                    ObjectStep::DigestStreams { before, read }
                } else {
                    read_eas_next(features, before, read)
                }
            },
        },
        (ObjectStep::DigestStreams { before, read }, ObjectReply::Streams(digested)) => {
            match digested {
                Err(error) => ObjectStep::Failed { error },
                Ok(streams) => {
                    let read = DigestedFile {
                        size: read.size,
                        digest: read.digest,
                        streams,
                        ea_digest: read.ea_digest,
                    };
                    read_eas_next(features, before, read)
                },
            }
        },
        (ObjectStep::ReadEas { before, read }, ObjectReply::Eas(eas)) => match eas {
            Err(error) => ObjectStep::Failed {
                error: OperationError::from_io("verify_ea", path.copied(), &error),
            },
            Ok(bytes) => {
                let read = DigestedFile {
                    size: read.size,
                    digest: read.digest,
                    streams: read.streams,
                    ea_digest: digest_bytes(bytes.as_slice()),
                };
                ObjectStep::StatAgain { before, read }
            },
        },
        (ObjectStep::StatAgain { before, read }, ObjectReply::Metadata(observed)) => {
            match observed {
                Err(error) => ObjectStep::Failed {
                    error: OperationError::from_io("verify_revalidate", path.copied(), &error),
                },
                Ok(after) => {
                    if before.identity.same_as(&after.identity) && before.size == after.size
                        && before.basic.last_write_time == after.basic.last_write_time {
                        ObjectStep::Finished { read }
                    } else {
                        ObjectStep::Failed {
                            error: OperationError::semantic(
                                ErrorCategory::SourceChanged,
                                "verify_revalidate",
                                path.copied(),
                                "file identity, size, or last-write time changed during stream verification".to_owned(),
                            ),
                        }
                    }
                },
            }
        },
        (step, _) => step,
    }
}

/// Why the auxiliary data of two objects could not be compared.
#[derive(Debug, PartialEq, Eq)]
pub enum AuxFailure {
    /// The named streams of one could not be digested.
    Streams(OperationError),
    /// The extended attributes of one could not be read.
    Eas(IoError),
}

impl AuxFailure {
    /// The text of the failure.
    pub open spec fn spec_text(self) -> Seq<char> {
        match self {
            AuxFailure::Streams(error) => error.operation@ + " failed for "@ + lossy_text(
                error.path@,
            ) + ": "@ + error.message@,
            AuxFailure::Eas(error) => error.message@,
        }
    }

    /// The text of the failure.
    pub fn to_text(&self) -> (text: String)
        ensures
            text@ == self.spec_text(),
    {
        match self {
            AuxFailure::Streams(error) => error.to_text(),
            AuxFailure::Eas(error) => error.message.clone(),
        }
    }

    /// The failure as an I/O error with the same text.
    pub fn into_io(self) -> (error: IoError)
        ensures
            error.message@ == self.spec_text(),
            self matches AuxFailure::Eas(inner) ==> error == inner,
            self is Streams ==> error.kind is Other && error.code is None,
    {
        match self {
            AuxFailure::Streams(error) => IoError::other(error.to_text().as_str()),
            AuxFailure::Eas(error) => error,
        }
    }
}

/// The next operation in comparing the auxiliary data of two objects.
#[derive(Debug, PartialEq, Eq)]
pub enum AuxStep {
    /// Digest the source's named streams.
    SourceStreams,
    /// Digest the destination's named streams.
    DestinationStreams {
        /// The source's digests.
        source: Vec<(StreamInfo, String)>,
    },
    /// Read the source's extended attributes.
    SourceEas {
        /// Whether the streams are the same.
        same_streams: bool,
    },
    /// Read the destination's extended attributes.
    DestinationEas {
        /// Whether the streams are the same.
        same_streams: bool,
        /// The source's attributes.
        source: Vec<u8>,
    },
    /// The comparison is over.
    Finished {
        /// Whether everything is the same.
        same: bool,
    },
    /// The comparison is not possible.
    Failed {
        /// Why.
        failure: AuxFailure,
    },
}

/// The next operation, as values.
#[verifier::ext_equal]
pub ghost enum AuxStepView {
    SourceStreams,
    DestinationStreams { source: Seq<(StreamView, Seq<char>)> },
    SourceEas { same_streams: bool },
    DestinationEas { same_streams: bool, source: Seq<u8> },
    Finished { same: bool },
    Failed { text: Seq<char> },
}

impl View for AuxStep {
    type V = AuxStepView;

    open spec fn view(&self) -> AuxStepView {
        match *self {
            AuxStep::SourceStreams => AuxStepView::SourceStreams,
            AuxStep::DestinationStreams { source } => AuxStepView::DestinationStreams {
                source: digest_views(source@),
            },
            AuxStep::SourceEas { same_streams } => AuxStepView::SourceEas { same_streams },
            AuxStep::DestinationEas { same_streams, source } => AuxStepView::DestinationEas {
                same_streams,
                source: source@,
            },
            AuxStep::Finished { same } => AuxStepView::Finished { same },
            AuxStep::Failed { failure } => AuxStepView::Failed { text: failure.spec_text() },
        }
    }
}

/// What an operation came to.
#[derive(Debug, PartialEq, Eq)]
pub enum AuxReply {
    /// The digests of named streams.
    Streams(Result<Vec<(StreamInfo, String)>, OperationError>),
    /// Extended attributes.
    Eas(Result<Vec<u8>, IoError>),
}

/// Whether a reply answers a step.
pub open spec fn aux_answers(step: AuxStepView, reply: AuxReply) -> bool {
    match step {
        AuxStepView::SourceStreams => reply is Streams,
        AuxStepView::DestinationStreams { .. } => reply is Streams,
        AuxStepView::SourceEas { .. } => reply is Eas,
        AuxStepView::DestinationEas { .. } => reply is Eas,
        _ => false,
    }
}

/// The step once the named streams are compared.
pub open spec fn aux_eas(
    source: VerificationFeatures,
    destination: VerificationFeatures,
    same_streams: bool,
) -> AuxStepView {
    if destination.eas && source.eas {
        AuxStepView::SourceEas { same_streams }
    } else if destination.eas {
        AuxStepView::DestinationEas { same_streams, source: seq![] }
    } else {
        AuxStepView::Finished { same: same_streams }
    }
}

/// The first step of a comparison. What the destination cannot hold is not
/// compared; what only the destination can hold must be absent there.
pub open spec fn aux_start(
    source: VerificationFeatures,
    destination: VerificationFeatures,
) -> AuxStepView {
    if destination.streams && source.streams {
        AuxStepView::SourceStreams
    } else if destination.streams {
        AuxStepView::DestinationStreams { source: seq![] }
    } else {
        aux_eas(source, destination, true)
    }
}

/// The next step of a comparison.
pub open spec fn aux_next(
    source: VerificationFeatures,
    destination: VerificationFeatures,
    step: AuxStepView,
    reply: AuxReply,
) -> AuxStepView {
    match (step, reply) {
        (AuxStepView::SourceStreams, AuxReply::Streams(digested)) => match digested {
            Err(error) => AuxStepView::Failed { text: AuxFailure::Streams(error).spec_text() },
            Ok(list) => AuxStepView::DestinationStreams { source: digest_views(list@) },
        },
        (AuxStepView::DestinationStreams { source: expected }, AuxReply::Streams(digested)) => {
            match digested {
                Err(error) => AuxStepView::Failed { text: AuxFailure::Streams(error).spec_text() },
                Ok(list) => aux_eas(source, destination, expected == digest_views(list@)),
            }
        },
        (AuxStepView::SourceEas { same_streams }, AuxReply::Eas(read)) => match read {
            Err(error) => AuxStepView::Failed { text: error.message@ },
            Ok(bytes) => AuxStepView::DestinationEas { same_streams, source: bytes@ },
        },
        (AuxStepView::DestinationEas { same_streams, source: expected }, AuxReply::Eas(read)) => {
            match read {
                Err(error) => AuxStepView::Failed { text: error.message@ },
                Ok(bytes) => AuxStepView::Finished { same: same_streams && expected == bytes@ },
            }
        },
        _ => step,
    }
}

fn compare_eas_next(
    source: VerificationFeatures,
    destination: VerificationFeatures,
    same_streams: bool,
) -> (step: AuxStep)
    ensures
        step@ == aux_eas(source, destination, same_streams),
{
    if destination.eas && source.eas {
        AuxStep::SourceEas { same_streams }
    } else if destination.eas {
        let source: Vec<u8> = Vec::new();
        assert(source@ =~= Seq::<u8>::empty());
        AuxStep::DestinationEas { same_streams, source }
    } else {
        AuxStep::Finished { same: same_streams }
    }
}

/// The first operation in comparing the auxiliary data of two objects.
pub fn start_aux(source: VerificationFeatures, destination: VerificationFeatures) -> (step: AuxStep)
    ensures
        step@ == aux_start(source, destination),
{
    if destination.streams && source.streams {
        AuxStep::SourceStreams
    } else if destination.streams {
        let source: Vec<(StreamInfo, String)> = Vec::new();
        assert(digest_views(source@) =~= seq![]);
        AuxStep::DestinationStreams { source }
    } else {
        compare_eas_next(source, destination, true)
    }
}

fn same_bytes(left: &Vec<u8>, right: &Vec<u8>) -> (same: bool)
    ensures
        same == (left@ == right@),
{
    if left.len() != right.len() {
        return false;
    }
    for i in 0..left.len()
        invariant
            left.len() == right.len(),
            forall|j: int| 0 <= j < i ==> left@[j] == right@[j],
    {
        if left[i] != right[i] {
            return false;
        }
    }
    assert(left@ =~= right@);
    true
}

/// Decides the next operation in comparing the auxiliary data of two objects.
pub fn directory_aux_equal(
    source: VerificationFeatures,
    destination: VerificationFeatures,
    step: AuxStep,
    reply: AuxReply,
) -> (next: AuxStep)
    requires
        aux_answers(step@, reply),
    ensures
        next@ == aux_next(source, destination, step@, reply),
{
    match (step, reply) {
        (AuxStep::SourceStreams, AuxReply::Streams(digested)) => match digested {
            Err(error) => AuxStep::Failed { failure: AuxFailure::Streams(error) },
            Ok(list) => AuxStep::DestinationStreams { source: list },
        },
        (AuxStep::DestinationStreams { source: expected }, AuxReply::Streams(digested)) => {
            match digested {
                Err(error) => AuxStep::Failed { failure: AuxFailure::Streams(error) },
                Ok(list) => compare_eas_next(source, destination, same_digests(&expected, &list)),
            }
        },
        (AuxStep::SourceEas { same_streams }, AuxReply::Eas(read)) => match read {
            Err(error) => AuxStep::Failed { failure: AuxFailure::Eas(error) },
            Ok(bytes) => AuxStep::DestinationEas { same_streams, source: bytes },
        },
        (AuxStep::DestinationEas { same_streams, source: expected }, AuxReply::Eas(read)) => {
            match read {
                Err(error) => AuxStep::Failed { failure: AuxFailure::Eas(error) },
                Ok(bytes) => {
                    let same = same_bytes(&expected, &bytes);
                    AuxStep::Finished { same: same_streams && same }
                },
            }
        },
        (step, _) => step,
    }
}

/// A finished digest covers what was read, and the file's size is what was
/// read: while a file is read, content and count stay in step, as long as the
/// count is not full.
pub proof fn digest_covers_what_was_read(
    digest: FileDigestView,
    path: Seq<u16>,
    counters: Counters,
    step: FileStepView,
    reply: FileReplyView,
)
    requires
        file_answers(step, reply),
        digest.content.len() == digest.total,
        digest.total + VERIFY_FILE_BUFFER <= u64::MAX,
        step matches FileStepView::Read { max } ==> max <= VERIFY_FILE_BUFFER,
    ensures
        ({
            let (next, _, then) = digest.after(path, counters, step, reply);
            &&& next.content.len() == next.total
            &&& then matches FileStepView::Finished { size, digest: text } ==> size
                == next.content.len() && text == digest_text(next.content)
        }),
{
}

/// A file that changed while it was read back yields no digest.
pub proof fn moving_file_is_not_judged(
    path: Seq<u16>,
    features: VerificationFeatures,
    before: ObjectMetadata,
    after: ObjectMetadata,
    read: DigestedView,
)
    ensures
        object_next(
            path,
            features,
            ObjectStepView::StatAgain { before, read },
            ObjectReplyView::Metadata(Ok(after)),
        ) is Finished <==> kept_still(before, after),
{
}

/// The digest of a file is that of everything that was read of it, in order. It
/// is told only if the file was found, after that, as the same object with the
/// same size and last-write time as it was opened with, and as long as what was
/// read. Every byte read counts as verified.
pub proof fn digest_is_of_the_file_as_it_was_opened(
    digest: FileDigestView,
    path: Seq<u16>,
    counters: Counters,
    step: FileStepView,
    reply: FileReplyView,
)
    requires
        file_answers(step, reply),
        digest.total + VERIFY_FILE_BUFFER <= u64::MAX,
        counters.bytes_verified + VERIFY_FILE_BUFFER <= u64::MAX,
        step matches FileStepView::Read { max } ==> max <= VERIFY_FILE_BUFFER,
    ensures
        ({
            let (next, after, then) = digest.after(path, counters, step, reply);
            let bytes = match reply {
                FileReplyView::Read(Ok(bytes)) => bytes,
                _ => seq![],
            };
            &&& next.content == digest.content + bytes
            &&& next.total == digest.total + bytes.len()
            &&& after.bytes_verified == counters.bytes_verified + bytes.len()
            &&& step is Open ==> (reply matches FileReplyView::Metadata(Ok(seen)) ==> next.opened
                == Some(seen))
            &&& !(step is Open) ==> next.opened == digest.opened
            &&& step is Read && bytes.len() > 0 ==> then is Read
            &&& then is Finished <==> step is Revalidate && (digest.opened matches Some(opened) && (
            reply matches FileReplyView::Metadata(Ok(seen)) && {
                &&& seen.identity == opened.identity
                &&& seen.size == opened.size
                &&& seen.basic.last_write_time == opened.basic.last_write_time
                &&& seen.size == digest.total
            }))
            &&& then matches FileStepView::Finished { size, digest: text } ==> size == digest.total
                && text == digest_text(digest.content)
        }),
{
    if !(reply matches FileReplyView::Read(Ok(_))) {
        assert(digest.content + seq![] =~= digest.content);
    } else if let FileReplyView::Read(Ok(bytes)) = reply {
        if bytes.len() == 0 {
            assert(digest.content + bytes =~= digest.content);
        }
    }
}

/// Each named stream gets the digest of everything that was read of it, and only
/// if that is as long as the stream was listed; the next one starts empty.
pub proof fn named_stream_is_digested_whole(
    digests: StreamDigestsView,
    path: Seq<u16>,
    counters: Counters,
    step: StreamStepView,
    reply: StreamReplyView,
)
    requires
        digests.answered_by(step, reply),
        digests.total + reply_length(reply) <= u64::MAX,
        counters.bytes_verified + reply_length(reply) <= u64::MAX,
    ensures
        ({
            let (next, after, then) = digests.after(path, counters, step, reply);
            let ended = step is Read && (reply matches StreamReplyView::Read(Ok(bytes))
                && bytes.len() == 0);
            let whole = digests.total == digests.named[digests.index].size;
            &&& reply matches StreamReplyView::Read(Ok(bytes)) ==> bytes.len() > 0 ==> next.content
                == digests.content + bytes && next.total == digests.total + bytes.len()
                && after.bytes_verified == counters.bytes_verified + bytes.len()
            &&& ended && whole ==> {
                &&& next.index == digests.index + 1
                &&& next.content.len() == 0 && next.total == 0
                &&& next.digests == placed(
                    digests.digests,
                    (digests.named[digests.index], digest_text(digests.content)),
                )
                &&& then is Open <==> next.index < next.named.len()
                &&& then is Finished <==> next.index >= next.named.len()
            }
            &&& ended && !whole ==> then is Failed
            &&& !ended ==> next.digests == digests.digests
            &&& then matches StreamStepView::Finished { digests: told } ==> told == next.digests
            &&& step is List && (reply matches StreamReplyView::Listed(Ok(listed)) && next.named
                == named_of(listed)) || step is List && then is Failed || !(step is List)
        }),
{
}

/// How many bytes a reply carries.
pub open spec fn reply_length(reply: StreamReplyView) -> nat {
    match reply {
        StreamReplyView::Read(Ok(bytes)) => bytes.len(),
        _ => 0,
    }
}

/// How far reading back one object came after a list of replies.
pub open spec fn reading_back(
    path: Seq<u16>,
    features: VerificationFeatures,
    replies: Seq<ObjectReplyView>,
) -> ObjectStepView
    decreases replies.len(),
{
    if replies.len() == 0 {
        ObjectStepView::Stat
    } else {
        object_next(
            path,
            features,
            reading_back(path, features, replies.drop_last()),
            replies.last(),
        )
    }
}

/// Whether every reply answers the operation that was asked for.
pub open spec fn reading_back_is_answered(
    path: Seq<u16>,
    features: VerificationFeatures,
    replies: Seq<ObjectReplyView>,
) -> bool
    decreases replies.len(),
{
    replies.len() > 0 ==> {
        &&& reading_back_is_answered(path, features, replies.drop_last())
        &&& object_answers(
            reading_back(path, features, replies.drop_last()),
            replies.last(),
        )
    }
}

/// What is told of an object is what was read of it: its digest and size, the
/// digests of its named streams and of its extended attributes wherever both
/// sides can have them, and only if the object stood still from before the first
/// read until after the last.
pub proof fn object_is_told_as_it_was_read(
    path: Seq<u16>,
    features: VerificationFeatures,
    replies: Seq<ObjectReplyView>,
)
    requires
        reading_back_is_answered(path, features, replies),
    ensures
        ({
            let step = reading_back(path, features, replies);
            let n = replies.len() as int;
            &&& step is Stat ==> n == 0
            &&& step matches ObjectStepView::DigestFile { before } ==> n == 1 && replies[0]
                == ObjectReplyView::Metadata(Ok(before))
            &&& step matches ObjectStepView::DigestStreams { before, read } ==> n == 2
                && features.streams && replies[0] == ObjectReplyView::Metadata(Ok(before))
                && replies[1] == ObjectReplyView::Digested(Ok((read.size, read.digest)))
                && read.ea_digest == digest_text(seq![])
            &&& step matches ObjectStepView::ReadEas { before, read } ==> features.eas && replies[0]
                == ObjectReplyView::Metadata(Ok(before)) && read_whole(features, replies, read)
                && read.ea_digest == digest_text(seq![]) && n == if features.streams {
                3int
            } else {
                2
            }
            &&& step matches ObjectStepView::StatAgain { before, read } ==> replies[0]
                == ObjectReplyView::Metadata(Ok(before)) && read_whole(features, replies, read) && (
            features.eas ==> (replies[n - 1] matches ObjectReplyView::Eas(Ok(eas))
                && read.ea_digest == digest_text(eas))) && (!features.eas ==> read.ea_digest
                == digest_text(seq![]))
            &&& step matches ObjectStepView::Finished { read } ==> {
                &&& read_whole(features, replies, read)
                &&& features.eas ==> (replies[n - 2] matches ObjectReplyView::Eas(Ok(eas))
                    && read.ea_digest == digest_text(eas))
                &&& !features.eas ==> read.ea_digest == digest_text(seq![])
                &&& replies[0] matches ObjectReplyView::Metadata(Ok(before)) && (replies[n - 1]
                    matches ObjectReplyView::Metadata(Ok(after)) && {
                    &&& before.identity == after.identity
                    &&& before.size == after.size
                    &&& before.basic.last_write_time == after.basic.last_write_time
                })
            }
        }),
    decreases replies.len(),
{
    if replies.len() > 0 {
        let front = replies.drop_last();
        object_is_told_as_it_was_read(path, features, front);
        assert forall|i: int| 0 <= i < front.len() implies front[i] == replies[i] by {}
        assert(replies.last() == replies[replies.len() - 1]);
    }
}

/// Whether size, digest and named streams are those that were read.
pub open spec fn read_whole(
    features: VerificationFeatures,
    replies: Seq<ObjectReplyView>,
    read: DigestedView,
) -> bool {
    &&& replies.len() >= 2
    &&& replies[1] == ObjectReplyView::Digested(Ok((read.size, read.digest)))
    &&& features.streams ==> replies.len() >= 3 && replies[2] == ObjectReplyView::Streams(
        Ok(read.streams),
    )
    &&& !features.streams ==> read.streams.len() == 0
}

/// How far comparing streams and extended attributes came after a list of
/// replies.
pub open spec fn comparing_aux(
    source: VerificationFeatures,
    destination: VerificationFeatures,
    replies: Seq<AuxReply>,
) -> AuxStepView
    decreases replies.len(),
{
    if replies.len() == 0 {
        aux_start(source, destination)
    } else {
        aux_next(
            source,
            destination,
            comparing_aux(source, destination, replies.drop_last()),
            replies.last(),
        )
    }
}

/// Whether every reply answers the operation that was asked for.
pub open spec fn comparing_aux_is_answered(
    source: VerificationFeatures,
    destination: VerificationFeatures,
    replies: Seq<AuxReply>,
) -> bool
    decreases replies.len(),
{
    replies.len() > 0 ==> {
        &&& comparing_aux_is_answered(source, destination, replies.drop_last())
        &&& aux_answers(
            comparing_aux(source, destination, replies.drop_last()),
            replies.last(),
        )
    }
}

/// Whether the streams of two sides are the same, as they were read: those of
/// the destination and, where the source can have some, those of the source
/// before them.
pub open spec fn streams_agree(
    source: VerificationFeatures,
    destination: VerificationFeatures,
    replies: Seq<AuxReply>,
) -> bool {
    destination.streams ==> if source.streams {
        digest_views(replies[0]->Streams_0->Ok_0@) == digest_views(replies[1]->Streams_0->Ok_0@)
    } else {
        digest_views(replies[0]->Streams_0->Ok_0@).len() == 0
    }
}

/// Two objects have the same streams and extended attributes exactly if, of each
/// that the destination can hold, both sides show the same, and the destination
/// none where the source can have none.
pub proof fn auxiliary_data_is_the_same_in_every_part(
    source: VerificationFeatures,
    destination: VerificationFeatures,
    replies: Seq<AuxReply>,
)
    requires
        comparing_aux_is_answered(source, destination, replies),
    ensures
        ({
            let step = comparing_aux(source, destination, replies);
            let n = replies.len() as int;
            let listed: int = if destination.streams && source.streams {
                2
            } else if destination.streams {
                1
            } else {
                0
            };
            let read: int = if destination.eas && source.eas {
                2
            } else if destination.eas {
                1
            } else {
                0
            };
            &&& step is SourceStreams ==> n == 0 && listed == 2
            &&& step matches AuxStepView::DestinationStreams { source: expected } ==> n == listed
                - 1 && listed > 0 && (listed == 2 ==> expected == digest_views(
                replies[0]->Streams_0->Ok_0@,
            )) && (listed == 1 ==> expected.len() == 0)
            &&& step matches AuxStepView::SourceEas { same_streams } ==> n == listed && read == 2
                && same_streams == streams_agree(source, destination, replies)
            &&& step matches AuxStepView::DestinationEas { same_streams, source: expected } ==> n
                == listed + read - 1 && read > 0 && same_streams == streams_agree(
                source,
                destination,
                replies,
            ) && (read == 2 ==> expected == replies[listed]->Eas_0->Ok_0@) && (read == 1
                ==> expected.len() == 0)
            &&& step matches AuxStepView::Finished { same } ==> n == listed + read && (same
                <==> streams_agree(source, destination, replies) && (read == 2
                ==> replies[listed]->Eas_0->Ok_0@ == replies[listed + 1]->Eas_0->Ok_0@) && (read
                == 1 ==> replies[listed]->Eas_0->Ok_0@.len() == 0))
        }),
    decreases replies.len(),
{
    if replies.len() > 0 {
        let front = replies.drop_last();
        auxiliary_data_is_the_same_in_every_part(source, destination, front);
        assert forall|i: int| 0 <= i < front.len() implies front[i] == replies[i] by {}
        assert(replies.last() == replies[replies.len() - 1]);
        match (comparing_aux(source, destination, front), replies.last()) {
            (
                AuxStepView::DestinationStreams { source: expected },
                AuxReply::Streams(Ok(list)),
            ) => {
                if expected.len() == 0 && digest_views(list@).len() == 0 {
                    assert(expected =~= digest_views(list@));
                }
            },
            (
                AuxStepView::DestinationEas { source: expected, .. },
                AuxReply::Eas(Ok(bytes)),
            ) => {
                if expected.len() == 0 && bytes@.len() == 0 {
                    assert(expected =~= bytes@);
                }
            },
            _ => {},
        }
    }
}

} // verus!
