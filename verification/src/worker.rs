//! Scheduling of independent file transfers on a bounded set of workers.
//!
//! Scheduling and accounting stay with the coordinator. Workers own immutable
//! snapshots and distinct destination paths and return only a typed result.

use vstd::prelude::*;
use vstd::string::*;

use crate::engine::{EngineRequest, EngineSettings};
use crate::error::{
    semantic_error_view, BigcpError, ErrorCategory, IoError, OperationError,
};
use crate::file::ReplacementWork;
use crate::model::EntrySnapshot;
use crate::path::WidePath;
use crate::platform::{BasicMetadata, FileIdentity, StreamInfo};

verus! {

/// Jobs that one worker's queue holds: enough for a large directory.
pub const PER_WORKER_QUEUE: usize = 1024;

/// The largest number of workers.
pub const MAX_WORKERS: usize = 256;

/// Files gathered into one phased batch at most. The byte budget bounds the
/// payload; this bounds the open source handles.
pub const SAME_SPINDLE_BATCH_FILES: usize = 4096;

/// From this many files on a batch is worth a sweep.
pub const SAME_SPINDLE_GATHER_FLOOR_FILES: usize = 64;

/// Milliseconds to wait while a batch is below the floor.
pub const SAME_SPINDLE_GATHER_PATIENT: u64 = 50;

/// Milliseconds to wait once a batch is worth a sweep.
pub const SAME_SPINDLE_GATHER_QUICK: u64 = 2;

/// The number of workers, at least one.
pub open spec fn at_least_one(worker_count: usize) -> usize {
    if worker_count == 0 {
        1
    } else {
        worker_count
    }
}

/// The number of workers, at least one.
pub fn worker_count_floor(worker_count: usize) -> (count: usize)
    ensures
        count == at_least_one(worker_count),
{
    if worker_count == 0 {
        1
    } else {
        worker_count
    }
}

/// Maps a shard to a worker's queue. The mapping is stable, so that the files
/// of one directory are created by one worker.
pub fn route_shard(shard: usize, worker_count: usize) -> (index: usize)
    ensures
        index == shard % at_least_one(worker_count),
        index < at_least_one(worker_count),
{
    shard % worker_count_floor(worker_count)
}

/// How long a batch waits for another file, in milliseconds: patiently while
/// it has both few files and a small payload, quickly otherwise.
pub fn same_spindle_gather_timeout(
    batch_files: usize,
    batch_bytes: usize,
    burst_bytes: usize,
) -> (milliseconds: u64)
    ensures
        milliseconds == (if batch_files < SAME_SPINDLE_GATHER_FLOOR_FILES && batch_bytes
            < burst_bytes / 8 {
            SAME_SPINDLE_GATHER_PATIENT
        } else {
            SAME_SPINDLE_GATHER_QUICK
        }),
{
    if batch_files < SAME_SPINDLE_GATHER_FLOOR_FILES && batch_bytes < burst_bytes / 8 {
        SAME_SPINDLE_GATHER_PATIENT
    } else {
        SAME_SPINDLE_GATHER_QUICK
    }
}

/// A transfer with everything a worker needs.
#[derive(Clone, Debug, PartialEq, Eq)]
pub struct FileCopyJob {
    /// Absolute source path.
    pub source_path: WidePath,
    /// Absolute final destination path.
    pub destination_path: WidePath,
    /// The identity of the destination's parent, where files can be created
    /// relative to it.
    pub relative_destination_parent: Option<FileIdentity>,
    /// The source at enumeration.
    pub source_snapshot: EntrySnapshot,
    /// The destination at enumeration.
    pub destination_snapshot: Option<EntrySnapshot>,
    /// The replacement decision.
    pub replacement: Option<ReplacementWork>,
    /// Source metadata projected to the destination.
    pub destination_metadata: BasicMetadata,
    /// The streams, where they are known.
    pub streams: Option<Vec<StreamInfo>>,
    /// Best-known logical bytes.
    pub logical_bytes: u64,
    /// From this stream size on the file is handed back before any write.
    pub promote_threshold: Option<u64>,
    /// Whether the files of one directory go to one worker.
    pub directory_affine: bool,
}

impl FileCopyJob {
    /// What the engine is asked to do for this job. A worker keeps no sparse
    /// layout.
    pub fn request<'a>(&'a self, settings: &'a EngineSettings) -> (request: EngineRequest<'a>)
        ensures
            *request.source_path == self.source_path,
            *request.destination_path == self.destination_path,
            request.rel() == self.source_snapshot.relative_path@,
            *request.source_snapshot == self.source_snapshot,
            match request.replacement_snapshot {
                Some(snapshot) => self.destination_snapshot == Some(*snapshot),
                None => self.destination_snapshot is None,
            },
            *request.settings == *settings,
            !request.preserve_sparse,
            request.destination_metadata == self.destination_metadata,
            request.promote_threshold == self.promote_threshold,
            match request.known_streams {
                Some(list) => self.streams matches Some(streams) && list@ == streams@,
                None => self.streams is None,
            },
    {
        EngineRequest {
            source_path: &self.source_path,
            destination_path: &self.destination_path,
            relative_path: &self.source_snapshot.relative_path,
            source_snapshot: &self.source_snapshot,
            replacement_snapshot: match &self.destination_snapshot {
                Some(snapshot) => Some(snapshot),
                None => None,
            },
            settings,
            preserve_sparse: false,
            destination_metadata: self.destination_metadata,
            promote_threshold: self.promote_threshold,
            known_streams: match &self.streams {
                Some(streams) => Some(streams.as_slice()),
                None => None,
            },
        }
    }
}

/// The failure of a worker that panicked: the coordinator waits for a
/// completion in any case.
pub fn worker_panic_error(relative_path: &WidePath) -> (failure: OperationError)
    ensures
        failure@ == semantic_error_view(
            ErrorCategory::Internal,
            "worker_panic"@,
            relative_path@,
            "worker thread panicked during copy; this is a bigcp bug \u{2014} please file the log"@,
        ),
{
    OperationError::semantic(
        ErrorCategory::Internal,
        "worker_panic",
        relative_path.copied(),
        "worker thread panicked during copy; this is a bigcp bug \u{2014} please file the log".to_owned(),
    )
}

/// What an offer to a worker's queue came to.
#[derive(Clone, Copy, Debug, PartialEq, Eq, Structural)]
pub enum SendReply {
    /// The queue took the job.
    Sent,
    /// The queue is full.
    Full,
    /// The worker is gone.
    Disconnected,
}

/// What waiting for a completion came to.
#[derive(Clone, Copy, Debug, PartialEq, Eq, Structural)]
pub enum ReceiveReply {
    /// A completion arrived.
    Completed,
    /// None arrived in time.
    Timeout,
    /// Every worker is gone.
    Disconnected,
}

/// How a completion is waited for.
#[derive(Clone, Copy, Debug, PartialEq, Eq, Structural)]
pub enum ReceivePlan {
    /// No worker was ever started, so none can arrive: sleep.
    Sleep,
    /// Wait at the result queue.
    Wait,
}

/// A bounded set of workers. Its threads start with the first job, so that a
/// run without any costs nothing.
#[derive(Clone, Copy, Debug, PartialEq, Eq, Structural)]
pub struct FileWorkers {
    /// The number of workers.
    pub worker_count: usize,
    /// The byte budget of phased batches, where there is one.
    pub same_spindle_burst_bytes: Option<usize>,
    /// Started workers, each with its queue.
    pub started: usize,
    /// Whether the result queue exists.
    pub receiving: bool,
    /// Jobs that may be submitted and not accounted.
    pub capacity: usize,
    /// Whether the pool was stopped.
    pub stopped: bool,
}

impl FileWorkers {
    /// Whether the pool keeps to its bounds.
    pub open spec fn wf(self) -> bool {
        &&& 1 <= self.worker_count <= MAX_WORKERS
        &&& self.capacity == self.worker_count * PER_WORKER_QUEUE
        &&& self.started <= self.worker_count
        &&& self.same_spindle_burst_bytes is Some ==> self.worker_count == 1
    }

    /// Prepares a pool. Phased batches need exactly one worker.
    pub fn new(worker_count: usize, same_spindle_burst_bytes: Option<usize>) -> (pool: Result<
        Self,
        BigcpError,
    >)
        ensures
            if worker_count < 1 || worker_count > MAX_WORKERS {
                pool matches Err(BigcpError::Invalid(text)) && text@
                    == "file worker count must be in 1..=256"@
            } else if same_spindle_burst_bytes is Some && worker_count != 1 {
                pool matches Err(BigcpError::Invariant(text)) && text@
                    == "same-spindle small-file scheduling requires exactly one phased worker"@
            } else {
                pool == Ok::<Self, BigcpError>(
                    (FileWorkers {
                        worker_count,
                        same_spindle_burst_bytes,
                        started: 0,
                        receiving: false,
                        capacity: (worker_count * PER_WORKER_QUEUE) as usize,
                        stopped: false,
                    }),
                ) && pool->Ok_0.wf()
            },
    {
        if worker_count < 1 || worker_count > MAX_WORKERS {
            return Err(BigcpError::Invalid("file worker count must be in 1..=256".to_owned()));
        }
        if same_spindle_burst_bytes.is_some() && worker_count != 1 {
            return Err(
                BigcpError::Invariant(
                    "same-spindle small-file scheduling requires exactly one phased worker".to_owned(),
                ),
            );
        }
        let capacity: usize = worker_count * PER_WORKER_QUEUE;
        Ok(
            FileWorkers {
                worker_count,
                same_spindle_burst_bytes,
                started: 0,
                receiving: false,
                capacity,
                stopped: false,
            },
        )
    }

    /// The number of workers that are to be started now: all of them before the
    /// first job, none later.
    pub fn ensure_spawned(&mut self) -> (starting: Result<usize, BigcpError>)
        requires
            old(self).wf(),
        ensures
            final(self).wf(),
            if old(self).started > 0 {
                starting == Ok::<usize, BigcpError>(0) && *final(self) == *old(self)
            } else if old(self).stopped {
                (starting matches Err(BigcpError::Invariant(text)) && text@
                    == "file workers already stopped"@) && *final(self) == *old(self)
            } else {
                starting == Ok::<usize, BigcpError>(old(self).worker_count) && *final(self) == (
                FileWorkers { receiving: true, ..*old(self) })
            },
    {
        if self.started > 0 {
            return Ok(0);
        }
        if self.stopped {
            return Err(BigcpError::Invariant("file workers already stopped".to_owned()));
        }
        self.receiving = true;
        Ok(self.worker_count)
    }

    /// Notes what the start of one worker came to.
    pub fn note_started(&mut self, outcome: Result<(), IoError>) -> (noted: Result<(), BigcpError>)
        requires
            old(self).wf(),
            old(self).started < old(self).worker_count,
        ensures
            final(self).wf(),
            match outcome {
                Ok(_) => noted is Ok && *final(self) == (FileWorkers {
                    started: (old(self).started + 1) as usize,
                    ..*old(self)
                }),
                Err(error) => (noted matches Err(BigcpError::Io { context, source }) && context@
                    == "start file worker"@ && source == error) && *final(self) == *old(self),
            },
    {
        match outcome {
            Ok(_) => {
                self.started = self.started + 1;
                Ok(())
            },
            Err(error) => Err(BigcpError::io("start file worker", error)),
        }
    }

    /// Jobs that may be submitted and not accounted.
    pub fn capacity(&self) -> (capacity: usize)
        ensures
            capacity == self.capacity,
    {
        self.capacity
    }

    /// The queue for a shard.
    pub fn queue_for(&self, shard: usize) -> (queue: Result<usize, BigcpError>)
        ensures
            if self.started > 0 {
                queue == Ok::<usize, BigcpError>(shard % self.started)
            } else {
                queue matches Err(BigcpError::Invariant(text)) && text@
                    == "file workers already stopped"@
            },
    {
        let index: usize = route_shard(shard, self.started);
        if index < self.started {
            Ok(index)
        } else {
            Err(BigcpError::Invariant("file workers already stopped".to_owned()))
        }
    }

    /// Whether the queue took the job; a full queue gives it back.
    pub fn try_submit(reply: SendReply) -> (sent: Result<bool, BigcpError>)
        ensures
            match reply {
                SendReply::Sent => sent == Ok::<bool, BigcpError>(true),
                SendReply::Full => sent == Ok::<bool, BigcpError>(false),
                SendReply::Disconnected => sent matches Err(BigcpError::Invariant(text)) && text@
                    == "file-worker queue disconnected"@,
            },
    {
        match reply {
            SendReply::Sent => Ok(true),
            SendReply::Full => Ok(false),
            SendReply::Disconnected => Err(
                BigcpError::Invariant("file-worker queue disconnected".to_owned()),
            ),
        }
    }

    /// How a completion is waited for.
    pub fn receive_plan(&self) -> (plan: Result<ReceivePlan, BigcpError>)
        ensures
            if self.stopped {
                plan matches Err(BigcpError::Invariant(text)) && text@
                    == "file workers already stopped"@
            } else if self.receiving {
                plan == Ok::<ReceivePlan, BigcpError>(ReceivePlan::Wait)
            } else {
                plan == Ok::<ReceivePlan, BigcpError>(ReceivePlan::Sleep)
            },
    {
        if self.stopped {
            Err(BigcpError::Invariant("file workers already stopped".to_owned()))
        } else if self.receiving {
            Ok(ReceivePlan::Wait)
        } else {
            Ok(ReceivePlan::Sleep)
        }
    }

    /// Whether a completion arrived. A timeout is no failure.
    pub fn receive_timeout(reply: ReceiveReply) -> (received: Result<bool, BigcpError>)
        ensures
            match reply {
                ReceiveReply::Completed => received == Ok::<bool, BigcpError>(true),
                ReceiveReply::Timeout => received == Ok::<bool, BigcpError>(false),
                ReceiveReply::Disconnected => received matches Err(BigcpError::Invariant(text))
                    && text@ == "file-worker result queue disconnected"@,
            },
    {
        match reply {
            ReceiveReply::Completed => Ok(true),
            ReceiveReply::Timeout => Ok(false),
            ReceiveReply::Disconnected => Err(
                BigcpError::Invariant("file-worker result queue disconnected".to_owned()),
            ),
        }
    }

    /// Stops the pool: every queue is closed.
    pub fn stop(&mut self)
        requires
            old(self).wf(),
        ensures
            final(self).wf(),
            *final(self) == (FileWorkers {
                stopped: true,
                started: 0,
                receiving: false,
                ..*old(self)
            }),
    {
        self.stopped = true;
        self.started = 0;
        self.receiving = false;
    }
}

/// Whether one completion is to be accounted before another job is submitted.
pub fn must_drain(outstanding: u64, capacity: usize) -> (drain: bool)
    ensures
        drain == (outstanding >= capacity),
{
    outstanding >= capacity as u64
}

/// The shard of a job: by its directory where the files of a directory go to
/// one worker, in turn otherwise.
pub fn choose_shard(directory_affine: bool, directory_hash: u64, next_independent: &mut usize) -> (shard:
    usize)
    ensures
        if directory_affine {
            shard == (if directory_hash <= usize::MAX {
                directory_hash as usize
            } else {
                usize::MAX
            }) && *final(next_independent) == *old(next_independent)
        } else {
            shard == *old(next_independent) && *final(next_independent) == (if *old(
                next_independent,
            ) == usize::MAX {
                0
            } else {
                (*old(next_independent) + 1) as usize
            })
        },
{
    if directory_affine {
        if directory_hash <= usize::MAX as u64 {
            directory_hash as usize
        } else {
            usize::MAX
        }
    } else {
        let shard: usize = *next_independent;
        *next_independent = shard.wrapping_add(1);
        shard
    }
}

/// The handle of the directory in which the last file was created, as far as
/// the decision to reuse it goes.
#[derive(Clone, Debug, PartialEq, Eq)]
pub struct RelativeParentCache {
    /// The directory and its expected identity.
    pub key: Option<(WidePath, FileIdentity)>,
    /// Whether it could be opened.
    pub available: bool,
}

/// The cached directory as values.
#[verifier::ext_equal]
pub ghost struct CacheView {
    pub key: Option<(Seq<u16>, FileIdentity)>,
    pub available: bool,
}

impl View for RelativeParentCache {
    type V = CacheView;

    open spec fn view(&self) -> CacheView {
        CacheView {
            key: match self.key {
                Some((path, identity)) => Some((path@, identity)),
                None => None,
            },
            available: self.available,
        }
    }
}

/// How the parent directory of the next file is come by.
#[derive(Clone, Copy, Debug, PartialEq, Eq, Structural)]
pub enum ParentStep {
    /// There is none: the file is created by its full path.
    Absent,
    /// The one at hand.
    Reuse,
    /// It is to be opened.
    Open,
}

impl CacheView {
    /// An empty cache.
    pub open spec fn empty() -> CacheView {
        CacheView { key: None, available: false }
    }

    /// The cache after a file was looked up, and how its parent is come by.
    pub open spec fn looked_up(
        self,
        parent: Option<Seq<u16>>,
        expected: Option<FileIdentity>,
    ) -> (CacheView, ParentStep) {
        match (parent, expected) {
            (Some(parent), Some(expected)) => if self.key == Some((parent, expected)) {
                (
                    self,
                    if self.available {
                        ParentStep::Reuse
                    } else {
                        ParentStep::Absent
                    },
                )
            } else {
                (
                    CacheView { key: Some((parent, expected)), available: false },
                    ParentStep::Open,
                )
            },
            _ => (CacheView::empty(), ParentStep::Absent),
        }
    }
}

impl Default for RelativeParentCache {
    fn default() -> (cache: Self)
        ensures
            cache@ == CacheView::empty(),
    {
        RelativeParentCache { key: None, available: false }
    }
}

impl RelativeParentCache {
    /// Decides how the parent of a destination is come by. A directory that
    /// could not be opened is not tried again.
    pub fn for_destination(
        &mut self,
        parent: Option<&WidePath>,
        expected: Option<FileIdentity>,
    ) -> (step: ParentStep)
        ensures
            old(self)@.looked_up(
                match parent {
                    Some(parent) => Some(parent@),
                    None => None,
                },
                expected,
            ) == (final(self)@, step),
    {
        match (parent, expected) {
            (Some(parent), Some(expected)) => {
                let current = match &self.key {
                    Some((path, identity)) => path.same_as(parent) && identity.same_as(&expected),
                    None => false,
                };
                if current {
                    if self.available {
                        ParentStep::Reuse
                    } else {
                        ParentStep::Absent
                    }
                } else {
                    self.key = Some((parent.copied(), expected));
                    self.available = false;
                    ParentStep::Open
                }
            },
            _ => {
                self.key = None;
                self.available = false;
                ParentStep::Absent
            },
        }
    }

    /// Notes whether the directory could be opened.
    pub fn opened(&mut self, available: bool)
        ensures
            final(self)@ == (CacheView { available, ..old(self)@ }),
    {
        self.available = available;
    }
}

/// Files gathered for one phased batch.
#[derive(Clone, Copy, Debug, PartialEq, Eq, Structural)]
pub struct Gather {
    /// Files so far.
    pub files: usize,
    /// Their payload so far.
    pub estimated: usize,
    /// The byte budget.
    pub burst_bytes: usize,
}

/// A size in memory, or the largest one.
pub open spec fn in_memory(bytes: u64) -> usize {
    if bytes <= usize::MAX {
        bytes as usize
    } else {
        usize::MAX
    }
}

/// A payload with one more file, or the largest one.
pub open spec fn payload(estimated: usize, next_bytes: u64) -> usize {
    if estimated + in_memory(next_bytes) <= usize::MAX {
        (estimated + in_memory(next_bytes)) as usize
    } else {
        usize::MAX
    }
}

fn memory_size(bytes: u64) -> (size: usize)
    ensures
        size == in_memory(bytes),
{
    if bytes <= usize::MAX as u64 {
        bytes as usize
    } else {
        usize::MAX
    }
}

impl Gather {
    /// Whether the batch keeps to its bounds: a single file may exceed the
    /// budget, a group may not.
    pub open spec fn wf(self) -> bool {
        &&& 1 <= self.files <= SAME_SPINDLE_BATCH_FILES
        &&& self.files > 1 ==> self.estimated <= self.burst_bytes
    }

    /// Whether another file is waited for.
    pub open spec fn is_open(self) -> bool {
        self.files < SAME_SPINDLE_BATCH_FILES && self.estimated < self.burst_bytes
    }

    /// Starts a batch with one file.
    pub fn start(first_bytes: u64, burst_bytes: usize) -> (gather: Gather)
        ensures
            gather.wf(),
            gather == (Gather { files: 1, estimated: in_memory(first_bytes), burst_bytes }),
    {
        Gather { files: 1, estimated: memory_size(first_bytes), burst_bytes }
    }

    /// The milliseconds to wait for another file, if one is waited for.
    pub fn wait(&self) -> (milliseconds: Option<u64>)
        ensures
            milliseconds is Some <==> self.is_open(),
            milliseconds matches Some(value) ==> value == (if self.files
                < SAME_SPINDLE_GATHER_FLOOR_FILES && self.estimated < self.burst_bytes / 8 {
                SAME_SPINDLE_GATHER_PATIENT
            } else {
                SAME_SPINDLE_GATHER_QUICK
            }),
    {
        if self.files < SAME_SPINDLE_BATCH_FILES && self.estimated < self.burst_bytes {
            Some(same_spindle_gather_timeout(self.files, self.estimated, self.burst_bytes))
        } else {
            None
        }
    }

    /// Whether one more file joins the batch. One that does not fit starts the
    /// next batch.
    pub fn offer(&mut self, next_bytes: u64) -> (joins: bool)
        requires
            old(self).wf(),
            old(self).is_open(),
        ensures
            final(self).wf(),
            joins == (payload(old(self).estimated, next_bytes) <= old(self).burst_bytes),
            *final(self) == (if joins {
                Gather {
                    files: (old(self).files + 1) as usize,
                    estimated: payload(old(self).estimated, next_bytes),
                    ..*old(self)
                }
            } else {
                *old(self)
            }),
    {
        let total: usize = self.estimated.saturating_add(memory_size(next_bytes));
        if total > self.burst_bytes {
            return false;
        }
        self.estimated = total;
        self.files = self.files + 1;
        true
    }
}

/// Where a phased batch stands.
#[derive(Clone, Copy, Debug, PartialEq, Eq, Structural)]
pub enum BatchPhase {
    /// Sources are read.
    Preparing,
    /// Destinations are written.
    Writing,
    /// Sources are checked again.
    Finishing,
    /// Files with streams or attributes are copied in full.
    Executing,
    /// The batch is over.
    Ended,
}

/// The next operation of a phased batch, on a job by its index.
#[derive(Clone, Copy, Debug, PartialEq, Eq, Structural)]
pub enum BatchStep {
    /// Read the source of a job.
    Prepare(usize),
    /// Write the destination of a prepared job.
    Write(usize),
    /// Check the source of a written job again and report it.
    Finish(usize),
    /// Copy a job that needs the full engine and report it.
    Execute(usize),
    /// The batch is over.
    Done {
        /// Whether every job was reported.
        complete: bool,
    },
}

/// What an operation came to.
#[derive(Clone, Copy, Debug, PartialEq, Eq, Structural)]
pub enum BatchReply {
    /// The job is prepared.
    Ready,
    /// The job needs the full engine.
    RequiresRegular,
    /// The job is written.
    Written,
    /// The job ended and was reported.
    Completed {
        /// Whether the coordinator took the report.
        sent: bool,
    },
}

/// A phased batch: all reads, then all writes, then all checks, so that the
/// heads of one spindle move between source and destination once per phase.
pub struct BatchRun {
    total: usize,
    next: usize,
    phase: BatchPhase,
    prepared: Vec<usize>,
    written: Vec<usize>,
    regular: Vec<usize>,
    reported: Vec<usize>,
}

/// A phased batch as values.
#[verifier::ext_equal]
pub ghost struct BatchView {
    pub total: int,
    pub next: int,
    pub phase: BatchPhase,
    pub prepared: Seq<usize>,
    pub written: Seq<usize>,
    pub regular: Seq<usize>,
    pub reported: Seq<usize>,
}

impl View for BatchRun {
    type V = BatchView;

    closed spec fn view(&self) -> BatchView {
        BatchView {
            total: self.total as int,
            next: self.next as int,
            phase: self.phase,
            prepared: self.prepared@,
            written: self.written@,
            regular: self.regular@,
            reported: self.reported@,
        }
    }
}

impl BatchView {
    /// A batch of `total` jobs before its first one.
    pub open spec fn start(total: int) -> BatchView {
        BatchView {
            total,
            next: 0,
            phase: BatchPhase::Preparing,
            prepared: seq![],
            written: seq![],
            regular: seq![],
            reported: seq![],
        }
    }

    /// Whether a job is at hand while the batch goes on.
    pub open spec fn wf(self) -> bool {
        &&& 0 <= self.next
        &&& 0 <= self.total <= usize::MAX
        &&& match self.phase {
            BatchPhase::Preparing => self.next < self.total,
            BatchPhase::Writing => self.next < self.prepared.len(),
            BatchPhase::Finishing => self.next < self.written.len(),
            BatchPhase::Executing => self.next < self.regular.len(),
            BatchPhase::Ended => true,
        }
    }

    /// Whether a reply answers the last step.
    pub open spec fn answered_by(self, reply: BatchReply) -> bool {
        match self.phase {
            BatchPhase::Preparing => !(reply is Written),
            BatchPhase::Writing => reply is Written || reply is Completed,
            BatchPhase::Finishing => reply is Completed,
            BatchPhase::Executing => reply is Completed,
            BatchPhase::Ended => false,
        }
    }

    /// The batch over.
    pub open spec fn ended(self, complete: bool) -> (BatchView, BatchStep) {
        (BatchView { phase: BatchPhase::Ended, ..self }, BatchStep::Done { complete })
    }

    /// At the next job that needs the full engine.
    pub open spec fn executing(self) -> (BatchView, BatchStep) {
        if self.next < self.regular.len() {
            (
                BatchView { phase: BatchPhase::Executing, ..self },
                BatchStep::Execute(self.regular[self.next]),
            )
        } else {
            self.ended(true)
        }
    }

    /// At the next job that is to be checked.
    pub open spec fn finishing(self) -> (BatchView, BatchStep) {
        if self.next < self.written.len() {
            (
                BatchView { phase: BatchPhase::Finishing, ..self },
                BatchStep::Finish(self.written[self.next]),
            )
        } else {
            (BatchView { next: 0, ..self }).executing()
        }
    }

    /// At the next job that is to be written.
    pub open spec fn writing(self) -> (BatchView, BatchStep) {
        if self.next < self.prepared.len() {
            (
                BatchView { phase: BatchPhase::Writing, ..self },
                BatchStep::Write(self.prepared[self.next]),
            )
        } else {
            (BatchView { next: 0, ..self }).finishing()
        }
    }

    /// At the next job that is to be read.
    pub open spec fn preparing(self) -> (BatchView, BatchStep) {
        if self.next < self.total {
            (
                BatchView { phase: BatchPhase::Preparing, ..self },
                BatchStep::Prepare(self.next as usize),
            )
        } else {
            (BatchView { next: 0, ..self }).writing()
        }
    }

    /// At the next job of the current phase, or of a later one.
    pub open spec fn going_on(self) -> (BatchView, BatchStep) {
        let next = BatchView { next: self.next + 1, ..self };
        match self.phase {
            BatchPhase::Preparing => next.preparing(),
            BatchPhase::Writing => next.writing(),
            BatchPhase::Finishing => next.finishing(),
            BatchPhase::Executing => next.executing(),
            BatchPhase::Ended => self.ended(true),
        }
    }

    /// The index of the job at hand.
    pub open spec fn job(self) -> usize {
        match self.phase {
            BatchPhase::Preparing => self.next as usize,
            BatchPhase::Writing => self.prepared[self.next],
            BatchPhase::Finishing => self.written[self.next],
            _ => self.regular[self.next],
        }
    }

    /// The batch after a reply, and what it does next.
    pub open spec fn after(self, reply: BatchReply) -> (BatchView, BatchStep) {
        match reply {
            BatchReply::Ready => (BatchView {
                prepared: self.prepared.push(self.job()),
                ..self
            }).going_on(),
            BatchReply::RequiresRegular => (BatchView {
                regular: self.regular.push(self.job()),
                ..self
            }).going_on(),
            BatchReply::Written => (BatchView {
                written: self.written.push(self.job()),
                ..self
            }).going_on(),
            BatchReply::Completed { sent } => if sent {
                (BatchView { reported: self.reported.push(self.job()), ..self }).going_on()
            } else {
                self.ended(false)
            },
        }
    }

    /// Every job of the batch: reported, waiting in the lists, or not looked
    /// at yet.
    pub open spec fn jobs(self) -> vstd::multiset::Multiset<usize> {
        let from = |list: Seq<usize>, phase: BatchPhase|
            if self.phase == phase {
                list.skip(self.next).to_multiset()
            } else {
                list.to_multiset()
            };
        let rest = if self.phase is Preparing {
            indexes(self.next, self.total).to_multiset()
        } else {
            vstd::multiset::Multiset::empty()
        };
        let ahead = if self.phase is Preparing || self.phase is Writing {
            from(self.prepared, BatchPhase::Writing)
        } else {
            vstd::multiset::Multiset::empty()
        };
        let behind = if self.phase is Preparing || self.phase is Writing || self.phase
            is Finishing {
            from(self.written, BatchPhase::Finishing)
        } else {
            vstd::multiset::Multiset::empty()
        };
        let regular = if self.phase is Ended {
            vstd::multiset::Multiset::empty()
        } else {
            from(self.regular, BatchPhase::Executing)
        };
        self.reported.to_multiset().add(rest).add(ahead).add(behind).add(regular)
    }
}

/// The indexes from one to another.
pub open spec fn indexes(from: int, to: int) -> Seq<usize> {
    Seq::new((to - from) as nat, |i: int| (from + i) as usize)
}

impl BatchRun {
    fn settle_executing(&mut self) -> (step: BatchStep)
        requires
            0 <= old(self)@.next,
            0 <= old(self)@.total <= usize::MAX,
        ensures
            old(self)@.executing() == (final(self)@, step),
            final(self)@.wf(),
    {
        if self.next < self.regular.len() {
            self.phase = BatchPhase::Executing;
            BatchStep::Execute(self.regular[self.next])
        } else {
            self.phase = BatchPhase::Ended;
            BatchStep::Done { complete: true }
        }
    }

    fn settle_finishing(&mut self) -> (step: BatchStep)
        requires
            0 <= old(self)@.next,
            0 <= old(self)@.total <= usize::MAX,
        ensures
            old(self)@.finishing() == (final(self)@, step),
            final(self)@.wf(),
    {
        if self.next < self.written.len() {
            self.phase = BatchPhase::Finishing;
            BatchStep::Finish(self.written[self.next])
        } else {
            self.next = 0;
            self.settle_executing()
        }
    }

    fn settle_writing(&mut self) -> (step: BatchStep)
        requires
            0 <= old(self)@.next,
            0 <= old(self)@.total <= usize::MAX,
        ensures
            old(self)@.writing() == (final(self)@, step),
            final(self)@.wf(),
    {
        if self.next < self.prepared.len() {
            self.phase = BatchPhase::Writing;
            BatchStep::Write(self.prepared[self.next])
        } else {
            self.next = 0;
            self.settle_finishing()
        }
    }

    fn settle_preparing(&mut self) -> (step: BatchStep)
        requires
            0 <= old(self)@.next,
            0 <= old(self)@.total <= usize::MAX,
        ensures
            old(self)@.preparing() == (final(self)@, step),
            final(self)@.wf(),
    {
        if self.next < self.total {
            self.phase = BatchPhase::Preparing;
            BatchStep::Prepare(self.next)
        } else {
            self.next = 0;
            self.settle_writing()
        }
    }

    /// Starts a batch of `total` jobs.
    pub fn start(total: usize) -> (started: (BatchRun, BatchStep))
        ensures
            started.0@.wf(),
            (started.0@, started.1) == BatchView::start(total as int).preparing(),
    {
        let mut run = BatchRun {
            total,
            next: 0,
            phase: BatchPhase::Preparing,
            prepared: Vec::new(),
            written: Vec::new(),
            regular: Vec::new(),
            reported: Vec::new(),
        };
        assert(run@ =~= BatchView::start(total as int));
        let step = run.settle_preparing();
        (run, step)
    }

    fn go_on(&mut self) -> (step: BatchStep)
        requires
            old(self)@.wf(),
        ensures
            old(self)@.going_on() == (final(self)@, step),
            final(self)@.wf(),
    {
        match self.phase {
            BatchPhase::Preparing => {
                self.next = self.next + 1;
                self.settle_preparing()
            },
            BatchPhase::Writing => {
                assert(self.next < self.prepared.len());
                self.next = self.next + 1;
                self.settle_writing()
            },
            BatchPhase::Finishing => {
                assert(self.next < self.written.len());
                self.next = self.next + 1;
                self.settle_finishing()
            },
            BatchPhase::Executing => {
                assert(self.next < self.regular.len());
                self.next = self.next + 1;
                self.settle_executing()
            },
            BatchPhase::Ended => BatchStep::Done { complete: true },
        }
    }

    fn current(&self) -> (job: usize)
        requires
            self@.wf(),
            !(self@.phase is Ended),
        ensures
            job == self@.job(),
    {
        match self.phase {
            BatchPhase::Preparing => self.next,
            BatchPhase::Writing => self.prepared[self.next],
            BatchPhase::Finishing => self.written[self.next],
            _ => self.regular[self.next],
        }
    }

    /// Decides the next operation of a phased batch.
    pub fn run_same_spindle_batch(&mut self, reply: BatchReply) -> (next: BatchStep)
        requires
            old(self)@.wf(),
            old(self)@.answered_by(reply),
        ensures
            old(self)@.after(reply) == (final(self)@, next),
            final(self)@.wf(),
    {
        let job: usize = self.current();
        let ghost before = self@;
        match reply {
            BatchReply::Ready => {
                self.prepared.push(job);
                assert(self@ =~= (BatchView { prepared: before.prepared.push(job), ..before }));
                self.go_on()
            },
            BatchReply::RequiresRegular => {
                self.regular.push(job);
                assert(self@ =~= (BatchView { regular: before.regular.push(job), ..before }));
                self.go_on()
            },
            BatchReply::Written => {
                self.written.push(job);
                assert(self@ =~= (BatchView { written: before.written.push(job), ..before }));
                self.go_on()
            },
            BatchReply::Completed { sent } => {
                if sent {
                    self.reported.push(job);
                    assert(self@ =~= (BatchView { reported: before.reported.push(job), ..before }));
                    self.go_on()
                } else {
                    self.phase = BatchPhase::Ended;
                    BatchStep::Done { complete: false }
                }
            },
        }
    }
}

/// The same shard always goes to the same worker.
pub proof fn directories_stay_with_one_worker(pool: FileWorkers, shard: usize)
    requires
        pool.wf(),
        pool.started > 0,
    ensures
        shard % pool.started < pool.started <= pool.worker_count <= MAX_WORKERS,
        pool.started == 1 ==> shard % pool.started == 0,
{
}

/// A directory that could not be opened is not tried again for the next file
/// in it, and one that could is reused.
pub proof fn parents_are_opened_once(cache: CacheView, parent: Seq<u16>, expected: FileIdentity, available: bool)
    ensures
        ({
            let looked = cache.looked_up(Some(parent), Some(expected)).0;
            let opened = CacheView { available, ..looked };
            opened.looked_up(Some(parent), Some(expected)) == (
                opened,
                if available {
                    ParentStep::Reuse
                } else {
                    ParentStep::Absent
                },
            )
        }),
{
}

proof fn lemma_skip_one(list: Seq<usize>, at: int)
    requires
        0 <= at < list.len(),
    ensures
        list.skip(at).to_multiset() == list.skip(at + 1).to_multiset().insert(list[at]),
{
    let rest = list.skip(at + 1);
    vstd::seq_lib::to_multiset_insert(rest, 0, list[at]);
    assert(rest.insert(0, list[at]) =~= list.skip(at));
}

proof fn lemma_push_one(list: Seq<usize>, item: usize)
    ensures
        list.push(item).to_multiset() == list.to_multiset().insert(item),
{
    vstd::seq_lib::to_multiset_insert(list, list.len() as int, item);
    assert(list.insert(list.len() as int, item) =~= list.push(item));
}

proof fn lemma_exhausted(list: Seq<usize>)
    ensures
        list.skip(0).to_multiset() == list.to_multiset(),
        list.skip(list.len() as int).to_multiset() == vstd::multiset::Multiset::<usize>::empty(),
{
    assert(list.skip(0) =~= list);
    assert(list.skip(list.len() as int) =~= Seq::<usize>::empty());
    Seq::<usize>::empty().to_multiset_ensures();
    assert(Seq::<usize>::empty().to_multiset() =~= vstd::multiset::Multiset::<usize>::empty());
}

proof fn lemma_next_index(from: int, to: int)
    requires
        0 <= from < to <= usize::MAX,
    ensures
        indexes(from, to).to_multiset() == indexes(from + 1, to).to_multiset().insert(
            from as usize,
        ),
{
    assert(indexes(from, to).skip(1) =~= indexes(from + 1, to));
    lemma_skip_one(indexes(from, to), 0);
    lemma_exhausted(indexes(from, to));
}

/// No job is lost and none is reported twice: as long as the coordinator takes
/// the reports, the jobs of a batch stay the same, reported or still ahead.
#[verifier::rlimit(60)]
#[verifier::spinoff_prover]
pub proof fn every_job_is_reported_once(batch: BatchView, reply: BatchReply)
    requires
        batch.wf(),
        batch.answered_by(reply),
        reply != (BatchReply::Completed { sent: false }),
        batch.phase is Preparing ==> batch.written.len() == 0,
    ensures
        batch.after(reply).0.jobs() == batch.jobs(),
        batch.after(reply).1 matches BatchStep::Done { complete } ==> complete && batch.after(
            reply,
        ).0.reported.to_multiset() == batch.jobs(),
        batch.after(reply).0.phase is Preparing ==> batch.after(reply).0.written.len() == 0,
{
    let next = batch.after(reply).0;
    let job = batch.job();
    match reply {
        BatchReply::Ready => {
            lemma_push_one(batch.prepared, job);
        },
        BatchReply::RequiresRegular => {
            lemma_push_one(batch.regular, job);
        },
        BatchReply::Written => {
            lemma_push_one(batch.written, job);
        },
        BatchReply::Completed { .. } => {
            lemma_push_one(batch.reported, job);
        },
    }
    match batch.phase {
        BatchPhase::Preparing => {
            lemma_next_index(batch.next, batch.total);
            lemma_exhausted(indexes(batch.next + 1, batch.total));
            assert(indexes(batch.total, batch.total) =~= Seq::<usize>::empty());
        },
        BatchPhase::Writing => {
            lemma_skip_one(batch.prepared, batch.next);
        },
        BatchPhase::Finishing => {
            lemma_skip_one(batch.written, batch.next);
        },
        BatchPhase::Executing => {
            lemma_skip_one(batch.regular, batch.next);
        },
        BatchPhase::Ended => {},
    }
    lemma_exhausted(next.prepared);
    lemma_exhausted(next.written);
    lemma_exhausted(next.regular);
    lemma_exhausted(Seq::<usize>::empty());
    assert(next.jobs() =~= batch.jobs());
    if next.phase is Ended {
        assert(next.jobs() =~= next.reported.to_multiset());
    }
}

/// The phases of a batch never go back: no source is read after the first
/// destination was written.
pub proof fn phases_never_go_back(batch: BatchView, reply: BatchReply)
    requires
        batch.wf(),
        batch.answered_by(reply),
    ensures
        ({
            let next = batch.after(reply).0.phase;
            &&& batch.phase is Writing ==> !(next is Preparing)
            &&& batch.phase is Finishing ==> !(next is Preparing) && !(next is Writing)
            &&& batch.phase is Executing ==> next is Executing || next is Ended
        }),
{
}

/// Every step of a batch names a job of its own part: one not looked at yet, one
/// that is read, one that is written, or one that needs the regular way.
pub proof fn batch_names_jobs_of_its_part(batch: BatchView, reply: BatchReply)
    requires
        batch.wf(),
        batch.answered_by(reply),
    ensures
        ({
            let (next, step) = batch.after(reply);
            &&& step matches BatchStep::Prepare(job) ==> job == next.next && job < batch.total
                && batch.phase is Preparing && job == batch.next + 1
            &&& step matches BatchStep::Write(job) ==> 0 <= next.next < next.prepared.len() && job
                == next.prepared[next.next]
            &&& step matches BatchStep::Finish(job) ==> 0 <= next.next < next.written.len() && job
                == next.written[next.next]
            &&& step matches BatchStep::Execute(job) ==> 0 <= next.next < next.regular.len() && job
                == next.regular[next.next]
            &&& step == (BatchStep::Done { complete: false }) <==> reply == (BatchReply::Completed {
                sent: false,
            })
            &&& reply is Ready ==> next.prepared == batch.prepared.push(batch.next as usize)
                || !(batch.phase is Preparing)
            &&& reply is Written && batch.phase is Writing ==> next.written == batch.written.push(
                batch.prepared[batch.next],
            )
        }),
{
}

/// A cached parent is used again only for the same directory with the same
/// identity, and only if it could be opened.
pub proof fn cached_parent_is_the_expected_one(
    cache: CacheView,
    parent: Option<Seq<u16>>,
    expected: Option<FileIdentity>,
)
    ensures
        ({
            let (next, step) = cache.looked_up(parent, expected);
            let same = parent is Some && expected is Some && cache.key is Some && (cache.key->0).0
                == parent->0 && (cache.key->0).1 == expected->0;
            &&& step is Reuse <==> same && cache.available
            &&& step is Open <==> parent is Some && expected is Some && !same
            &&& step is Open ==> next.key == Some((parent->0, expected->0)) && !next.available
        }),
{
}

} // verus!
