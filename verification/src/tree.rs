//! The order in which directories are entered and left, and the stop of a run
//! by its user or by the breaker.

use vstd::prelude::*;
use vstd::string::*;

use crate::audit::{warning, warning_view};
use crate::error::{
    category_of, io_error_view, semantic_error_view, ErrorCategory, IoError, OperationError,
};
use crate::ledger::{Ledger, LedgerView, Notice, NoticeView, BREAKER_THRESHOLD};
use crate::model::{sat, Counters, RunState};
use crate::options::RunRules;
use crate::path::{child_of, WidePath};
use crate::platform::{ObjectKind, ObjectMetadata};
use crate::revalidate::{destination_access_error, destination_access_view};
use crate::table::{lemma_position, lemma_position_is, position};
use crate::text::{decimal, push_decimal};
use crate::walk::{ChildDirectory, DirectoryJoin, JoinView, KeyedEntry};

verus! {

/// The name of a category in messages.
pub open spec fn spec_category_name(category: ErrorCategory) -> Seq<char> {
    match category {
        ErrorCategory::Permissions => "Permissions"@,
        ErrorCategory::Locked => "Locked"@,
        ErrorCategory::Path => "Path"@,
        ErrorCategory::Space => "Space"@,
        ErrorCategory::Media => "Media"@,
        ErrorCategory::DeviceGone => "DeviceGone"@,
        ErrorCategory::FsLimit => "FsLimit"@,
        ErrorCategory::SourceChanged => "SourceChanged"@,
        ErrorCategory::DestinationChanged => "DestinationChanged"@,
        ErrorCategory::UnsupportedReparse => "UnsupportedReparse"@,
        ErrorCategory::ParentDirFailed => "ParentDirFailed"@,
        ErrorCategory::TypeConflict => "TypeConflict"@,
        ErrorCategory::Cloud => "Cloud"@,
        ErrorCategory::Internal => "Internal"@,
    }
}

/// The name of a category in messages.
pub fn category_name(category: ErrorCategory) -> (name: &'static str)
    ensures
        name@ == spec_category_name(category),
{
    match category {
        ErrorCategory::Permissions => "Permissions",
        ErrorCategory::Locked => "Locked",
        ErrorCategory::Path => "Path",
        ErrorCategory::Space => "Space",
        ErrorCategory::Media => "Media",
        ErrorCategory::DeviceGone => "DeviceGone",
        ErrorCategory::FsLimit => "FsLimit",
        ErrorCategory::SourceChanged => "SourceChanged",
        ErrorCategory::DestinationChanged => "DestinationChanged",
        ErrorCategory::UnsupportedReparse => "UnsupportedReparse",
        ErrorCategory::ParentDirFailed => "ParentDirFailed",
        ErrorCategory::TypeConflict => "TypeConflict",
        ErrorCategory::Cloud => "Cloud",
        ErrorCategory::Internal => "Internal",
    }
}

/// What the log says of a tripped breaker.
pub open spec fn breaker_text(category: ErrorCategory) -> Seq<char> {
    decimal(BREAKER_THRESHOLD as nat) + " consecutive "@ + spec_category_name(category)
        + "-class failures; no further objects will be attempted (exit 4, rerun resumes)"@
}

impl LedgerView {
    /// After asking the user whether to stop.
    pub open spec fn after_cancellation_check(self, requested: bool) -> LedgerView {
        let flagged = LedgerView { worker_cancel: self.worker_cancel || requested, ..self };
        if !self.canceled && requested {
            (LedgerView { canceled: true, ..flagged }).told(
                "cancellation requested: no new directories will be dispatched"@,
            ).noticed(NoticeView::Publish(RunState::Canceling)).emitted(
                warning_view("canceled"@, None, "user requested a graceful stop"@),
            )
        } else {
            flagged
        }
    }

    /// After the breaker, if it tripped, was announced once.
    pub open spec fn after_breaker_check(self) -> LedgerView {
        match self.breaker {
            Some(category) => if self.breaker_announced {
                self
            } else {
                (LedgerView { breaker_announced: true, ..self }).told(
                    "stopping early: repeated device or disk-space failures tripped the breaker; resolve the cause and re-run to resume"@,
                ).noticed(NoticeView::Publish(RunState::Canceling)).emitted(
                    warning_view("breaker"@, None, breaker_text(category)),
                )
            },
            None => self,
        }
    }

    /// Whether no further directory is entered.
    pub open spec fn stopping(self) -> bool {
        self.canceled || self.breaker is Some
    }
}

impl Ledger {
    /// Takes note of the user's wish to stop.
    pub fn observe_cancellation(&mut self, requested: bool)
        ensures
            final(self)@ == old(self)@.after_cancellation_check(requested),
    {
        if requested {
            self.worker_cancel = true;
        }
        if !self.canceled && requested {
            self.canceled = true;
            assert(self@ =~= (LedgerView { canceled: true, worker_cancel: true, ..old(self)@ }));
            self.tell("cancellation requested: no new directories will be dispatched");
            self.notice(Notice::Publish(RunState::Canceling));
            self.emit(warning("canceled", None, "user requested a graceful stop"));
        }
        assert(self@ =~= old(self)@.after_cancellation_check(requested));
    }

    /// Announces a tripped breaker once.
    pub fn announce_breaker(&mut self)
        ensures
            final(self)@ == old(self)@.after_breaker_check(),
    {
        if let Some(category) = self.breaker {
            if !self.breaker_announced {
                self.breaker_announced = true;
                assert(self@ =~= (LedgerView { breaker_announced: true, ..old(self)@ }));
                self.tell(
                    "stopping early: repeated device or disk-space failures tripped the breaker; resolve the cause and re-run to resume",
                );
                self.notice(Notice::Publish(RunState::Canceling));
                let mut message = String::new();
                push_decimal(&mut message, BREAKER_THRESHOLD as u64);
                message.append(" consecutive ");
                message.append(category_name(category));
                message.append(
                    "-class failures; no further objects will be attempted (exit 4, rerun resumes)",
                );
                assert(message@ =~= breaker_text(category));
                self.emit(warning("breaker", None, message.as_str()));
            }
        }
    }
}

/// Jobs in flight, by the directory that waits for them.
#[derive(Clone, Debug, PartialEq, Eq)]
pub struct Outstanding {
    /// Jobs per parent directory; no count is zero.
    pub by_directory: Vec<(WidePath, u64)>,
    /// All jobs.
    pub total: u64,
}

impl View for Outstanding {
    type V = Seq<(Seq<u16>, u64)>;

    open spec fn view(&self) -> Seq<(Seq<u16>, u64)> {
        self.by_directory@.map_values(|item: (WidePath, u64)| (item.0@, item.1))
    }
}

/// The sum of all counts.
pub open spec fn count_sum(list: Seq<(Seq<u16>, u64)>) -> int
    decreases list.len(),
{
    if list.len() == 0 {
        0
    } else {
        count_sum(list.drop_last()) + list.last().1
    }
}

/// The counts after one more job of a directory.
pub open spec fn job_added(list: Seq<(Seq<u16>, u64)>, directory: Seq<u16>) -> Seq<
    (Seq<u16>, u64),
> {
    let at = position(list, directory);
    if at < list.len() {
        list.update(at, (directory, sat(list[at].1, 1)))
    } else {
        list.push((directory, 1))
    }
}

/// The counts after one completed job of a directory.
pub open spec fn job_removed(list: Seq<(Seq<u16>, u64)>, directory: Seq<u16>) -> Seq<
    (Seq<u16>, u64),
> {
    let at = position(list, directory);
    if at >= list.len() {
        list
    } else if list[at].1 <= 1 {
        list.remove(at)
    } else {
        list.update(at, (directory, (list[at].1 - 1) as u64))
    }
}

impl Outstanding {
    /// No job in flight.
    pub fn new() -> (outstanding: Outstanding)
        ensures
            outstanding@ == Seq::<(Seq<u16>, u64)>::empty(),
            outstanding.total == 0,
    {
        let outstanding = Outstanding { by_directory: Vec::new(), total: 0 };
        assert(outstanding@ =~= Seq::<(Seq<u16>, u64)>::empty());
        outstanding
    }

    fn find(&self, directory: &WidePath) -> (at: usize)
        ensures
            at == position(self@, directory@),
            at <= self.by_directory.len(),
    {
        let mut at: usize = 0;
        while at < self.by_directory.len() && !self.by_directory[at].0.same_as(directory)
            invariant
                at <= self.by_directory.len(),
                self@.len() == self.by_directory.len(),
                forall|i: int| 0 <= i < at ==> (#[trigger] self@[i]).0 != directory@,
            decreases self.by_directory.len() - at,
        {
            assert(self@[at as int].0 == self.by_directory@[at as int].0@);
            at += 1;
        }
        proof {
            if at < self.by_directory.len() {
                assert(self@[at as int].0 == self.by_directory@[at as int].0@);
            }
            lemma_position_is(self@, directory@, at as int);
        }
        at
    }

    /// Whether a directory waits for a job.
    pub fn is_busy(&self, directory: &WidePath) -> (busy: bool)
        ensures
            busy == (position(self@, directory@) < self@.len()),
    {
        self.find(directory) < self.by_directory.len()
    }

    /// Notes one submitted job.
    pub fn submitted(&mut self, directory: &WidePath)
        ensures
            final(self)@ == job_added(old(self)@, directory@),
            final(self).total == sat(old(self).total, 1),
    {
        let at: usize = self.find(directory);
        let ghost before = self@;
        self.total = self.total.saturating_add(1);
        if at < self.by_directory.len() {
            assert(before[at as int].1 == self.by_directory@[at as int].1);
            let count: u64 = self.by_directory[at].1;
            self.by_directory.set(at, (directory.copied(), count.saturating_add(1)));
        } else {
            self.by_directory.push((directory.copied(), 1));
        }
        assert(self@ =~= job_added(before, directory@));
    }

    /// Notes one completed job.
    pub fn completed(&mut self, directory: &WidePath)
        ensures
            final(self)@ == job_removed(old(self)@, directory@),
            final(self).total == (if old(self).total == 0 {
                0
            } else {
                (old(self).total - 1) as u64
            }),
    {
        let at: usize = self.find(directory);
        let ghost before = self@;
        self.total = self.total.saturating_sub(1);
        if at < self.by_directory.len() {
            assert(before[at as int].1 == self.by_directory@[at as int].1);
            let count: u64 = self.by_directory[at].1;
            if count <= 1 {
                let _ = self.by_directory.remove(at);
            } else {
                self.by_directory.set(at, (directory.copied(), count - 1));
            }
        }
        assert(self@ =~= job_removed(before, directory@));
    }
}

/// One visit of a directory: on the way in, or on the way out.
#[derive(Clone, Debug, PartialEq, Eq)]
pub struct DirectoryTask {
    /// Whether the directory is left rather than entered.
    pub leaving: bool,
    /// Absolute source path.
    pub source: WidePath,
    /// Absolute destination path.
    pub destination: WidePath,
    /// Path relative to the source root.
    pub relative: WidePath,
    /// Source metadata at enumeration.
    pub source_metadata: ObjectMetadata,
    /// Whether the destination directory exists.
    pub destination_exists: bool,
    /// Destination metadata, where it was read.
    pub destination_metadata: Option<ObjectMetadata>,
}

/// A visit as values.
#[verifier::ext_equal]
pub ghost struct TaskView {
    pub leaving: bool,
    pub source: Seq<u16>,
    pub destination: Seq<u16>,
    pub relative: Seq<u16>,
    pub source_metadata: ObjectMetadata,
    pub destination_exists: bool,
    pub destination_metadata: Option<ObjectMetadata>,
}

impl View for DirectoryTask {
    type V = TaskView;

    open spec fn view(&self) -> TaskView {
        TaskView {
            leaving: self.leaving,
            source: self.source@,
            destination: self.destination@,
            relative: self.relative@,
            source_metadata: self.source_metadata,
            destination_exists: self.destination_exists,
            destination_metadata: self.destination_metadata,
        }
    }
}

/// The next thing to do in the walk.
#[derive(Clone, Debug, PartialEq, Eq)]
pub enum TreeStep {
    /// Every directory was entered and left.
    Finished,
    /// The directory was accounted without being entered.
    Skipped,
    /// Enter the directory.
    Enter(DirectoryTask),
    /// A directory still waits for its jobs: account one completed job.
    DrainOne,
    /// Leave the directory.
    Leave(DirectoryTask),
}

/// The next thing to do, as values.
#[verifier::ext_equal]
pub ghost enum StepView {
    Finished,
    Skipped,
    Enter(TaskView),
    DrainOne,
    Leave(TaskView),
}

impl View for TreeStep {
    type V = StepView;

    open spec fn view(&self) -> StepView {
        match *self {
            TreeStep::Finished => StepView::Finished,
            TreeStep::Skipped => StepView::Skipped,
            TreeStep::Enter(task) => StepView::Enter(task@),
            TreeStep::DrainOne => StepView::DrainOne,
            TreeStep::Leave(task) => StepView::Leave(task@),
        }
    }
}

/// The visits still to be made; the last one comes next.
#[derive(Clone, Debug, PartialEq, Eq)]
pub struct TaskQueue {
    /// The visits.
    pub tasks: Vec<DirectoryTask>,
}

impl View for TaskQueue {
    type V = Seq<TaskView>;

    open spec fn view(&self) -> Seq<TaskView> {
        self.tasks@.map_values(|task: DirectoryTask| task@)
    }
}

/// The visits, the accounts and the decision after taking the next visit.
pub open spec fn tree_step(
    tasks: Seq<TaskView>,
    ledger: LedgerView,
    outstanding: Seq<(Seq<u16>, u64)>,
    requested: bool,
) -> (Seq<TaskView>, LedgerView, StepView) {
    if tasks.len() == 0 {
        (tasks, ledger, StepView::Finished)
    } else {
        let task = tasks.last();
        let rest = tasks.drop_last();
        let checked = ledger.after_cancellation_check(requested).after_breaker_check();
        if !task.leaving {
            if checked.stopping() {
                (rest, checked.with_stopped_directory(task.relative), StepView::Skipped)
            } else {
                (rest, checked, StepView::Enter(task))
            }
        } else if position(outstanding, task.relative) < outstanding.len() && rest.len() > 0 {
            (seq![task] + rest, checked, StepView::DrainOne)
        } else {
            (rest, checked, StepView::Leave(task))
        }
    }
}

impl TaskQueue {
    /// A queue with one visit.
    pub fn starting_with(task: DirectoryTask) -> (queue: TaskQueue)
        ensures
            queue@ == seq![task@],
    {
        let mut tasks: Vec<DirectoryTask> = Vec::new();
        tasks.push(task);
        let queue = TaskQueue { tasks };
        assert(queue@ =~= seq![task@]);
        queue
    }

    /// Adds the visit that comes next.
    pub fn push(&mut self, task: DirectoryTask)
        ensures
            final(self)@ == old(self)@.push(task@),
    {
        self.tasks.push(task);
        assert(self@ =~= old(self)@.push(task@));
    }

    /// Takes the next visit and decides what is to be done. A directory that
    /// still waits for its jobs goes to the end of the queue, so that its
    /// siblings keep the workers busy.
    pub fn copy_tree(
        &mut self,
        ledger: &mut Ledger,
        outstanding: &Outstanding,
        requested: bool,
    ) -> (step: TreeStep)
        ensures
            tree_step(old(self)@, old(ledger)@, outstanding@, requested) == (
                final(self)@,
                final(ledger)@,
                step@,
            ),
    {
        let ghost before = self@;
        let task = match self.tasks.pop() {
            None => {
                assert(before.len() == 0);
                return TreeStep::Finished;
            },
            Some(task) => task,
        };
        assert(before.last() == task@);
        assert(self@ =~= before.drop_last());
        ledger.observe_cancellation(requested);
        ledger.announce_breaker();
        if !task.leaving {
            if ledger.canceled || ledger.breaker.is_some() {
                ledger.record_stopped_directory(&task.relative);
                TreeStep::Skipped
            } else {
                TreeStep::Enter(task)
            }
        } else if outstanding.is_busy(&task.relative) && self.tasks.len() > 0 {
            let ghost rest = self@;
            let ghost view = task@;
            self.tasks.insert(0, task);
            assert(self@ =~= seq![view] + rest);
            TreeStep::DrainOne
        } else {
            TreeStep::Leave(task)
        }
    }
}

/// What opening a directory came to.
#[derive(Debug, PartialEq, Eq)]
pub enum OpenedDirectory {
    /// The source could not be enumerated.
    SourceFailed,
    /// The destination could not be paired: the source entries are to be
    /// accounted as not attempted.
    DestinationFailed,
    /// The entries are to be paired.
    Joined(DirectoryJoin),
}

impl LedgerView {
    /// With one more directory entered.
    pub open spec fn entering(self) -> LedgerView {
        self.counting(
            Counters {
                dirs_discovered: sat(self.counters.dirs_discovered, 1),
                ..self.counters
            },
        )
    }

    /// With the entered directory failed.
    pub open spec fn entry_failed(self, operation: Seq<char>, rel: Seq<u16>, error: IoError) -> LedgerView {
        self.counting(
            Counters { dirs_failed: sat(self.counters.dirs_failed, 1), ..self.counters },
        ).errored(io_error_view(category_of(error), operation, rel, error))
    }
}

/// Opens a directory from what its enumerations came to. `source` is the
/// failure of the source enumeration, if it failed; `destination` holds the
/// destination's entries, none where the directory does not exist yet.
pub fn enter_directory(
    ledger: &mut Ledger,
    relative: &WidePath,
    source: Option<IoError>,
    destination: Result<Vec<KeyedEntry>, IoError>,
) -> (opened: OpenedDirectory)
    ensures
        ({
            let entered = old(ledger)@.entering();
            match source {
                Some(error) => opened is SourceFailed && final(ledger)@ == entered.entry_failed(
                    "enumerate_src"@,
                    relative@,
                    error,
                ),
                None => match destination {
                    Err(error) => opened is DestinationFailed && final(ledger)@
                        == entered.entry_failed("enumerate_dst"@, relative@, error),
                    Ok(items) => {
                        let entries = items@.map_values(
                            |item: KeyedEntry| crate::walk::keyed_view(item),
                        );
                        match crate::walk::join_failure(entries, entries.len() as int) {
                            None => opened matches OpenedDirectory::Joined(join) && join@ == (
                            JoinView {
                                relative: relative@,
                                seen: seq![],
                                unclaimed: crate::walk::initially_unclaimed(entries),
                                children: seq![],
                            }) && final(ledger)@ == entered,
                            Some(crate::walk::JoinFailure::Key(error)) => opened
                                is DestinationFailed && final(ledger)@ == entered.entry_failed(
                                "enumerate_dst"@,
                                relative@,
                                error,
                            ),
                            Some(crate::walk::JoinFailure::Duplicate) => opened
                                is DestinationFailed && exists|error: IoError|
                                error.kind is InvalidData && error.code is None && !error.cloud
                                    && error.message@
                                    == "destination contains duplicate names under its matching semantics"@
                                    && final(ledger)@ == #[trigger] entered.entry_failed(
                                    "enumerate_dst"@,
                                    relative@,
                                    error,
                                ),
                        }
                    },
                },
            }
        }),
{
    ledger.counters.dirs_discovered = ledger.counters.dirs_discovered.saturating_add(1);
    assert(ledger@ =~= old(ledger)@.entering());
    if let Some(error) = source {
        fail_entered(ledger, "enumerate_src", relative, &error);
        return OpenedDirectory::SourceFailed;
    }
    let items = match destination {
        Err(error) => {
            fail_entered(ledger, "enumerate_dst", relative, &error);
            return OpenedDirectory::DestinationFailed;
        },
        Ok(items) => items,
    };
    match DirectoryJoin::start(relative.copied(), items) {
        Ok(join) => OpenedDirectory::Joined(join),
        Err(error) => {
            fail_entered(ledger, "enumerate_dst", relative, &error);
            OpenedDirectory::DestinationFailed
        },
    }
}

fn fail_entered(ledger: &mut Ledger, operation: &str, relative: &WidePath, error: &IoError)
    ensures
        final(ledger)@ == old(ledger)@.entry_failed(operation@, relative@, *error),
{
    ledger.counters.dirs_failed = ledger.counters.dirs_failed.saturating_add(1);
    assert(ledger@ =~= old(ledger)@.counting(
        Counters { dirs_failed: sat(old(ledger)@.counters.dirs_failed, 1), ..old(ledger)@.counters },
    ));
    ledger.record_error(OperationError::from_io(operation, relative.copied(), error));
}

/// The visit that leaves a directory which is being entered.
pub fn leave_task(task: &DirectoryTask, dry_run: bool) -> (leave: DirectoryTask)
    ensures
        leave@ == (TaskView {
            leaving: true,
            destination_exists: task.destination_exists || dry_run,
            ..task@
        }),
{
    DirectoryTask {
        leaving: true,
        source: task.source.copied(),
        destination: task.destination.copied(),
        relative: task.relative.copied(),
        source_metadata: task.source_metadata,
        destination_exists: task.destination_exists || dry_run,
        destination_metadata: task.destination_metadata,
    }
}

/// What is to be done about a child directory at the destination.
#[derive(Clone, Copy, Debug, PartialEq, Eq)]
pub enum ChildStep {
    /// Create it.
    Create,
    /// Read its metadata.
    Observe,
    /// Enter it.
    Enter {
        /// Whether it exists at the destination.
        exists: bool,
        /// Its destination metadata.
        metadata: Option<ObjectMetadata>,
    },
    /// It failed: account its contents as not attempted.
    AccountContents,
}

/// The failure of a child whose destination is not a directory.
pub open spec fn not_a_directory(rel: Seq<u16>) -> crate::error::ErrorView {
    semantic_error_view(
        ErrorCategory::TypeConflict,
        "join"@,
        rel,
        "destination object is not a real directory"@,
    )
}

/// Decides how a child directory is entered.
pub fn start_child(rules: &RunRules, ledger: &mut Ledger, child: &ChildDirectory) -> (step:
    ChildStep)
    ensures
        match child@.destination {
            None => if rules.dry_run {
                step == (ChildStep::Enter { exists: false, metadata: None }) && final(ledger)@
                    == old(ledger)@
            } else {
                step is Create && final(ledger)@ == old(ledger)@
            },
            Some(twin) => if twin.metadata.kind is Directory {
                step == (ChildStep::Enter { exists: true, metadata: Some(twin.metadata) })
                    && final(ledger)@ == old(ledger)@
            } else {
                step is AccountContents && final(ledger)@ == old(ledger)@.with_failed_subtree(
                    not_a_directory(child@.relative),
                )
            },
        },
{
    match &child.destination {
        None => {
            if rules.dry_run {
                ChildStep::Enter { exists: false, metadata: None }
            } else {
                ChildStep::Create
            }
        },
        Some(twin) => {
            if twin.metadata.kind == ObjectKind::Directory {
                ChildStep::Enter { exists: true, metadata: Some(twin.metadata) }
            } else {
                ledger.fail_directory(
                    OperationError::semantic(
                        ErrorCategory::TypeConflict,
                        "join",
                        child.relative.copied(),
                        "destination object is not a real directory".to_owned(),
                    ),
                );
                ChildStep::AccountContents
            }
        },
    }
}

/// Decides what follows the creation of a child directory.
pub fn child_created(
    ledger: &mut Ledger,
    relative: &WidePath,
    created: &Result<(), IoError>,
) -> (step: ChildStep)
    ensures
        match *created {
            Err(error) => step is AccountContents && final(ledger)@
                == old(ledger)@.with_failed_subtree(
                io_error_view(category_of(error), "create_dir"@, relative@, error),
            ),
            Ok(_) => step is Observe && final(ledger)@ == old(ledger)@.with_directory_event(
                "created"@,
                relative@,
            ),
        },
{
    match created {
        Err(error) => {
            ledger.fail_directory(OperationError::from_io("create_dir", relative.copied(), error));
            ChildStep::AccountContents
        },
        Ok(_) => {
            ledger.emit(
                crate::audit::AuditEvent::Directory {
                    action: "created".to_owned(),
                    rel: crate::audit::AuditPath::from_path(relative),
                },
            );
            ChildStep::Observe
        },
    }
}

/// Decides whether a directory that was just created is entered.
pub fn child_observed(
    ledger: &mut Ledger,
    relative: &WidePath,
    observed: &Result<ObjectMetadata, IoError>,
) -> (step: ChildStep)
    ensures
        match *observed {
            Ok(metadata) => if metadata.kind is Directory {
                step == (ChildStep::Enter { exists: true, metadata: Some(metadata) })
                    && final(ledger)@ == old(ledger)@
            } else {
                step is AccountContents && final(ledger)@ == old(ledger)@.with_failed_subtree(
                    semantic_error_view(
                        ErrorCategory::DestinationChanged,
                        "revalidate_dst_dir"@,
                        relative@,
                        "new destination directory changed type after creation"@,
                    ),
                )
            },
            Err(error) => step is AccountContents && final(ledger)@
                == old(ledger)@.with_failed_subtree(
                destination_access_view("revalidate_dst_dir"@, relative@, error),
            ),
        },
{
    match observed {
        Ok(metadata) => {
            if metadata.kind == ObjectKind::Directory {
                ChildStep::Enter { exists: true, metadata: Some(*metadata) }
            } else {
                ledger.fail_directory(
                    OperationError::semantic(
                        ErrorCategory::DestinationChanged,
                        "revalidate_dst_dir",
                        relative.copied(),
                        "new destination directory changed type after creation".to_owned(),
                    ),
                );
                ChildStep::AccountContents
            }
        },
        Err(error) => {
            ledger.fail_directory(destination_access_error("revalidate_dst_dir", relative, error));
            ChildStep::AccountContents
        },
    }
}

/// The visit that enters a child directory.
pub fn enter_task(
    child: ChildDirectory,
    destination: &WidePath,
    exists: bool,
    metadata: Option<ObjectMetadata>,
) -> (task: DirectoryTask)
    ensures
        task@ == (TaskView {
            leaving: false,
            source: child@.entry.path,
            destination: child_of(destination@, child@.entry.name),
            relative: child@.relative,
            source_metadata: child@.entry.metadata,
            destination_exists: exists,
            destination_metadata: metadata,
        }),
{
    let destination = destination.child(&child.entry.name);
    DirectoryTask {
        leaving: false,
        source: child.entry.path,
        destination,
        relative: child.relative,
        source_metadata: child.entry.metadata,
        destination_exists: exists,
        destination_metadata: metadata,
    }
}

/// Whether no count is zero and no directory occurs twice.
pub open spec fn jobs_well_formed(list: Seq<(Seq<u16>, u64)>) -> bool {
    crate::table::keys_are_distinct(list) && forall|i: int|
        0 <= i < list.len() ==> (#[trigger] list[i]).1 > 0
}

proof fn lemma_count_sum_update(list: Seq<(Seq<u16>, u64)>, at: int, item: (Seq<u16>, u64))
    requires
        0 <= at < list.len(),
    ensures
        count_sum(list.update(at, item)) == count_sum(list) - list[at].1 + item.1,
    decreases list.len(),
{
    let updated = list.update(at, item);
    if at == list.len() - 1 {
        assert(updated.drop_last() =~= list.drop_last());
    } else {
        assert(updated.drop_last() =~= list.drop_last().update(at, item));
        lemma_count_sum_update(list.drop_last(), at, item);
    }
}

proof fn lemma_count_sum_remove(list: Seq<(Seq<u16>, u64)>, at: int)
    requires
        0 <= at < list.len(),
    ensures
        count_sum(list.remove(at)) == count_sum(list) - list[at].1,
    decreases list.len(),
{
    let removed = list.remove(at);
    if at == list.len() - 1 {
        assert(removed =~= list.drop_last());
    } else {
        assert(removed.drop_last() =~= list.drop_last().remove(at));
        assert(removed.last() == list.last());
        lemma_count_sum_remove(list.drop_last(), at);
    }
}

/// A directory waits exactly while one of its jobs is in flight: after one job
/// of an idle directory was submitted and completed the counts are as before,
/// and in between the directory is busy.
pub proof fn directory_is_busy_until_its_job_completes(
    list: Seq<(Seq<u16>, u64)>,
    directory: Seq<u16>,
)
    requires
        position(list, directory) == list.len(),
    ensures
        position(job_added(list, directory), directory) < job_added(list, directory).len(),
        job_removed(job_added(list, directory), directory) == list,
{
    let added = job_added(list, directory);
    lemma_position(list, directory);
    lemma_position_is(added, directory, list.len() as int);
    assert(job_removed(added, directory) =~= list);
}

/// The total of all jobs in flight is the sum over directories, as long as no
/// counter is full.
pub proof fn job_totals_agree(list: Seq<(Seq<u16>, u64)>, directory: Seq<u16>)
    requires
        jobs_well_formed(list),
        count_sum(list) < u64::MAX,
    ensures
        jobs_well_formed(job_added(list, directory)),
        count_sum(job_added(list, directory)) == count_sum(list) + 1,
        jobs_well_formed(job_removed(list, directory)),
        position(list, directory) < list.len() ==> count_sum(job_removed(list, directory))
            == count_sum(list) - 1,
{
    lemma_position(list, directory);
    let at = position(list, directory);
    if at < list.len() {
        lemma_counts_bounded(list, at);
        lemma_count_sum_update(list, at, (directory, sat(list[at].1, 1)));
        if list[at].1 <= 1 {
            lemma_count_sum_remove(list, at);
        } else {
            lemma_count_sum_update(list, at, (directory, (list[at].1 - 1) as u64));
        }
    } else {
        assert(list.push((directory, 1u64)).drop_last() =~= list);
    }
}

proof fn lemma_counts_bounded(list: Seq<(Seq<u16>, u64)>, at: int)
    requires
        0 <= at < list.len(),
    ensures
        0 <= list[at].1 <= count_sum(list),
    decreases list.len(),
{
    lemma_sum_nonnegative(list.drop_last());
    if at < list.len() - 1 {
        lemma_counts_bounded(list.drop_last(), at);
    }
}

proof fn lemma_sum_nonnegative(list: Seq<(Seq<u16>, u64)>)
    ensures
        count_sum(list) >= 0,
    decreases list.len(),
{
    if list.len() > 0 {
        lemma_sum_nonnegative(list.drop_last());
    }
}

/// A visit is never lost: taking the next step either removes exactly the
/// visit it hands out or accounts, or keeps every visit for later.
pub proof fn no_visit_is_lost(
    tasks: Seq<TaskView>,
    ledger: LedgerView,
    outstanding: Seq<(Seq<u16>, u64)>,
    requested: bool,
)
    requires
        tasks.len() > 0,
    ensures
        ({
            let (rest, after, step) = tree_step(tasks, ledger, outstanding, requested);
            if step is DrainOne {
                rest.to_multiset() == tasks.to_multiset()
            } else {
                rest == tasks.drop_last()
            }
        }),
{
    let task = tasks.last();
    let rest = tasks.drop_last();
    assert(rest.push(task) =~= tasks);
    broadcast use vstd::seq_lib::group_to_multiset_ensures;

    assert((seq![task] + rest).to_multiset() =~= tasks.to_multiset()) by {
        vstd::seq_lib::lemma_multiset_commutative(seq![task], rest);
        vstd::seq_lib::lemma_multiset_commutative(rest, seq![task]);
        assert(rest + seq![task] =~= tasks);
    }
}

/// Once the user asked to stop or the breaker tripped, no directory is entered
/// any more.
pub proof fn stopped_run_enters_nothing(
    tasks: Seq<TaskView>,
    ledger: LedgerView,
    outstanding: Seq<(Seq<u16>, u64)>,
    requested: bool,
)
    requires
        ledger.stopping() || requested,
    ensures
        !(tree_step(tasks, ledger, outstanding, requested).2 is Enter),
{
}

/// A request to stop is taken once and stays: the run counts as canceled from
/// then on, its workers are told to stop, and it is logged the first time only.
pub proof fn cancellation_is_taken_once(ledger: LedgerView, requested: bool)
    ensures
        ({
            let after = ledger.after_cancellation_check(requested);
            &&& after.canceled == (ledger.canceled || requested)
            &&& after.worker_cancel == (ledger.worker_cancel || requested)
            &&& ledger.canceled || !requested ==> after.notices == ledger.notices
            &&& !ledger.canceled && requested ==> after.notices.len() == ledger.notices.len() + 3
                && after.notices[after.notices.len() - 2] == NoticeView::Publish(
                RunState::Canceling,
            )
            &&& after.breaker == ledger.breaker
            &&& after.counters == ledger.counters
            &&& after.errors == ledger.errors
        }),
{
}

/// A tripped breaker is announced once, and announcing it changes nothing else.
pub proof fn breaker_is_announced_once(ledger: LedgerView)
    ensures
        ({
            let after = ledger.after_breaker_check();
            &&& after.breaker == ledger.breaker
            &&& after.canceled == ledger.canceled
            &&& after.counters == ledger.counters
            &&& after.errors == ledger.errors
            &&& after.after_breaker_check() == after
            &&& after.notices.len() > ledger.notices.len() <==> ledger.breaker is Some
                && !ledger.breaker_announced
        }),
{
}

proof fn lemma_busy(list: Seq<(Seq<u16>, u64)>, directory: Seq<u16>)
    ensures
        0 <= position(list, directory) <= list.len(),
        position(list, directory) < list.len() <==> exists|i: int|
            0 <= i < list.len() && (#[trigger] list[i]).0 == directory,
{
    crate::table::lemma_position(list, directory);
    let at = position(list, directory);
    if at < list.len() {
        assert(list[at].0 == directory);
    }
}

/// What a visit decides. A directory is entered exactly if nothing stops the
/// run, by cancellation or by the breaker, and otherwise counts as failed
/// unvisited. It is left only once none of its files is in flight, unless no
/// other visit remains; until then another visit goes first.
pub proof fn directory_is_left_after_its_files(
    tasks: Seq<TaskView>,
    ledger: LedgerView,
    outstanding: Seq<(Seq<u16>, u64)>,
    requested: bool,
)
    requires
        tasks.len() > 0,
        ledger.counters.dirs_failed < u64::MAX,
    ensures
        ({
            let (rest, after, step) = tree_step(tasks, ledger, outstanding, requested);
            let task = tasks.last();
            let stops = ledger.canceled || requested || ledger.breaker is Some;
            let busy = exists|i: int|
                0 <= i < outstanding.len() && (#[trigger] outstanding[i]).0 == task.relative;
            &&& step is Enter <==> !task.leaving && !stops
            &&& step is Skipped <==> !task.leaving && stops
            &&& step is Leave <==> task.leaving && !(busy && tasks.len() > 1)
            &&& step is DrainOne <==> task.leaving && busy && tasks.len() > 1
            &&& !(step is Finished)
            &&& step matches StepView::Enter(entered) ==> entered == task
            &&& step matches StepView::Leave(left) ==> left == task
            &&& after.counters.dirs_failed == ledger.counters.dirs_failed + if step is Skipped {
                1int
            } else {
                0
            }
            &&& step is DrainOne ==> rest.len() == tasks.len() && rest.first() == task
        }),
{
    lemma_busy(outstanding, tasks.last().relative);
}

/// How many jobs of one directory are in flight.
pub open spec fn jobs_of(list: Seq<(Seq<u16>, u64)>, directory: Seq<u16>) -> int {
    let at = position(list, directory);
    if at < list.len() {
        list[at].1 as int
    } else {
        0
    }
}

/// A submitted job counts for its own directory, and a completed one no longer;
/// every other directory keeps its count.
pub proof fn job_counts_for_its_own_directory(
    list: Seq<(Seq<u16>, u64)>,
    directory: Seq<u16>,
    other: Seq<u16>,
)
    requires
        jobs_well_formed(list),
        jobs_of(list, directory) < u64::MAX,
        other != directory,
    ensures
        jobs_of(job_added(list, directory), directory) == jobs_of(list, directory) + 1,
        jobs_of(job_added(list, directory), other) == jobs_of(list, other),
        jobs_of(list, directory) > 0 ==> jobs_of(job_removed(list, directory), directory)
            == jobs_of(list, directory) - 1,
        jobs_of(job_removed(list, directory), other) == jobs_of(list, other),
{
    lemma_unique(list, directory);
    lemma_unique(list, other);
    let added = job_added(list, directory);
    let removed = job_removed(list, directory);
    crate::table::lemma_position(list, directory);
    crate::table::lemma_position(list, other);
    crate::table::lemma_position(added, directory);
    crate::table::lemma_position(added, other);
    crate::table::lemma_position(removed, directory);
    crate::table::lemma_position(removed, other);
    let at = position(list, directory);
    let there = position(list, other);
    if at < list.len() {
        assert(added[at].0 == directory);
        let found = position(added, directory);
        if found < at {
            assert(added[found] == list[found]);
        }
        assert(found == at);
        if there < list.len() {
            assert(added[there].0 == other);
        }
        if list[at].1 <= 1 {
            if there < list.len() {
                let moved = if there < at {
                    there
                } else {
                    there - 1
                };
                assert(removed[moved] == list[there]);
            }
            let found = position(removed, directory);
            if found < removed.len() {
                let back = if found < at {
                    found
                } else {
                    found + 1
                };
                assert(removed[found] == list[back]);
            }
            let seen = position(removed, other);
            if seen < removed.len() {
                let back = if seen < at {
                    seen
                } else {
                    seen + 1
                };
                assert(removed[seen] == list[back]);
            }
        } else {
            assert(removed[at].0 == directory);
            if there < list.len() {
                assert(removed[there].0 == other);
            }
            let seen = position(removed, other);
            if seen < removed.len() {
                assert(removed[seen].0 == list[seen].0);
            }
        }
        let seen = position(added, other);
        if seen < added.len() {
            assert(added[seen].0 == list[seen].0);
        }
    } else {
        assert(added[list.len() as int].0 == directory);
        assert(added[list.len() as int].1 == 1);
        let found = position(added, directory);
        if found < list.len() {
            assert(added[found] == list[found]);
        }
        assert(found == list.len());
        let seen = position(added, other);
        if there < list.len() {
            assert(added[there] == list[there]);
        }
        if seen < list.len() {
            assert(added[seen] == list[seen]);
        }
    }
}

proof fn lemma_unique(list: Seq<(Seq<u16>, u64)>, directory: Seq<u16>)
    requires
        jobs_well_formed(list),
    ensures
        forall|i: int|
            0 <= i < list.len() && (#[trigger] list[i]).0 == directory ==> i == position(
                list,
                directory,
            ),
{
    crate::table::lemma_position(list, directory);
}

/// A directory that is entered is discovered once, and changes nothing else in
/// the accounts.
pub proof fn entered_directory_is_discovered_once(ledger: LedgerView)
    requires
        ledger.counters.dirs_discovered < u64::MAX,
    ensures
        ({
            let after = ledger.entering();
            &&& after.counters.dirs_discovered == ledger.counters.dirs_discovered + 1
            &&& after.counters.dirs_failed == ledger.counters.dirs_failed
            &&& after.counters.files_discovered == ledger.counters.files_discovered
            &&& after.notices == ledger.notices
            &&& after.errors == ledger.errors
        }),
{
}

} // verus!
