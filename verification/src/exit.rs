//! Leaving a directory: its streams, extended attributes and timestamps are
//! finished after everything below it, and only while both sides are still the
//! directories that were entered.

use vstd::prelude::*;
use vstd::string::*;

use crate::error::{
    semantic_error_view, ErrorCategory, ErrorView, IoError, OperationError,
};
use crate::ledger::{Ledger, LedgerView};
use crate::model::{sat, Counters};
use crate::options::RunRules;
use crate::path::WidePath;
use crate::platform::{BasicMetadata, ObjectKind, ObjectMetadata};
use crate::revalidate::{
    destination_access_error, destination_access_view, directory_unchanged, same_directory_source,
    source_access_error, source_access_view,
};
use crate::text::{decimal, push_decimal};

verus! {

/// What is fixed while one directory is left.
#[derive(Clone, Debug, PartialEq, Eq)]
pub struct ExitContext {
    /// The run's rules.
    pub rules: RunRules,
    /// Path relative to the source root.
    pub relative: WidePath,
    /// Source metadata at enumeration.
    pub source: ObjectMetadata,
    /// Destination metadata captured when the directory was entered.
    pub destination: ObjectMetadata,
}

/// What is fixed while one directory is left, as values.
#[verifier::ext_equal]
pub ghost struct ExitContextView {
    pub rules: RunRules,
    pub relative: Seq<u16>,
    pub source: ObjectMetadata,
    pub destination: ObjectMetadata,
}

impl View for ExitContext {
    type V = ExitContextView;

    open spec fn view(&self) -> ExitContextView {
        ExitContextView {
            rules: self.rules,
            relative: self.relative@,
            source: self.source,
            destination: self.destination,
        }
    }
}

/// The next operation in leaving a directory.
#[derive(Clone, Debug, PartialEq, Eq)]
pub enum ExitStep {
    /// Read the destination directory's metadata.
    ReadDestination,
    /// Read the source directory's metadata.
    ReadSource,
    /// Copy the directory's named streams.
    CopyStreams {
        /// Source metadata as last read.
        current: ObjectMetadata,
    },
    /// Read the source's extended attributes.
    ReadSourceEas {
        /// Source metadata as last read.
        current: ObjectMetadata,
    },
    /// Read the destination's extended attributes.
    ReadDestinationEas {
        /// Source metadata as last read.
        current: ObjectMetadata,
        /// The source's extended attributes.
        source_eas: Vec<u8>,
    },
    /// Clear the destination's extended attributes.
    ClearEas {
        /// Source metadata as last read.
        current: ObjectMetadata,
        /// The source's extended attributes.
        source_eas: Vec<u8>,
    },
    /// Write the source's extended attributes to the destination.
    WriteEas {
        /// Source metadata as last read.
        current: ObjectMetadata,
        /// The source's extended attributes.
        source_eas: Vec<u8>,
    },
    /// Read the source directory's metadata again.
    RecheckSource {
        /// Source metadata as last read.
        current: ObjectMetadata,
    },
    /// Stamp the destination directory.
    Stamp {
        /// What it is stamped with.
        metadata: BasicMetadata,
    },
    /// The directory is accounted.
    Finished,
}

/// The next operation as values.
#[verifier::ext_equal]
pub ghost enum ExitStepView {
    ReadDestination,
    ReadSource,
    CopyStreams { current: ObjectMetadata },
    ReadSourceEas { current: ObjectMetadata },
    ReadDestinationEas { current: ObjectMetadata, source_eas: Seq<u8> },
    ClearEas { current: ObjectMetadata, source_eas: Seq<u8> },
    WriteEas { current: ObjectMetadata, source_eas: Seq<u8> },
    RecheckSource { current: ObjectMetadata },
    Stamp { metadata: BasicMetadata },
    Finished,
}

impl View for ExitStep {
    type V = ExitStepView;

    open spec fn view(&self) -> ExitStepView {
        match *self {
            ExitStep::ReadDestination => ExitStepView::ReadDestination,
            ExitStep::ReadSource => ExitStepView::ReadSource,
            ExitStep::CopyStreams { current } => ExitStepView::CopyStreams { current },
            ExitStep::ReadSourceEas { current } => ExitStepView::ReadSourceEas { current },
            ExitStep::ReadDestinationEas { current, source_eas } =>
                ExitStepView::ReadDestinationEas { current, source_eas: source_eas@ },
            ExitStep::ClearEas { current, source_eas } => ExitStepView::ClearEas {
                current,
                source_eas: source_eas@,
            },
            ExitStep::WriteEas { current, source_eas } => ExitStepView::WriteEas {
                current,
                source_eas: source_eas@,
            },
            ExitStep::RecheckSource { current } => ExitStepView::RecheckSource { current },
            ExitStep::Stamp { metadata } => ExitStepView::Stamp { metadata },
            ExitStep::Finished => ExitStepView::Finished,
        }
    }
}

/// What an operation came to.
#[derive(Debug, PartialEq, Eq)]
pub enum ExitReply {
    /// Metadata that was read.
    Metadata(Result<ObjectMetadata, IoError>),
    /// How many named streams had to be dropped.
    Streams(Result<u64, OperationError>),
    /// Extended attributes that were read.
    Eas(Result<Vec<u8>, IoError>),
    /// A change that was made.
    Done(Result<(), IoError>),
}

/// What an operation came to, as values.
#[verifier::ext_equal]
pub ghost enum ExitReplyView {
    Metadata(Result<ObjectMetadata, IoError>),
    Streams(Result<u64, ErrorView>),
    Eas(Result<Seq<u8>, IoError>),
    Done(Result<(), IoError>),
}

impl View for ExitReply {
    type V = ExitReplyView;

    open spec fn view(&self) -> ExitReplyView {
        match *self {
            ExitReply::Metadata(result) => ExitReplyView::Metadata(result),
            ExitReply::Streams(Ok(dropped)) => ExitReplyView::Streams(Ok(dropped)),
            ExitReply::Streams(Err(error)) => ExitReplyView::Streams(Err(error@)),
            ExitReply::Eas(Ok(eas)) => ExitReplyView::Eas(Ok(eas@)),
            ExitReply::Eas(Err(error)) => ExitReplyView::Eas(Err(error)),
            ExitReply::Done(result) => ExitReplyView::Done(result),
        }
    }
}

/// Whether a reply answers a step.
pub open spec fn answers(step: ExitStepView, reply: ExitReplyView) -> bool {
    match step {
        ExitStepView::ReadDestination => reply is Metadata,
        ExitStepView::ReadSource => reply is Metadata,
        ExitStepView::CopyStreams { .. } => reply is Streams,
        ExitStepView::ReadSourceEas { .. } => reply is Eas,
        ExitStepView::ReadDestinationEas { .. } => reply is Eas,
        ExitStepView::ClearEas { .. } => reply is Done,
        ExitStepView::WriteEas { .. } => reply is Done,
        ExitStepView::RecheckSource { .. } => reply is Metadata,
        ExitStepView::Stamp { .. } => reply is Done,
        ExitStepView::Finished => false,
    }
}

impl LedgerView {
    /// With a directory whose metadata could not be finished.
    pub open spec fn unfinished_directory(self, error: ErrorView) -> LedgerView {
        self.counting(
            Counters { dirs_meta_failed: sat(self.counters.dirs_meta_failed, 1), ..self.counters },
        ).errored(error)
    }

    /// With one more finished directory.
    pub open spec fn finished_directory(self) -> LedgerView {
        self.counting(Counters { dir_done: sat(self.counters.dir_done, 1), ..self.counters })
    }

    /// With one more directory that a dry run would finish.
    pub open spec fn planned_directory(self) -> LedgerView {
        self.counting(
            Counters { dirs_planned: sat(self.counters.dirs_planned, 1), ..self.counters },
        )
    }
}

/// The failure of a directory without captured destination metadata.
pub open spec fn no_captured_identity(rel: Seq<u16>) -> ErrorView {
    semantic_error_view(
        ErrorCategory::Internal,
        "revalidate_dst_dir"@,
        rel,
        "destination directory has no captured identity"@,
    )
}

/// The first step of leaving a directory, and the accounts after it.
pub open spec fn exit_start(
    rules: RunRules,
    relative: Seq<u16>,
    destination_exists: bool,
    destination: Option<ObjectMetadata>,
    ledger: LedgerView,
) -> (ExitStepView, LedgerView) {
    if rules.dry_run {
        (ExitStepView::Finished, ledger.planned_directory())
    } else if !destination_exists {
        (ExitStepView::Finished, ledger.finished_directory())
    } else if destination is None {
        (
            ExitStepView::Finished,
            ledger.unfinished_directory(no_captured_identity(relative)),
        )
    } else {
        (ExitStepView::ReadDestination, ledger)
    }
}

/// What the log says of dropped directory streams.
pub open spec fn dropped_text(dropped: u64) -> Seq<char> {
    decimal(dropped as nat)
        + " directory named stream(s) dropped: destination volume lacks named-stream capability"@
}

/// Whether the extended attributes of both sides are to be compared.
pub open spec fn eas_matter(context: ExitContextView) -> bool {
    context.source.ea_size > 0 || context.destination.ea_size > 0 || context.relative.len() == 0
}

/// The step after the streams were copied.
pub open spec fn after_streams(context: ExitContextView, current: ObjectMetadata) -> ExitStepView {
    if !context.rules.policy.capabilities.extended_attributes || !eas_matter(context) {
        ExitStepView::RecheckSource { current }
    } else if context.rules.source_supports_eas {
        ExitStepView::ReadSourceEas { current }
    } else {
        ExitStepView::ReadDestinationEas { current, source_eas: seq![] }
    }
}

/// The step after the destination's extended attributes were read or cleared.
pub open spec fn after_clear(current: ObjectMetadata, source_eas: Seq<u8>) -> ExitStepView {
    if source_eas.len() == 0 {
        ExitStepView::RecheckSource { current }
    } else {
        ExitStepView::WriteEas { current, source_eas }
    }
}

/// The next step of leaving a directory, and the accounts after a reply.
pub open spec fn exit_next(
    context: ExitContextView,
    step: ExitStepView,
    reply: ExitReplyView,
    ledger: LedgerView,
) -> (ExitStepView, LedgerView) {
    let rel = context.relative;
    match (step, reply) {
        (ExitStepView::ReadDestination, ExitReplyView::Metadata(observed)) => match observed {
            Ok(observed) => if observed.kind is Directory && observed.identity
                == context.destination.identity {
                (ExitStepView::ReadSource, ledger)
            } else {
                (
                    ExitStepView::Finished,
                    ledger.unfinished_directory(
                        semantic_error_view(
                            ErrorCategory::DestinationChanged,
                            "revalidate_dst_dir"@,
                            rel,
                            "destination directory identity or type changed during the run"@,
                        ),
                    ),
                )
            },
            Err(error) => (
                ExitStepView::Finished,
                ledger.unfinished_directory(
                    destination_access_view("revalidate_dst_dir"@, rel, error),
                ),
            ),
        },
        (ExitStepView::ReadSource, ExitReplyView::Metadata(observed)) => match observed {
            Ok(current) => if current.kind is Directory && current.identity
                == context.source.identity {
                (ExitStepView::CopyStreams { current }, ledger)
            } else {
                (
                    ExitStepView::Finished,
                    ledger.unfinished_directory(
                        semantic_error_view(
                            ErrorCategory::SourceChanged,
                            "revalidate_dir"@,
                            rel,
                            "source directory identity or type changed during the run"@,
                        ),
                    ),
                )
            },
            Err(error) => (
                ExitStepView::Finished,
                ledger.unfinished_directory(source_access_view("revalidate_dir"@, rel, error)),
            ),
        },
        (ExitStepView::CopyStreams { current }, ExitReplyView::Streams(result)) => {
            let told = match result {
                Ok(dropped) => if dropped > 0 {
                    ledger.emitted(
                        crate::audit::warning_view(
                            "streams_dropped"@,
                            Some(rel),
                            dropped_text(dropped),
                        ),
                    )
                } else {
                    ledger
                },
                Err(_) => ledger,
            };
            let warned = if !context.rules.policy.capabilities.extended_attributes
                && context.source.ea_size > 0 {
                told.warned(
                    "ea_dropped"@,
                    Some(rel),
                    "destination volume does not advertise directory EA support"@,
                )
            } else {
                told
            };
            match result {
                Ok(_) => (after_streams(context, current), warned),
                Err(error) => (ExitStepView::Finished, warned.unfinished_directory(error)),
            }
        },
        (ExitStepView::ReadSourceEas { current }, ExitReplyView::Eas(result)) => match result {
            Ok(source_eas) => (ExitStepView::ReadDestinationEas { current, source_eas }, ledger),
            Err(error) => (
                ExitStepView::Finished,
                ledger.unfinished_directory(source_access_view("read_dir_ea"@, rel, error)),
            ),
        },
        (
            ExitStepView::ReadDestinationEas { current, source_eas },
            ExitReplyView::Eas(result),
        ) => match result {
            Ok(destination_eas) => if source_eas == destination_eas {
                (ExitStepView::RecheckSource { current }, ledger)
            } else if destination_eas.len() > 0 {
                (ExitStepView::ClearEas { current, source_eas }, ledger)
            } else {
                (after_clear(current, source_eas), ledger)
            },
            Err(error) => (
                ExitStepView::Finished,
                ledger.unfinished_directory(destination_access_view("read_dir_ea"@, rel, error)),
            ),
        },
        (ExitStepView::ClearEas { current, source_eas }, ExitReplyView::Done(result)) => {
            match result {
                Ok(_) => (after_clear(current, source_eas), ledger),
                Err(error) => (
                    ExitStepView::Finished,
                    ledger.unfinished_directory(
                        destination_access_view("clear_dir_ea"@, rel, error),
                    ),
                ),
            }
        },
        (ExitStepView::WriteEas { current, source_eas }, ExitReplyView::Done(result)) => {
            match result {
                Ok(_) => (ExitStepView::RecheckSource { current }, ledger),
                Err(error) => (
                    ExitStepView::Finished,
                    ledger.unfinished_directory(
                        destination_access_view("write_dir_ea"@, rel, error),
                    ),
                ),
            }
        },
        (ExitStepView::RecheckSource { current }, ExitReplyView::Metadata(observed)) => {
            match observed {
                Ok(observed) => if directory_unchanged(observed, current) {
                    (
                        ExitStepView::Stamp {
                            metadata: context.rules.policy.spec_project_basic(current.basic),
                        },
                        ledger,
                    )
                } else {
                    (
                        ExitStepView::Finished,
                        ledger.unfinished_directory(
                            semantic_error_view(
                                ErrorCategory::SourceChanged,
                                "revalidate_dir"@,
                                rel,
                                "source directory changed during metadata finalization"@,
                            ),
                        ),
                    )
                },
                Err(error) => (
                    ExitStepView::Finished,
                    ledger.unfinished_directory(source_access_view("revalidate_dir"@, rel, error)),
                ),
            }
        },
        (ExitStepView::Stamp { metadata }, ExitReplyView::Done(result)) => match result {
            Ok(_) => (
                ExitStepView::Finished,
                ledger.finished_directory().with_directory_event("stamped"@, rel),
            ),
            Err(error) => (
                ExitStepView::Finished,
                ledger.unfinished_directory(destination_access_view("set_dir_meta"@, rel, error)),
            ),
        },
        _ => (step, ledger),
    }
}

impl Ledger {
    fn fail_exit(&mut self, error: OperationError) -> (step: ExitStep)
        ensures
            final(self)@ == old(self)@.unfinished_directory(error@),
            step is Finished,
    {
        self.counters.dirs_meta_failed = self.counters.dirs_meta_failed.saturating_add(1);
        assert(self@ =~= old(self)@.counting(
            Counters {
                dirs_meta_failed: sat(old(self)@.counters.dirs_meta_failed, 1),
                ..old(self)@.counters
            },
        ));
        self.record_error(error);
        ExitStep::Finished
    }
}

/// Starts leaving a directory.
pub fn start_exit(
    rules: &RunRules,
    ledger: &mut Ledger,
    relative: &WidePath,
    destination_exists: bool,
    destination: &Option<ObjectMetadata>,
) -> (step: ExitStep)
    ensures
        exit_start(*rules, relative@, destination_exists, *destination, old(ledger)@) == (
            step@,
            final(ledger)@,
        ),
{
    if rules.dry_run {
        ledger.counters.dirs_planned = ledger.counters.dirs_planned.saturating_add(1);
        assert(ledger@ =~= old(ledger)@.planned_directory());
        return ExitStep::Finished;
    }
    if !destination_exists {
        ledger.counters.dir_done = ledger.counters.dir_done.saturating_add(1);
        assert(ledger@ =~= old(ledger)@.finished_directory());
        return ExitStep::Finished;
    }
    if destination.is_none() {
        return ledger.fail_exit(
            OperationError::semantic(
                ErrorCategory::Internal,
                "revalidate_dst_dir",
                relative.copied(),
                "destination directory has no captured identity".to_owned(),
            ),
        );
    }
    ExitStep::ReadDestination
}

fn bytes_eq(left: &Vec<u8>, right: &Vec<u8>) -> (same: bool)
    ensures
        same == (left@ == right@),
{
    if left.len() != right.len() {
        return false;
    }
    for i in 0..left.len()
        invariant
            left.len() == right.len(),
            forall|j: int| 0 <= j < i ==> left[j] == right[j],
    {
        if left[i] != right[i] {
            return false;
        }
    }
    assert(left@ =~= right@);
    true
}

fn step_after_clear(current: ObjectMetadata, source_eas: Vec<u8>) -> (step: ExitStep)
    ensures
        step@ == after_clear(current, source_eas@),
{
    if source_eas.len() == 0 {
        ExitStep::RecheckSource { current }
    } else {
        ExitStep::WriteEas { current, source_eas }
    }
}

fn step_after_streams(context: &ExitContext, current: ObjectMetadata) -> (step: ExitStep)
    ensures
        step@ == after_streams(context@, current),
{
    let matter = context.source.ea_size > 0 || context.destination.ea_size > 0
        || context.relative.units.len() == 0;
    if !context.rules.policy.supports_eas() || !matter {
        ExitStep::RecheckSource { current }
    } else if context.rules.source_supports_eas {
        ExitStep::ReadSourceEas { current }
    } else {
        let source_eas: Vec<u8> = Vec::new();
        assert(source_eas@ =~= seq![]);
        ExitStep::ReadDestinationEas { current, source_eas }
    }
}

/// Decides the next operation in leaving a directory from what became of the
/// last one.
#[verifier::rlimit(60)]
pub fn exit_directory(
    context: &ExitContext,
    ledger: &mut Ledger,
    step: ExitStep,
    reply: ExitReply,
) -> (next: ExitStep)
    requires
        answers(step@, reply@),
    ensures
        exit_next(context@, step@, reply@, old(ledger)@) == (next@, final(ledger)@),
{
    let relative = &context.relative;
    match (step, reply) {
        (ExitStep::ReadDestination, ExitReply::Metadata(observed)) => match observed {
            Ok(observed) => {
                if observed.kind == ObjectKind::Directory && observed.identity.same_as(
                    &context.destination.identity,
                ) {
                    ExitStep::ReadSource
                } else {
                    ledger.fail_exit(
                        OperationError::semantic(
                            ErrorCategory::DestinationChanged,
                            "revalidate_dst_dir",
                            relative.copied(),
                            "destination directory identity or type changed during the run".to_owned(),
                        ),
                    )
                }
            },
            Err(error) => ledger.fail_exit(
                destination_access_error("revalidate_dst_dir", relative, &error),
            ),
        },
        (ExitStep::ReadSource, ExitReply::Metadata(observed)) => match observed {
            Ok(current) => {
                if current.kind == ObjectKind::Directory && current.identity.same_as(
                    &context.source.identity,
                ) {
                    ExitStep::CopyStreams { current }
                } else {
                    ledger.fail_exit(
                        OperationError::semantic(
                            ErrorCategory::SourceChanged,
                            "revalidate_dir",
                            relative.copied(),
                            "source directory identity or type changed during the run".to_owned(),
                        ),
                    )
                }
            },
            Err(error) => ledger.fail_exit(source_access_error("revalidate_dir", relative, &error)),
        },
        (ExitStep::CopyStreams { current }, ExitReply::Streams(result)) => {
            // A dropped directory stream is as visible in the log as that of a
            // file.
            if let Ok(dropped) = &result {
                if *dropped > 0 {
                    let mut message = String::new();
                    push_decimal(&mut message, *dropped);
                    message.append(
                        " directory named stream(s) dropped: destination volume lacks named-stream capability",
                    );
                    assert(message@ =~= dropped_text(*dropped));
                    ledger.emit(
                        crate::audit::warning(
                            "streams_dropped",
                            Some(relative),
                            message.as_str(),
                        ),
                    );
                }
            }
            if !context.rules.policy.supports_eas() && context.source.ea_size > 0 {
                ledger.warn(
                    "ea_dropped",
                    Some(relative),
                    "destination volume does not advertise directory EA support",
                );
            }
            match result {
                Ok(_) => step_after_streams(context, current),
                Err(error) => ledger.fail_exit(error),
            }
        },
        (ExitStep::ReadSourceEas { current }, ExitReply::Eas(result)) => match result {
            Ok(source_eas) => ExitStep::ReadDestinationEas { current, source_eas },
            Err(error) => ledger.fail_exit(source_access_error("read_dir_ea", relative, &error)),
        },
        (ExitStep::ReadDestinationEas { current, source_eas }, ExitReply::Eas(result)) => {
            match result {
                Ok(destination_eas) => {
                    if bytes_eq(&source_eas, &destination_eas) {
                        ExitStep::RecheckSource { current }
                    } else if destination_eas.len() > 0 {
                        ExitStep::ClearEas { current, source_eas }
                    } else {
                        step_after_clear(current, source_eas)
                    }
                },
                Err(error) => ledger.fail_exit(
                    destination_access_error("read_dir_ea", relative, &error),
                ),
            }
        },
        (ExitStep::ClearEas { current, source_eas }, ExitReply::Done(result)) => match result {
            Ok(_) => step_after_clear(current, source_eas),
            Err(error) => ledger.fail_exit(
                destination_access_error("clear_dir_ea", relative, &error),
            ),
        },
        (ExitStep::WriteEas { current, .. }, ExitReply::Done(result)) => match result {
            Ok(_) => ExitStep::RecheckSource { current },
            Err(error) => ledger.fail_exit(
                destination_access_error("write_dir_ea", relative, &error),
            ),
        },
        (ExitStep::RecheckSource { current }, ExitReply::Metadata(observed)) => match observed {
            Ok(observed) => {
                if same_directory_source(&observed, &current) {
                    ExitStep::Stamp { metadata: context.rules.policy.project_basic(current.basic) }
                } else {
                    ledger.fail_exit(
                        OperationError::semantic(
                            ErrorCategory::SourceChanged,
                            "revalidate_dir",
                            relative.copied(),
                            "source directory changed during metadata finalization".to_owned(),
                        ),
                    )
                }
            },
            Err(error) => ledger.fail_exit(source_access_error("revalidate_dir", relative, &error)),
        },
        (ExitStep::Stamp { .. }, ExitReply::Done(result)) => match result {
            Ok(_) => {
                ledger.counters.dir_done = ledger.counters.dir_done.saturating_add(1);
                assert(ledger@ =~= old(ledger)@.finished_directory());
                ledger.emit(
                    crate::audit::AuditEvent::Directory {
                        action: "stamped".to_owned(),
                        rel: crate::audit::AuditPath::from_path(relative),
                    },
                );
                ExitStep::Finished
            },
            Err(error) => ledger.fail_exit(
                destination_access_error("set_dir_meta", relative, &error),
            ),
        },
        (step, _) => step,
    }
}

/// How far a step is from the end.
pub open spec fn exit_distance(step: ExitStepView) -> int {
    match step {
        ExitStepView::ReadDestination => 9,
        ExitStepView::ReadSource => 8,
        ExitStepView::CopyStreams { .. } => 7,
        ExitStepView::ReadSourceEas { .. } => 6,
        ExitStepView::ReadDestinationEas { .. } => 5,
        ExitStepView::ClearEas { .. } => 4,
        ExitStepView::WriteEas { .. } => 3,
        ExitStepView::RecheckSource { .. } => 2,
        ExitStepView::Stamp { .. } => 1,
        ExitStepView::Finished => 0,
    }
}

/// Directories with a terminal outcome at the end of leaving one.
pub open spec fn exits(counters: Counters) -> int {
    counters.dir_done + counters.dirs_meta_failed + counters.dirs_planned
}

/// Every reply brings the directory closer to its end, and exactly one
/// terminal directory count is made, with the last step.
pub proof fn every_directory_is_finished_once(
    context: ExitContextView,
    step: ExitStepView,
    reply: ExitReplyView,
    ledger: LedgerView,
)
    requires
        answers(step, reply),
        ledger.counters.dir_done < u64::MAX,
        ledger.counters.dirs_meta_failed < u64::MAX,
    ensures
        ({
            let (next, after) = exit_next(context, step, reply, ledger);
            &&& exit_distance(next) < exit_distance(step)
            &&& exits(after.counters) == exits(ledger.counters) + (if next is Finished {
                1int
            } else {
                0int
            })
            &&& after.counters.dirs_discovered == ledger.counters.dirs_discovered
        }),
{
}

/// A directory is stamped only with metadata of the source directory that was
/// entered, after the destination was found to be the directory that was
/// entered, and as the destination can represent it.
pub proof fn stamp_follows_an_unchanged_source(
    context: ExitContextView,
    step: ExitStepView,
    reply: ExitReplyView,
    ledger: LedgerView,
)
    requires
        answers(step, reply),
        exit_next(context, step, reply, ledger).0 is Stamp,
    ensures
        step is RecheckSource,
        reply matches ExitReplyView::Metadata(Ok(observed)) && directory_unchanged(
            observed,
            step->RecheckSource_current,
        ),
        exit_next(context, step, reply, ledger).0->metadata
            == context.rules.policy.spec_project_basic(step->RecheckSource_current.basic),
{
}

/// What is known of one directory while it is left: what comes next, the
/// extended attributes that were read of the source and that are on the
/// destination, and what the destination was stamped with.
pub ghost struct ExitScene {
    pub step: ExitStepView,
    pub ledger: LedgerView,
    pub read: Option<Seq<u8>>,
    pub eas: Seq<u8>,
    pub source: Option<ObjectMetadata>,
    pub streams_copied: bool,
    pub stamped: Option<BasicMetadata>,
}

impl ExitScene {
    /// The scene before anything was done to a destination with these extended
    /// attributes.
    pub open spec fn untouched(eas: Seq<u8>, ledger: LedgerView) -> ExitScene {
        ExitScene {
            step: ExitStepView::ReadDestination,
            ledger,
            read: None,
            eas,
            source: None,
            streams_copied: false,
            stamped: None,
        }
    }

    /// The scene after an operation.
    pub open spec fn after(self, context: ExitContextView, reply: ExitReplyView) -> ExitScene {
        let (step, ledger) = exit_next(context, self.step, reply, self.ledger);
        let done = reply matches ExitReplyView::Done(Ok(_));
        ExitScene {
            step,
            ledger,
            read: match (self.step, reply) {
                (ExitStepView::ReadSourceEas { .. }, ExitReplyView::Eas(Ok(eas))) => Some(eas),
                _ => self.read,
            },
            eas: match self.step {
                ExitStepView::ClearEas { .. } => if done {
                    seq![]
                } else {
                    self.eas
                },
                ExitStepView::WriteEas { source_eas, .. } => if done {
                    self.eas + source_eas
                } else {
                    self.eas
                },
                _ => self.eas,
            },
            source: match (self.step, reply) {
                (ExitStepView::ReadSource, ExitReplyView::Metadata(Ok(seen))) => Some(seen),
                _ => self.source,
            },
            streams_copied: self.streams_copied || (self.step is CopyStreams && reply matches
                ExitReplyView::Streams(Ok(_))),
            stamped: match self.step {
                ExitStepView::Stamp { metadata } => if done {
                    Some(metadata)
                } else {
                    self.stamped
                },
                _ => self.stamped,
            },
        }
    }

    /// The scene after a list of operations.
    pub open spec fn played(
        self,
        context: ExitContextView,
        replies: Seq<ExitReplyView>,
    ) -> ExitScene
        decreases replies.len(),
    {
        if replies.len() == 0 {
            self
        } else {
            self.played(context, replies.drop_last()).after(context, replies.last())
        }
    }

    /// Whether every reply answers the operation that was asked for, and shows
    /// the extended attributes that the destination has.
    pub open spec fn answered_by(
        self,
        context: ExitContextView,
        replies: Seq<ExitReplyView>,
    ) -> bool
        decreases replies.len(),
    {
        replies.len() > 0 ==> {
            let before = self.played(context, replies.drop_last());
            &&& self.answered_by(context, replies.drop_last())
            &&& answers(before.step, replies.last())
            &&& before.step is ReadDestinationEas && replies.last()->Eas_0 is Ok ==> replies.last()
                == ExitReplyView::Eas(Ok(before.eas))
        }
    }
}

/// A directory is stamped only once its streams are copied and its extended
/// attributes are those of the source, wherever the destination holds them and
/// either side has some; elsewhere they are left alone. It is stamped with what
/// the source was when it was read again, which is still the enumerated
/// directory. A directory counts as done exactly if it was stamped.
#[verifier::rlimit(60)]
pub proof fn left_directory_carries_the_source_s_metadata(
    context: ExitContextView,
    eas: Seq<u8>,
    replies: Seq<ExitReplyView>,
    ledger: LedgerView,
)
    requires
        ExitScene::untouched(eas, ledger).answered_by(context, replies),
        ledger.counters.dir_done < u64::MAX,
    ensures
        ({
            let scene = ExitScene::untouched(eas, ledger).played(context, replies);
            let carries = context.rules.policy.capabilities.extended_attributes && (
            context.source.ea_size > 0 || context.destination.ea_size > 0 || context.relative.len()
                == 0);
            let reads = carries && context.rules.source_supports_eas;
            let wanted = if reads && scene.read is Some {
                scene.read->0
            } else {
                seq![]
            };
            let known = scene.source is Some && scene.source->0.kind is Directory
                && scene.source->0.identity == context.source.identity;
            let final_eas = if carries {
                wanted
            } else {
                eas
            };
            &&& scene.step is ReadDestination || scene.step is ReadSource ==> scene.read is None
                && scene.eas == eas && scene.source is None
            &&& scene.step matches ExitStepView::CopyStreams { current } ==> known && scene.source
                == Some(current) && scene.eas == eas && scene.read is None
            &&& scene.step matches ExitStepView::ReadSourceEas { current } ==> known
                && scene.source == Some(current) && reads && scene.eas == eas && scene.read is None
                && scene.streams_copied
            &&& scene.step matches ExitStepView::ReadDestinationEas { current, source_eas } ==> known
                && scene.source == Some(current) && carries && source_eas == wanted && scene.eas
                == eas && scene.streams_copied && (reads ==> scene.read is Some)
            &&& scene.step matches ExitStepView::ClearEas { current, source_eas } ==> known
                && scene.source == Some(current) && carries && source_eas == wanted
                && scene.streams_copied && (reads ==> scene.read is Some)
            &&& scene.step matches ExitStepView::WriteEas { current, source_eas } ==> known
                && scene.source == Some(current) && carries && source_eas == wanted
                && scene.eas.len() == 0 && scene.streams_copied && (reads ==> scene.read is Some)
            &&& scene.step matches ExitStepView::RecheckSource { current } ==> known
                && scene.source == Some(current) && scene.eas == final_eas && scene.streams_copied
                && (reads ==> scene.read is Some)
            &&& scene.step matches ExitStepView::Stamp { metadata } ==> known && metadata
                == context.rules.policy.spec_project_basic(scene.source->0.basic) && scene.eas
                == final_eas && scene.streams_copied && (reads ==> scene.read is Some)
            &&& !(scene.step is Finished) ==> scene.stamped is None
                && scene.ledger.counters.dir_done == ledger.counters.dir_done
            &&& scene.step is Finished ==> (scene.stamped is Some
                <==> scene.ledger.counters.dir_done == ledger.counters.dir_done + 1)
            &&& scene.stamped is Some ==> {
                &&& scene.step is Finished
                &&& known
                &&& scene.stamped->0.last_write_time == scene.source->0.basic.last_write_time
                &&& scene.stamped->0 == context.rules.policy.spec_project_basic(
                    scene.source->0.basic,
                )
                &&& scene.eas == final_eas
                &&& scene.streams_copied
            }
        }),
    decreases replies.len(),
{
    if replies.len() > 0 {
        left_directory_carries_the_source_s_metadata(context, eas, replies.drop_last(), ledger);
        let before = ExitScene::untouched(eas, ledger).played(context, replies.drop_last());
        if before.step is WriteEas {
            assert(before.eas + before.step->WriteEas_source_eas
                =~= before.step->WriteEas_source_eas);
        }
        if before.source is Some {
            crate::filesystem::projection_keeps_what_the_destination_holds(
                context.rules.policy,
                before.source->0.basic,
            );
        }
        if before.step is ReadDestinationEas && before.eas.len() == 0 {
            assert(before.eas =~= seq![]);
        }
    }
}

/// The last look at a source directory compares its identity, class, last-write
/// time, attributes and reparse tag with what is about to be stamped.
pub proof fn last_look_at_a_directory_compares_every_field(
    context: ExitContextView,
    current: ObjectMetadata,
    observed: Result<ObjectMetadata, IoError>,
    ledger: LedgerView,
)
    ensures
        exit_next(
            context,
            ExitStepView::RecheckSource { current },
            ExitReplyView::Metadata(observed),
            ledger,
        ).0 is Stamp <==> (observed matches Ok(seen) && {
            &&& seen.identity == current.identity
            &&& seen.kind is Directory
            &&& seen.basic.last_write_time == current.basic.last_write_time
            &&& seen.basic.attributes == current.basic.attributes
            &&& seen.reparse_tag == current.reparse_tag
        }),
{
}

/// A dry run leaves every directory untouched and counts it as planned; a
/// directory with no destination counts as done.
pub proof fn dry_run_leaves_directories_alone(
    rules: RunRules,
    relative: Seq<u16>,
    destination_exists: bool,
    destination: Option<ObjectMetadata>,
    ledger: LedgerView,
)
    requires
        ledger.counters.dirs_planned < u64::MAX,
        ledger.counters.dir_done < u64::MAX,
    ensures
        ({
            let (step, after) = exit_start(
                rules,
                relative,
                destination_exists,
                destination,
                ledger,
            );
            let one = |yes: bool| -> int { if yes { 1int } else { 0int } };
            &&& step is ReadDestination <==> !rules.dry_run && destination_exists && destination
                is Some
            &&& step is ReadDestination || step is Finished
            &&& after.counters.dirs_planned == ledger.counters.dirs_planned + one(rules.dry_run)
            &&& after.counters.dir_done == ledger.counters.dir_done + one(
                !rules.dry_run && !destination_exists,
            )
        }),
{
}

} // verus!
