//! One copy run from its announcement to its last record.

use vstd::prelude::*;
use vstd::string::*;

use crate::audit::{audit_path, warning, warning_view, AuditEvent, AuditPath, EventView};
use crate::devprofile::{CopyProfile, ProfileView};
use crate::error::{BigcpError, FailureView, IoError};
use crate::filesystem::FilesystemPolicy;
use crate::ledger::{Ledger, LedgerView, Notice, NoticeView};
use crate::model::{Counters, RunState};
use crate::options::{CopyOptions, DeviceClass};
use crate::path::{lossy_text, WidePath};
use crate::platform::{EndpointKind, FileSystem, ObjectKind, VolumeInfo};
use crate::report::{
    completed_exit, folders_agree, reconcile_folders, Hint,
    VerificationSummary, VerificationView,
};
use crate::text::{decimal, push_decimal};


verus! {

/// The signature of the resume protocol. Checkpoints prove themselves, so that
/// no option of a run can make a stale one unsafe.
pub const RESUME_PROTOCOL_SIGNATURE: &'static str = "resume-protocol-v1";

/// Bytes of one mebibyte.
pub const MEBIBYTE: usize = 1_048_576;

/// What is fixed for one run.
#[derive(Clone, Debug, PartialEq, Eq)]
pub struct RunFacts {
    /// The run's identifier.
    pub run_id: String,
    /// The resolved source root.
    pub source: WidePath,
    /// The resolved destination root.
    pub destination: WidePath,
    /// The source volume.
    pub source_volume: VolumeInfo,
    /// The destination volume.
    pub destination_volume: VolumeInfo,
    /// The composed profile.
    pub profile: CopyProfile,
    /// Whether the destination's write cache is known to be off.
    pub write_cache_disabled: bool,
}

/// What is fixed for one run, as values.
#[verifier::ext_equal]
pub ghost struct FactsView {
    pub run_id: Seq<char>,
    pub source: Seq<u16>,
    pub destination: Seq<u16>,
    pub source_volume: VolumeInfo,
    pub destination_volume: VolumeInfo,
    pub profile: ProfileView,
    pub write_cache_disabled: bool,
}

impl View for RunFacts {
    type V = FactsView;

    open spec fn view(&self) -> FactsView {
        FactsView {
            run_id: self.run_id@,
            source: self.source@,
            destination: self.destination@,
            source_volume: self.source_volume,
            destination_volume: self.destination_volume,
            profile: self.profile@,
            write_cache_disabled: self.write_cache_disabled,
        }
    }
}

impl FactsView {
    /// The policy of the destination.
    pub open spec fn policy(self) -> FilesystemPolicy {
        FilesystemPolicy {
            filesystem: self.destination_volume.filesystem,
            capabilities: self.destination_volume.capabilities,
            endpoint: self.destination_volume.endpoint,
            source_projects_basic: self.source_volume.filesystem is Wsl
                || self.source_volume.filesystem is Remote,
        }
    }

    /// Whether a side is remote.
    pub open spec fn is_remote(self) -> bool {
        self.source_volume.endpoint.spec_is_remote()
            || self.destination_volume.endpoint.spec_is_remote()
    }
}

/// The name of a device class in the log.
pub open spec fn spec_class_name(class: DeviceClass) -> Seq<char> {
    match class {
        DeviceClass::Auto => "Auto"@,
        DeviceClass::Nvme => "Nvme"@,
        DeviceClass::SataSsd => "SataSsd"@,
        DeviceClass::UsbSsd => "UsbSsd"@,
        DeviceClass::Hdd => "Hdd"@,
        DeviceClass::Unknown => "Unknown"@,
    }
}

/// The name of a device class in the log.
pub fn class_name(class: DeviceClass) -> (name: &'static str)
    ensures
        name@ == spec_class_name(class),
{
    match class {
        DeviceClass::Auto => "Auto",
        DeviceClass::Nvme => "Nvme",
        DeviceClass::SataSsd => "SataSsd",
        DeviceClass::UsbSsd => "UsbSsd",
        DeviceClass::Hdd => "Hdd",
        DeviceClass::Unknown => "Unknown",
    }
}

/// What is said of a run on one rotational disk.
pub open spec fn spindle_text(burst_bytes: usize) -> Seq<char> {
    "same-spindle HDD topology: using serialized small-file batches and "@ + decimal(
        (burst_bytes / MEBIBYTE) as nat,
    ) + " MiB phased read/write bursts"@
}

/// What is said of a run with a remote side.
pub open spec fn remote_text(facts: FactsView) -> Seq<char> {
    if facts.profile.transport.kind is Wsl {
        "WSL Plan 9 topology: source="@ + facts.source_volume.endpoint.spec_name()
            + " destination="@ + facts.destination_volume.endpoint.spec_name()
            + "; using bounded two-buffer overlap, "@ + decimal(
            (facts.profile.chunk_bytes / MEBIBYTE) as nat,
        ) + " MiB requests, and "@ + decimal(facts.profile.workers as nat) + " static worker(s)"@
            + if facts.destination_volume.endpoint is Wsl {
            " with striped destination creates"@
        } else {
            seq![]
        }
    } else {
        "remote topology: source="@ + facts.source_volume.endpoint.spec_name() + " destination="@
            + facts.destination_volume.endpoint.spec_name()
            + "; using bounded two-buffer read/write overlap and "@ + decimal(
            facts.profile.workers as nat,
        ) + " static redirector worker(s)"@
    }
}

/// What is said of a destination that cannot hold everything.
pub open spec fn degraded_text(policy: FilesystemPolicy) -> Seq<char> {
    let name = policy.filesystem.spec_name();
    if policy.filesystem.spec_is_fat_family() {
        name
            + " destination: timestamps and attributes are projected to a coarse, range-limited representation; named streams, EAs, sparse layout, EFS, ACLs, and reparse points cannot be preserved"@
            + if policy.filesystem.spec_maximum_file_size() is Some {
            "; files larger than 4 GiB minus 1 byte fail"@
        } else {
            seq![]
        }
    } else if policy.filesystem is Wsl || policy.filesystem is Remote {
        "remote semantic projection with "@ + name
            + " destination: content and last-write time are preserved; Windows creation/access times and attributes are not claimed, and optional features remain capability-gated"@
    } else {
        "remote source semantic projection onto "@ + name
            + ": content and last-write time are preserved; source creation/access times and Windows attributes are not claimed, while optional features remain capability-gated"@
    }
}

fn spindle_message(burst_bytes: usize) -> (text: String)
    ensures
        text@ == spindle_text(burst_bytes),
{
    let mut text =
        "same-spindle HDD topology: using serialized small-file batches and ".to_owned();
    push_decimal(&mut text, (burst_bytes / MEBIBYTE) as u64);
    text.append(" MiB phased read/write bursts");
    text
}

fn remote_message(facts: &RunFacts) -> (text: String)
    ensures
        text@ == remote_text(facts@),
{
    let wsl = facts.profile.transport.is_wsl();
    let mut text = if wsl {
        "WSL Plan 9 topology: source=".to_owned()
    } else {
        "remote topology: source=".to_owned()
    };
    text.append(facts.source_volume.endpoint.name());
    text.append(" destination=");
    text.append(facts.destination_volume.endpoint.name());
    if wsl {
        text.append("; using bounded two-buffer overlap, ");
        push_decimal(&mut text, (facts.profile.chunk_bytes / MEBIBYTE) as u64);
        text.append(" MiB requests, and ");
        push_decimal(&mut text, facts.profile.workers as u64);
        text.append(" static worker(s)");
        if facts.destination_volume.endpoint == EndpointKind::Wsl {
            text.append(" with striped destination creates");
        }
    } else {
        text.append("; using bounded two-buffer read/write overlap and ");
        push_decimal(&mut text, facts.profile.workers as u64);
        text.append(" static redirector worker(s)");
    }
    assert(text@ =~= remote_text(facts@));
    text
}

fn degraded_message(policy: FilesystemPolicy) -> (text: String)
    ensures
        text@ == degraded_text(policy),
{
    let filesystem = policy.filesystem();
    let name = filesystem.name();
    if filesystem.is_fat_family() {
        let mut text = name.to_owned();
        text.append(
            " destination: timestamps and attributes are projected to a coarse, range-limited representation; named streams, EAs, sparse layout, EFS, ACLs, and reparse points cannot be preserved",
        );
        if policy.maximum_file_size().is_some() {
            text.append("; files larger than 4 GiB minus 1 byte fail");
        }
        assert(text@ =~= degraded_text(policy));
        text
    } else if matches!(filesystem, FileSystem::Wsl | FileSystem::Remote) {
        let mut text = "remote semantic projection with ".to_owned();
        text.append(name);
        text.append(
            " destination: content and last-write time are preserved; Windows creation/access times and attributes are not claimed, and optional features remain capability-gated",
        );
        text
    } else {
        let mut text = "remote source semantic projection onto ".to_owned();
        text.append(name);
        text.append(
            ": content and last-write time are preserved; source creation/access times and Windows attributes are not claimed, while optional features remain capability-gated",
        );
        text
    }
}

impl LedgerView {
    /// With a message that is also logged as a warning, without being counted.
    pub open spec fn announced(
        self,
        kind: Seq<char>,
        message: Seq<char>,
        logged: Seq<char>,
    ) -> LedgerView {
        self.told(message).emitted(warning_view(kind, None, logged))
    }

    /// With a change of the run's state.
    pub open spec fn published(self, state: RunState) -> LedgerView {
        self.noticed(NoticeView::Publish(state))
    }

    /// With the first two records of a run.
    pub open spec fn opening(self, options: CopyOptions, facts: FactsView) -> LedgerView {
        self.emitted(
            EventView::RunStart {
                v: crate::LOG_SCHEMA_VERSION,
                run_id: facts.run_id,
                source: audit_path(facts.source),
                destination: audit_path(facts.destination),
                dry_run: options.dry_run,
                verify: options.verify,
                replace: options.replace,
            },
        ).emitted(
            EventView::Profile {
                source_class: spec_class_name(facts.profile.source.class),
                destination_class: spec_class_name(facts.profile.destination.class),
                source_endpoint: facts.profile.source.endpoint,
                destination_endpoint: facts.profile.destination.endpoint,
                chunk_bytes: facts.profile.chunk_bytes,
                workers: facts.profile.workers,
                same_physical_disk: facts.profile.same_physical_disk,
                transport: facts.profile.transport.kind,
                burst_bytes: facts.profile.transport.burst_bytes,
            },
        )
    }

    /// With what is said of the topology.
    pub open spec fn saying_topology(self, facts: FactsView) -> LedgerView {
        let spindle = if facts.profile.transport.kind is SameSpindle {
            self.told(spindle_text(facts.profile.transport.burst_bytes))
        } else {
            self
        };
        if facts.is_remote() {
            spindle.announced("remote_endpoint"@, remote_text(facts), remote_text(facts))
        } else {
            spindle
        }
    }

    /// With what is said of the destination.
    pub open spec fn saying_destination(self, facts: FactsView) -> LedgerView {
        let cached = if facts.write_cache_disabled {
            self.announced(
                "quick_removal_destination"@,
                "destination write caching is off (Quick-removal policy): small-file copies run several times slower; see the report's hints for the measured fix"@,
                "destination device reports write caching disabled (Quick-removal policy); metadata-heavy workloads measured ~3.4x slower under it"@,
            )
        } else {
            self
        };
        if facts.policy().spec_is_degraded() {
            cached.announced(
                "degraded_filesystem"@,
                degraded_text(facts.policy()),
                degraded_text(facts.policy()),
            )
        } else {
            cached
        }
    }

    /// With everything that is said before a run.
    pub open spec fn announcing(self, options: CopyOptions, facts: FactsView) -> LedgerView {
        self.opening(options, facts).saying_topology(facts).saying_destination(facts)
    }
}

impl Ledger {
    fn announce(&mut self, kind: &str, message: &str, logged: &str)
        ensures
            final(self)@ == old(self)@.announced(kind@, message@, logged@),
    {
        self.tell(message);
        self.emit(warning(kind, None, logged));
    }

    fn publish(&mut self, state: RunState)
        ensures
            final(self)@ == old(self)@.published(state),
    {
        self.notice(Notice::Publish(state));
    }
}

fn policy_of(facts: &RunFacts) -> (policy: FilesystemPolicy)
    ensures
        policy == facts@.policy(),
{
    FilesystemPolicy::from_volumes(&facts.source_volume, &facts.destination_volume)
}

/// Announces a run: its configuration, its profile, and every limit that the
/// user should know of before the first byte moves.
pub fn announce_run(options: &CopyOptions, facts: &RunFacts, ledger: &mut Ledger)
    ensures
        final(ledger)@ == old(ledger)@.announcing(*options, facts@),
{
    ledger.emit(
        AuditEvent::RunStart {
            v: crate::LOG_SCHEMA_VERSION,
            run_id: facts.run_id.clone(),
            source: AuditPath::from_path(&facts.source),
            destination: AuditPath::from_path(&facts.destination),
            dry_run: options.dry_run,
            verify: options.verify,
            replace: options.replace,
        },
    );
    ledger.emit(
        AuditEvent::Profile {
            source_class: class_name(facts.profile.source.class).to_owned(),
            destination_class: class_name(facts.profile.destination.class).to_owned(),
            source_endpoint: facts.profile.source.endpoint,
            destination_endpoint: facts.profile.destination.endpoint,
            chunk_bytes: facts.profile.chunk_bytes,
            workers: facts.profile.workers,
            same_physical_disk: facts.profile.same_physical_disk,
            transport: facts.profile.transport.kind,
            burst_bytes: facts.profile.transport.burst_bytes,
        },
    );
    if facts.profile.transport.is_same_spindle() {
        ledger.tell(spindle_message(facts.profile.transport.burst_bytes).as_str());
    }
    if facts.source_volume.endpoint.is_remote() || facts.destination_volume.endpoint.is_remote() {
        let message = remote_message(facts);
        ledger.announce("remote_endpoint", message.as_str(), message.as_str());
    }
    if facts.write_cache_disabled {
        ledger.announce(
            "quick_removal_destination",
            "destination write caching is off (Quick-removal policy): small-file copies run several times slower; see the report's hints for the measured fix",
            "destination device reports write caching disabled (Quick-removal policy); metadata-heavy workloads measured ~3.4x slower under it",
        );
    }
    let policy = policy_of(facts);
    if policy.is_degraded() {
        let message = degraded_message(policy);
        ledger.announce("degraded_filesystem", message.as_str(), message.as_str());
    }
}

/// What opening the journal came to.
#[derive(Debug, PartialEq, Eq)]
pub enum JournalOpening {
    /// It could not be opened.
    Unopened(BigcpError),
    /// The job's header could not be written.
    Unstarted(BigcpError),
    /// It is open.
    Open {
        /// Records inside it that were ignored.
        skipped: u64,
    },
}

/// The next operation of a run.
#[derive(Debug, PartialEq, Eq)]
pub enum RunStep {
    /// Open the journal and start the job in it.
    OpenJournal,
    /// Read what stands at the source root.
    ReadRoot,
    /// Copy the tree.
    CopyTree,
    /// Read back what was written.
    Verify,
    /// Log the analysis of the run.
    Analyze,
    /// Write the journal's end marker.
    EndJournal,
    /// Compact the journal.
    CompactJournal,
    /// Write the report.
    WriteReport,
    /// Write the report at its fallback path.
    WriteFallback,
    /// Make the log durable.
    FinishLog,
    /// The run is over.
    Finished {
        /// The process exit code.
        exit: i32,
    },
    /// The run fails.
    Failed {
        /// Why.
        error: BigcpError,
    },
}

/// The next operation of a run, as values.
#[verifier::ext_equal]
pub ghost enum RunStepView {
    OpenJournal,
    ReadRoot,
    CopyTree,
    Verify,
    Analyze,
    EndJournal,
    CompactJournal,
    WriteReport,
    WriteFallback,
    FinishLog,
    Finished { exit: i32 },
    Failed { failure: FailureView },
}

impl View for RunStep {
    type V = RunStepView;

    open spec fn view(&self) -> RunStepView {
        match *self {
            RunStep::OpenJournal => RunStepView::OpenJournal,
            RunStep::ReadRoot => RunStepView::ReadRoot,
            RunStep::CopyTree => RunStepView::CopyTree,
            RunStep::Verify => RunStepView::Verify,
            RunStep::Analyze => RunStepView::Analyze,
            RunStep::EndJournal => RunStepView::EndJournal,
            RunStep::CompactJournal => RunStepView::CompactJournal,
            RunStep::WriteReport => RunStepView::WriteReport,
            RunStep::WriteFallback => RunStepView::WriteFallback,
            RunStep::FinishLog => RunStepView::FinishLog,
            RunStep::Finished { exit } => RunStepView::Finished { exit },
            RunStep::Failed { error } => RunStepView::Failed { failure: error@ },
        }
    }
}

/// What an operation came to.
#[derive(Debug, PartialEq, Eq)]
pub enum RunReply {
    /// The journal.
    Journal(JournalOpening),
    /// What stands at the source root.
    Root(Result<ObjectKind, IoError>),
    /// The tree was walked.
    Copied(Result<(), BigcpError>),
    /// What was read back.
    Verified(VerificationSummary),
    /// The analysis was logged, or why not.
    Analyzed {
        /// How the logging went.
        logged: Result<(), BigcpError>,
        /// Where the time went.
        timing: String,
    },
    /// Whether the end marker was written.
    Ended(bool),
    /// Why the journal could not be compacted, if it could not.
    Compacted(Option<String>),
    /// The report was written, or why not.
    Reported {
        /// Whether the log had moved to its fallback by then.
        log_degraded: bool,
        /// Why the report could not be written.
        failure: Option<String>,
    },
    /// The log was made durable.
    Logged(Result<(), BigcpError>),
}

/// What an operation came to, as values.
#[verifier::ext_equal]
pub ghost enum RunReplyView {
    Journal(JournalOpening),
    Root(Result<ObjectKind, IoError>),
    Copied(Result<(), FailureView>),
    Verified(VerificationView),
    Analyzed { logged: Result<(), FailureView>, timing: Seq<char> },
    Ended(bool),
    Compacted(Option<Seq<char>>),
    Reported { log_degraded: bool, failure: Option<Seq<char>> },
    Logged(Result<(), FailureView>),
}

impl View for RunReply {
    type V = RunReplyView;

    open spec fn view(&self) -> RunReplyView {
        match *self {
            RunReply::Journal(opening) => RunReplyView::Journal(opening),
            RunReply::Root(result) => RunReplyView::Root(result),
            RunReply::Copied(Ok(_)) => RunReplyView::Copied(Ok(())),
            RunReply::Copied(Err(error)) => RunReplyView::Copied(Err(error@)),
            RunReply::Verified(summary) => RunReplyView::Verified(summary@),
            RunReply::Analyzed { logged: Ok(_), timing } => RunReplyView::Analyzed {
                logged: Ok(()),
                timing: timing@,
            },
            RunReply::Analyzed { logged: Err(error), timing } => RunReplyView::Analyzed {
                logged: Err(error@),
                timing: timing@,
            },
            RunReply::Ended(ended) => RunReplyView::Ended(ended),
            RunReply::Compacted(failure) => RunReplyView::Compacted(
                crate::audit::opt_text(failure),
            ),
            RunReply::Reported { log_degraded, failure } => RunReplyView::Reported {
                log_degraded,
                failure: crate::audit::opt_text(failure),
            },
            RunReply::Logged(Ok(_)) => RunReplyView::Logged(Ok(())),
            RunReply::Logged(Err(error)) => RunReplyView::Logged(Err(error@)),
        }
    }
}

/// How far a run has come.
#[derive(Clone, Debug, PartialEq, Eq)]
pub struct RunProgress {
    /// Whether checkpoints can be kept.
    pub journal: bool,
    /// What was read back, where that was wanted.
    pub verification: Option<VerificationSummary>,
    /// What does not add up, if the counters do not.
    pub breach: Option<String>,
    /// The process exit code.
    pub exit: i32,
    /// Why the report could not be written at its path, if it could not.
    pub report_failure: Option<String>,
    /// The path of the report.
    pub report_path: WidePath,
    /// Its fallback path.
    pub fallback_path: WidePath,
}

/// How far a run has come, as values.
#[verifier::ext_equal]
pub ghost struct ProgressView {
    pub journal: bool,
    pub verification: Option<VerificationView>,
    pub breach: Option<Seq<char>>,
    pub exit: i32,
    pub report_failure: Option<Seq<char>>,
    pub report_path: Seq<u16>,
    pub fallback_path: Seq<u16>,
}

/// An optional summary as values.
pub open spec fn opt_verification(summary: Option<VerificationSummary>) -> Option<
    VerificationView,
> {
    match summary {
        Some(summary) => Some(summary@),
        None => None,
    }
}

impl View for RunProgress {
    type V = ProgressView;

    open spec fn view(&self) -> ProgressView {
        ProgressView {
            journal: self.journal,
            verification: opt_verification(self.verification),
            breach: crate::audit::opt_text(self.breach),
            exit: self.exit,
            report_failure: crate::audit::opt_text(self.report_failure),
            report_path: self.report_path@,
            fallback_path: self.fallback_path@,
        }
    }
}

/// Whether a reply answers a step.
pub open spec fn run_answers(step: RunStepView, reply: RunReplyView) -> bool {
    match step {
        RunStepView::OpenJournal => reply is Journal,
        RunStepView::ReadRoot => reply is Root,
        RunStepView::CopyTree => reply is Copied,
        RunStepView::Verify => reply is Verified,
        RunStepView::Analyze => reply is Analyzed,
        RunStepView::EndJournal => reply is Ended,
        RunStepView::CompactJournal => reply is Compacted,
        RunStepView::WriteReport => reply is Reported,
        RunStepView::WriteFallback => reply is Reported,
        RunStepView::FinishLog => reply is Logged,
        _ => false,
    }
}

/// What is said of a journal that was opened, if anything is.
pub open spec fn with_journal(ledger: LedgerView, opening: JournalOpening) -> LedgerView {
    match opening {
        JournalOpening::Unopened(error) => ledger.emitted(
            warning_view(
                "checkpointing_disabled"@,
                None,
                "journal could not be opened: "@ + error.spec_text(),
            ),
        ),
        JournalOpening::Unstarted(error) => ledger.emitted(
            warning_view(
                "checkpointing_disabled"@,
                None,
                "journal job header could not be written: "@ + error.spec_text(),
            ),
        ),
        JournalOpening::Open { skipped } => if skipped > 0 {
            ledger.emitted(
                warning_view(
                    "journal_records_skipped"@,
                    None,
                    decimal(skipped as nat)
                        + " interior journal record(s) failed validation and were ignored (not truncated); affected resume hints fall back safely"@,
                ),
            )
        } else {
            ledger
        },
    }
}

/// What does not add up in the counters, if anything does not.
pub open spec fn breach_of(ledger: LedgerView) -> Option<Seq<char>> {
    if !ledger.counters.reconciles() {
        Some(ledger.counters.mismatch())
    } else if !folders_agree(ledger.folders, ledger.counters) {
        Some("top-level folder summaries do not reconcile with global file counters"@)
    } else {
        None
    }
}

/// Whether a read-back found a mismatch.
pub open spec fn found_mismatch(verification: Option<VerificationView>) -> bool {
    verification matches Some(summary) && summary.failed > 0
}

/// The exit code of a run. Counters that do not add up outrank everything.
pub open spec fn exit_of(ledger: LedgerView, verification: Option<VerificationView>) -> i32 {
    if breach_of(ledger) is Some {
        6
    } else if ledger.breaker is Some {
        4
    } else if ledger.canceled {
        3
    } else if ledger.counters.failed > 0 || ledger.counters.dirs_failed > 0
        || ledger.counters.dirs_meta_failed > 0 || ledger.counters.links_failed > 0
        || found_mismatch(verification) {
        2
    } else {
        0
    }
}

/// After everything was copied and read back: the accounts are closed.
pub open spec fn closed(progress: ProgressView, ledger: LedgerView) -> (
    RunStepView,
    ProgressView,
    LedgerView,
) {
    let judged = match breach_of(ledger) {
        Some(message) => ledger.emitted(warning_view("counter_invariant"@, None, message)),
        None => ledger,
    };
    let next = ProgressView {
        breach: breach_of(ledger),
        exit: exit_of(ledger, progress.verification),
        ..progress
    };
    if progress.journal {
        (RunStepView::EndJournal, next, judged)
    } else {
        (RunStepView::WriteReport, next, judged.concluding())
    }
}

impl LedgerView {
    /// With the end of the copying made known.
    pub open spec fn concluding(self) -> LedgerView {
        self.told("copy run complete"@).published(RunState::Complete)
    }
}

/// What is said of a report that could not be written at its path.
pub open spec fn fallback_text(progress: ProgressView, failure: Seq<char>) -> Seq<char> {
    "primary report "@ + lossy_text(progress.report_path) + " failed ("@ + failure + "); using "@
        + lossy_text(progress.fallback_path)
}

/// What is said of a report that could not be written at all.
pub open spec fn report_lost_text(
    progress: ProgressView,
    primary: Seq<char>,
    fallback: Seq<char>,
) -> Seq<char> {
    "report failed at "@ + lossy_text(progress.report_path) + " ("@ + primary + ") and fallback "@
        + lossy_text(progress.fallback_path) + " failed ("@ + fallback + ")"@
}

/// How durable a run is.
pub open spec fn spec_durability(flush: bool) -> Seq<char> {
    if flush {
        "durable"@
    } else {
        "logical"@
    }
}

/// How durable a run is.
pub fn durability(flush: bool) -> (label: &'static str)
    ensures
        label@ == spec_durability(flush),
{
    if flush {
        "durable"
    } else {
        "logical"
    }
}

/// The state of the audit artifacts.
pub open spec fn spec_audit_status(degraded: bool) -> Seq<char> {
    if degraded {
        "degraded"@
    } else {
        "ok"@
    }
}

/// The state of the audit artifacts: degraded where one moved to its
/// fallback.
pub fn audit_status(degraded: bool) -> (label: &'static str)
    ensures
        label@ == spec_audit_status(degraded),
{
    if degraded {
        "degraded"
    } else {
        "ok"
    }
}

/// Whether the counters add up.
pub open spec fn spec_integrity(breached: bool) -> Seq<char> {
    if breached {
        "failed"@
    } else {
        "ok"@
    }
}

/// Whether the counters add up.
pub fn integrity(breached: bool) -> (label: &'static str)
    ensures
        label@ == spec_integrity(breached),
{
    if breached {
        "failed"
    } else {
        "ok"
    }
}

/// With the last record of a run.
pub open spec fn with_run_end(
    options: CopyOptions,
    progress: ProgressView,
    ledger: LedgerView,
    audit_degraded: bool,
) -> LedgerView {
    ledger.emitted(
        EventView::RunEnd {
            counters: ledger.counters,
            durability: spec_durability(options.flush),
            audit: spec_audit_status(audit_degraded),
            integrity: spec_integrity(progress.breach is Some),
            exit: progress.exit,
        },
    )
}

/// The first step of a run. A dry run leaves the journal alone: its records
/// are resume state of other runs.
pub open spec fn run_start(options: CopyOptions) -> RunStepView {
    if options.dry_run {
        RunStepView::ReadRoot
    } else {
        RunStepView::OpenJournal
    }
}

/// Behind the data: the analysis comes first, where it was asked for.
pub open spec fn analyzed(options: CopyOptions, progress: ProgressView, ledger: LedgerView) -> (
    RunStepView,
    ProgressView,
    LedgerView,
) {
    if options.analyze {
        (RunStepView::Analyze, progress, ledger)
    } else {
        closed(progress, ledger)
    }
}

/// The next step of a run, how far it has come, and its accounts.
pub open spec fn run_next(
    options: CopyOptions,
    policy: FilesystemPolicy,
    progress: ProgressView,
    ledger: LedgerView,
    step: RunStepView,
    reply: RunReplyView,
) -> (RunStepView, ProgressView, LedgerView) {
    match (step, reply) {
        (RunStepView::OpenJournal, RunReplyView::Journal(opening)) => (
            RunStepView::ReadRoot,
            ProgressView { journal: opening is Open, ..progress },
            with_journal(ledger, opening),
        ),
        (RunStepView::ReadRoot, RunReplyView::Root(read)) => match read {
            Err(source) => (
                RunStepView::Failed {
                    failure: FailureView::Io { context: "read source root metadata"@, source },
                },
                progress,
                ledger,
            ),
            Ok(kind) => if kind is Directory {
                (
                    RunStepView::CopyTree,
                    progress,
                    (if policy.spec_is_degraded() {
                        ledger.tallied("degraded_filesystem"@)
                    } else {
                        ledger
                    }).published(RunState::Copying),
                )
            } else {
                (
                    RunStepView::Failed {
                        failure: FailureView::Invalid(
                            "source must resolve to a real directory, not a file or reparse point"@,
                        ),
                    },
                    progress,
                    ledger,
                )
            },
        },
        (RunStepView::CopyTree, RunReplyView::Copied(copied)) => match copied {
            Err(failure) => (RunStepView::Failed { failure }, progress, ledger),
            Ok(_) => if options.verify && !options.dry_run {
                (RunStepView::Verify, progress, ledger.published(RunState::Verifying))
            } else {
                analyzed(options, progress, ledger)
            },
        },
        (RunStepView::Verify, RunReplyView::Verified(summary)) => analyzed(
            options,
            ProgressView { verification: Some(summary), ..progress },
            ledger.emitted(EventView::Verification { verification: summary }),
        ),
        (RunStepView::Analyze, RunReplyView::Analyzed { logged, timing }) => match logged {
            Err(failure) => (RunStepView::Failed { failure }, progress, ledger),
            Ok(_) => closed(
                progress,
                ledger.emitted(warning_view("phase_timing"@, None, timing)).told(timing),
            ),
        },
        (RunStepView::EndJournal, RunReplyView::Ended(ended)) => if ended {
            (RunStepView::CompactJournal, progress, ledger)
        } else {
            (
                RunStepView::WriteReport,
                ProgressView { journal: false, ..progress },
                ledger.warned(
                    "checkpointing_disabled"@,
                    None,
                    "journal run-end marker could not be written"@,
                ).concluding(),
            )
        },
        (RunStepView::CompactJournal, RunReplyView::Compacted(failure)) => (
            RunStepView::WriteReport,
            progress,
            (match failure {
                Some(text) => ledger.warned(
                    "journal_compaction_failed"@,
                    None,
                    "journal could not be compacted after run end: "@ + text,
                ),
                None => ledger,
            }).concluding(),
        ),
        (RunStepView::WriteReport, RunReplyView::Reported { log_degraded, failure }) => {
            match failure {
                None => (
                    RunStepView::FinishLog,
                    progress,
                    with_run_end(options, progress, ledger, log_degraded),
                ),
                Some(text) => (
                    RunStepView::WriteFallback,
                    ProgressView { report_failure: Some(text), ..progress },
                    ledger.tallied("report_fallback"@).announced(
                        "report_fallback"@,
                        fallback_text(progress, text),
                        fallback_text(progress, text),
                    ),
                ),
            }
        },
        (RunStepView::WriteFallback, RunReplyView::Reported { failure, .. }) => match failure {
            None => (
                RunStepView::FinishLog,
                progress,
                with_run_end(options, progress, ledger, true),
            ),
            Some(text) => (
                RunStepView::Failed {
                    failure: FailureView::Audit(
                        report_lost_text(
                            progress,
                            match progress.report_failure {
                                Some(primary) => primary,
                                None => seq![],
                            },
                            text,
                        ),
                    ),
                },
                progress,
                ledger,
            ),
        },
        (RunStepView::FinishLog, RunReplyView::Logged(logged)) => (
            match logged {
                Err(failure) => RunStepView::Failed { failure },
                Ok(_) => match progress.breach {
                    Some(message) => RunStepView::Failed {
                        failure: FailureView::Invariant(message),
                    },
                    None => RunStepView::Finished { exit: progress.exit },
                },
            },
            progress,
            ledger,
        ),
        _ => (step, progress, ledger),
    }
}

fn note_journal(ledger: &mut Ledger, opening: &JournalOpening) -> (usable: bool)
    ensures
        final(ledger)@ == with_journal(old(ledger)@, *opening),
        usable == (opening is Open),
{
    match opening {
        JournalOpening::Unopened(error) => {
            let mut text = "journal could not be opened: ".to_owned();
            text.append(error.to_text().as_str());
            ledger.emit(warning("checkpointing_disabled", None, text.as_str()));
            false
        },
        JournalOpening::Unstarted(error) => {
            let mut text = "journal job header could not be written: ".to_owned();
            text.append(error.to_text().as_str());
            ledger.emit(warning("checkpointing_disabled", None, text.as_str()));
            false
        },
        JournalOpening::Open { skipped } => {
            if *skipped > 0 {
                let mut text = String::new();
                push_decimal(&mut text, *skipped);
                text.append(
                    " interior journal record(s) failed validation and were ignored (not truncated); affected resume hints fall back safely",
                );
                assert(text@ =~= decimal(*skipped as nat)
                    + " interior journal record(s) failed validation and were ignored (not truncated); affected resume hints fall back safely"@);
                ledger.emit(warning("journal_records_skipped", None, text.as_str()));
            }
            true
        },
    }
}

fn find_breach(ledger: &Ledger) -> (breach: Option<String>)
    ensures
        crate::audit::opt_text(breach) == breach_of(ledger@),
{
    match ledger.counters.reconcile() {
        Err(message) => Some(message),
        Ok(_) => match reconcile_folders(&ledger.folders, &ledger.counters) {
            Err(message) => Some(message),
            Ok(_) => None,
        },
    }
}

fn conclude(ledger: &mut Ledger)
    ensures
        final(ledger)@ == old(ledger)@.concluding(),
{
    ledger.tell("copy run complete");
    ledger.publish(RunState::Complete);
}

fn close(progress: &mut RunProgress, ledger: &mut Ledger) -> (step: RunStep)
    ensures
        closed(old(progress)@, old(ledger)@) == (step@, final(progress)@, final(ledger)@),
{
    let breach = find_breach(ledger);
    let exit: i32 = if breach.is_some() {
        6
    } else {
        let verification = match &progress.verification {
            Some(summary) => Some(summary),
            None => None,
        };
        completed_exit(ledger.canceled, ledger.breaker.is_some(), &ledger.counters, verification)
    };
    if let Some(message) = &breach {
        ledger.emit(warning("counter_invariant", None, message.as_str()));
    }
    progress.breach = breach;
    progress.exit = exit;
    if progress.journal {
        RunStep::EndJournal
    } else {
        conclude(ledger);
        RunStep::WriteReport
    }
}

fn analyze(options: &CopyOptions, progress: &mut RunProgress, ledger: &mut Ledger) -> (step:
    RunStep)
    ensures
        analyzed(*options, old(progress)@, old(ledger)@) == (
            step@,
            final(progress)@,
            final(ledger)@,
        ),
{
    if options.analyze {
        RunStep::Analyze
    } else {
        close(progress, ledger)
    }
}

fn end_run(options: &CopyOptions, progress: &RunProgress, ledger: &mut Ledger, audit_degraded: bool)
    ensures
        final(ledger)@ == with_run_end(*options, progress@, old(ledger)@, audit_degraded),
{
    let counters = ledger.counters;
    ledger.emit(
        AuditEvent::RunEnd {
            counters,
            durability: durability(options.flush).to_owned(),
            audit: audit_status(audit_degraded).to_owned(),
            integrity: integrity(progress.breach.is_some()).to_owned(),
            exit: progress.exit,
        },
    );
}

fn fallback_message(progress: &RunProgress, failure: &str) -> (text: String)
    ensures
        text@ == fallback_text(progress@, failure@),
{
    let mut text = "primary report ".to_owned();
    text.append(progress.report_path.to_text_lossy().as_str());
    text.append(" failed (");
    text.append(failure);
    text.append("); using ");
    text.append(progress.fallback_path.to_text_lossy().as_str());
    assert(text@ =~= fallback_text(progress@, failure@));
    text
}

fn report_lost(progress: &RunProgress, failure: &str) -> (error: BigcpError)
    ensures
        error@ == FailureView::Audit(
            report_lost_text(
                progress@,
                match progress@.report_failure {
                    Some(primary) => primary,
                    None => seq![],
                },
                failure@,
            ),
        ),
{
    let mut text = "report failed at ".to_owned();
    text.append(progress.report_path.to_text_lossy().as_str());
    text.append(" (");
    match &progress.report_failure {
        Some(primary) => {
            text.append(primary.as_str());
        },
        None => {},
    }
    text.append(") and fallback ");
    text.append(progress.fallback_path.to_text_lossy().as_str());
    text.append(" failed (");
    text.append(failure);
    text.append(")");
    assert(text@ =~= report_lost_text(
        progress@,
        match progress@.report_failure {
            Some(primary) => primary,
            None => seq![],
        },
        failure@,
    ));
    BigcpError::Audit(text)
}

impl RunProgress {
    /// Before the first step of a run.
    pub fn start(report_path: WidePath, fallback_path: WidePath) -> (progress: RunProgress)
        ensures
            progress@ == (ProgressView {
                journal: false,
                verification: None,
                breach: None,
                exit: 0,
                report_failure: None,
                report_path: report_path@,
                fallback_path: fallback_path@,
            }),
    {
        RunProgress {
            journal: false,
            verification: None,
            breach: None,
            exit: 0,
            report_failure: None,
            report_path,
            fallback_path,
        }
    }
}

/// The first step of a run.
pub fn start_run(options: &CopyOptions) -> (step: RunStep)
    ensures
        step@ == run_start(*options),
{
    if options.dry_run {
        RunStep::ReadRoot
    } else {
        RunStep::OpenJournal
    }
}

/// Decides the next operation of a run, and what is made known of it.
#[verifier::rlimit(60)]
#[verifier::spinoff_prover]
pub fn run_copy(
    options: &CopyOptions,
    policy: FilesystemPolicy,
    progress: &mut RunProgress,
    ledger: &mut Ledger,
    step: RunStep,
    reply: RunReply,
) -> (next: RunStep)
    requires
        run_answers(step@, reply@),
    ensures
        run_next(*options, policy, old(progress)@, old(ledger)@, step@, reply@) == (
            next@,
            final(progress)@,
            final(ledger)@,
        ),
{
    match (step, reply) {
        (RunStep::OpenJournal, RunReply::Journal(opening)) => {
            progress.journal = note_journal(ledger, &opening);
            RunStep::ReadRoot
        },
        (RunStep::ReadRoot, RunReply::Root(read)) => match read {
            Err(error) => RunStep::Failed {
                error: BigcpError::io("read source root metadata", error),
            },
            Ok(kind) => {
                if kind == ObjectKind::Directory {
                    if policy.is_degraded() {
                        ledger.increment_warning("degraded_filesystem");
                    }
                    ledger.publish(RunState::Copying);
                    RunStep::CopyTree
                } else {
                    RunStep::Failed {
                        error: BigcpError::Invalid(
                            "source must resolve to a real directory, not a file or reparse point".to_owned(),
                        ),
                    }
                }
            },
        },
        (RunStep::CopyTree, RunReply::Copied(copied)) => match copied {
            Err(error) => RunStep::Failed { error },
            Ok(_) => {
                if options.verify && !options.dry_run {
                    ledger.publish(RunState::Verifying);
                    RunStep::Verify
                } else {
                    analyze(options, progress, ledger)
                }
            },
        },
        (RunStep::Verify, RunReply::Verified(summary)) => {
            ledger.emit(AuditEvent::Verification { verification: summary.copied() });
            progress.verification = Some(summary);
            analyze(options, progress, ledger)
        },
        (RunStep::Analyze, RunReply::Analyzed { logged, timing }) => match logged {
            Err(error) => RunStep::Failed { error },
            Ok(_) => {
                ledger.emit(warning("phase_timing", None, timing.as_str()));
                ledger.tell(timing.as_str());
                close(progress, ledger)
            },
        },
        (RunStep::EndJournal, RunReply::Ended(ended)) => {
            if ended {
                RunStep::CompactJournal
            } else {
                ledger.warn(
                    "checkpointing_disabled",
                    None,
                    "journal run-end marker could not be written",
                );
                progress.journal = false;
                conclude(ledger);
                RunStep::WriteReport
            }
        },
        (RunStep::CompactJournal, RunReply::Compacted(failure)) => {
            if let Some(text) = &failure {
                let mut message = "journal could not be compacted after run end: ".to_owned();
                message.append(text.as_str());
                ledger.warn("journal_compaction_failed", None, message.as_str());
            }
            conclude(ledger);
            RunStep::WriteReport
        },
        (RunStep::WriteReport, RunReply::Reported { log_degraded, failure }) => match failure {
            None => {
                end_run(options, progress, ledger, log_degraded);
                RunStep::FinishLog
            },
            Some(text) => {
                let message = fallback_message(progress, text.as_str());
                ledger.increment_warning("report_fallback");
                ledger.announce("report_fallback", message.as_str(), message.as_str());
                progress.report_failure = Some(text);
                RunStep::WriteFallback
            },
        },
        (RunStep::WriteFallback, RunReply::Reported { failure, .. }) => match failure {
            None => {
                end_run(options, progress, ledger, true);
                RunStep::FinishLog
            },
            Some(text) => RunStep::Failed { error: report_lost(progress, text.as_str()) },
        },
        (RunStep::FinishLog, RunReply::Logged(logged)) => match logged {
            Err(error) => RunStep::Failed { error },
            Ok(_) => match &progress.breach {
                Some(message) => RunStep::Failed { error: BigcpError::Invariant(message.clone()) },
                None => RunStep::Finished { exit: progress.exit },
            },
        },
        (step, _) => step,
    }
}

/// One hint as values.
#[verifier::ext_equal]
pub ghost struct HintView {
    pub id: Seq<char>,
    pub text: Seq<char>,
    pub confidence: Seq<char>,
}

impl View for Hint {
    type V = HintView;

    open spec fn view(&self) -> HintView {
        HintView { id: self.id@, text: self.text@, confidence: self.confidence@ }
    }
}

/// Hints as values.
pub open spec fn hint_views(list: Seq<Hint>) -> Seq<HintView> {
    list.map_values(|hint: Hint| hint@)
}

/// The hints with one more, where it applies.
pub open spec fn hinted(list: Seq<HintView>, applies: bool, id: Seq<char>, text: Seq<char>) -> Seq<
    HintView,
> {
    if applies {
        list.push(HintView { id, text, confidence: "high"@ })
    } else {
        list
    }
}

/// The hint on a remote side.
pub open spec fn remote_hint(facts: FactsView) -> Seq<char> {
    "Remote endpoint active (source: "@ + facts.source_volume.endpoint.spec_name()
        + ", destination: "@ + facts.destination_volume.endpoint.spec_name()
        + "). Re-run after any disconnect; --verify checks the completed tree but cannot force or attest server-side cache durability"@
}

/// The hint on one rotational disk.
pub open spec fn spindle_hint(burst_bytes: usize) -> Seq<char> {
    "Source and destination share rotational media; the "@ + decimal(
        (burst_bytes / MEBIBYTE) as nat,
    )
        + " MiB phased transport was active. A destination on a separate physical drive can still be faster because one spindle cannot read and write simultaneously"@
}

/// The hints of a run, in order.
pub open spec fn spec_hints(facts: FactsView, counters: Counters) -> Seq<HintView> {
    let remote = hinted(
        seq![],
        facts.is_remote(),
        "remote_endpoint"@,
        remote_hint(facts),
    );
    let wsl = hinted(
        remote,
        facts.source_volume.endpoint is Wsl || facts.destination_volume.endpoint is Wsl,
        "wsl_interop"@,
        "WSL UNC access crosses the Windows/Linux 9P boundary. Native Linux copy tools remain faster for sustained Linux-filesystem work; review projected metadata and unsupported reparse failures"@,
    );
    let fat = hinted(
        wsl,
        facts.destination_volume.filesystem.spec_is_fat_family(),
        "degraded_filesystem"@,
        facts.destination_volume.filesystem.spec_name()
            + " cannot preserve NTFS/ReFS-only metadata. Review streams_dropped, ea_dropped, fs_limit, and link failures; use NTFS when full fidelity is required"@,
    );
    let cache = hinted(
        fat,
        facts.write_cache_disabled,
        "quick_removal_destination"@,
        "Destination write caching is off (Quick-removal policy). Switching the drive to 'Better performance' with 'Enable write caching on the device' checked sped this class of workload ~3.4x in measurement; leave 'Turn off Windows write-cache buffer flushing' UNCHECKED, and always use Safely Remove before unplugging"@,
    );
    let spindle = hinted(
        cache,
        facts.profile.transport.kind is SameSpindle,
        "same_spindle_transport"@,
        spindle_hint(facts.profile.transport.burst_bytes),
    );
    let failures = hinted(
        spindle,
        counters.failed > 0,
        "rerun_failures"@,
        "Resolve the grouped errors, then run the same command again; completed files will skip"@,
    );
    hinted(
        failures,
        facts.source_volume.filesystem is Refs && facts.destination_volume.filesystem is Refs
            && facts.source_volume.serial == facts.destination_volume.serial
            && facts.destination_volume.capabilities.block_refcounting,
        "refs_clone"@,
        "This is a same-volume ReFS copy; the OS copy engine may block-clone it much faster"@,
    )
}

fn push_hint(hints: &mut Vec<Hint>, applies: bool, id: &str, text: &str)
    ensures
        hint_views(final(hints)@) == hinted(hint_views(old(hints)@), applies, id@, text@),
{
    let ghost before = hint_views(hints@);
    if applies {
        hints.push(
            Hint { id: id.to_owned(), text: text.to_owned(), confidence: "high".to_owned() },
        );
        assert(hint_views(hints@) =~= hinted(before, applies, id@, text@));
    }
}

/// What a user could do better next time, from the facts of a run.
pub fn derive_hints(facts: &RunFacts, counters: &Counters) -> (hints: Vec<Hint>)
    ensures
        hint_views(hints@) == spec_hints(facts@, *counters),
{
    let mut hints: Vec<Hint> = Vec::new();
    assert(hint_views(hints@) =~= Seq::<HintView>::empty());
    let mut remote = "Remote endpoint active (source: ".to_owned();
    remote.append(facts.source_volume.endpoint.name());
    remote.append(", destination: ");
    remote.append(facts.destination_volume.endpoint.name());
    remote.append(
        "). Re-run after any disconnect; --verify checks the completed tree but cannot force or attest server-side cache durability",
    );
    push_hint(
        &mut hints,
        facts.source_volume.endpoint.is_remote() || facts.destination_volume.endpoint.is_remote(),
        "remote_endpoint",
        remote.as_str(),
    );
    push_hint(
        &mut hints,
        facts.source_volume.endpoint == EndpointKind::Wsl || facts.destination_volume.endpoint
            == EndpointKind::Wsl,
        "wsl_interop",
        "WSL UNC access crosses the Windows/Linux 9P boundary. Native Linux copy tools remain faster for sustained Linux-filesystem work; review projected metadata and unsupported reparse failures",
    );
    let mut fat = facts.destination_volume.filesystem.name().to_owned();
    fat.append(
        " cannot preserve NTFS/ReFS-only metadata. Review streams_dropped, ea_dropped, fs_limit, and link failures; use NTFS when full fidelity is required",
    );
    push_hint(
        &mut hints,
        facts.destination_volume.filesystem.is_fat_family(),
        "degraded_filesystem",
        fat.as_str(),
    );
    push_hint(
        &mut hints,
        facts.write_cache_disabled,
        "quick_removal_destination",
        "Destination write caching is off (Quick-removal policy). Switching the drive to 'Better performance' with 'Enable write caching on the device' checked sped this class of workload ~3.4x in measurement; leave 'Turn off Windows write-cache buffer flushing' UNCHECKED, and always use Safely Remove before unplugging",
    );
    let mut spindle = "Source and destination share rotational media; the ".to_owned();
    push_decimal(&mut spindle, (facts.profile.transport.burst_bytes / MEBIBYTE) as u64);
    spindle.append(
        " MiB phased transport was active. A destination on a separate physical drive can still be faster because one spindle cannot read and write simultaneously",
    );
    push_hint(
        &mut hints,
        facts.profile.transport.is_same_spindle(),
        "same_spindle_transport",
        spindle.as_str(),
    );
    push_hint(
        &mut hints,
        counters.failed > 0,
        "rerun_failures",
        "Resolve the grouped errors, then run the same command again; completed files will skip",
    );
    push_hint(
        &mut hints,
        facts.source_volume.filesystem == FileSystem::Refs && facts.destination_volume.filesystem
            == FileSystem::Refs && facts.source_volume.serial == facts.destination_volume.serial
            && facts.destination_volume.capabilities.block_refcounting,
        "refs_clone",
        "This is a same-volume ReFS copy; the OS copy engine may block-clone it much faster",
    );
    hints
}

/// A dry run never touches the journal: no step of it opens, ends or compacts
/// one.
pub proof fn dry_run_leaves_the_journal_alone(
    options: CopyOptions,
    policy: FilesystemPolicy,
    progress: ProgressView,
    ledger: LedgerView,
    step: RunStepView,
    reply: RunReplyView,
)
    requires
        options.dry_run,
        run_answers(step, reply),
        !progress.journal,
        !(step is OpenJournal) && !(step is EndJournal) && !(step is CompactJournal),
    ensures
        !(run_start(options) is OpenJournal),
        ({
            let (next, after, _) = run_next(options, policy, progress, ledger, step, reply);
            !after.journal && !(next is OpenJournal) && !(next is EndJournal) && !(next
                is CompactJournal) && !(next is Verify)
        }),
{
}

/// The end record is the last one that the log gets, and every run that
/// finishes has one.
pub proof fn run_end_is_the_last_record(
    options: CopyOptions,
    policy: FilesystemPolicy,
    progress: ProgressView,
    ledger: LedgerView,
    step: RunStepView,
    reply: RunReplyView,
)
    requires
        run_answers(step, reply),
    ensures
        ({
            let (next, _, after) = run_next(options, policy, progress, ledger, step, reply);
            &&& next is FinishLog ==> after.notices.len() > 0 && (after.notices.last()
                matches NoticeView::Event(event) && event is RunEnd)
            &&& next is Finished ==> step is FinishLog
            &&& step is FinishLog ==> after == ledger
        }),
{
}

/// The exit codes have a fixed priority: counters that do not add up, then the
/// breaker, then a graceful stop, then failed objects.
pub proof fn exit_codes_have_priorities(
    ledger: LedgerView,
    verification: Option<VerificationView>,
)
    ensures
        breach_of(ledger) is Some <==> exit_of(ledger, verification) == 6,
        exit_of(ledger, verification) == 4 <==> breach_of(ledger) is None && ledger.breaker is Some,
        exit_of(ledger, verification) == 3 <==> breach_of(ledger) is None && ledger.breaker is None
            && ledger.canceled,
        exit_of(ledger, verification) == 0 ==> ledger.counters.failed == 0
            && ledger.counters.dirs_failed == 0 && ledger.counters.dirs_meta_failed == 0
            && ledger.counters.links_failed == 0 && !found_mismatch(verification),
        exit_of(ledger, verification) == 0 || exit_of(ledger, verification) == 2 || exit_of(
            ledger,
            verification,
        ) == 3 || exit_of(ledger, verification) == 4 || exit_of(ledger, verification) == 6,
{
}

/// A run whose counters do not add up still gets its report and its end
/// record, and then fails.
pub proof fn breach_is_reported_and_fails(
    options: CopyOptions,
    policy: FilesystemPolicy,
    progress: ProgressView,
    ledger: LedgerView,
)
    requires
        breach_of(ledger) is Some,
    ensures
        ({
            let (next, after, told) = closed(progress, ledger);
            &&& next is EndJournal || next is WriteReport
            &&& after.breach == breach_of(ledger)
            &&& after.exit == 6
            &&& run_next(
                options,
                policy,
                after,
                told,
                RunStepView::FinishLog,
                RunReplyView::Logged(Ok(())),
            ).0 == (RunStepView::Failed {
                failure: FailureView::Invariant(breach_of(ledger)->0),
            })
        }),
{
}

/// What a run does after each of its parts. A dry run neither opens a journal
/// nor verifies; a verification follows a copy exactly if it is asked for; an
/// analysis follows exactly if it is asked for; the journal is ended exactly if
/// it is open, and compacted exactly if it was ended.
#[verifier::rlimit(40)]
pub proof fn run_takes_its_parts_in_order(
    options: CopyOptions,
    policy: FilesystemPolicy,
    progress: ProgressView,
    ledger: LedgerView,
    step: RunStepView,
    reply: RunReplyView,
)
    requires
        run_answers(step, reply),
    ensures
        run_start(options) is OpenJournal <==> !options.dry_run,
        run_start(options) is ReadRoot <==> options.dry_run,
        ({
            let (next, after, _) = run_next(options, policy, progress, ledger, step, reply);
            let copied = step is CopyTree && reply->Copied_0 is Ok;
            let verifies = options.verify && !options.dry_run;
            let closes = copied && !verifies && !options.analyze || step is Verify
                && !options.analyze || step is Analyze && reply->logged is Ok;
            &&& next is CopyTree <==> step is ReadRoot && reply == RunReplyView::Root(
                Ok(ObjectKind::Directory),
            )
            &&& next is Verify <==> copied && verifies
            &&& next is Analyze <==> options.analyze && (copied && !verifies || step is Verify)
            &&& next is EndJournal <==> closes && progress.journal
            &&& next is CompactJournal <==> step is EndJournal && reply == RunReplyView::Ended(true)
            &&& next is WriteReport <==> closes && !progress.journal || step is CompactJournal || (
            step is EndJournal && reply == RunReplyView::Ended(false))
            &&& next is WriteFallback <==> step is WriteReport && reply->failure is Some
            &&& next is FinishLog <==> (step is WriteReport || step is WriteFallback)
                && reply->failure is None
            &&& next matches RunStepView::Finished { exit } ==> step is FinishLog && exit
                == progress.exit && progress.breach is None
            &&& step is FinishLog && progress.breach is Some ==> next is Failed
            &&& step is OpenJournal ==> (after.journal <==> reply->Journal_0 is Open)
            &&& step is Verify ==> after.verification == Some(reply->Verified_0)
            &&& closes ==> after.exit == exit_of(
                ledger,
                if step is Verify {
                    Some(reply->Verified_0)
                } else {
                    progress.verification
                },
            ) || step is Analyze || step is Verify
        }),
{
}

/// The exit of a run, from what it counted. Counters that do not add up come
/// first, then the breaker, then a cancellation, then any failure or mismatch;
/// only a run with none of these ends with 0.
pub proof fn exit_is_told_by_the_counts(
    ledger: LedgerView,
    verification: Option<VerificationView>,
)
    ensures
        ({
            let exit = exit_of(ledger, verification);
            let sound = ledger.counters.reconciles() && folders_agree(
                ledger.folders,
                ledger.counters,
            );
            let failures = ledger.counters.failed > 0 || ledger.counters.dirs_failed > 0
                || ledger.counters.dirs_meta_failed > 0 || ledger.counters.links_failed > 0 || (
            verification matches Some(summary) && summary.failed > 0);
            &&& exit == 6 <==> !sound
            &&& exit == 4 <==> sound && ledger.breaker is Some
            &&& exit == 3 <==> sound && ledger.breaker is None && ledger.canceled
            &&& exit == 2 <==> sound && ledger.breaker is None && !ledger.canceled && failures
            &&& exit == 0 <==> sound && ledger.breaker is None && !ledger.canceled && !failures
        }),
{
}

/// The record that ends a log says what was counted, whether the data was
/// flushed, whether the log is whole, whether the counters add up, and the exit.
pub proof fn run_end_says_how_the_run_went(
    options: CopyOptions,
    progress: ProgressView,
    ledger: LedgerView,
    audit_degraded: bool,
)
    ensures
        with_run_end(options, progress, ledger, audit_degraded).notices.last()
            matches NoticeView::Event(event) && (event matches EventView::RunEnd {
            counters,
            durability,
            audit,
            integrity,
            exit,
        } && {
            &&& counters == ledger.counters
            &&& durability == if options.flush {
                "durable"@
            } else {
                "logical"@
            }
            &&& audit == if audit_degraded {
                "degraded"@
            } else {
                "ok"@
            }
            &&& integrity == if progress.breach is Some {
                "failed"@
            } else {
                "ok"@
            }
            &&& exit == progress.exit
        }),
{
}

/// A report holds one hint for each fact that calls for one, and no other.
pub proof fn every_hint_has_its_fact(facts: FactsView, counters: Counters)
    ensures
        ({
            let one = |yes: bool| -> int { if yes { 1int } else { 0int } };
            let source = facts.source_volume;
            let destination = facts.destination_volume;
            spec_hints(facts, counters).len() == one(
                !(source.endpoint is Local) || !(destination.endpoint is Local),
            ) + one(source.endpoint is Wsl || destination.endpoint is Wsl) + one(
                destination.filesystem is Fat || destination.filesystem is ExFat,
            ) + one(facts.write_cache_disabled) + one(
                facts.profile.transport.kind is SameSpindle,
            ) + one(counters.failed > 0) + one(
                source.filesystem is Refs && destination.filesystem is Refs && source.serial
                    == destination.serial && destination.capabilities.block_refcounting,
            )
        }),
{
}

/// A run opens its log with what was asked for and the profile it goes by, and
/// then tells each circumstance that changes what a copy can promise, and none
/// that does not hold.
pub proof fn start_tells_what_matters(ledger: LedgerView, options: CopyOptions, facts: FactsView)
    ensures
        ({
            let after = ledger.announcing(options, facts);
            let before = ledger.notices.len() as int;
            let spindle = facts.profile.transport.kind is SameSpindle;
            let remote = !(facts.source_volume.endpoint is Local)
                || !(facts.destination_volume.endpoint is Local);
            let degraded = facts.policy().spec_is_degraded();
            &&& after.counters == ledger.counters
            &&& after.errors == ledger.errors
            &&& after.warnings == ledger.warnings
            &&& after.canceled == ledger.canceled
            &&& ledger.notices.is_prefix_of(after.notices)
            &&& after.notices.len() == before + 2 + (if spindle {
                1int
            } else {
                0
            }) + (if remote {
                2int
            } else {
                0
            }) + (if facts.write_cache_disabled {
                2int
            } else {
                0
            }) + (if degraded {
                2int
            } else {
                0
            })
            &&& (after.notices[before] matches NoticeView::Event(
                EventView::RunStart { run_id, source, destination, dry_run, verify, replace, .. },
            ) && run_id == facts.run_id && source == audit_path(facts.source) && destination
                == audit_path(facts.destination) && dry_run == options.dry_run && verify
                == options.verify && replace == options.replace)
            &&& (after.notices[before + 1] matches NoticeView::Event(
                EventView::Profile {
                    source_endpoint,
                    destination_endpoint,
                    chunk_bytes,
                    workers,
                    same_physical_disk,
                    transport,
                    burst_bytes,
                    ..
                },
            ) && source_endpoint == facts.profile.source.endpoint && destination_endpoint
                == facts.profile.destination.endpoint && chunk_bytes == facts.profile.chunk_bytes
                && workers == facts.profile.workers && same_physical_disk
                == facts.profile.same_physical_disk && transport == facts.profile.transport.kind
                && burst_bytes == facts.profile.transport.burst_bytes)
            &&& (degraded ==> (after.notices.last() matches NoticeView::Event(
                EventView::Warning { kind, .. },
            ) && kind == "degraded_filesystem"@))
        }),
{
}

/// Two device classes are never told by one name.
pub proof fn class_names_differ(one: DeviceClass, other: DeviceClass)
    requires
        spec_class_name(one) == spec_class_name(other),
    ensures
        one == other,
{
    reveal_strlit("Auto");
    reveal_strlit("Nvme");
    reveal_strlit("SataSsd");
    reveal_strlit("UsbSsd");
    reveal_strlit("Hdd");
    reveal_strlit("Unknown");
    assert("Auto"@.len() == 4 && "Auto"@[0] == 'A');
    assert("Nvme"@.len() == 4 && "Nvme"@[0] == 'N');
    assert("SataSsd"@.len() == 7 && "SataSsd"@[0] == 'S');
    assert("UsbSsd"@.len() == 6);
    assert("Hdd"@.len() == 3);
    assert("Unknown"@.len() == 7 && "Unknown"@[0] == 'U');
}

} // verus!
