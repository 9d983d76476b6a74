//! Audit events and the failover of the audit log.

use vstd::prelude::*;
use vstd::string::*;

use crate::error::{BigcpError, ErrorView, OperationError};
use crate::keys::{spec_utf16le_hex, utf16le_hex};
use crate::model::Counters;
use crate::path::{lossy_text, unpaired_from, WidePath};
use crate::platform::EndpointKind;
use crate::report::{VerificationSummary, VerificationView};
use crate::text::texts;
use crate::transport::TransportKind;

verus! {

/// A display path plus lossless UTF-16 when lossy conversion was necessary.
#[derive(Clone, Debug, PartialEq, Eq)]
pub struct AuditPath {
    /// Human-readable representation.
    pub path: String,
    /// Little-endian UTF-16 bytes in hex, present only for lossy names.
    pub path_raw: Option<String>,
}

/// An audit path as values.
#[verifier::ext_equal]
pub ghost struct AuditPathView {
    pub path: Seq<char>,
    pub path_raw: Option<Seq<char>>,
}

/// The text in an optional string.
pub open spec fn opt_text(text: Option<String>) -> Option<Seq<char>> {
    match text {
        Some(text) => Some(text@),
        None => None,
    }
}

impl View for AuditPath {
    type V = AuditPathView;

    open spec fn view(&self) -> AuditPathView {
        AuditPathView { path: self.path@, path_raw: opt_text(self.path_raw) }
    }
}

/// How a path appears in the audit log: its text, and its units in hex where
/// the text had to replace one.
pub open spec fn audit_path(units: Seq<u16>) -> AuditPathView {
    AuditPathView {
        path: lossy_text(units),
        path_raw: if unpaired_from(units, 0) {
            Some(spec_utf16le_hex(units))
        } else {
            None
        },
    }
}

impl AuditPath {
    /// Captures a path without losing audit identity.
    pub fn from_path(path: &WidePath) -> (audit: Self)
        ensures
            audit@ == audit_path(path@),
    {
        let path_raw = if path.is_lossy() {
            Some(utf16le_hex(path))
        } else {
            None
        };
        AuditPath { path: path.to_text_lossy(), path_raw }
    }
}

/// Fields required to audit an overwrite decision.
#[derive(Clone, Debug, PartialEq, Eq)]
pub struct ReplacementEvent {
    /// Previous logical size.
    pub old_size: u64,
    /// Previous last-write FILETIME.
    pub old_mtime: i64,
    /// Previous raw attributes.
    pub old_attributes: u32,
    /// Whether the previous destination was newer.
    pub destination_newer: bool,
    /// Fields that caused replacement.
    pub differences: Vec<String>,
}

/// An overwrite decision as values.
#[verifier::ext_equal]
pub ghost struct ReplacementView {
    pub old_size: u64,
    pub old_mtime: i64,
    pub old_attributes: u32,
    pub destination_newer: bool,
    pub differences: Seq<Seq<char>>,
}

impl View for ReplacementEvent {
    type V = ReplacementView;

    open spec fn view(&self) -> ReplacementView {
        ReplacementView {
            old_size: self.old_size,
            old_mtime: self.old_mtime,
            old_attributes: self.old_attributes,
            destination_newer: self.destination_newer,
            differences: texts(self.differences@),
        }
    }
}

/// Log event families that follow from decisions. Periodic rates are measured
/// where the clock is.
#[derive(Clone, Debug, PartialEq, Eq)]
pub enum AuditEvent {
    /// Run configuration and resolved roots.
    RunStart {
        /// Schema version.
        v: u32,
        /// Unique run identifier.
        run_id: String,
        /// Source root.
        source: AuditPath,
        /// Destination root.
        destination: AuditPath,
        /// Dry-run status.
        dry_run: bool,
        /// Verification status.
        verify: bool,
        /// Replacement authorization.
        replace: bool,
    },
    /// Static profile selected before copy I/O.
    Profile {
        /// Source class.
        source_class: String,
        /// Destination class.
        destination_class: String,
        /// Source access endpoint.
        source_endpoint: EndpointKind,
        /// Destination access endpoint.
        destination_endpoint: EndpointKind,
        /// Composed chunk bytes.
        chunk_bytes: usize,
        /// Small-file worker cap.
        workers: usize,
        /// Whether volume extents intersect.
        same_physical_disk: bool,
        /// Effective transport strategy.
        transport: TransportKind,
        /// Maximum bytes staged per transport phase.
        burst_bytes: usize,
    },
    /// Directory discovery or completion.
    Directory {
        /// What became of the directory.
        action: String,
        /// Relative object path.
        rel: AuditPath,
    },
    /// File or link terminal outcome.
    File {
        /// Stable terminal action such as copied, skipped, or failed.
        action: String,
        /// Relative object path.
        rel: AuditPath,
        /// Logical source bytes represented by the outcome.
        size: u64,
        /// Optional content digest.
        hash: Option<String>,
        /// Replacement decision detail.
        replacement: Option<ReplacementEvent>,
        /// Failure detail.
        error: Option<OperationError>,
        /// Non-error reason.
        reason: Option<String>,
    },
    /// Non-file object failure with complete operation context.
    Error {
        /// The failure.
        error: OperationError,
    },
    /// Destination-only object.
    Extra {
        /// Relative path.
        rel: AuditPath,
    },
    /// Capability or policy warning.
    Warning {
        /// Stable warning identifier.
        kind: String,
        /// Optional object path.
        rel: Option<AuditPath>,
        /// Human-readable detail.
        message: String,
    },
    /// Same-run verification closure.
    Verification {
        /// Complete bounded verification result also stored in the report.
        verification: VerificationSummary,
    },
    /// Run terminal record.
    RunEnd {
        /// Exact final counters.
        counters: Counters,
        /// logical or durable.
        durability: String,
        /// ok, degraded, or failed.
        audit: String,
        /// ok or failed.
        integrity: String,
        /// Process exit code.
        exit: i32,
    },
}

/// A log event as values.
#[verifier::ext_equal]
pub ghost enum EventView {
    RunStart {
        v: u32,
        run_id: Seq<char>,
        source: AuditPathView,
        destination: AuditPathView,
        dry_run: bool,
        verify: bool,
        replace: bool,
    },
    Profile {
        source_class: Seq<char>,
        destination_class: Seq<char>,
        source_endpoint: EndpointKind,
        destination_endpoint: EndpointKind,
        chunk_bytes: usize,
        workers: usize,
        same_physical_disk: bool,
        transport: TransportKind,
        burst_bytes: usize,
    },
    Directory { action: Seq<char>, rel: AuditPathView },
    File {
        action: Seq<char>,
        rel: AuditPathView,
        size: u64,
        hash: Option<Seq<char>>,
        replacement: Option<ReplacementView>,
        error: Option<ErrorView>,
        reason: Option<Seq<char>>,
    },
    Error { error: ErrorView },
    Extra { rel: AuditPathView },
    Warning { kind: Seq<char>, rel: Option<AuditPathView>, message: Seq<char> },
    Verification { verification: VerificationView },
    RunEnd {
        counters: Counters,
        durability: Seq<char>,
        audit: Seq<char>,
        integrity: Seq<char>,
        exit: i32,
    },
}

/// The overwrite decision in an optional event field.
pub open spec fn opt_replacement(event: Option<ReplacementEvent>) -> Option<ReplacementView> {
    match event {
        Some(event) => Some(event@),
        None => None,
    }
}

/// The failure in an optional event field.
pub open spec fn opt_error(error: Option<OperationError>) -> Option<ErrorView> {
    match error {
        Some(error) => Some(error@),
        None => None,
    }
}

impl View for AuditEvent {
    type V = EventView;

    open spec fn view(&self) -> EventView {
        match *self {
            AuditEvent::RunStart { v, run_id, source, destination, dry_run, verify, replace } =>
                EventView::RunStart {
                v,
                run_id: run_id@,
                source: source@,
                destination: destination@,
                dry_run,
                verify,
                replace,
            },
            AuditEvent::Profile {
                source_class,
                destination_class,
                source_endpoint,
                destination_endpoint,
                chunk_bytes,
                workers,
                same_physical_disk,
                transport,
                burst_bytes,
            } => EventView::Profile {
                source_class: source_class@,
                destination_class: destination_class@,
                source_endpoint,
                destination_endpoint,
                chunk_bytes,
                workers,
                same_physical_disk,
                transport,
                burst_bytes,
            },
            AuditEvent::Directory { action, rel } => EventView::Directory {
                action: action@,
                rel: rel@,
            },
            AuditEvent::File { action, rel, size, hash, replacement, error, reason } =>
                EventView::File {
                action: action@,
                rel: rel@,
                size,
                hash: opt_text(hash),
                replacement: opt_replacement(replacement),
                error: opt_error(error),
                reason: opt_text(reason),
            },
            AuditEvent::Error { error } => EventView::Error { error: error@ },
            AuditEvent::Extra { rel } => EventView::Extra { rel: rel@ },
            AuditEvent::Warning { kind, rel, message } => EventView::Warning {
                kind: kind@,
                rel: match rel {
                    Some(rel) => Some(rel@),
                    None => None,
                },
                message: message@,
            },
            AuditEvent::Verification { verification } => EventView::Verification {
                verification: verification@,
            },
            AuditEvent::RunEnd { counters, durability, audit, integrity, exit } =>
                EventView::RunEnd {
                counters,
                durability: durability@,
                audit: audit@,
                integrity: integrity@,
                exit,
            },
        }
    }
}

/// Builds a warning event.
pub fn warning(kind: &str, rel: Option<&WidePath>, message: &str) -> (event: AuditEvent)
    ensures
        event@ == warning_view(
            kind@,
            match rel {
                Some(rel) => Some(rel@),
                None => None,
            },
            message@,
        ),
{
    AuditEvent::Warning {
        kind: kind.to_owned(),
        rel: match rel {
            Some(rel) => Some(AuditPath::from_path(rel)),
            None => None,
        },
        message: message.to_owned(),
    }
}

/// A warning event as values.
pub open spec fn warning_view(
    kind: Seq<char>,
    rel: Option<Seq<u16>>,
    message: Seq<char>,
) -> EventView {
    EventView::Warning {
        kind,
        rel: match rel {
            Some(rel) => Some(audit_path(rel)),
            None => None,
        },
        message,
    }
}

/// The text that announces a failover.
pub open spec fn failover_text(primary: Seq<u16>, fallback: Seq<u16>) -> Seq<char> {
    "JSONL log failed over from "@ + lossy_text(primary) + " to "@ + lossy_text(fallback)
}

/// The event that announces a failover inside the new log.
pub fn failover_notice(primary: &WidePath, fallback: &WidePath) -> (event: AuditEvent)
    ensures
        event@ == warning_view("log_failover"@, None, failover_text(primary@, fallback@)),
{
    let mut message = "JSONL log failed over from ".to_owned();
    message.append(primary.to_text_lossy().as_str());
    message.append(" to ");
    message.append(fallback.to_text_lossy().as_str());
    warning("log_failover", None, message.as_str())
}

/// What became of one attempted log operation.
#[derive(Clone, Copy, Debug, PartialEq, Eq, Structural)]
pub enum LogReply {
    /// The operation completed.
    Done,
    /// The operation failed and left the log as it was: nothing was appended,
    /// or the partial line was truncated away.
    RolledBack,
    /// The operation failed and left a partial line behind.
    Torn,
}

/// The next operation in writing one event.
#[derive(Clone, Copy, Debug, PartialEq, Eq, Structural)]
pub enum EmitStep {
    /// Append the event to the open log.
    Append,
    /// Open the current log again.
    Reopen,
    /// Append the event to the log that was opened again.
    AppendAgain,
    /// Open the fallback log.
    OpenFallback,
    /// Append the failover notice to the fallback log.
    Notice,
    /// Open the fallback log again.
    ReopenFallback,
    /// Append the failover notice to the log that was opened again.
    NoticeAgain,
    /// Append the event behind the failover notice.
    AppendToFallback,
    /// The event is in the log.
    Written,
    /// The fallback log holds a partial line and nothing safe is left.
    FallbackTorn,
    /// Neither log could take the event.
    FailoverFailed,
}

/// Where the log stands between two events.
#[derive(Clone, Copy, Debug, PartialEq, Eq, Structural)]
pub struct LogState {
    /// Whether events go to the fallback log.
    pub on_fallback: bool,
    /// Whether a failover was required.
    pub degraded: bool,
}

/// What follows once the current log has failed an event for good.
pub open spec fn after_current_failed(state: LogState, torn: bool) -> EmitStep {
    if torn && state.on_fallback {
        EmitStep::FallbackTorn
    } else {
        EmitStep::OpenFallback
    }
}

/// The step that follows a reply.
pub open spec fn spec_next_step(state: LogState, step: EmitStep, reply: LogReply) -> EmitStep {
    match step {
        EmitStep::Append => match reply {
            LogReply::Done => EmitStep::Written,
            LogReply::RolledBack => EmitStep::Reopen,
            LogReply::Torn => after_current_failed(state, true),
        },
        EmitStep::Reopen => if reply is Done {
            EmitStep::AppendAgain
        } else {
            after_current_failed(state, false)
        },
        EmitStep::AppendAgain => match reply {
            LogReply::Done => EmitStep::Written,
            LogReply::RolledBack => after_current_failed(state, false),
            LogReply::Torn => after_current_failed(state, true),
        },
        EmitStep::OpenFallback => if reply is Done {
            EmitStep::Notice
        } else {
            EmitStep::FailoverFailed
        },
        EmitStep::Notice => match reply {
            LogReply::Done => EmitStep::AppendToFallback,
            LogReply::RolledBack => EmitStep::ReopenFallback,
            LogReply::Torn => EmitStep::FailoverFailed,
        },
        EmitStep::ReopenFallback => if reply is Done {
            EmitStep::NoticeAgain
        } else {
            EmitStep::FailoverFailed
        },
        EmitStep::NoticeAgain => if reply is Done {
            EmitStep::AppendToFallback
        } else {
            EmitStep::FailoverFailed
        },
        EmitStep::AppendToFallback => if reply is Done {
            EmitStep::Written
        } else {
            EmitStep::FailoverFailed
        },
        EmitStep::Written | EmitStep::FallbackTorn | EmitStep::FailoverFailed => step,
    }
}

/// The log state after a reply: opening the fallback log switches to it.
pub open spec fn spec_next_state(state: LogState, step: EmitStep, reply: LogReply) -> LogState {
    if step is OpenFallback && reply is Done {
        LogState { on_fallback: true, degraded: true }
    } else {
        state
    }
}

impl LogState {
    /// A log on its primary path.
    pub fn new() -> (state: LogState)
        ensures
            state == (LogState { on_fallback: false, degraded: false }),
    {
        LogState { on_fallback: false, degraded: false }
    }

    /// Whether failover was required.
    pub fn degraded(&self) -> (degraded: bool)
        ensures
            degraded == self.degraded,
    {
        self.degraded
    }

    fn current_failed(&self, torn: bool) -> (step: EmitStep)
        ensures
            step == after_current_failed(*self, torn),
    {
        if torn && self.on_fallback {
            EmitStep::FallbackTorn
        } else {
            EmitStep::OpenFallback
        }
    }

    /// Decides the next operation in writing one event from what became of the
    /// last one. A partial line that could not be truncated away poisons its
    /// file, so the event then goes elsewhere or nowhere.
    pub fn advance(&mut self, step: EmitStep, reply: LogReply) -> (next: EmitStep)
        ensures
            next == spec_next_step(*old(self), step, reply),
            *final(self) == spec_next_state(*old(self), step, reply),
    {
        match step {
            EmitStep::Append => match reply {
                LogReply::Done => EmitStep::Written,
                LogReply::RolledBack => EmitStep::Reopen,
                LogReply::Torn => self.current_failed(true),
            },
            EmitStep::Reopen => match reply {
                LogReply::Done => EmitStep::AppendAgain,
                _ => self.current_failed(false),
            },
            EmitStep::AppendAgain => match reply {
                LogReply::Done => EmitStep::Written,
                LogReply::RolledBack => self.current_failed(false),
                LogReply::Torn => self.current_failed(true),
            },
            EmitStep::OpenFallback => match reply {
                LogReply::Done => {
                    self.on_fallback = true;
                    self.degraded = true;
                    EmitStep::Notice
                },
                _ => EmitStep::FailoverFailed,
            },
            EmitStep::Notice => match reply {
                LogReply::Done => EmitStep::AppendToFallback,
                LogReply::RolledBack => EmitStep::ReopenFallback,
                LogReply::Torn => EmitStep::FailoverFailed,
            },
            EmitStep::ReopenFallback => match reply {
                LogReply::Done => EmitStep::NoticeAgain,
                _ => EmitStep::FailoverFailed,
            },
            EmitStep::NoticeAgain => match reply {
                LogReply::Done => EmitStep::AppendToFallback,
                _ => EmitStep::FailoverFailed,
            },
            EmitStep::AppendToFallback => match reply {
                LogReply::Done => EmitStep::Written,
                _ => EmitStep::FailoverFailed,
            },
            EmitStep::Written => EmitStep::Written,
            EmitStep::FallbackTorn => EmitStep::FallbackTorn,
            EmitStep::FailoverFailed => EmitStep::FailoverFailed,
        }
    }
}

/// The error of an event that no log could take.
pub open spec fn emit_error_text(
    step: EmitStep,
    primary: Seq<u16>,
    fallback: Seq<u16>,
    first: Seq<char>,
    failover: Seq<char>,
) -> Seq<char> {
    if step is FallbackTorn {
        "JSONL fallback log "@ + lossy_text(fallback)
            + " tore an event that could not be rolled back: "@ + first
    } else {
        "JSONL log failed at "@ + lossy_text(primary) + "; failover to "@ + lossy_text(fallback)
            + " also failed: "@ + first + "; "@ + failover
    }
}

/// The error of an event that no log could take, from the message of its first
/// failed append and that of the failed failover.
pub fn emit_error(
    step: EmitStep,
    primary: &WidePath,
    fallback: &WidePath,
    first: &str,
    failover: &str,
) -> (error: BigcpError)
    ensures
        error matches BigcpError::Audit(text) && text@ == emit_error_text(
            step,
            primary@,
            fallback@,
            first@,
            failover@,
        ),
{
    match step {
        EmitStep::FallbackTorn => {
            let mut text = "JSONL fallback log ".to_owned();
            text.append(fallback.to_text_lossy().as_str());
            text.append(" tore an event that could not be rolled back: ");
            text.append(first);
            BigcpError::Audit(text)
        },
        _ => {
            let mut text = "JSONL log failed at ".to_owned();
            text.append(primary.to_text_lossy().as_str());
            text.append("; failover to ");
            text.append(fallback.to_text_lossy().as_str());
            text.append(" also failed: ");
            text.append(first);
            text.append("; ");
            text.append(failover);
            BigcpError::Audit(text)
        },
    }
}

/// Whether a step appends to the log that is open.
pub open spec fn is_append(step: EmitStep) -> bool {
    step is Append || step is AppendAgain || step is Notice || step is NoticeAgain
        || step is AppendToFallback
}

/// Whether a step ends the writing of an event.
pub open spec fn is_last(step: EmitStep) -> bool {
    step is Written || step is FallbackTorn || step is FailoverFailed
}

/// How far a step is from the end.
pub open spec fn steps_left(step: EmitStep) -> int {
    match step {
        EmitStep::Append => 8,
        EmitStep::Reopen => 7,
        EmitStep::AppendAgain => 6,
        EmitStep::OpenFallback => 5,
        EmitStep::Notice => 4,
        EmitStep::ReopenFallback => 3,
        EmitStep::NoticeAgain => 2,
        EmitStep::AppendToFallback => 1,
        _ => 0,
    }
}

/// Nothing is ever appended behind a partial line: after a torn append the
/// event moves from the primary log to the fallback log, or is given up.
pub proof fn nothing_follows_a_torn_line(state: LogState, step: EmitStep)
    requires
        is_append(step),
    ensures
        ({
            let next = spec_next_step(state, step, LogReply::Torn);
            (next is OpenFallback && !state.on_fallback) || next is FallbackTorn
                || next is FailoverFailed
        }),
{
}

/// On the fallback log the failover notice precedes the event that was moved
/// there.
pub proof fn notice_precedes_the_moved_event(state: LogState, step: EmitStep, reply: LogReply)
    requires
        spec_next_step(state, step, reply) is AppendToFallback,
    ensures
        step is Notice || step is NoticeAgain,
        reply is Done,
{
}

/// Writing one event takes at most eight operations.
pub proof fn every_event_is_decided(state: LogState, step: EmitStep, reply: LogReply)
    ensures
        !is_last(step) ==> steps_left(spec_next_step(state, step, reply)) < steps_left(step),
        is_last(step) ==> spec_next_step(state, step, reply) == step,
        steps_left(step) <= 8,
{
}

/// The log is degraded exactly when events go to the fallback log.
pub proof fn degraded_means_on_fallback(state: LogState, step: EmitStep, reply: LogReply)
    requires
        state.degraded == state.on_fallback,
    ensures
        spec_next_state(state, step, reply).degraded == spec_next_state(
            state,
            step,
            reply,
        ).on_fallback,
{
}

/// What is known of one event while it is logged: what comes next, how often it
/// was appended, whether the move was noted in the fallback first, and whether
/// the log that is written to has a torn line.
pub ghost struct EmitScene {
    pub step: EmitStep,
    pub state: LogState,
    pub appended: int,
    pub noted: bool,
    pub torn: bool,
}

impl EmitScene {
    /// The scene before the event is appended.
    pub open spec fn fresh(state: LogState) -> EmitScene {
        EmitScene { step: EmitStep::Append, state, appended: 0, noted: false, torn: false }
    }

    /// The scene after an operation.
    pub open spec fn after(self, reply: LogReply) -> EmitScene {
        let event = self.step is Append || self.step is AppendAgain || self.step
            is AppendToFallback;
        let notice = self.step is Notice || self.step is NoticeAgain;
        EmitScene {
            step: spec_next_step(self.state, self.step, reply),
            state: spec_next_state(self.state, self.step, reply),
            appended: self.appended + if event && reply is Done {
                1int
            } else {
                0
            },
            noted: self.noted || (notice && reply is Done),
            torn: if self.step is OpenFallback && reply is Done {
                false
            } else {
                self.torn || ((event || notice) && reply is Torn)
            },
        }
    }

    /// The scene after a list of operations.
    pub open spec fn played(self, replies: Seq<LogReply>) -> EmitScene
        decreases replies.len(),
    {
        if replies.len() == 0 {
            self
        } else {
            self.played(replies.drop_last()).after(replies.last())
        }
    }
}

/// An event that is told as written stands in exactly one log exactly once; one
/// that is not stands in none. Nothing is appended behind a torn line. A log
/// that is moved to counts as degraded, and its first line says that it was
/// moved to.
pub proof fn event_is_logged_exactly_once(state: LogState, replies: Seq<LogReply>)
    requires
        state.degraded == state.on_fallback,
    ensures
        ({
            let scene = EmitScene::fresh(state).played(replies);
            let moved = scene.step is Notice || scene.step is ReopenFallback || scene.step
                is NoticeAgain || scene.step is AppendToFallback;
            &&& scene.appended == if scene.step is Written {
                1int
            } else {
                0
            }
            &&& scene.step is Append || scene.step is AppendAgain || scene.step is Notice
                || scene.step is NoticeAgain || scene.step is AppendToFallback ==> !scene.torn
            &&& scene.step is AppendToFallback ==> scene.noted
            &&& moved ==> scene.state.on_fallback
            &&& scene.step is Written && scene.state.on_fallback && !state.on_fallback
                ==> scene.noted
            &&& scene.state.degraded == scene.state.on_fallback
            &&& state.on_fallback ==> scene.state.on_fallback
            &&& scene.step is FallbackTorn ==> scene.torn
            &&& scene.step is Reopen ==> !scene.torn
            &&& scene.step is ReopenFallback ==> !scene.torn
            &&& !moved && !(scene.step is Written) && !(scene.step is FailoverFailed)
                ==> scene.state == state
        }),
    decreases replies.len(),
{
    if replies.len() > 0 {
        event_is_logged_exactly_once(state, replies.drop_last());
    }
}

/// A log keeps a path readable, and exactly where that loses something it keeps
/// every unit of it too.
pub proof fn logged_path_loses_nothing(units: Seq<u16>)
    ensures
        audit_path(units).path == lossy_text(units),
        audit_path(units).path_raw is Some <==> unpaired_from(units, 0),
        audit_path(units).path_raw matches Some(raw) ==> raw == spec_utf16le_hex(units),
{
}

/// A warning is logged with its own kind, path and text.
pub proof fn logged_warning_keeps_its_facts(
    kind: Seq<char>,
    rel: Option<Seq<u16>>,
    message: Seq<char>,
)
    ensures
        warning_view(kind, rel, message) matches EventView::Warning {
            kind: told,
            rel: path,
            message: text,
        } && told == kind && text == message && (path is Some <==> rel is Some) && (path is Some
            ==> path->0 == audit_path(rel->0)),
{
}

} // verus!
