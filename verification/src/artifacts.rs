//! Where the log, the report and the state of one run go.

use vstd::prelude::*;
use vstd::string::*;

use crate::cli::opt_path;
use crate::error::{BigcpError, FailureView, IoError};
use crate::identity::{
    audit_paths_failure, default_state, default_state_dir, path_pair_hash, run_artifact,
    spec_path_pair_hash, validate_audit_paths, ArtifactRole, IdentityView, PathIdentity,
};
use crate::options::CopyOptions;
use crate::path::{child_of, utf16_of, WidePath};
use crate::preflight::{io_failure, joined, path_views, prospective_path};

verus! {

/// The next operation in choosing the artifacts of one run.
#[derive(Debug, PartialEq, Eq)]
pub enum AuditStep {
    /// Make the path of an artifact absolute.
    Normalize {
        /// Which artifact.
        role: ArtifactRole,
        /// Its path.
        path: WidePath,
    },
    /// Find the nearest existing ancestor of an artifact.
    FindAncestor {
        /// Which artifact.
        role: ArtifactRole,
        /// Its absolute path.
        path: WidePath,
    },
    /// Open that ancestor.
    OpenAncestor {
        /// Which artifact.
        role: ArtifactRole,
    },
    /// Resolve that ancestor.
    ResolveAncestor {
        /// Which artifact.
        role: ArtifactRole,
    },
    /// Identify the resolved artifacts.
    Identify {
        /// The state directory.
        state: WidePath,
        /// The journal in it.
        journal: WidePath,
        /// The log.
        log: WidePath,
        /// The report.
        report: WidePath,
    },
    /// The artifacts are chosen.
    Chosen,
    /// The copy is refused.
    Failed {
        /// Why.
        error: BigcpError,
    },
}

/// The next operation in choosing the artifacts, as values.
#[verifier::ext_equal]
pub ghost enum AuditStepView {
    Normalize { role: ArtifactRole, path: Seq<u16> },
    FindAncestor { role: ArtifactRole, path: Seq<u16> },
    OpenAncestor { role: ArtifactRole },
    ResolveAncestor { role: ArtifactRole },
    Identify { state: Seq<u16>, journal: Seq<u16>, log: Seq<u16>, report: Seq<u16> },
    Chosen,
    Failed { failure: FailureView },
}

impl View for AuditStep {
    type V = AuditStepView;

    open spec fn view(&self) -> AuditStepView {
        match *self {
            AuditStep::Normalize { role, path } => AuditStepView::Normalize { role, path: path@ },
            AuditStep::FindAncestor { role, path } => AuditStepView::FindAncestor {
                role,
                path: path@,
            },
            AuditStep::OpenAncestor { role } => AuditStepView::OpenAncestor { role },
            AuditStep::ResolveAncestor { role } => AuditStepView::ResolveAncestor { role },
            AuditStep::Identify { state, journal, log, report } => AuditStepView::Identify {
                state: state@,
                journal: journal@,
                log: log@,
                report: report@,
            },
            AuditStep::Chosen => AuditStepView::Chosen,
            AuditStep::Failed { error } => AuditStepView::Failed { failure: error@ },
        }
    }
}

/// What an operation came to.
#[derive(Debug, PartialEq, Eq)]
pub enum AuditReply {
    /// A path.
    Path(Result<WidePath, IoError>),
    /// The names that are missing below the nearest existing ancestor.
    Missing(Result<Vec<WidePath>, BigcpError>),
    /// Something was done.
    Done(Result<(), IoError>),
    /// The identified artifacts.
    Identities {
        /// The state directory.
        state: PathIdentity,
        /// The journal in it.
        journal: PathIdentity,
        /// The log.
        log: PathIdentity,
        /// The report.
        report: PathIdentity,
    },
}

/// What an operation came to, as values.
#[verifier::ext_equal]
pub ghost enum AuditReplyView {
    Path(Result<Seq<u16>, IoError>),
    Missing(Result<Seq<Seq<u16>>, FailureView>),
    Done(Result<(), IoError>),
    Identities {
        state: IdentityView,
        journal: IdentityView,
        log: IdentityView,
        report: IdentityView,
    },
}

impl View for AuditReply {
    type V = AuditReplyView;

    open spec fn view(&self) -> AuditReplyView {
        match *self {
            AuditReply::Path(Ok(path)) => AuditReplyView::Path(Ok(path@)),
            AuditReply::Path(Err(error)) => AuditReplyView::Path(Err(error)),
            AuditReply::Missing(Ok(names)) => AuditReplyView::Missing(Ok(path_views(names@))),
            AuditReply::Missing(Err(error)) => AuditReplyView::Missing(Err(error@)),
            AuditReply::Done(result) => AuditReplyView::Done(result),
            AuditReply::Identities { state, journal, log, report } => AuditReplyView::Identities {
                state: state@,
                journal: journal@,
                log: log@,
                report: report@,
            },
        }
    }
}

/// Whether a reply answers a step.
pub open spec fn audit_answers(step: AuditStepView, reply: AuditReplyView) -> bool {
    match step {
        AuditStepView::Normalize { .. } => reply is Path,
        AuditStepView::FindAncestor { .. } => reply is Missing,
        AuditStepView::OpenAncestor { .. } => reply is Done,
        AuditStepView::ResolveAncestor { .. } => reply is Path,
        AuditStepView::Identify { .. } => reply is Identities,
        _ => false,
    }
}

/// The artifacts of one run on their way.
pub struct AuditChoice {
    stub: String,
    wanted_log: Option<WidePath>,
    wanted_report: Option<WidePath>,
    missing: Vec<WidePath>,
    resolved_state: WidePath,
    resolved_log: WidePath,
    source: PathIdentity,
    destination: PathIdentity,
    /// The absolute state directory.
    pub state_dir: WidePath,
    /// The absolute path of the log.
    pub log: WidePath,
    /// The absolute path of the report.
    pub report: WidePath,
}

/// The artifacts of one run on their way, as values.
#[verifier::ext_equal]
pub ghost struct AuditView {
    pub stub: Seq<char>,
    pub wanted_log: Option<Seq<u16>>,
    pub wanted_report: Option<Seq<u16>>,
    pub missing: Seq<Seq<u16>>,
    pub resolved_state: Seq<u16>,
    pub resolved_log: Seq<u16>,
    pub source: IdentityView,
    pub destination: IdentityView,
    pub state_dir: Seq<u16>,
    pub log: Seq<u16>,
    pub report: Seq<u16>,
}

impl View for AuditChoice {
    type V = AuditView;

    closed spec fn view(&self) -> AuditView {
        AuditView {
            stub: self.stub@,
            wanted_log: opt_path(self.wanted_log),
            wanted_report: opt_path(self.wanted_report),
            missing: path_views(self.missing@),
            resolved_state: self.resolved_state@,
            resolved_log: self.resolved_log@,
            source: self.source@,
            destination: self.destination@,
            state_dir: self.state_dir@,
            log: self.log@,
            report: self.report@,
        }
    }
}

/// The path of an artifact of one run in the state directory.
pub open spec fn artifact_path(state_dir: Seq<u16>, stub: Seq<char>, suffix: Seq<char>) -> Seq<u16> {
    child_of(state_dir, utf16_of("run-"@ + stub + suffix))
}

/// In what context the path of an artifact cannot be made absolute.
pub open spec fn normalize_context(role: ArtifactRole) -> Seq<char> {
    match role {
        ArtifactRole::State => "normalize state directory"@,
        ArtifactRole::Log => "normalize log path"@,
        ArtifactRole::Report => "normalize report path"@,
    }
}

impl AuditView {
    /// The absolute path of an artifact.
    pub open spec fn path_of(self, role: ArtifactRole) -> Seq<u16> {
        match role {
            ArtifactRole::State => self.state_dir,
            ArtifactRole::Log => self.log,
            ArtifactRole::Report => self.report,
        }
    }

    /// The search for the ancestor of an artifact.
    pub open spec fn finding(self, role: ArtifactRole) -> (AuditView, AuditStepView) {
        (self, AuditStepView::FindAncestor { role, path: self.path_of(role) })
    }

    /// The end of a choice that fails.
    pub open spec fn failing(self, failure: FailureView) -> (AuditView, AuditStepView) {
        (self, AuditStepView::Failed { failure })
    }

    /// After an artifact's path was made absolute. What the user did not place
    /// lies in the state directory, under a name of this run.
    pub open spec fn normalized(self, role: ArtifactRole, path: Seq<u16>) -> (
        AuditView,
        AuditStepView,
    ) {
        match role {
            ArtifactRole::State => (
                AuditView { state_dir: path, ..self },
                AuditStepView::Normalize {
                    role: ArtifactRole::Log,
                    path: match self.wanted_log {
                        Some(wanted) => wanted,
                        None => artifact_path(path, self.stub, ".log.jsonl"@),
                    },
                },
            ),
            ArtifactRole::Log => (
                AuditView { log: path, ..self },
                AuditStepView::Normalize {
                    role: ArtifactRole::Report,
                    path: match self.wanted_report {
                        Some(wanted) => wanted,
                        None => artifact_path(self.state_dir, self.stub, ".report.json"@),
                    },
                },
            ),
            ArtifactRole::Report => (AuditView { report: path, ..self }).finding(
                ArtifactRole::State,
            ),
        }
    }

    /// After the ancestor of an artifact was resolved.
    pub open spec fn resolved(self, role: ArtifactRole, ancestor: Seq<u16>) -> (
        AuditView,
        AuditStepView,
    ) {
        let path = joined(ancestor, self.missing);
        match role {
            ArtifactRole::State => (AuditView { resolved_state: path, ..self }).finding(
                ArtifactRole::Log,
            ),
            ArtifactRole::Log => (AuditView { resolved_log: path, ..self }).finding(
                ArtifactRole::Report,
            ),
            ArtifactRole::Report => (
                self,
                AuditStepView::Identify {
                    state: self.resolved_state,
                    journal: child_of(self.resolved_state, utf16_of("journal.jsonl"@)),
                    log: self.resolved_log,
                    report: path,
                },
            ),
        }
    }

    /// The choice after a reply, and its next operation.
    pub open spec fn after(self, step: AuditStepView, reply: AuditReplyView) -> (
        AuditView,
        AuditStepView,
    ) {
        match (step, reply) {
            (AuditStepView::Normalize { role, .. }, AuditReplyView::Path(path)) => match path {
                Err(error) => self.failing(io_failure(normalize_context(role), error)),
                Ok(path) => self.normalized(role, path),
            },
            (AuditStepView::FindAncestor { role, .. }, AuditReplyView::Missing(found)) => {
                match found {
                    Err(failure) => self.failing(failure),
                    Ok(missing) => (
                        AuditView { missing, ..self },
                        AuditStepView::OpenAncestor { role },
                    ),
                }
            },
            (AuditStepView::OpenAncestor { role }, AuditReplyView::Done(opened)) => match opened {
                Err(error) => self.failing(io_failure("open audit path ancestor"@, error)),
                Ok(_) => (self, AuditStepView::ResolveAncestor { role }),
            },
            (AuditStepView::ResolveAncestor { role }, AuditReplyView::Path(path)) => match path {
                Err(error) => self.failing(io_failure("resolve audit path ancestor"@, error)),
                Ok(ancestor) => self.resolved(role, ancestor),
            },
            (
                AuditStepView::Identify { .. },
                AuditReplyView::Identities { state, journal, log, report },
            ) => match audit_paths_failure(
                state,
                journal,
                log,
                report,
                self.source,
                self.destination,
            ) {
                Some(failure) => self.failing(failure),
                None => (self, AuditStepView::Chosen),
            },
            _ => (self, step),
        }
    }
}

/// The start of a choice.
pub open spec fn audit_start(
    options: CopyOptions,
    base: Seq<u16>,
    stub: Seq<char>,
    source: IdentityView,
    destination: IdentityView,
    key: Seq<char>,
) -> (AuditView, AuditStepView) {
    (
        AuditView {
            stub,
            wanted_log: opt_path(options.log_path),
            wanted_report: opt_path(options.report_path),
            missing: seq![],
            resolved_state: seq![],
            resolved_log: seq![],
            source,
            destination,
            state_dir: seq![],
            log: seq![],
            report: seq![],
        },
        AuditStepView::Normalize {
            role: ArtifactRole::State,
            path: match options.state_dir {
                Some(wanted) => wanted@,
                None => default_state(base, key),
            },
        },
    )
}

fn copied_path(path: &Option<WidePath>) -> (copy: Option<WidePath>)
    ensures
        opt_path(copy) == opt_path(*path),
{
    match path {
        Some(path) => Some(path.copied()),
        None => None,
    }
}

impl AuditChoice {
    /// Starts to choose the artifacts of a copy between two roots. `base` is the
    /// user's data directory, and `stub` tells the run's names from others.
    pub fn start(
        options: &CopyOptions,
        base: &WidePath,
        stub: String,
        source: PathIdentity,
        destination: PathIdentity,
    ) -> (started: Result<(AuditChoice, AuditStep), BigcpError>)
        ensures
            match spec_path_pair_hash(source@, destination@) {
                Ok(key) => started matches Ok((choice, step)) && (choice@, step@) == audit_start(
                    *options,
                    base@,
                    stub@,
                    source@,
                    destination@,
                    key,
                ),
                Err(source) => started matches Err(error) && error@ == io_failure(
                    "case-fold path lock identity"@,
                    source,
                ),
            },
    {
        let key = match path_pair_hash(&source, &destination) {
            Err(error) => {
                return Err(error);
            },
            Ok(key) => key,
        };
        let path = match &options.state_dir {
            Some(wanted) => wanted.copied(),
            None => default_state_dir(base, key.as_str()),
        };
        let choice = AuditChoice {
            stub,
            wanted_log: copied_path(&options.log_path),
            wanted_report: copied_path(&options.report_path),
            missing: Vec::new(),
            resolved_state: WidePath::empty(),
            resolved_log: WidePath::empty(),
            source,
            destination,
            state_dir: WidePath::empty(),
            log: WidePath::empty(),
            report: WidePath::empty(),
        };
        assert(choice@ =~= audit_start(
            *options,
            base@,
            stub@,
            source@,
            destination@,
            key@,
        ).0);
        Ok((choice, AuditStep::Normalize { role: ArtifactRole::State, path }))
    }

    fn find(&self, role: ArtifactRole) -> (step: AuditStep)
        ensures
            step@ == self@.finding(role).1,
    {
        let path = match role {
            ArtifactRole::State => self.state_dir.copied(),
            ArtifactRole::Log => self.log.copied(),
            ArtifactRole::Report => self.report.copied(),
        };
        AuditStep::FindAncestor { role, path }
    }

    fn place(&mut self, role: ArtifactRole, path: WidePath) -> (next: AuditStep)
        ensures
            old(self)@.normalized(role, path@) == (final(self)@, next@),
    {
        match role {
            ArtifactRole::State => {
                self.state_dir = path;
                let wanted = match &self.wanted_log {
                    Some(wanted) => wanted.copied(),
                    None => run_artifact(&self.state_dir, self.stub.as_str(), ".log.jsonl"),
                };
                AuditStep::Normalize { role: ArtifactRole::Log, path: wanted }
            },
            ArtifactRole::Log => {
                self.log = path;
                let wanted = match &self.wanted_report {
                    Some(wanted) => wanted.copied(),
                    None => run_artifact(&self.state_dir, self.stub.as_str(), ".report.json"),
                };
                AuditStep::Normalize { role: ArtifactRole::Report, path: wanted }
            },
            ArtifactRole::Report => {
                self.report = path;
                self.find(ArtifactRole::State)
            },
        }
    }

    fn settle(&mut self, role: ArtifactRole, ancestor: &WidePath) -> (next: AuditStep)
        ensures
            old(self)@.resolved(role, ancestor@) == (final(self)@, next@),
    {
        let path = prospective_path(ancestor, &self.missing);
        match role {
            ArtifactRole::State => {
                self.resolved_state = path;
                self.find(ArtifactRole::Log)
            },
            ArtifactRole::Log => {
                self.resolved_log = path;
                self.find(ArtifactRole::Report)
            },
            ArtifactRole::Report => AuditStep::Identify {
                state: self.resolved_state.copied(),
                journal: self.resolved_state.child(&WidePath::from_text("journal.jsonl")),
                log: self.resolved_log.copied(),
                report: path,
            },
        }
    }

    /// Decides the next operation in choosing the artifacts of one run. None of
    /// them may lie in a copied tree, and no two may be the same.
    pub fn audit_paths(&mut self, step: AuditStep, reply: AuditReply) -> (next: AuditStep)
        requires
            audit_answers(step@, reply@),
        ensures
            old(self)@.after(step@, reply@) == (final(self)@, next@),
    {
        match (step, reply) {
            (AuditStep::Normalize { role, .. }, AuditReply::Path(path)) => match path {
                Err(error) => {
                    let context: &str = match role {
                        ArtifactRole::State => "normalize state directory",
                        ArtifactRole::Log => "normalize log path",
                        ArtifactRole::Report => "normalize report path",
                    };
                    AuditStep::Failed { error: BigcpError::io(context, error) }
                },
                Ok(path) => self.place(role, path),
            },
            (AuditStep::FindAncestor { role, .. }, AuditReply::Missing(found)) => match found {
                Err(error) => AuditStep::Failed { error },
                Ok(missing) => {
                    self.missing = missing;
                    AuditStep::OpenAncestor { role }
                },
            },
            (AuditStep::OpenAncestor { role }, AuditReply::Done(opened)) => match opened {
                Err(error) => AuditStep::Failed {
                    error: BigcpError::io("open audit path ancestor", error),
                },
                Ok(_) => AuditStep::ResolveAncestor { role },
            },
            (AuditStep::ResolveAncestor { role }, AuditReply::Path(path)) => match path {
                Err(error) => AuditStep::Failed {
                    error: BigcpError::io("resolve audit path ancestor", error),
                },
                Ok(ancestor) => self.settle(role, &ancestor),
            },
            (
                AuditStep::Identify { .. },
                AuditReply::Identities { state, journal, log, report },
            ) => match validate_audit_paths(
                &state,
                &journal,
                &log,
                &report,
                &self.source,
                &self.destination,
            ) {
                Err(error) => AuditStep::Failed { error },
                Ok(_) => AuditStep::Chosen,
            },
            (step, _) => step,
        }
    }
}

/// Artifacts are chosen only after all of them were found clear of each other
/// and of both trees.
pub proof fn chosen_artifacts_are_clear(choice: AuditView, step: AuditStepView, reply: AuditReplyView)
    requires
        audit_answers(step, reply),
        choice.after(step, reply).1 is Chosen,
    ensures
        step is Identify,
        audit_paths_failure(
            reply->state,
            reply->journal,
            reply->log,
            reply->report,
            choice.source,
            choice.destination,
        ) is None,
        choice.after(step, reply).0 == choice,
{
}

/// Where a run keeps its artifacts: each where it was asked for, and otherwise
/// the log and the report under the state directory, named by the run.
pub proof fn artifacts_go_where_they_were_asked_for(
    choice: AuditView,
    role: ArtifactRole,
    path: Seq<u16>,
)
    ensures
        ({
            let (after, step) = choice.normalized(role, path);
            &&& role is State ==> after.state_dir == path && (step matches AuditStepView::Normalize {
                role: next,
                path: log,
            } && next is Log && (choice.wanted_log is Some ==> log == choice.wanted_log->0) && (
            choice.wanted_log is None ==> log == child_of(
                path,
                utf16_of("run-"@ + choice.stub + ".log.jsonl"@),
            )))
            &&& role is Log ==> after.log == path && (step matches AuditStepView::Normalize {
                role: next,
                path: report,
            } && next is Report && (choice.wanted_report is Some ==> report
                == choice.wanted_report->0) && (choice.wanted_report is None ==> report == child_of(
                choice.state_dir,
                utf16_of("run-"@ + choice.stub + ".report.json"@),
            )))
            &&& role is Report ==> after.report == path && step == (AuditStepView::FindAncestor {
                role: ArtifactRole::State,
                path: choice.state_dir,
            })
        }),
{
}

/// What is compared at the end are the resolved places: of the state directory,
/// of the journal in it, of the log and of the report, each below its own
/// ancestor.
pub proof fn resolved_places_are_compared(
    choice: AuditView,
    role: ArtifactRole,
    ancestor: Seq<u16>,
)
    ensures
        ({
            let (after, step) = choice.resolved(role, ancestor);
            let place = joined(ancestor, choice.missing);
            &&& role is State ==> after.resolved_state == place && step
                == (AuditStepView::FindAncestor { role: ArtifactRole::Log, path: choice.log })
            &&& role is Log ==> after.resolved_log == place && step
                == (AuditStepView::FindAncestor { role: ArtifactRole::Report, path: choice.report })
            &&& role is Report ==> (step matches AuditStepView::Identify {
                state,
                journal,
                log,
                report,
            } && state == choice.resolved_state && journal == child_of(
                choice.resolved_state,
                utf16_of("journal.jsonl"@),
            ) && log == choice.resolved_log && report == place)
        }),
{
}

} // verus!
