//! The accounts of one run: counters, grouped errors, warnings, replacements,
//! folders, the early-stop breaker, and what is to be logged of each step.

use vstd::prelude::*;
use vstd::string::*;

use crate::audit::{
    audit_path, opt_error, opt_replacement, opt_text, warning, warning_view, AuditEvent, AuditPath,
    EventView, ReplacementEvent, ReplacementView,
};
use crate::classify::label_texts;
use crate::error::{ErrorCategory, ErrorView, OperationError};
use crate::model::{sat, Counters, FileOutcome, OutcomeView, RunState};
use crate::path::{lossy_text, spec_top_level, top_level, WidePath};
use crate::report::{
    folder_total, folders_agree, ErrorSummary, ErrorSummaryView, ExtraSummary, ExtrasView,
    FolderSummary, ReplacementSample, ReplacementSummary, ReplacementsView, SampleView,
    REPORT_SAMPLE_LIMIT,
};
use crate::table::{counted, lemma_position, lookup, put, TextTable};
use crate::text::{comma_joined, join_labels, owned_labels, texts};

verus! {

/// Consecutive device-gone or disk-full failures, with no success in between,
/// that stop the run early.
pub const BREAKER_THRESHOLD: u32 = 5;

/// Something to be made known, in order.
#[derive(Clone, Debug, PartialEq, Eq)]
pub enum Notice {
    /// An event for the audit log.
    Event(AuditEvent),
    /// A message for the user.
    Message(String),
    /// A change of the run's state.
    Publish(RunState),
}

/// A notice as values.
#[verifier::ext_equal]
pub ghost enum NoticeView {
    Event(EventView),
    Message(Seq<char>),
    Publish(RunState),
}

impl View for Notice {
    type V = NoticeView;

    open spec fn view(&self) -> NoticeView {
        match *self {
            Notice::Event(event) => NoticeView::Event(event@),
            Notice::Message(text) => NoticeView::Message(text@),
            Notice::Publish(state) => NoticeView::Publish(state),
        }
    }
}

/// Position of a category in the fixed order of categories.
pub open spec fn rank(category: ErrorCategory) -> int {
    match category {
        ErrorCategory::Permissions => 0,
        ErrorCategory::Locked => 1,
        ErrorCategory::Path => 2,
        ErrorCategory::Space => 3,
        ErrorCategory::Media => 4,
        ErrorCategory::DeviceGone => 5,
        ErrorCategory::FsLimit => 6,
        ErrorCategory::SourceChanged => 7,
        ErrorCategory::DestinationChanged => 8,
        ErrorCategory::UnsupportedReparse => 9,
        ErrorCategory::ParentDirFailed => 10,
        ErrorCategory::TypeConflict => 11,
        ErrorCategory::Cloud => 12,
        ErrorCategory::Internal => 13,
    }
}

fn rank_of(category: ErrorCategory) -> (r: u32)
    ensures
        r == rank(category),
{
    match category {
        ErrorCategory::Permissions => 0,
        ErrorCategory::Locked => 1,
        ErrorCategory::Path => 2,
        ErrorCategory::Space => 3,
        ErrorCategory::Media => 4,
        ErrorCategory::DeviceGone => 5,
        ErrorCategory::FsLimit => 6,
        ErrorCategory::SourceChanged => 7,
        ErrorCategory::DestinationChanged => 8,
        ErrorCategory::UnsupportedReparse => 9,
        ErrorCategory::ParentDirFailed => 10,
        ErrorCategory::TypeConflict => 11,
        ErrorCategory::Cloud => 12,
        ErrorCategory::Internal => 13,
    }
}

/// Position of the first summary whose category does not come before the given
/// one.
pub open spec fn slot(list: Seq<ErrorSummaryView>, category: ErrorCategory) -> int
    decreases list.len(),
{
    if list.len() == 0 || rank(list[0].category) >= rank(category) {
        0
    } else {
        1 + slot(list.drop_first(), category)
    }
}

/// A summary without errors, with the guidance of its first error.
pub open spec fn fresh_summary(error: ErrorView) -> ErrorSummaryView {
    ErrorSummaryView {
        category: error.category,
        count: 0,
        hint: error.hint,
        by_folder: seq![],
        samples: seq![],
    }
}

/// A summary with one more error.
pub open spec fn grown_summary(summary: ErrorSummaryView, error: ErrorView) -> ErrorSummaryView {
    ErrorSummaryView {
        count: sat(summary.count, 1),
        by_folder: counted(summary.by_folder, spec_top_level(error.path), 1),
        samples: if summary.samples.len() < REPORT_SAMPLE_LIMIT {
            summary.samples.push(error)
        } else {
            summary.samples
        },
        ..summary
    }
}

/// The summaries, in category order, with one more error.
pub open spec fn aggregated(list: Seq<ErrorSummaryView>, error: ErrorView) -> Seq<
    ErrorSummaryView,
> {
    let at = slot(list, error.category);
    if at < list.len() && list[at].category == error.category {
        list.update(at, grown_summary(list[at], error))
    } else {
        list.insert(at, grown_summary(fresh_summary(error), error))
    }
}

/// Whether a category counts toward the breaker.
pub open spec fn trips_breaker(category: ErrorCategory) -> bool {
    category is DeviceGone || category is Space
}

/// Whether an outcome proves that device and space are there.
pub open spec fn resets_breaker(outcome: OutcomeView) -> bool {
    outcome is CopiedNew || outcome is CopiedReplaced || outcome is SkippedSame
        || outcome is SkippedDifferent || outcome is MetadataFixed
}

/// The differences of an optional list of labels.
pub open spec fn opt_labels(differences: Option<Vec<&'static str>>) -> Option<Seq<Seq<char>>> {
    match differences {
        Some(fields) => Some(label_texts(fields@)),
        None => None,
    }
}

/// The labels, none where there is no list.
pub open spec fn labels_or_none(differences: Option<Seq<Seq<char>>>) -> Seq<Seq<char>> {
    match differences {
        Some(fields) => fields,
        None => seq![],
    }
}

/// The audit event of one terminal file outcome.
pub open spec fn file_event(
    rel: Seq<u16>,
    outcome: OutcomeView,
    differences: Option<Seq<Seq<char>>>,
) -> EventView {
    let action = match outcome {
        OutcomeView::CopiedNew { .. } => "copied"@,
        OutcomeView::CopiedReplaced { .. } => "copied"@,
        OutcomeView::SkippedSame { .. } => "skipped"@,
        OutcomeView::SkippedDifferent { .. } => "skipped_diff"@,
        OutcomeView::MetadataFixed { .. } => "meta_fixed"@,
        OutcomeView::Failed { .. } => "failed"@,
        OutcomeView::Excluded { .. } => "excluded"@,
        OutcomeView::NotAttempted { .. } => "not_attempted"@,
    };
    let hash = match outcome {
        OutcomeView::CopiedNew { digest, .. } => digest,
        OutcomeView::CopiedReplaced { digest, .. } => digest,
        _ => None,
    };
    let replacement = match outcome {
        OutcomeView::CopiedReplaced {
            destination_newer,
            old_size,
            old_mtime,
            old_attributes,
            ..
        } => Some(
            ReplacementView {
                old_size,
                old_mtime,
                old_attributes,
                destination_newer,
                differences: labels_or_none(differences),
            },
        ),
        OutcomeView::SkippedDifferent {
            destination_newer,
            old_size,
            old_mtime,
            old_attributes,
            ..
        } => Some(
            ReplacementView {
                old_size,
                old_mtime,
                old_attributes,
                destination_newer,
                differences: labels_or_none(differences),
            },
        ),
        _ => None,
    };
    let error = match outcome {
        OutcomeView::Failed { error, .. } => Some(error),
        _ => None,
    };
    let reason = match outcome {
        OutcomeView::SkippedSame { .. } => Some("same"@),
        OutcomeView::SkippedDifferent { .. } => Some(
            match differences {
                Some(fields) => comma_joined(fields),
                None => "different"@,
            },
        ),
        OutcomeView::MetadataFixed { .. } => match differences {
            Some(fields) => Some(comma_joined(fields)),
            None => None,
        },
        OutcomeView::Excluded { reason, .. } => Some(reason),
        OutcomeView::NotAttempted { reason, .. } => Some(reason),
        _ => None,
    };
    EventView::File {
        action,
        rel: audit_path(rel),
        size: outcome.spec_bytes(),
        hash,
        replacement,
        error,
        reason,
    }
}

/// The accounts of a run as values.
#[verifier::ext_equal]
pub ghost struct LedgerView {
    pub counters: Counters,
    pub errors: Seq<ErrorSummaryView>,
    pub warnings: Seq<(Seq<char>, u64)>,
    pub replacements: ReplacementsView,
    pub extras: ExtrasView,
    pub folders: Seq<(Seq<char>, FolderSummary)>,
    pub canceled: bool,
    pub breaker: Option<ErrorCategory>,
    pub breaker_streak: u32,
    pub breaker_announced: bool,
    pub worker_cancel: bool,
    pub notices: Seq<NoticeView>,
}

impl LedgerView {
    /// Accounts of a run that has not started.
    pub open spec fn opened() -> LedgerView {
        LedgerView {
            counters: Counters::zero(),
            errors: seq![],
            warnings: seq![],
            replacements: ReplacementsView::none(),
            extras: ExtrasView { count: 0, samples: seq![] },
            folders: seq![],
            canceled: false,
            breaker: None,
            breaker_streak: 0,
            breaker_announced: false,
            worker_cancel: false,
            notices: seq![],
        }
    }

    /// With other counters.
    pub open spec fn counting(self, counters: Counters) -> LedgerView {
        LedgerView { counters, ..self }
    }

    /// With one more notice.
    pub open spec fn noticed(self, notice: NoticeView) -> LedgerView {
        LedgerView { notices: self.notices.push(notice), ..self }
    }

    /// With one more audit event.
    pub open spec fn emitted(self, event: EventView) -> LedgerView {
        self.noticed(NoticeView::Event(event))
    }

    /// With one more message.
    pub open spec fn told(self, message: Seq<char>) -> LedgerView {
        self.noticed(NoticeView::Message(message))
    }

    /// With one more counted warning of a kind.
    pub open spec fn tallied(self, kind: Seq<char>) -> LedgerView {
        LedgerView { warnings: counted(self.warnings, kind, 1), ..self }
    }

    /// With `count` more counted warnings of a kind.
    pub open spec fn tallied_times(self, kind: Seq<char>, count: u64) -> LedgerView {
        if count == 0 {
            self
        } else {
            LedgerView { warnings: counted(self.warnings, kind, count), ..self }
        }
    }

    /// With one more counted and logged warning.
    pub open spec fn warned(
        self,
        kind: Seq<char>,
        rel: Option<Seq<u16>>,
        message: Seq<char>,
    ) -> LedgerView {
        self.tallied(kind).emitted(warning_view(kind, rel, message))
    }

    /// The streak after one more failure.
    pub open spec fn streak_after(self, category: ErrorCategory) -> u32 {
        if !trips_breaker(category) {
            self.breaker_streak
        } else if self.breaker_streak == u32::MAX {
            u32::MAX
        } else {
            (self.breaker_streak + 1) as u32
        }
    }

    /// Whether one more failure trips the breaker now.
    pub open spec fn trips_now(self, category: ErrorCategory) -> bool {
        trips_breaker(category) && self.streak_after(category) >= BREAKER_THRESHOLD
            && self.breaker is None
    }

    /// With one more aggregated failure.
    pub open spec fn aggregating(self, error: ErrorView) -> LedgerView {
        LedgerView {
            errors: aggregated(self.errors, error),
            breaker_streak: self.streak_after(error.category),
            breaker: if self.trips_now(error.category) {
                Some(error.category)
            } else {
                self.breaker
            },
            worker_cancel: self.worker_cancel || self.trips_now(error.category),
            ..self
        }
    }

    /// With one more failure that is an event of its own.
    pub open spec fn errored(self, error: ErrorView) -> LedgerView {
        self.aggregating(error).emitted(EventView::Error { error })
    }

    /// With an outcome in the table of top-level folders.
    pub open spec fn foldered(self, rel: Seq<u16>, outcome: OutcomeView) -> LedgerView {
        let key = spec_top_level(rel);
        let known = match lookup(self.folders, key) {
            Some(summary) => summary,
            None => FolderSummary::zero(),
        };
        LedgerView { folders: put(self.folders, key, known.after_outcome(outcome)), ..self }
    }

    /// With a replacement in the replacement statistics.
    pub open spec fn replaced(
        self,
        rel: Seq<u16>,
        outcome: OutcomeView,
        differences: Option<Seq<Seq<char>>>,
    ) -> LedgerView {
        match outcome {
            OutcomeView::CopiedReplaced {
                bytes,
                destination_newer,
                old_size,
                old_mtime,
                ..
            } => LedgerView {
                replacements: ReplacementsView {
                    count: sat(self.replacements.count, 1),
                    bytes: sat(self.replacements.bytes, bytes),
                    destination_newer: if destination_newer {
                        sat(self.replacements.destination_newer, 1)
                    } else {
                        self.replacements.destination_newer
                    },
                    by_folder: counted(self.replacements.by_folder, spec_top_level(rel), 1),
                    samples: if self.replacements.samples.len() < REPORT_SAMPLE_LIMIT {
                        self.replacements.samples.push(
                            SampleView {
                                relative_path: lossy_text(rel),
                                old_size,
                                old_mtime,
                                differences: labels_or_none(differences),
                            },
                        )
                    } else {
                        self.replacements.samples
                    },
                },
                ..self
            },
            _ => self,
        }
    }

    /// With one terminal file outcome in every account.
    pub open spec fn after_file(
        self,
        rel: Seq<u16>,
        outcome: OutcomeView,
        differences: Option<Seq<Seq<char>>>,
    ) -> LedgerView {
        let first = if resets_breaker(outcome) {
            LedgerView { breaker_streak: 0, ..self }
        } else {
            self
        };
        let second = match outcome {
            OutcomeView::Failed { error, .. } => first.aggregating(error),
            _ => first,
        };
        let third = second.foldered(rel, outcome).replaced(rel, outcome, differences);
        third.counting(third.counters.after_outcome(outcome)).emitted(
            file_event(rel, outcome, differences),
        )
    }

    /// With one link event.
    pub open spec fn after_link(
        self,
        rel: Seq<u16>,
        action: Seq<char>,
        reason: Option<Seq<char>>,
        replacement: Option<ReplacementView>,
        error: Option<ErrorView>,
    ) -> LedgerView {
        let first = match error {
            Some(error) => self.aggregating(error),
            None => self,
        };
        first.emitted(
            EventView::File {
                action,
                rel: audit_path(rel),
                size: 0,
                hash: None,
                replacement,
                error,
                reason,
            },
        )
    }

    /// With one discovered file.
    pub open spec fn discovering(self, bytes: u64) -> LedgerView {
        self.counting(self.counters.after_discovery(bytes))
    }

    /// With one destination-only object.
    pub open spec fn with_extra(self, rel: Seq<u16>) -> LedgerView {
        LedgerView {
            counters: Counters { extra: sat(self.counters.extra, 1), ..self.counters },
            extras: ExtrasView {
                count: sat(self.extras.count, 1),
                samples: if self.extras.samples.len() < REPORT_SAMPLE_LIMIT {
                    self.extras.samples.push(lossy_text(rel))
                } else {
                    self.extras.samples
                },
            },
            ..self
        }.emitted(EventView::Extra { rel: audit_path(rel) })
    }
}

/// The accounts of a run.
#[derive(Clone, Debug, PartialEq, Eq)]
pub struct Ledger {
    /// Exact counters.
    pub counters: Counters,
    /// Grouped errors in category order.
    pub errors: Vec<ErrorSummary>,
    /// Warning counts by kind.
    pub warnings: TextTable<u64>,
    /// Replacement statistics.
    pub replacements: ReplacementSummary,
    /// Destination-only objects.
    pub extras: ExtraSummary,
    /// File outcomes by top-level folder.
    pub folders: TextTable<FolderSummary>,
    /// Whether a graceful stop was requested.
    pub canceled: bool,
    /// The category that tripped the breaker.
    pub breaker: Option<ErrorCategory>,
    /// Breaker failures since the last success.
    pub breaker_streak: u32,
    /// Whether the breaker was announced.
    pub breaker_announced: bool,
    /// Whether transfers in flight are to stop.
    pub worker_cancel: bool,
    /// What is still to be made known.
    pub notices: Vec<Notice>,
}

impl View for Ledger {
    type V = LedgerView;

    open spec fn view(&self) -> LedgerView {
        LedgerView {
            counters: self.counters,
            errors: self.errors@.map_values(|summary: ErrorSummary| summary@),
            warnings: self.warnings@,
            replacements: self.replacements@,
            extras: self.extras@,
            folders: self.folders@,
            canceled: self.canceled,
            breaker: self.breaker,
            breaker_streak: self.breaker_streak,
            breaker_announced: self.breaker_announced,
            worker_cancel: self.worker_cancel,
            notices: self.notices@.map_values(|notice: Notice| notice@),
        }
    }
}

/// The labels as owned strings, none where there is no list.
fn owned_or_none(differences: &Option<Vec<&'static str>>) -> (list: Vec<String>)
    ensures
        texts(list@) == labels_or_none(opt_labels(*differences)),
{
    match differences {
        Some(fields) => owned_labels(fields.as_slice()),
        None => {
            let list: Vec<String> = Vec::new();
            assert(texts(list@) =~= seq![]);
            list
        },
    }
}

fn copy_text(text: &Option<String>) -> (copy: Option<String>)
    ensures
        opt_text(copy) == opt_text(*text),
{
    match text {
        Some(text) => Some(text.clone()),
        None => None,
    }
}

/// Builds the audit event of one terminal file outcome.
pub fn build_file_event(
    relative: &WidePath,
    outcome: &FileOutcome,
    differences: &Option<Vec<&'static str>>,
) -> (event: AuditEvent)
    ensures
        event@ == file_event(relative@, outcome@, opt_labels(*differences)),
{
    let rel = AuditPath::from_path(relative);
    let size: u64 = outcome.bytes();
    match outcome {
        FileOutcome::CopiedNew { digest, .. } => AuditEvent::File {
            action: "copied".to_owned(),
            rel,
            size,
            hash: copy_text(digest),
            replacement: None,
            error: None,
            reason: None,
        },
        FileOutcome::CopiedReplaced {
            digest,
            destination_newer,
            old_size,
            old_mtime,
            old_attributes,
            ..
        } => AuditEvent::File {
            action: "copied".to_owned(),
            rel,
            size,
            hash: copy_text(digest),
            replacement: Some(
                ReplacementEvent {
                    old_size: *old_size,
                    old_mtime: *old_mtime,
                    old_attributes: *old_attributes,
                    destination_newer: *destination_newer,
                    differences: owned_or_none(differences),
                },
            ),
            error: None,
            reason: None,
        },
        FileOutcome::SkippedSame { .. } => AuditEvent::File {
            action: "skipped".to_owned(),
            rel,
            size,
            hash: None,
            replacement: None,
            error: None,
            reason: Some("same".to_owned()),
        },
        FileOutcome::SkippedDifferent {
            destination_newer,
            old_size,
            old_mtime,
            old_attributes,
            ..
        } => AuditEvent::File {
            action: "skipped_diff".to_owned(),
            rel,
            size,
            hash: None,
            replacement: Some(
                ReplacementEvent {
                    old_size: *old_size,
                    old_mtime: *old_mtime,
                    old_attributes: *old_attributes,
                    destination_newer: *destination_newer,
                    differences: owned_or_none(differences),
                },
            ),
            error: None,
            reason: Some(
                match differences {
                    Some(fields) => join_labels(fields.as_slice()),
                    None => "different".to_owned(),
                },
            ),
        },
        FileOutcome::MetadataFixed { .. } => AuditEvent::File {
            action: "meta_fixed".to_owned(),
            rel,
            size,
            hash: None,
            replacement: None,
            error: None,
            reason: match differences {
                Some(fields) => Some(join_labels(fields.as_slice())),
                None => None,
            },
        },
        FileOutcome::Failed { error, .. } => AuditEvent::File {
            action: "failed".to_owned(),
            rel,
            size,
            hash: None,
            replacement: None,
            error: Some(error.copied()),
            reason: None,
        },
        FileOutcome::Excluded { reason, .. } => AuditEvent::File {
            action: "excluded".to_owned(),
            rel,
            size,
            hash: None,
            replacement: None,
            error: None,
            reason: Some(reason.clone()),
        },
        FileOutcome::NotAttempted { reason, .. } => AuditEvent::File {
            action: "not_attempted".to_owned(),
            rel,
            size,
            hash: None,
            replacement: None,
            error: None,
            reason: Some(reason.clone()),
        },
    }
}

impl Ledger {
    /// Opens the accounts of a run.
    pub fn new() -> (ledger: Ledger)
        ensures
            ledger@ == LedgerView::opened(),
    {
        let ledger = Ledger {
            counters: Counters::default(),
            errors: Vec::new(),
            warnings: TextTable::new(),
            replacements: ReplacementSummary::new(),
            extras: ExtraSummary { count: 0, samples: Vec::new() },
            folders: TextTable::new(),
            canceled: false,
            breaker: None,
            breaker_streak: 0,
            breaker_announced: false,
            worker_cancel: false,
            notices: Vec::new(),
        };
        assert(ledger@ =~= LedgerView::opened());
        ledger
    }

    /// Hands out what is to be made known, in order.
    pub fn take_notices(&mut self) -> (notices: Vec<Notice>)
        ensures
            notices@.map_values(|notice: Notice| notice@) == old(self)@.notices,
            final(self)@ == (LedgerView { notices: seq![], ..old(self)@ }),
    {
        let mut notices: Vec<Notice> = Vec::new();
        std::mem::swap(&mut notices, &mut self.notices);
        assert(self@ =~= (LedgerView { notices: seq![], ..old(self)@ }));
        notices
    }

    /// Adds one notice.
    pub fn notice(&mut self, notice: Notice)
        ensures
            final(self)@ == old(self)@.noticed(notice@),
    {
        self.notices.push(notice);
        assert(self@ =~= old(self)@.noticed(notice@));
    }

    /// Logs one event.
    pub fn emit(&mut self, event: AuditEvent)
        ensures
            final(self)@ == old(self)@.emitted(event@),
    {
        self.notice(Notice::Event(event));
    }

    /// Tells the user something.
    pub fn tell(&mut self, message: &str)
        ensures
            final(self)@ == old(self)@.told(message@),
    {
        self.notice(Notice::Message(message.to_owned()));
    }

    /// Counts one warning.
    pub fn increment_warning(&mut self, kind: &str)
        ensures
            final(self)@ == old(self)@.tallied(kind@),
    {
        self.warnings.add_count(kind, 1);
        assert(self@ =~= old(self)@.tallied(kind@));
    }

    /// Counts `count` warnings of one kind.
    pub fn increment_warning_by(&mut self, kind: &str, count: u64)
        ensures
            final(self)@ == old(self)@.tallied_times(kind@, count),
    {
        if count > 0 {
            self.warnings.add_count(kind, count);
        }
        assert(self@ =~= old(self)@.tallied_times(kind@, count));
    }

    /// Counts and logs one warning.
    pub fn warn(&mut self, kind: &str, rel: Option<&WidePath>, message: &str)
        ensures
            final(self)@ == old(self)@.warned(
                kind@,
                match rel {
                    Some(rel) => Some(rel@),
                    None => None,
                },
                message@,
            ),
    {
        self.increment_warning(kind);
        self.emit(warning(kind, rel, message));
    }

    fn find_slot(&self, category: ErrorCategory) -> (at: usize)
        ensures
            at == slot(self@.errors, category),
            at <= self.errors.len(),
    {
        let mut at: usize = 0;
        let ghost list = self@.errors;
        assert(list.skip(0) =~= list);
        while at < self.errors.len() && rank_of(self.errors[at].category) < rank_of(category)
            invariant
                at <= self.errors.len(),
                list == self@.errors,
                list.len() == self.errors.len(),
                slot(list, category) == at + slot(list.skip(at as int), category),
            decreases self.errors.len() - at,
        {
            assert(list[at as int].category == self.errors@[at as int].category);
            assert(list.skip(at as int).drop_first() =~= list.skip(at as int + 1));
            at += 1;
        }
        proof {
            if at < self.errors.len() {
                assert(list[at as int].category == self.errors@[at as int].category);
                assert(list.skip(at as int)[0] == list[at as int]);
            }
        }
        at
    }

    /// Groups one failure and advances the breaker.
    ///
    /// Device-gone and disk-full failures extend the streak; other categories
    /// neither extend nor reset it, and only a success resets it.
    pub fn aggregate_error(&mut self, error: OperationError)
        ensures
            final(self)@ == old(self)@.aggregating(error@),
    {
        let ghost before = self@;
        let category = error.category;
        if category == ErrorCategory::DeviceGone || category == ErrorCategory::Space {
            if self.breaker_streak < u32::MAX {
                self.breaker_streak = self.breaker_streak + 1;
            }
            if self.breaker_streak >= BREAKER_THRESHOLD && self.breaker.is_none() {
                self.breaker = Some(category);
                self.worker_cancel = true;
            }
        }
        let ghost list = self@.errors;
        let ghost view = error@;
        let at: usize = self.find_slot(category);
        let known = at < self.errors.len() && self.errors[at].category == category;
        assert(known ==> list[at as int].category == self.errors@[at as int].category);
        let mut summary = if known {
            self.errors.remove(at)
        } else {
            ErrorSummary {
                category,
                count: 0,
                hint: error.hint.clone(),
                by_folder: TextTable::new(),
                samples: Vec::new(),
            }
        };
        let ghost base = summary@;
        assert(!known ==> base =~= fresh_summary(view));
        assert(known ==> base == list[at as int]);
        summary.count = summary.count.saturating_add(1);
        summary.by_folder.add_count(top_level(&error.path).as_str(), 1);
        if summary.samples.len() < REPORT_SAMPLE_LIMIT {
            summary.samples.push(error);
        }
        assert(summary@ =~= grown_summary(base, view));
        self.errors.insert(at, summary);
        assert(self@.errors =~= aggregated(list, view));
        assert(self@ =~= before.aggregating(view));
    }

    /// Groups one failure and logs it as an event of its own.
    pub fn record_error(&mut self, error: OperationError)
        ensures
            final(self)@ == old(self)@.errored(error@),
    {
        self.aggregate_error(error.copied());
        self.emit(AuditEvent::Error { error });
    }

    /// Logs what became of one link.
    pub fn record_link_event(
        &mut self,
        relative: &WidePath,
        action: &str,
        reason: Option<String>,
        replacement: Option<ReplacementEvent>,
        error: Option<OperationError>,
    )
        ensures
            final(self)@ == old(self)@.after_link(
                relative@,
                action@,
                opt_text(reason),
                opt_replacement(replacement),
                opt_error(error),
            ),
    {
        if let Some(error) = &error {
            self.aggregate_error(error.copied());
        }
        self.emit(
            AuditEvent::File {
                action: action.to_owned(),
                rel: AuditPath::from_path(relative),
                size: 0,
                hash: None,
                replacement,
                error,
                reason,
            },
        );
    }

    /// Records one terminal outcome in the table of top-level folders.
    pub fn record_folder_outcome(&mut self, relative: &WidePath, outcome: &FileOutcome)
        ensures
            final(self)@ == old(self)@.foldered(relative@, outcome@),
    {
        let key = top_level(relative);
        let mut summary = match self.folders.get(key.as_str()) {
            Some(summary) => summary,
            None => FolderSummary::default(),
        };
        summary.apply(outcome);
        self.folders.set(key.as_str(), summary);
        assert(self@ =~= old(self)@.foldered(relative@, outcome@));
    }

    fn record_replacement(
        &mut self,
        relative: &WidePath,
        outcome: &FileOutcome,
        differences: &Option<Vec<&'static str>>,
    )
        ensures
            final(self)@ == old(self)@.replaced(relative@, outcome@, opt_labels(*differences)),
    {
        let ghost before = self@;
        if let FileOutcome::CopiedReplaced { bytes, destination_newer, old_size, old_mtime, .. } =
            outcome {
            self.replacements.count = self.replacements.count.saturating_add(1);
            self.replacements.bytes = self.replacements.bytes.saturating_add(*bytes);
            if *destination_newer {
                self.replacements.destination_newer =
                    self.replacements.destination_newer.saturating_add(1);
            }
            self.replacements.by_folder.add_count(top_level(relative).as_str(), 1);
            if self.replacements.samples.len() < REPORT_SAMPLE_LIMIT {
                let sample = ReplacementSample {
                    relative_path: relative.to_text_lossy(),
                    old_size: *old_size,
                    old_mtime: *old_mtime,
                    differences: owned_or_none(differences),
                };
                self.replacements.samples.push(sample);
            }
            assert(self@.replacements.samples =~= before.replaced(
                relative@,
                outcome@,
                opt_labels(*differences),
            ).replacements.samples);
        }
        assert(self@ =~= before.replaced(relative@, outcome@, opt_labels(*differences)));
    }

    /// Records one terminal file outcome in every account.
    pub fn record_file(
        &mut self,
        relative: &WidePath,
        outcome: FileOutcome,
        differences: Option<Vec<&'static str>>,
    )
        ensures
            final(self)@ == old(self)@.after_file(relative@, outcome@, opt_labels(differences)),
    {
        let ghost before = self@;
        match &outcome {
            FileOutcome::CopiedNew { .. }
            | FileOutcome::CopiedReplaced { .. }
            | FileOutcome::SkippedSame { .. }
            | FileOutcome::SkippedDifferent { .. }
            | FileOutcome::MetadataFixed { .. } => {
                self.breaker_streak = 0;
            },
            FileOutcome::Failed { error, .. } => {
                self.aggregate_error(error.copied());
            },
            _ => {},
        }
        self.record_folder_outcome(relative, &outcome);
        self.record_replacement(relative, &outcome, &differences);
        self.counters.apply_file(&outcome);
        self.emit(build_file_event(relative, &outcome, &differences));
        assert(self@ =~= before.after_file(relative@, outcome@, opt_labels(differences)));
    }

    /// Notes one discovered file.
    pub fn note_file_discovered(&mut self, bytes: u64)
        ensures
            final(self)@ == old(self)@.discovering(bytes),
    {
        self.counters.note_file_discovered(bytes);
        assert(self@ =~= old(self)@.discovering(bytes));
    }

    /// Records one destination-only object.
    pub fn record_extra(&mut self, relative: &WidePath)
        ensures
            final(self)@ == old(self)@.with_extra(relative@),
    {
        let ghost before = self@;
        self.counters.extra = self.counters.extra.saturating_add(1);
        self.extras.count = self.extras.count.saturating_add(1);
        if self.extras.samples.len() < REPORT_SAMPLE_LIMIT {
            self.extras.samples.push(relative.to_text_lossy());
        }
        self.emit(AuditEvent::Extra { rel: AuditPath::from_path(relative) });
        assert(self@.extras.samples =~= before.with_extra(relative@).extras.samples);
        assert(self@ =~= before.with_extra(relative@));
    }
}

proof fn lemma_plus_after_right(total: FolderSummary, last: FolderSummary, outcome: OutcomeView)
    ensures
        total.plus(last.after_outcome(outcome)) == total.plus(last).after_outcome(outcome),
{
    match outcome {
        OutcomeView::CopiedNew { .. } => {},
        OutcomeView::CopiedReplaced { .. } => {},
        OutcomeView::SkippedSame { .. } => {},
        OutcomeView::SkippedDifferent { .. } => {},
        OutcomeView::MetadataFixed { .. } => {},
        OutcomeView::Failed { .. } => {},
        OutcomeView::Excluded { .. } => {},
        OutcomeView::NotAttempted { .. } => {},
    }
}

proof fn lemma_plus_after_left(total: FolderSummary, last: FolderSummary, outcome: OutcomeView)
    ensures
        total.after_outcome(outcome).plus(last) == total.plus(last).after_outcome(outcome),
{
    match outcome {
        OutcomeView::CopiedNew { .. } => {},
        OutcomeView::CopiedReplaced { .. } => {},
        OutcomeView::SkippedSame { .. } => {},
        OutcomeView::SkippedDifferent { .. } => {},
        OutcomeView::MetadataFixed { .. } => {},
        OutcomeView::Failed { .. } => {},
        OutcomeView::Excluded { .. } => {},
        OutcomeView::NotAttempted { .. } => {},
    }
}

proof fn lemma_folder_total_update(
    folders: Seq<(Seq<char>, FolderSummary)>,
    at: int,
    key: Seq<char>,
    outcome: OutcomeView,
)
    requires
        0 <= at < folders.len(),
    ensures
        folder_total(folders.update(at, (key, folders[at].1.after_outcome(outcome))))
            == folder_total(folders).after_outcome(outcome),
    decreases folders.len(),
{
    let updated = folders.update(at, (key, folders[at].1.after_outcome(outcome)));
    let rest = folders.drop_last();
    if at == folders.len() - 1 {
        assert(updated.drop_last() =~= rest);
        lemma_plus_after_right(folder_total(rest), folders.last().1, outcome);
    } else {
        assert(updated.drop_last() =~= rest.update(at, (key, rest[at].1.after_outcome(outcome))));
        lemma_folder_total_update(rest, at, key, outcome);
        lemma_plus_after_left(folder_total(rest), folders.last().1, outcome);
    }
}

proof fn lemma_agreement_step(
    total: FolderSummary,
    counters: Counters,
    bytes: u64,
    outcome: OutcomeView,
)
    requires
        total.agrees_with(counters),
    ensures
        total.after_outcome(outcome).agrees_with(
            counters.after_discovery(bytes).after_outcome(outcome),
        ),
{
}

/// Discovering one file and recording its outcome keeps the folder table in
/// agreement with the global counters, for every outcome.
pub proof fn folders_stay_in_agreement(
    ledger: LedgerView,
    bytes: u64,
    rel: Seq<u16>,
    outcome: OutcomeView,
    differences: Option<Seq<Seq<char>>>,
)
    requires
        folders_agree(ledger.folders, ledger.counters),
    ensures
        ({
            let after = ledger.discovering(bytes).after_file(rel, outcome, differences);
            folders_agree(after.folders, after.counters)
        }),
{
    let key = spec_top_level(rel);
    let after = ledger.discovering(bytes).after_file(rel, outcome, differences);
    let folders = ledger.folders;
    lemma_position(folders, key);
    let at = crate::table::position(folders, key);
    assert(folder_total(after.folders) == folder_total(folders).after_outcome(outcome)) by {
        if at < folders.len() {
            lemma_folder_total_update(folders, at, key, outcome);
        } else {
            let added = FolderSummary::zero().after_outcome(outcome);
            assert(after.folders =~= folders.push((key, added)));
            assert(after.folders.drop_last() =~= folders);
            lemma_plus_after_right(folder_total(folders), FolderSummary::zero(), outcome);
        }
    }
    assert(after.counters == ledger.counters.after_discovery(bytes).after_outcome(outcome));
    lemma_agreement_step(folder_total(folders), ledger.counters, bytes, outcome);
}

/// The breaker trips exactly with the failure that completes a streak of five,
/// and then keeps the category that tripped it.
pub proof fn breaker_trips_at_the_threshold(ledger: LedgerView, error: ErrorView)
    ensures
        ledger.breaker is Some ==> ledger.aggregating(error).breaker == ledger.breaker,
        ledger.breaker is None ==> (ledger.aggregating(error).breaker is Some <==> (trips_breaker(
            error.category,
        ) && ledger.breaker_streak + 1 >= BREAKER_THRESHOLD)),
        ledger.breaker is None && ledger.aggregating(error).breaker is Some
            ==> ledger.aggregating(error).breaker == Some(error.category)
            && ledger.aggregating(error).worker_cancel,
{
}

/// Only a success resets the streak; a failure of another category leaves it
/// as it was.
pub proof fn only_success_resets_the_streak(
    ledger: LedgerView,
    rel: Seq<u16>,
    outcome: OutcomeView,
    differences: Option<Seq<Seq<char>>>,
)
    ensures
        resets_breaker(outcome) ==> ledger.after_file(rel, outcome, differences).breaker_streak
            == 0,
        !resets_breaker(outcome) ==> ledger.after_file(rel, outcome, differences).breaker_streak
            >= ledger.breaker_streak,
        outcome matches OutcomeView::Failed { error, .. } && !trips_breaker(error.category)
            ==> ledger.after_file(rel, outcome, differences).breaker_streak
            == ledger.breaker_streak,
{
}

/// A recorded outcome is logged exactly once, after everything before it.
pub proof fn every_outcome_is_logged_once(
    ledger: LedgerView,
    rel: Seq<u16>,
    outcome: OutcomeView,
    differences: Option<Seq<Seq<char>>>,
)
    ensures
        ledger.after_file(rel, outcome, differences).notices == ledger.notices.push(
            NoticeView::Event(file_event(rel, outcome, differences)),
        ),
{
}

/// What the log says of a file: its path, its size and what became of it, with
/// the digest of a copy, the reason of an exclusion and the error of a failure,
/// and the old object wherever one was replaced or kept.
pub proof fn logged_outcome_says_what_happened(
    rel: Seq<u16>,
    outcome: OutcomeView,
    differences: Option<Seq<Seq<char>>>,
)
    ensures
        file_event(rel, outcome, differences) matches EventView::File {
            action,
            rel: path,
            size,
            hash,
            replacement,
            error,
            reason,
        } && {
            &&& path == audit_path(rel)
            &&& outcome matches OutcomeView::CopiedNew { bytes, digest } ==> action == "copied"@
                && size == bytes && hash == digest && replacement is None && error is None
                && reason is None
            &&& outcome matches OutcomeView::CopiedReplaced {
                bytes,
                digest,
                destination_newer,
                old_size,
                old_mtime,
                old_attributes,
            } ==> action == "copied"@ && size == bytes && hash == digest && error is None && (
            replacement matches Some(old) && old.old_size == old_size && old.old_mtime == old_mtime
                && old.old_attributes == old_attributes && old.destination_newer
                == destination_newer && (differences matches Some(fields) ==> old.differences
                == fields))
            &&& outcome matches OutcomeView::SkippedSame { bytes } ==> action == "skipped"@ && size
                == bytes && hash is None && replacement is None && error is None && reason == Some(
                "same"@,
            )
            &&& outcome matches OutcomeView::SkippedDifferent {
                bytes,
                destination_newer,
                old_size,
                old_mtime,
                old_attributes,
            } ==> action == "skipped_diff"@ && size == bytes && hash is None && error is None && (
            replacement matches Some(old) && old.old_size == old_size && old.old_mtime == old_mtime
                && old.old_attributes == old_attributes && old.destination_newer
                == destination_newer && (differences matches Some(fields) ==> old.differences
                == fields))
            &&& outcome matches OutcomeView::MetadataFixed { bytes } ==> action == "meta_fixed"@
                && size == bytes && hash is None && replacement is None && error is None
            &&& outcome matches OutcomeView::Failed { bytes, error: why } ==> action == "failed"@
                && size == bytes && hash is None && replacement is None && error == Some(why)
            &&& outcome matches OutcomeView::Excluded { bytes, reason: why } ==> action
                == "excluded"@ && size == bytes && hash is None && error is None && reason == Some(
                why,
            )
            &&& outcome matches OutcomeView::NotAttempted { bytes, reason: why } ==> action
                == "not_attempted"@ && size == bytes && hash is None && error is None && reason
                == Some(why)
        },
{
}

/// How many errors of a category the summaries count.
pub open spec fn errors_counted(list: Seq<ErrorSummaryView>, category: ErrorCategory) -> int
    decreases list.len(),
{
    if list.len() == 0 {
        0
    } else {
        errors_counted(list.drop_last(), category) + if list.last().category == category {
            list.last().count as int
        } else {
            0
        }
    }
}

/// Whether summaries come in the order of their categories, each once.
pub open spec fn summaries_in_order(list: Seq<ErrorSummaryView>) -> bool {
    forall|i: int, j: int|
        0 <= i < j < list.len() ==> rank((#[trigger] list[i]).category) < rank(
            (#[trigger] list[j]).category,
        )
}

proof fn lemma_slot(list: Seq<ErrorSummaryView>, category: ErrorCategory)
    ensures
        0 <= slot(list, category) <= list.len(),
        forall|i: int|
            0 <= i < slot(list, category) ==> rank((#[trigger] list[i]).category) < rank(category),
        slot(list, category) < list.len() ==> rank(list[slot(list, category)].category) >= rank(
            category,
        ),
    decreases list.len(),
{
    if list.len() > 0 && rank(list[0].category) < rank(category) {
        let rest = list.drop_first();
        lemma_slot(rest, category);
        let at = slot(rest, category);
        assert forall|i: int| 0 <= i < slot(list, category) implies rank(
            (#[trigger] list[i]).category,
        ) < rank(category) by {
            if i > 0 {
                assert(rest[i - 1] == list[i]);
            }
        }
        if at < rest.len() {
            assert(rest[at] == list[at + 1]);
        }
    }
}

proof fn lemma_errors_counted_insert(
    list: Seq<ErrorSummaryView>,
    at: int,
    summary: ErrorSummaryView,
    category: ErrorCategory,
)
    requires
        0 <= at <= list.len(),
    ensures
        errors_counted(list.insert(at, summary), category) == errors_counted(list, category)
            + if summary.category == category {
            summary.count as int
        } else {
            0
        },
    decreases list.len(),
{
    let more = list.insert(at, summary);
    if at == list.len() {
        assert(more.drop_last() =~= list);
    } else {
        assert(more.drop_last() =~= list.drop_last().insert(at, summary));
        assert(more.last() == list.last());
        lemma_errors_counted_insert(list.drop_last(), at, summary, category);
    }
}

proof fn lemma_errors_counted_update(
    list: Seq<ErrorSummaryView>,
    at: int,
    summary: ErrorSummaryView,
    category: ErrorCategory,
)
    requires
        0 <= at < list.len(),
        summary.category == list[at].category,
    ensures
        errors_counted(list.update(at, summary), category) == errors_counted(list, category)
            + if summary.category == category {
            summary.count - list[at].count
        } else {
            0
        },
    decreases list.len(),
{
    let other = list.update(at, summary);
    if at == list.len() - 1 {
        assert(other.drop_last() =~= list.drop_last());
    } else {
        assert(other.drop_last() =~= list.drop_last().update(at, summary));
        assert(other.last() == list.last());
        lemma_errors_counted_update(list.drop_last(), at, summary, category);
    }
}

/// A failure is counted once, in the summary of its own category, with its
/// first error's guidance; every other category keeps its count, and the
/// summaries stay in order.
pub proof fn failure_is_counted_in_its_category(
    list: Seq<ErrorSummaryView>,
    error: ErrorView,
    other: ErrorCategory,
)
    requires
        summaries_in_order(list),
        forall|i: int| 0 <= i < list.len() ==> (#[trigger] list[i]).count < u64::MAX,
    ensures
        summaries_in_order(aggregated(list, error)),
        errors_counted(aggregated(list, error), error.category) == errors_counted(
            list,
            error.category,
        ) + 1,
        other != error.category ==> errors_counted(aggregated(list, error), other)
            == errors_counted(list, other),
        exists|i: int|
            0 <= i < aggregated(list, error).len() && (#[trigger] aggregated(
                list,
                error,
            )[i]).category == error.category && (aggregated(list, error)[i].samples.len()
                < REPORT_SAMPLE_LIMIT ==> aggregated(list, error)[i].samples.last() == error),
{
    lemma_slot(list, error.category);
    let at = slot(list, error.category);
    let after = aggregated(list, error);
    if at < list.len() && list[at].category == error.category {
        lemma_errors_counted_update(
            list,
            at,
            grown_summary(list[at], error),
            error.category,
        );
        lemma_errors_counted_update(list, at, grown_summary(list[at], error), other);
        assert(after[at].category == error.category);
    } else {
        lemma_errors_counted_insert(
            list,
            at,
            grown_summary(fresh_summary(error), error),
            error.category,
        );
        lemma_errors_counted_insert(
            list,
            at,
            grown_summary(fresh_summary(error), error),
            other,
        );
        assert(after[at].category == error.category);
        assert forall|i: int, j: int| 0 <= i < j < after.len() implies rank(
            (#[trigger] after[i]).category,
        ) < rank((#[trigger] after[j]).category) by {
            let one = if i < at {
                i
            } else {
                i - 1
            };
            let two = if j < at {
                j
            } else {
                j - 1
            };
            if i != at && j != at {
                assert(after[i] == list[one] && after[j] == list[two]);
            } else if i == at {
                assert(after[j] == list[two]);
                if at < two {
                    assert(rank(list[at].category) < rank(list[two].category));
                }
                assert(rank(list[at].category) != rank(error.category));
            } else {
                assert(after[i] == list[one]);
            }
        }
    }
}

/// The breaker trips when five failures of a lost device or a full disk come
/// without a success between them; other failures neither help nor reset it.
pub proof fn breaker_counts_lost_devices_and_full_disks(
    ledger: LedgerView,
    rel: Seq<u16>,
    bytes: u64,
    error: ErrorView,
)
    requires
        ledger.breaker_streak < 1000,
    ensures
        ({
            let after = ledger.after_file(rel, OutcomeView::Failed { bytes, error }, None);
            let counts = error.category is DeviceGone || error.category is Space;
            &&& after.breaker_streak == ledger.breaker_streak + if counts {
                1int
            } else {
                0
            }
            &&& after.breaker is Some <==> ledger.breaker is Some || counts
                && ledger.breaker_streak >= 4
            &&& ledger.breaker is None && after.breaker is Some ==> after.worker_cancel
        }),
        ({
            let after = ledger.after_file(rel, OutcomeView::SkippedSame { bytes }, None);
            after.breaker_streak == 0 && after.breaker == ledger.breaker
        }),
        ({
            let after = ledger.after_file(rel, OutcomeView::CopiedNew { bytes, digest: None }, None);
            after.breaker_streak == 0 && after.breaker == ledger.breaker
        }),
        ({
            let after = ledger.after_file(rel, OutcomeView::MetadataFixed { bytes }, None);
            after.breaker_streak == 0 && after.breaker == ledger.breaker
        }),
        ({
            let after = ledger.after_file(
                rel,
                OutcomeView::NotAttempted { bytes, reason: seq![] },
                None,
            );
            after.breaker_streak == ledger.breaker_streak && after.breaker == ledger.breaker
        }),
{
}

/// A replaced file is counted with its bytes, and as a newer one if it was; no
/// other outcome is a replacement. The file counts in its own top-level folder
/// and in no other.
pub proof fn replacement_and_folder_are_counted(
    ledger: LedgerView,
    rel: Seq<u16>,
    outcome: OutcomeView,
    differences: Option<Seq<Seq<char>>>,
    other: Seq<char>,
)
    requires
        ledger.replacements.count < u64::MAX,
        ledger.replacements.destination_newer < u64::MAX,
        outcome matches OutcomeView::CopiedReplaced { bytes, .. } ==> ledger.replacements.bytes
            + bytes <= u64::MAX,
    ensures
        ({
            let after = ledger.after_file(rel, outcome, differences);
            &&& outcome matches OutcomeView::CopiedReplaced { bytes, destination_newer, .. } ==> {
                &&& after.replacements.count == ledger.replacements.count + 1
                &&& after.replacements.bytes == ledger.replacements.bytes + bytes
                &&& after.replacements.destination_newer == ledger.replacements.destination_newer
                    + if destination_newer {
                    1int
                } else {
                    0
                }
            }
            &&& !(outcome is CopiedReplaced) ==> after.replacements == ledger.replacements
            &&& other != spec_top_level(rel) ==> lookup(after.folders, other) == lookup(
                ledger.folders,
                other,
            )
            &&& lookup(after.folders, spec_top_level(rel)) is Some
            &&& after.extras == ledger.extras
            &&& after.warnings == ledger.warnings
            &&& after.canceled == ledger.canceled
        }),
{
    let key = spec_top_level(rel);
    let known = match lookup(ledger.folders, key) {
        Some(summary) => summary,
        None => FolderSummary::zero(),
    };
    crate::table::put_is_read_back(ledger.folders, key, known.after_outcome(outcome), other);
}

/// A warning is counted under its kind and logged with its path and text.
pub proof fn warning_is_counted_and_logged(
    ledger: LedgerView,
    kind: Seq<char>,
    rel: Option<Seq<u16>>,
    message: Seq<char>,
    other: Seq<char>,
)
    ensures
        ({
            let after = ledger.warned(kind, rel, message);
            &&& lookup(after.warnings, kind) is Some
            &&& lookup(ledger.warnings, kind) is None ==> lookup(after.warnings, kind) == Some(1u64)
            &&& lookup(ledger.warnings, kind) matches Some(count) ==> count < u64::MAX ==> lookup(
                after.warnings,
                kind,
            ) == Some((count + 1) as u64)
            &&& other != kind ==> lookup(after.warnings, other) == lookup(ledger.warnings, other)
            &&& after.notices.len() == ledger.notices.len() + 1
            &&& after.notices.last() == NoticeView::Event(warning_view(kind, rel, message))
            &&& after.counters == ledger.counters
        }),
{
    let count: u64 = match lookup(ledger.warnings, kind) {
        Some(count) => sat(count, 1),
        None => 1,
    };
    crate::table::put_is_read_back(ledger.warnings, kind, count, other);
}

/// A link's outcome is logged under its path with what was replaced and why, and
/// a failed one is added to the failures of its category.
pub proof fn link_outcome_is_logged_and_its_failure_kept(
    ledger: LedgerView,
    rel: Seq<u16>,
    action: Seq<char>,
    reason: Option<Seq<char>>,
    replacement: Option<ReplacementView>,
    error: Option<ErrorView>,
)
    ensures
        ({
            let after = ledger.after_link(rel, action, reason, replacement, error);
            &&& after.notices.len() == ledger.notices.len() + 1
            &&& after.notices.last() == NoticeView::Event(
                EventView::File {
                    action,
                    rel: audit_path(rel),
                    size: 0,
                    hash: None,
                    replacement,
                    error,
                    reason,
                },
            )
            &&& after.counters == ledger.counters
            &&& error is None ==> after.errors == ledger.errors && after.breaker_streak
                == ledger.breaker_streak
            &&& error matches Some(failure) ==> after.errors == aggregated(ledger.errors, failure)
                && after.breaker_streak == ledger.streak_after(failure.category)
        }),
{
}

/// An extra object of the destination is counted and logged, and the first ones
/// are named in the report.
pub proof fn extra_object_is_counted_and_named(ledger: LedgerView, rel: Seq<u16>)
    requires
        ledger.counters.extra < u64::MAX,
        ledger.extras.count < u64::MAX,
    ensures
        ({
            let after = ledger.with_extra(rel);
            let kept = ledger.extras.samples.len();
            &&& after.counters.extra == ledger.counters.extra + 1
            &&& after.extras.count == ledger.extras.count + 1
            &&& kept < REPORT_SAMPLE_LIMIT ==> after.extras.samples.len() == kept + 1
                && after.extras.samples.last() == lossy_text(rel)
            &&& kept >= REPORT_SAMPLE_LIMIT ==> after.extras.samples == ledger.extras.samples
            &&& after.notices.last() == NoticeView::Event(
                EventView::Extra { rel: audit_path(rel) },
            )
            &&& after.errors == ledger.errors
        }),
{
}

} // verus!
