//! Self-contained report model.

use vstd::prelude::*;

use crate::error::{BigcpError, ErrorCategory, ErrorView, FailureView, OperationError};
use crate::model::{sat, Counters, FileOutcome, OutcomeView};
use crate::table::TextTable;
use crate::text::{decimal, push_decimal, texts};
use crate::REPORT_SCHEMA_VERSION;
pub use crate::path::top_level;

verus! {

/// Examples kept of each kind.
pub const REPORT_SAMPLE_LIMIT: usize = 100;

/// What is said of a report of another version.
pub open spec fn unsupported_schema(v: u32) -> Seq<char> {
    "unsupported report schema "@ + decimal(v as nat) + "; this build supports "@ + decimal(
        REPORT_SCHEMA_VERSION as nat,
    )
}

/// Refuses a saved report of another version.
pub fn check_report_version(v: u32) -> (verdict: Result<(), BigcpError>)
    ensures
        verdict is Ok <==> v == REPORT_SCHEMA_VERSION,
        verdict matches Err(error) ==> error@ == FailureView::Format(unsupported_schema(v)),
{
    if v == REPORT_SCHEMA_VERSION {
        return Ok(());
    }
    let mut text = "unsupported report schema ".to_owned();
    push_decimal(&mut text, v as u64);
    text.append("; this build supports ");
    push_decimal(&mut text, REPORT_SCHEMA_VERSION as u64);
    assert(text@ =~= unsupported_schema(v));
    Err(BigcpError::Format(text))
}

/// One bounded replacement sample.
#[derive(Clone, Debug, PartialEq, Eq)]
pub struct ReplacementSample {
    /// Relative path.
    pub relative_path: String,
    /// Previous size.
    pub old_size: u64,
    /// Previous last-write FILETIME.
    pub old_mtime: i64,
    /// Differing classifier fields.
    pub differences: Vec<String>,
}

/// A replacement sample as values.
#[verifier::ext_equal]
pub ghost struct SampleView {
    pub relative_path: Seq<char>,
    pub old_size: u64,
    pub old_mtime: i64,
    pub differences: Seq<Seq<char>>,
}

impl View for ReplacementSample {
    type V = SampleView;

    open spec fn view(&self) -> SampleView {
        SampleView {
            relative_path: self.relative_path@,
            old_size: self.old_size,
            old_mtime: self.old_mtime,
            differences: texts(self.differences@),
        }
    }
}

/// Aggregated replacement statistics.
#[derive(Clone, Debug, PartialEq, Eq)]
pub struct ReplacementSummary {
    /// Number of replacements.
    pub count: u64,
    /// Logical replacement bytes.
    pub bytes: u64,
    /// Replacements where destination was newer.
    pub destination_newer: u64,
    /// Counts by source top-level folder.
    pub by_folder: TextTable<u64>,
    /// Bounded examples.
    pub samples: Vec<ReplacementSample>,
}

/// Replacement statistics as values.
#[verifier::ext_equal]
pub ghost struct ReplacementsView {
    pub count: u64,
    pub bytes: u64,
    pub destination_newer: u64,
    pub by_folder: Seq<(Seq<char>, u64)>,
    pub samples: Seq<SampleView>,
}

impl View for ReplacementSummary {
    type V = ReplacementsView;

    open spec fn view(&self) -> ReplacementsView {
        ReplacementsView {
            count: self.count,
            bytes: self.bytes,
            destination_newer: self.destination_newer,
            by_folder: self.by_folder@,
            samples: self.samples@.map_values(|sample: ReplacementSample| sample@),
        }
    }
}

impl ReplacementsView {
    /// No replacement yet.
    pub open spec fn none() -> ReplacementsView {
        ReplacementsView {
            count: 0,
            bytes: 0,
            destination_newer: 0,
            by_folder: seq![],
            samples: seq![],
        }
    }
}

impl ReplacementSummary {
    /// No replacement yet.
    pub fn new() -> (summary: Self)
        ensures
            summary@ == ReplacementsView::none(),
    {
        let summary = ReplacementSummary {
            count: 0,
            bytes: 0,
            destination_newer: 0,
            by_folder: TextTable::new(),
            samples: Vec::new(),
        };
        assert(summary@ =~= ReplacementsView::none());
        summary
    }
}

/// One error category aggregation.
#[derive(Clone, Debug, PartialEq, Eq)]
pub struct ErrorSummary {
    /// Stable category.
    pub category: ErrorCategory,
    /// Count across all raw codes.
    pub count: u64,
    /// Repair guidance.
    pub hint: String,
    /// Counts by top-level folder.
    pub by_folder: TextTable<u64>,
    /// At most 100 examples.
    pub samples: Vec<OperationError>,
}

/// An error aggregation as values.
#[verifier::ext_equal]
pub ghost struct ErrorSummaryView {
    pub category: ErrorCategory,
    pub count: u64,
    pub hint: Seq<char>,
    pub by_folder: Seq<(Seq<char>, u64)>,
    pub samples: Seq<ErrorView>,
}

impl View for ErrorSummary {
    type V = ErrorSummaryView;

    open spec fn view(&self) -> ErrorSummaryView {
        ErrorSummaryView {
            category: self.category,
            count: self.count,
            hint: self.hint@,
            by_folder: self.by_folder@,
            samples: self.samples@.map_values(|error: OperationError| error@),
        }
    }
}

/// Destination-only object summary.
#[derive(Clone, Debug, PartialEq, Eq)]
pub struct ExtraSummary {
    /// Total extras.
    pub count: u64,
    /// At most 100 relative paths.
    pub samples: Vec<String>,
}

/// Destination-only objects as values.
#[verifier::ext_equal]
pub ghost struct ExtrasView {
    pub count: u64,
    pub samples: Seq<Seq<char>>,
}

impl View for ExtraSummary {
    type V = ExtrasView;

    open spec fn view(&self) -> ExtrasView {
        ExtrasView { count: self.count, samples: texts(self.samples@) }
    }
}

/// One top-level folder's disjoint file outcomes.
#[derive(Clone, Copy, Debug, PartialEq, Eq, Structural)]
pub struct FolderSummary {
    /// Files discovered below this top-level component.
    pub files_discovered: u64,
    /// Newly copied files.
    pub copied_new: u64,
    /// Replaced files.
    pub copied_replaced: u64,
    /// Equality skips.
    pub skipped_same: u64,
    /// Differing files withheld by policy.
    pub skipped_diff: u64,
    /// Metadata-only repairs.
    pub meta_fixed: u64,
    /// Failed files.
    pub failed: u64,
    /// Excluded files.
    pub excluded: u64,
    /// Files not attempted.
    pub not_attempted: u64,
    /// Source bytes represented by all outcomes.
    pub logical_bytes_discovered: u64,
    /// Source bytes represented by successful copies.
    pub logical_bytes_copied: u64,
}

impl Default for FolderSummary {
    fn default() -> (summary: Self)
        ensures
            summary == FolderSummary::zero(),
    {
        FolderSummary {
            files_discovered: 0,
            copied_new: 0,
            copied_replaced: 0,
            skipped_same: 0,
            skipped_diff: 0,
            meta_fixed: 0,
            failed: 0,
            excluded: 0,
            not_attempted: 0,
            logical_bytes_discovered: 0,
            logical_bytes_copied: 0,
        }
    }
}

impl FolderSummary {
    /// A folder in which nothing was seen.
    pub open spec fn zero() -> FolderSummary {
        FolderSummary {
            files_discovered: 0,
            copied_new: 0,
            copied_replaced: 0,
            skipped_same: 0,
            skipped_diff: 0,
            meta_fixed: 0,
            failed: 0,
            excluded: 0,
            not_attempted: 0,
            logical_bytes_discovered: 0,
            logical_bytes_copied: 0,
        }
    }

    /// The folder with one more file of the outcome's kind.
    pub open spec fn with_outcome_kind(self, outcome: OutcomeView) -> FolderSummary {
        match outcome {
            OutcomeView::CopiedNew { .. } => FolderSummary {
                copied_new: sat(self.copied_new, 1),
                ..self
            },
            OutcomeView::CopiedReplaced { .. } => FolderSummary {
                copied_replaced: sat(self.copied_replaced, 1),
                ..self
            },
            OutcomeView::SkippedSame { .. } => FolderSummary {
                skipped_same: sat(self.skipped_same, 1),
                ..self
            },
            OutcomeView::SkippedDifferent { .. } => FolderSummary {
                skipped_diff: sat(self.skipped_diff, 1),
                ..self
            },
            OutcomeView::MetadataFixed { .. } => FolderSummary {
                meta_fixed: sat(self.meta_fixed, 1),
                ..self
            },
            OutcomeView::Failed { .. } => FolderSummary { failed: sat(self.failed, 1), ..self },
            OutcomeView::Excluded { .. } => FolderSummary {
                excluded: sat(self.excluded, 1),
                ..self
            },
            OutcomeView::NotAttempted { .. } => FolderSummary {
                not_attempted: sat(self.not_attempted, 1),
                ..self
            },
        }
    }

    /// The folder after one terminal file outcome.
    pub open spec fn after_outcome(self, outcome: OutcomeView) -> FolderSummary {
        FolderSummary {
            files_discovered: sat(self.files_discovered, 1),
            logical_bytes_copied: if outcome.spec_is_copied() {
                sat(self.logical_bytes_copied, outcome.spec_bytes())
            } else {
                self.logical_bytes_copied
            },
            logical_bytes_discovered: sat(self.logical_bytes_discovered, outcome.spec_bytes()),
            ..self.with_outcome_kind(outcome)
        }
    }

    /// Records one terminal file outcome.
    pub fn apply(&mut self, outcome: &FileOutcome)
        ensures
            *final(self) == old(self).after_outcome(outcome@),
    {
        self.files_discovered = self.files_discovered.saturating_add(1);
        let bytes: u64 = match outcome {
            FileOutcome::CopiedNew { bytes, .. } => {
                self.copied_new = self.copied_new.saturating_add(1);
                self.logical_bytes_copied = self.logical_bytes_copied.saturating_add(*bytes);
                *bytes
            },
            FileOutcome::CopiedReplaced { bytes, .. } => {
                self.copied_replaced = self.copied_replaced.saturating_add(1);
                self.logical_bytes_copied = self.logical_bytes_copied.saturating_add(*bytes);
                *bytes
            },
            FileOutcome::SkippedSame { bytes } => {
                self.skipped_same = self.skipped_same.saturating_add(1);
                *bytes
            },
            FileOutcome::SkippedDifferent { bytes, .. } => {
                self.skipped_diff = self.skipped_diff.saturating_add(1);
                *bytes
            },
            FileOutcome::MetadataFixed { bytes } => {
                self.meta_fixed = self.meta_fixed.saturating_add(1);
                *bytes
            },
            FileOutcome::Failed { bytes, .. } => {
                self.failed = self.failed.saturating_add(1);
                *bytes
            },
            FileOutcome::Excluded { bytes, .. } => {
                self.excluded = self.excluded.saturating_add(1);
                *bytes
            },
            FileOutcome::NotAttempted { bytes, .. } => {
                self.not_attempted = self.not_attempted.saturating_add(1);
                *bytes
            },
        };
        self.logical_bytes_discovered = self.logical_bytes_discovered.saturating_add(bytes);
    }

    /// The sum of two folders, field by field.
    pub open spec fn plus(self, other: FolderSummary) -> FolderSummary {
        FolderSummary {
            files_discovered: sat(self.files_discovered, other.files_discovered),
            copied_new: sat(self.copied_new, other.copied_new),
            copied_replaced: sat(self.copied_replaced, other.copied_replaced),
            skipped_same: sat(self.skipped_same, other.skipped_same),
            skipped_diff: sat(self.skipped_diff, other.skipped_diff),
            meta_fixed: sat(self.meta_fixed, other.meta_fixed),
            failed: sat(self.failed, other.failed),
            excluded: sat(self.excluded, other.excluded),
            not_attempted: sat(self.not_attempted, other.not_attempted),
            logical_bytes_discovered: sat(
                self.logical_bytes_discovered,
                other.logical_bytes_discovered,
            ),
            logical_bytes_copied: sat(self.logical_bytes_copied, other.logical_bytes_copied),
        }
    }

    /// Adds another folder, field by field.
    pub fn add_folder(&mut self, other: &FolderSummary)
        ensures
            *final(self) == old(self).plus(*other),
    {
        self.files_discovered = self.files_discovered.saturating_add(other.files_discovered);
        self.copied_new = self.copied_new.saturating_add(other.copied_new);
        self.copied_replaced = self.copied_replaced.saturating_add(other.copied_replaced);
        self.skipped_same = self.skipped_same.saturating_add(other.skipped_same);
        self.skipped_diff = self.skipped_diff.saturating_add(other.skipped_diff);
        self.meta_fixed = self.meta_fixed.saturating_add(other.meta_fixed);
        self.failed = self.failed.saturating_add(other.failed);
        self.excluded = self.excluded.saturating_add(other.excluded);
        self.not_attempted = self.not_attempted.saturating_add(other.not_attempted);
        self.logical_bytes_discovered =
            self.logical_bytes_discovered.saturating_add(other.logical_bytes_discovered);
        self.logical_bytes_copied =
            self.logical_bytes_copied.saturating_add(other.logical_bytes_copied);
    }

    /// Whether a folder total agrees with the global file counters.
    pub open spec fn agrees_with(self, counters: Counters) -> bool {
        &&& self.files_discovered == counters.files_discovered
        &&& self.copied_new == counters.copied_new
        &&& self.copied_replaced == counters.copied_replaced
        &&& self.skipped_same == counters.skipped_same
        &&& self.skipped_diff == counters.skipped_diff
        &&& self.meta_fixed == counters.meta_fixed
        &&& self.failed == counters.failed
        &&& self.excluded == counters.excluded
        &&& self.not_attempted == counters.not_attempted
        &&& self.logical_bytes_discovered == counters.bytes_logical_discovered
        &&& self.logical_bytes_copied == counters.bytes_logical_copied
    }
}

/// The sum of all folders in a table.
pub open spec fn folder_total(folders: Seq<(Seq<char>, FolderSummary)>) -> FolderSummary
    decreases folders.len(),
{
    if folders.len() == 0 {
        FolderSummary::zero()
    } else {
        folder_total(folders.drop_last()).plus(folders.last().1)
    }
}

/// Whether folder summaries and global file counters tell the same story.
pub open spec fn folders_agree(
    folders: Seq<(Seq<char>, FolderSummary)>,
    counters: Counters,
) -> bool {
    folder_total(folders).agrees_with(counters)
}

/// Verifies that folder summaries add up to the global file counters.
pub fn reconcile_folders(folders: &TextTable<FolderSummary>, counters: &Counters) -> (verdict:
    Result<(), String>)
    ensures
        verdict is Ok <==> folders_agree(folders@, *counters),
        verdict matches Err(message) ==> message@
            == "top-level folder summaries do not reconcile with global file counters"@,
{
    let mut total: FolderSummary = FolderSummary::default();
    for i in 0..folders.entries.len()
        invariant
            total == folder_total(folders@.take(i as int)),
            folders@.len() == folders.entries.len(),
    {
        assert(folders@.take(i as int + 1).drop_last() =~= folders@.take(i as int));
        assert(folders@[i as int].1 == folders.entries@[i as int].1);
        let summary = folders.entries[i].1;
        total.add_folder(&summary);
    }
    assert(folders@.take(folders@.len() as int) =~= folders@);
    let agrees = total.files_discovered == counters.files_discovered && total.copied_new
        == counters.copied_new && total.copied_replaced == counters.copied_replaced
        && total.skipped_same == counters.skipped_same && total.skipped_diff
        == counters.skipped_diff && total.meta_fixed == counters.meta_fixed && total.failed
        == counters.failed && total.excluded == counters.excluded && total.not_attempted
        == counters.not_attempted && total.logical_bytes_discovered
        == counters.bytes_logical_discovered && total.logical_bytes_copied
        == counters.bytes_logical_copied;
    if agrees {
        Ok(())
    } else {
        Err("top-level folder summaries do not reconcile with global file counters".to_owned())
    }
}

/// Actionable report hint.
#[derive(Clone, Debug, PartialEq, Eq)]
pub struct Hint {
    /// Stable hint identifier.
    pub id: String,
    /// Human-readable action.
    pub text: String,
    /// Confidence label.
    pub confidence: String,
}

/// Full verification summary.
#[derive(Clone, Debug, PartialEq, Eq)]
pub struct VerificationSummary {
    /// copied for post-copy or full for standalone.
    pub mode: String,
    /// Destination filesystem used to interpret representable fidelity.
    pub destination_filesystem: Option<String>,
    /// Whether comparison used destination-projected filesystem semantics.
    pub projected: bool,
    /// Objects passing every strict field.
    pub passed: u64,
    /// Objects with a serious mismatch.
    pub failed: u64,
    /// Bounded mismatch details.
    pub mismatches: Vec<String>,
    /// Last-access differences, informational only.
    pub last_access_differences: u64,
}

/// A verification summary as values.
#[verifier::ext_equal]
pub ghost struct VerificationView {
    pub mode: Seq<char>,
    pub destination_filesystem: Option<Seq<char>>,
    pub projected: bool,
    pub passed: u64,
    pub failed: u64,
    pub mismatches: Seq<Seq<char>>,
    pub last_access_differences: u64,
}

impl View for VerificationSummary {
    type V = VerificationView;

    open spec fn view(&self) -> VerificationView {
        VerificationView {
            mode: self.mode@,
            destination_filesystem: match self.destination_filesystem {
                Some(name) => Some(name@),
                None => None,
            },
            projected: self.projected,
            passed: self.passed,
            failed: self.failed,
            mismatches: texts(self.mismatches@),
            last_access_differences: self.last_access_differences,
        }
    }
}

impl Default for VerificationSummary {
    fn default() -> (summary: Self)
        ensures
            summary.mode@ == Seq::<char>::empty(),
            summary.destination_filesystem is None,
            !summary.projected,
            summary.passed == 0,
            summary.failed == 0,
            summary.mismatches@.len() == 0,
            summary.last_access_differences == 0,
    {
        VerificationSummary {
            mode: String::new(),
            destination_filesystem: None,
            projected: false,
            passed: 0,
            failed: 0,
            mismatches: Vec::new(),
            last_access_differences: 0,
        }
    }
}

impl VerificationSummary {
    /// An equal summary.
    pub fn copied(&self) -> (summary: VerificationSummary)
        ensures
            summary@ == self@,
    {
        let mut mismatches: Vec<String> = Vec::new();
        let ghost views = texts(self.mismatches@);
        assert(texts(mismatches@) =~= views.take(0));
        for i in 0..self.mismatches.len()
            invariant
                views == texts(self.mismatches@),
                texts(mismatches@) == views.take(i as int),
        {
            let ghost before = texts(mismatches@);
            mismatches.push(self.mismatches[i].clone());
            assert(texts(mismatches@) =~= before.push(views[i as int]));
            assert(views.take(i as int + 1) =~= before.push(views[i as int]));
        }
        assert(views.take(views.len() as int) =~= views);
        VerificationSummary {
            mode: self.mode.clone(),
            destination_filesystem: match &self.destination_filesystem {
                Some(name) => Some(name.clone()),
                None => None,
            },
            projected: self.projected,
            passed: self.passed,
            failed: self.failed,
            mismatches,
            last_access_differences: self.last_access_differences,
        }
    }
}

/// Whether some object failed in a completed run.
pub open spec fn run_has_failures(
    counters: Counters,
    verification: Option<&VerificationSummary>,
) -> bool {
    counters.failed > 0 || counters.dirs_failed > 0 || counters.dirs_meta_failed > 0
        || counters.links_failed > 0 || (verification matches Some(summary) && summary.failed > 0)
}

/// The exit code of a completed run: 4 for a tripped breaker, 3 for a graceful
/// stop, 2 for failed objects, else 0.
pub open spec fn spec_completed_exit(
    canceled: bool,
    breaker_tripped: bool,
    counters: Counters,
    verification: Option<&VerificationSummary>,
) -> i32 {
    if breaker_tripped {
        4
    } else if canceled {
        3
    } else if run_has_failures(counters, verification) {
        2
    } else {
        0
    }
}

/// The exit code of a completed run.
///
/// The breaker outranks cancellation: its code names the actionable cause.
pub fn completed_exit(
    canceled: bool,
    breaker_tripped: bool,
    counters: &Counters,
    verification: Option<&VerificationSummary>,
) -> (exit: i32)
    ensures
        exit == spec_completed_exit(canceled, breaker_tripped, *counters, verification),
{
    let mismatched = match verification {
        Some(summary) => summary.failed > 0,
        None => false,
    };
    if breaker_tripped {
        4
    } else if canceled {
        3
    } else if counters.failed > 0 || counters.dirs_failed > 0 || counters.dirs_meta_failed > 0
        || counters.links_failed > 0 || mismatched {
        2
    } else {
        0
    }
}

/// An outcome counts once in its folder, in its own counter and in no other,
/// with its bytes, and as copied bytes only if it was copied.
pub proof fn outcome_counts_once_in_its_folder(folder: FolderSummary, outcome: OutcomeView)
    requires
        folder.files_discovered < u64::MAX,
        folder.copied_new < u64::MAX,
        folder.copied_replaced < u64::MAX,
        folder.skipped_same < u64::MAX,
        folder.skipped_diff < u64::MAX,
        folder.meta_fixed < u64::MAX,
        folder.failed < u64::MAX,
        folder.excluded < u64::MAX,
        folder.not_attempted < u64::MAX,
        folder.logical_bytes_discovered + outcome.spec_bytes() <= u64::MAX,
        folder.logical_bytes_copied + outcome.spec_bytes() <= u64::MAX,
    ensures
        ({
            let after = folder.after_outcome(outcome);
            let one = |yes: bool| -> int { if yes { 1int } else { 0int } };
            let copied = outcome is CopiedNew || outcome is CopiedReplaced;
            &&& after.files_discovered == folder.files_discovered + 1
            &&& after.copied_new == folder.copied_new + one(outcome is CopiedNew)
            &&& after.copied_replaced == folder.copied_replaced + one(outcome is CopiedReplaced)
            &&& after.skipped_same == folder.skipped_same + one(outcome is SkippedSame)
            &&& after.skipped_diff == folder.skipped_diff + one(outcome is SkippedDifferent)
            &&& after.meta_fixed == folder.meta_fixed + one(outcome is MetadataFixed)
            &&& after.failed == folder.failed + one(outcome is Failed)
            &&& after.excluded == folder.excluded + one(outcome is Excluded)
            &&& after.not_attempted == folder.not_attempted + one(outcome is NotAttempted)
            &&& after.logical_bytes_discovered == folder.logical_bytes_discovered
                + outcome.spec_bytes()
            &&& after.logical_bytes_copied == folder.logical_bytes_copied + if copied {
                outcome.spec_bytes() as int
            } else {
                0
            }
        }),
{
}

/// A folder's counters stay those of the run where both count the same
/// outcomes.
pub proof fn folder_and_run_count_alike(
    folder: FolderSummary,
    counters: Counters,
    outcome: OutcomeView,
)
    requires
        folder.agrees_with(counters),
        counters.files_discovered < u64::MAX,
    ensures
        folder.after_outcome(outcome).agrees_with(
            Counters {
                files_discovered: (counters.files_discovered + 1) as u64,
                ..counters.after_outcome(outcome)
            },
        ),
{
}

/// Folders agree with a run only if each counter of the run is the sum of those
/// of the folders, while no sum is full.
pub proof fn agreeing_folders_add_up(
    one: FolderSummary,
    other: FolderSummary,
    counters: Counters,
)
    requires
        one.plus(other).agrees_with(counters),
        counters.files_discovered < u64::MAX,
        counters.copied_new < u64::MAX,
        counters.copied_replaced < u64::MAX,
        counters.skipped_same < u64::MAX,
        counters.skipped_diff < u64::MAX,
        counters.meta_fixed < u64::MAX,
        counters.failed < u64::MAX,
        counters.excluded < u64::MAX,
        counters.not_attempted < u64::MAX,
        counters.bytes_logical_discovered < u64::MAX,
        counters.bytes_logical_copied < u64::MAX,
    ensures
        counters.files_discovered == one.files_discovered + other.files_discovered,
        counters.copied_new == one.copied_new + other.copied_new,
        counters.copied_replaced == one.copied_replaced + other.copied_replaced,
        counters.skipped_same == one.skipped_same + other.skipped_same,
        counters.skipped_diff == one.skipped_diff + other.skipped_diff,
        counters.meta_fixed == one.meta_fixed + other.meta_fixed,
        counters.failed == one.failed + other.failed,
        counters.excluded == one.excluded + other.excluded,
        counters.not_attempted == one.not_attempted + other.not_attempted,
        counters.bytes_logical_discovered == one.logical_bytes_discovered
            + other.logical_bytes_discovered,
        counters.bytes_logical_copied == one.logical_bytes_copied + other.logical_bytes_copied,
{
}

/// A completed run ends with 4 after the breaker, with 3 after a cancellation,
/// with 2 after any failure or mismatch, and with 0 otherwise.
pub proof fn completed_exit_follows_the_worst(
    canceled: bool,
    breaker_tripped: bool,
    counters: Counters,
    verification: Option<&VerificationSummary>,
)
    ensures
        ({
            let exit = spec_completed_exit(canceled, breaker_tripped, counters, verification);
            let failures = counters.failed > 0 || counters.dirs_failed > 0
                || counters.dirs_meta_failed > 0 || counters.links_failed > 0 || (
            verification matches Some(summary) && summary.failed > 0);
            &&& exit == 4 <==> breaker_tripped
            &&& exit == 3 <==> !breaker_tripped && canceled
            &&& exit == 2 <==> !breaker_tripped && !canceled && failures
            &&& exit == 0 <==> !breaker_tripped && !canceled && !failures
        }),
{
}

} // verus!
