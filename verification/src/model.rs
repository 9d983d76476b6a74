//! Shared work-item, outcome and counter types.

use vstd::prelude::*;
use vstd::string::*;

use crate::audit::opt_text;
use crate::error::{ErrorView, OperationError};
use crate::path::WidePath;
use crate::platform::{ObjectKind, ObjectMetadata, COPYABLE_ATTRIBUTES};
use crate::text::{decimal, push_decimal};

verus! {

/// Source or destination enumeration snapshot used by the classifier.
#[derive(Clone, Debug, PartialEq, Eq)]
pub struct EntrySnapshot {
    /// Source-root-relative path.
    pub relative_path: WidePath,
    /// Handle-derived metadata.
    pub metadata: ObjectMetadata,
}

impl EntrySnapshot {
    /// Returns attributes that participate in copy semantics.
    pub fn copyable_attributes(&self) -> (attributes: u32)
        ensures
            attributes == self.metadata.basic.attributes & COPYABLE_ATTRIBUTES,
    {
        self.metadata.basic.attributes & COPYABLE_ATTRIBUTES
    }

    /// Returns the non-following object class.
    pub fn kind(&self) -> (kind: ObjectKind)
        ensures
            kind == self.metadata.kind,
    {
        self.metadata.kind
    }

    /// An equal snapshot.
    pub fn copied(&self) -> (snapshot: EntrySnapshot)
        ensures
            snapshot.relative_path@ == self.relative_path@,
            snapshot.metadata == self.metadata,
    {
        EntrySnapshot { relative_path: self.relative_path.copied(), metadata: self.metadata }
    }
}

/// Destination state recorded at classification time.
#[derive(Clone, Debug, PartialEq, Eq)]
pub enum DestinationState {
    /// No matching destination name existed.
    New,
    /// A matching object existed and must be revalidated before commit.
    Replace(EntrySnapshot),
}

/// Exact classifier result.
#[derive(Clone, Debug, PartialEq, Eq)]
pub enum Classification {
    /// Destination has no matching object.
    New,
    /// Data heuristic and examined metadata match.
    Same,
    /// Data heuristic matches but cheap metadata differs.
    MetadataDiff(Vec<&'static str>),
    /// Data differs and replacement is authorized.
    Replace {
        /// Differing fields used in audit output.
        fields: Vec<&'static str>,
        /// Whether the destination mtime is newer.
        destination_newer: bool,
    },
    /// Data differs but replacement was disabled.
    SkipDifferent {
        /// Differing fields used in audit output.
        fields: Vec<&'static str>,
        /// Whether the destination mtime is newer.
        destination_newer: bool,
    },
    /// Source and destination object classes differ.
    TypeConflict,
}

/// File terminal outcomes. Variants are deliberately disjoint.
#[derive(Clone, Debug, PartialEq, Eq)]
pub enum FileOutcome {
    /// Newly published file.
    CopiedNew {
        /// Logical bytes copied.
        bytes: u64,
        /// Optional xxh3-128 digest.
        digest: Option<String>,
    },
    /// Replacement of a differing file through the selected completion path.
    CopiedReplaced {
        /// Logical bytes copied.
        bytes: u64,
        /// Optional xxh3-128 digest.
        digest: Option<String>,
        /// Whether the previous destination was newer.
        destination_newer: bool,
        /// Previous destination logical size captured at classification.
        old_size: u64,
        /// Previous destination last-write time in FILETIME ticks.
        old_mtime: i64,
        /// Previous destination raw attributes.
        old_attributes: u32,
    },
    /// Metadata equality skip.
    SkippedSame {
        /// Logical bytes not rewritten.
        bytes: u64,
    },
    /// Differing file withheld by replace=false, with the same destination
    /// detail as a replacement.
    SkippedDifferent {
        /// Logical bytes withheld.
        bytes: u64,
        /// Whether the existing destination was newer than the source.
        destination_newer: bool,
        /// Existing destination logical size captured at classification.
        old_size: u64,
        /// Existing destination last-write time in FILETIME ticks.
        old_mtime: i64,
        /// Existing destination raw attributes.
        old_attributes: u32,
    },
    /// Metadata repaired without unnamed-stream I/O.
    MetadataFixed {
        /// Logical file bytes represented by this outcome.
        bytes: u64,
    },
    /// Copy or metadata operation failed.
    Failed {
        /// Logical source bytes represented by this outcome.
        bytes: u64,
        /// Rich operation failure.
        error: OperationError,
    },
    /// Policy exclusion.
    Excluded {
        /// Logical source bytes excluded.
        bytes: u64,
        /// Stable exclusion reason.
        reason: String,
    },
    /// Discovered but not dispatched after a breaker or parent failure.
    NotAttempted {
        /// Logical source bytes represented by this outcome.
        bytes: u64,
        /// Stable reason.
        reason: String,
    },
}

/// A terminal file outcome as values.
#[verifier::ext_equal]
pub ghost enum OutcomeView {
    CopiedNew { bytes: u64, digest: Option<Seq<char>> },
    CopiedReplaced {
        bytes: u64,
        digest: Option<Seq<char>>,
        destination_newer: bool,
        old_size: u64,
        old_mtime: i64,
        old_attributes: u32,
    },
    SkippedSame { bytes: u64 },
    SkippedDifferent {
        bytes: u64,
        destination_newer: bool,
        old_size: u64,
        old_mtime: i64,
        old_attributes: u32,
    },
    MetadataFixed { bytes: u64 },
    Failed { bytes: u64, error: ErrorView },
    Excluded { bytes: u64, reason: Seq<char> },
    NotAttempted { bytes: u64, reason: Seq<char> },
}

impl View for FileOutcome {
    type V = OutcomeView;

    open spec fn view(&self) -> OutcomeView {
        match *self {
            FileOutcome::CopiedNew { bytes, digest } => OutcomeView::CopiedNew {
                bytes,
                digest: opt_text(digest),
            },
            FileOutcome::CopiedReplaced {
                bytes,
                digest,
                destination_newer,
                old_size,
                old_mtime,
                old_attributes,
            } => OutcomeView::CopiedReplaced {
                bytes,
                digest: opt_text(digest),
                destination_newer,
                old_size,
                old_mtime,
                old_attributes,
            },
            FileOutcome::SkippedSame { bytes } => OutcomeView::SkippedSame { bytes },
            FileOutcome::SkippedDifferent {
                bytes,
                destination_newer,
                old_size,
                old_mtime,
                old_attributes,
            } => OutcomeView::SkippedDifferent {
                bytes,
                destination_newer,
                old_size,
                old_mtime,
                old_attributes,
            },
            FileOutcome::MetadataFixed { bytes } => OutcomeView::MetadataFixed { bytes },
            FileOutcome::Failed { bytes, error } => OutcomeView::Failed { bytes, error: error@ },
            FileOutcome::Excluded { bytes, reason } => OutcomeView::Excluded {
                bytes,
                reason: reason@,
            },
            FileOutcome::NotAttempted { bytes, reason } => OutcomeView::NotAttempted {
                bytes,
                reason: reason@,
            },
        }
    }
}

impl OutcomeView {
    /// Logical bytes that the outcome stands for.
    pub open spec fn spec_bytes(self) -> u64 {
        match self {
            OutcomeView::CopiedNew { bytes, .. } => bytes,
            OutcomeView::CopiedReplaced { bytes, .. } => bytes,
            OutcomeView::SkippedSame { bytes } => bytes,
            OutcomeView::SkippedDifferent { bytes, .. } => bytes,
            OutcomeView::MetadataFixed { bytes } => bytes,
            OutcomeView::Failed { bytes, .. } => bytes,
            OutcomeView::Excluded { bytes, .. } => bytes,
            OutcomeView::NotAttempted { bytes, .. } => bytes,
        }
    }

    /// Whether the outcome is a successful copy.
    pub open spec fn spec_is_copied(self) -> bool {
        self is CopiedNew || self is CopiedReplaced
    }
}

impl FileOutcome {
    /// Logical bytes that the outcome stands for.
    pub fn bytes(&self) -> (bytes: u64)
        ensures
            bytes == self@.spec_bytes(),
    {
        match self {
            FileOutcome::CopiedNew { bytes, .. } => *bytes,
            FileOutcome::CopiedReplaced { bytes, .. } => *bytes,
            FileOutcome::SkippedSame { bytes } => *bytes,
            FileOutcome::SkippedDifferent { bytes, .. } => *bytes,
            FileOutcome::MetadataFixed { bytes } => *bytes,
            FileOutcome::Failed { bytes, .. } => *bytes,
            FileOutcome::Excluded { bytes, .. } => *bytes,
            FileOutcome::NotAttempted { bytes, .. } => *bytes,
        }
    }
}

/// Run lifecycle exposed to both terminal interfaces.
#[derive(Clone, Copy, Debug, PartialEq, Eq, Structural)]
pub enum RunState {
    /// Startup and safety validation.
    Preflight,
    /// Source discovery and copy overlap.
    Copying,
    /// Post-copy verification.
    Verifying,
    /// Graceful cancellation is draining.
    Canceling,
    /// Run completed and audit artifacts are final.
    Complete,
    /// Fatal startup or invariant failure.
    Failed,
}

/// Addition that stops at the largest value.
pub open spec fn sat(left: u64, right: u64) -> u64 {
    if left + right > u64::MAX {
        u64::MAX
    } else {
        (left + right) as u64
    }
}

/// Exact accounting counters persisted in reports.
#[derive(Clone, Copy, Debug, PartialEq, Eq, Structural)]
pub struct Counters {
    /// Plain files discovered.
    pub files_discovered: u64,
    /// New files copied.
    pub copied_new: u64,
    /// Existing files replaced through either completion protocol.
    pub copied_replaced: u64,
    /// Files skipped by the equality heuristic.
    pub skipped_same: u64,
    /// Differing files withheld by replace=false.
    pub skipped_diff: u64,
    /// Files repaired without data rewrite.
    pub meta_fixed: u64,
    /// Failed files.
    pub failed: u64,
    /// Excluded files.
    pub excluded: u64,
    /// Discovered files not attempted.
    pub not_attempted: u64,
    /// New files that a dry-run predicts would be copied.
    pub would_copy_new: u64,
    /// Existing files that a dry-run predicts would be replaced.
    pub would_copy_replaced: u64,
    /// Files that a dry-run predicts would receive metadata repair.
    pub would_meta_fix: u64,
    /// Destination-only entries.
    pub extra: u64,
    /// Directories discovered.
    pub dirs_discovered: u64,
    /// Directories whose final metadata completed.
    pub dir_done: u64,
    /// Directories whose metadata finalization failed.
    pub dirs_meta_failed: u64,
    /// Directories that could not be created or traversed.
    pub dirs_failed: u64,
    /// Excluded directories.
    pub dirs_excluded: u64,
    /// Directories whose finalization was modeled by a dry-run.
    pub dirs_planned: u64,
    /// Reparse entries discovered.
    pub links_discovered: u64,
    /// Links copied.
    pub links_copied: u64,
    /// Links that failed.
    pub links_failed: u64,
    /// Links excluded.
    pub links_excluded: u64,
    /// Links not attempted.
    pub links_not_attempted: u64,
    /// Equal reparse objects skipped without a write.
    pub links_skipped: u64,
    /// Reparse writes modeled by a dry-run.
    pub links_planned: u64,
    /// Unnamed-stream bytes seen at enumeration time.
    pub bytes_enumerated: u64,
    /// Source logical bytes represented by terminal outcomes.
    pub bytes_logical_discovered: u64,
    /// Logical bytes represented by copied outcomes.
    pub bytes_logical_copied: u64,
    /// Actual source bytes read by the copy engine.
    pub bytes_read_source: u64,
    /// Actual destination bytes written by the copy engine.
    pub bytes_written_destination: u64,
    /// Bytes read during verification.
    pub bytes_verified: u64,
}

impl Default for Counters {
    fn default() -> (counters: Self)
        ensures
            counters == Counters::zero(),
    {
        Counters {
            files_discovered: 0,
            copied_new: 0,
            copied_replaced: 0,
            skipped_same: 0,
            skipped_diff: 0,
            meta_fixed: 0,
            failed: 0,
            excluded: 0,
            not_attempted: 0,
            would_copy_new: 0,
            would_copy_replaced: 0,
            would_meta_fix: 0,
            extra: 0,
            dirs_discovered: 0,
            dir_done: 0,
            dirs_meta_failed: 0,
            dirs_failed: 0,
            dirs_excluded: 0,
            dirs_planned: 0,
            links_discovered: 0,
            links_copied: 0,
            links_failed: 0,
            links_excluded: 0,
            links_not_attempted: 0,
            links_skipped: 0,
            links_planned: 0,
            bytes_enumerated: 0,
            bytes_logical_discovered: 0,
            bytes_logical_copied: 0,
            bytes_read_source: 0,
            bytes_written_destination: 0,
            bytes_verified: 0,
        }
    }
}

impl Counters {
    /// Counters of a run that has seen nothing.
    pub open spec fn zero() -> Counters {
        Counters {
            files_discovered: 0,
            copied_new: 0,
            copied_replaced: 0,
            skipped_same: 0,
            skipped_diff: 0,
            meta_fixed: 0,
            failed: 0,
            excluded: 0,
            not_attempted: 0,
            would_copy_new: 0,
            would_copy_replaced: 0,
            would_meta_fix: 0,
            extra: 0,
            dirs_discovered: 0,
            dir_done: 0,
            dirs_meta_failed: 0,
            dirs_failed: 0,
            dirs_excluded: 0,
            dirs_planned: 0,
            links_discovered: 0,
            links_copied: 0,
            links_failed: 0,
            links_excluded: 0,
            links_not_attempted: 0,
            links_skipped: 0,
            links_planned: 0,
            bytes_enumerated: 0,
            bytes_logical_discovered: 0,
            bytes_logical_copied: 0,
            bytes_read_source: 0,
            bytes_written_destination: 0,
            bytes_verified: 0,
        }
    }

    /// The counters after one more discovered file.
    pub open spec fn after_discovery(self, enumerated_bytes: u64) -> Counters {
        Counters {
            files_discovered: sat(self.files_discovered, 1),
            bytes_enumerated: sat(self.bytes_enumerated, enumerated_bytes),
            ..self
        }
    }

    /// The counters with one more file of the outcome's kind.
    pub open spec fn with_outcome_kind(self, outcome: OutcomeView) -> Counters {
        match outcome {
            OutcomeView::CopiedNew { .. } => Counters {
                copied_new: sat(self.copied_new, 1),
                ..self
            },
            OutcomeView::CopiedReplaced { .. } => Counters {
                copied_replaced: sat(self.copied_replaced, 1),
                ..self
            },
            OutcomeView::SkippedSame { .. } => Counters {
                skipped_same: sat(self.skipped_same, 1),
                ..self
            },
            OutcomeView::SkippedDifferent { .. } => Counters {
                skipped_diff: sat(self.skipped_diff, 1),
                ..self
            },
            OutcomeView::MetadataFixed { .. } => Counters {
                meta_fixed: sat(self.meta_fixed, 1),
                ..self
            },
            OutcomeView::Failed { .. } => Counters { failed: sat(self.failed, 1), ..self },
            OutcomeView::Excluded { .. } => Counters { excluded: sat(self.excluded, 1), ..self },
            OutcomeView::NotAttempted { .. } => Counters {
                not_attempted: sat(self.not_attempted, 1),
                ..self
            },
        }
    }

    /// The counters after one terminal file outcome.
    pub open spec fn after_outcome(self, outcome: OutcomeView) -> Counters {
        Counters {
            bytes_logical_copied: if outcome.spec_is_copied() {
                sat(self.bytes_logical_copied, outcome.spec_bytes())
            } else {
                self.bytes_logical_copied
            },
            bytes_logical_discovered: sat(self.bytes_logical_discovered, outcome.spec_bytes()),
            ..self.with_outcome_kind(outcome)
        }
    }

    /// One more directory that could not be created or traversed.
    pub open spec fn with_failed_directory(self) -> Counters {
        Counters {
            dirs_discovered: sat(self.dirs_discovered, 1),
            dirs_failed: sat(self.dirs_failed, 1),
            ..self
        }
    }

    /// One more excluded directory.
    pub open spec fn with_excluded_directory(self) -> Counters {
        Counters {
            dirs_discovered: sat(self.dirs_discovered, 1),
            dirs_excluded: sat(self.dirs_excluded, 1),
            ..self
        }
    }

    /// One more link that failed.
    pub open spec fn with_failed_link(self) -> Counters {
        Counters {
            links_discovered: sat(self.links_discovered, 1),
            links_failed: sat(self.links_failed, 1),
            ..self
        }
    }

    /// One more link that was not attempted.
    pub open spec fn with_unattempted_link(self) -> Counters {
        Counters {
            links_discovered: sat(self.links_discovered, 1),
            links_not_attempted: sat(self.links_not_attempted, 1),
            ..self
        }
    }

    /// One more excluded link.
    pub open spec fn with_excluded_link(self) -> Counters {
        Counters {
            links_discovered: sat(self.links_discovered, 1),
            links_excluded: sat(self.links_excluded, 1),
            ..self
        }
    }

    /// Counts one directory that could not be created or traversed.
    pub fn note_failed_directory(&mut self)
        ensures
            *final(self) == old(self).with_failed_directory(),
    {
        self.dirs_discovered = self.dirs_discovered.saturating_add(1);
        self.dirs_failed = self.dirs_failed.saturating_add(1);
    }

    /// Counts one excluded directory.
    pub fn note_excluded_directory(&mut self)
        ensures
            *final(self) == old(self).with_excluded_directory(),
    {
        self.dirs_discovered = self.dirs_discovered.saturating_add(1);
        self.dirs_excluded = self.dirs_excluded.saturating_add(1);
    }

    /// Counts one link that failed.
    pub fn note_failed_link(&mut self)
        ensures
            *final(self) == old(self).with_failed_link(),
    {
        self.links_discovered = self.links_discovered.saturating_add(1);
        self.links_failed = self.links_failed.saturating_add(1);
    }

    /// Counts one link that was not attempted.
    pub fn note_unattempted_link(&mut self)
        ensures
            *final(self) == old(self).with_unattempted_link(),
    {
        self.links_discovered = self.links_discovered.saturating_add(1);
        self.links_not_attempted = self.links_not_attempted.saturating_add(1);
    }

    /// Counts one excluded link.
    pub fn note_excluded_link(&mut self)
        ensures
            *final(self) == old(self).with_excluded_link(),
    {
        self.links_discovered = self.links_discovered.saturating_add(1);
        self.links_excluded = self.links_excluded.saturating_add(1);
    }

    /// Files with a terminal outcome.
    pub open spec fn files_terminal(self) -> int {
        self.copied_new + self.copied_replaced + self.skipped_same + self.skipped_diff
            + self.meta_fixed + self.failed + self.excluded + self.not_attempted
    }

    /// Directories with a terminal outcome.
    pub open spec fn directories_terminal(self) -> int {
        self.dir_done + self.dirs_meta_failed + self.dirs_failed + self.dirs_excluded
            + self.dirs_planned
    }

    /// Links with a terminal outcome.
    pub open spec fn links_terminal(self) -> int {
        self.links_copied + self.links_failed + self.links_excluded + self.links_not_attempted
            + self.links_skipped + self.links_planned
    }

    /// A sum as the counters can hold it.
    pub open spec fn capped(sum: int) -> int {
        if sum > u64::MAX {
            u64::MAX as int
        } else {
            sum
        }
    }

    /// Whether every discovered file, directory and link has exactly one
    /// terminal outcome and no more bytes were copied than discovered.
    pub open spec fn reconciles(self) -> bool {
        &&& Self::capped(self.files_terminal()) == self.files_discovered
        &&& Self::capped(self.directories_terminal()) == self.dirs_discovered
        &&& Self::capped(self.links_terminal()) == self.links_discovered
        &&& self.bytes_logical_copied <= self.bytes_logical_discovered
    }

    /// What is said of the first equation that does not hold.
    pub open spec fn mismatch(self) -> Seq<char> {
        if Self::capped(self.files_terminal()) != self.files_discovered {
            "file counter mismatch: discovered="@ + decimal(self.files_discovered as nat)
                + ", terminal="@ + decimal(Self::capped(self.files_terminal()) as nat)
        } else if Self::capped(self.directories_terminal()) != self.dirs_discovered {
            "directory counter mismatch: discovered="@ + decimal(self.dirs_discovered as nat)
                + ", terminal="@ + decimal(Self::capped(self.directories_terminal()) as nat)
        } else if Self::capped(self.links_terminal()) != self.links_discovered {
            "link counter mismatch: discovered="@ + decimal(self.links_discovered as nat)
                + ", terminal="@ + decimal(Self::capped(self.links_terminal()) as nat)
        } else {
            "copied logical bytes exceed discovered source bytes: copied="@ + decimal(
                self.bytes_logical_copied as nat,
            ) + ", discovered="@ + decimal(self.bytes_logical_discovered as nat)
        }
    }

    /// Notes one file entry at discovery time.
    ///
    /// Discovery and terminal outcomes are counted by different calls on
    /// purpose: a discovered file that never gets an outcome then fails
    /// [`Counters::reconcile`].
    pub fn note_file_discovered(&mut self, enumerated_bytes: u64)
        ensures
            *final(self) == old(self).after_discovery(enumerated_bytes),
    {
        self.files_discovered = self.files_discovered.saturating_add(1);
        self.bytes_enumerated = self.bytes_enumerated.saturating_add(enumerated_bytes);
    }

    /// Applies exactly one terminal file outcome to the disjoint counters.
    pub fn apply_file(&mut self, outcome: &FileOutcome)
        ensures
            *final(self) == old(self).after_outcome(outcome@),
    {
        let bytes: u64 = match outcome {
            FileOutcome::CopiedNew { bytes, .. } => {
                self.copied_new = self.copied_new.saturating_add(1);
                self.bytes_logical_copied = self.bytes_logical_copied.saturating_add(*bytes);
                *bytes
            },
            FileOutcome::CopiedReplaced { bytes, .. } => {
                self.copied_replaced = self.copied_replaced.saturating_add(1);
                self.bytes_logical_copied = self.bytes_logical_copied.saturating_add(*bytes);
                *bytes
            },
            FileOutcome::SkippedSame { bytes } => {
                self.skipped_same = self.skipped_same.saturating_add(1);
                *bytes
            },
            FileOutcome::SkippedDifferent { bytes, .. } => {
                self.skipped_diff = self.skipped_diff.saturating_add(1);
                *bytes
            },
            FileOutcome::MetadataFixed { bytes } => {
                self.meta_fixed = self.meta_fixed.saturating_add(1);
                *bytes
            },
            FileOutcome::Failed { bytes, .. } => {
                self.failed = self.failed.saturating_add(1);
                *bytes
            },
            FileOutcome::Excluded { bytes, .. } => {
                self.excluded = self.excluded.saturating_add(1);
                *bytes
            },
            FileOutcome::NotAttempted { bytes, .. } => {
                self.not_attempted = self.not_attempted.saturating_add(1);
                *bytes
            },
        };
        self.bytes_logical_discovered = self.bytes_logical_discovered.saturating_add(bytes);
    }

    /// Verifies the disjoint file, directory, and link equations.
    pub fn reconcile(&self) -> (verdict: Result<(), String>)
        ensures
            verdict is Ok <==> self.reconciles(),
            verdict matches Err(message) ==> message@ == self.mismatch(),
    {
        let files: u64 = self.copied_new.saturating_add(self.copied_replaced).saturating_add(
            self.skipped_same,
        ).saturating_add(self.skipped_diff).saturating_add(self.meta_fixed).saturating_add(
            self.failed,
        ).saturating_add(self.excluded).saturating_add(self.not_attempted);
        if files != self.files_discovered {
            return Err(
                mismatch_text(
                    "file counter mismatch: discovered=",
                    self.files_discovered,
                    ", terminal=",
                    files,
                ),
            );
        }
        let directories: u64 = self.dir_done.saturating_add(self.dirs_meta_failed).saturating_add(
            self.dirs_failed,
        ).saturating_add(self.dirs_excluded).saturating_add(self.dirs_planned);
        if directories != self.dirs_discovered {
            return Err(
                mismatch_text(
                    "directory counter mismatch: discovered=",
                    self.dirs_discovered,
                    ", terminal=",
                    directories,
                ),
            );
        }
        let links: u64 = self.links_copied.saturating_add(self.links_failed).saturating_add(
            self.links_excluded,
        ).saturating_add(self.links_not_attempted).saturating_add(
            self.links_skipped,
        ).saturating_add(self.links_planned);
        if links != self.links_discovered {
            return Err(
                mismatch_text(
                    "link counter mismatch: discovered=",
                    self.links_discovered,
                    ", terminal=",
                    links,
                ),
            );
        }
        if self.bytes_logical_copied > self.bytes_logical_discovered {
            return Err(
                mismatch_text(
                    "copied logical bytes exceed discovered source bytes: copied=",
                    self.bytes_logical_copied,
                    ", discovered=",
                    self.bytes_logical_discovered,
                ),
            );
        }
        Ok(())
    }
}

fn mismatch_text(first: &str, left: u64, second: &str, right: u64) -> (text: String)
    ensures
        text@ == first@ + decimal(left as nat) + second@ + decimal(right as nat),
{
    let mut out = first.to_owned();
    push_decimal(&mut out, left);
    out.append(second);
    push_decimal(&mut out, right);
    out
}

/// One discovery followed by one outcome keeps reconciled counters reconciled,
/// for every outcome, as long as no counter is full.
pub proof fn discovery_and_outcome_keep_reconciliation(
    counters: Counters,
    enumerated_bytes: u64,
    outcome: OutcomeView,
)
    requires
        counters.reconciles(),
        counters.files_discovered < u64::MAX,
        counters.bytes_logical_discovered + outcome.spec_bytes() <= u64::MAX,
    ensures
        counters.after_discovery(enumerated_bytes).after_outcome(outcome).reconciles(),
{
}

/// A discovered file without an outcome breaks reconciliation.
pub proof fn dropped_outcome_breaks_reconciliation(counters: Counters, enumerated_bytes: u64)
    requires
        counters.reconciles(),
        counters.files_discovered < u64::MAX,
    ensures
        !counters.after_discovery(enumerated_bytes).reconciles(),
{
}

/// An outcome without a discovered file breaks reconciliation.
pub proof fn outcome_without_discovery_breaks_reconciliation(
    counters: Counters,
    outcome: OutcomeView,
)
    requires
        counters.reconciles(),
        counters.files_discovered < u64::MAX,
    ensures
        !counters.after_outcome(outcome).reconciles(),
{
}

/// Discovering a file and recording an outcome can happen in either order.
pub proof fn discovery_and_outcome_commute(
    counters: Counters,
    enumerated_bytes: u64,
    outcome: OutcomeView,
)
    ensures
        counters.after_discovery(enumerated_bytes).after_outcome(outcome)
            == counters.after_outcome(outcome).after_discovery(enumerated_bytes),
{
}

/// Every outcome counts in its own counter and in no other: one more file, its
/// bytes as discovered, and as copied only if it was copied.
pub proof fn outcome_counts_in_its_own_counter(counters: Counters, outcome: OutcomeView, bytes: u64)
    requires
        counters.files_terminal() < u64::MAX,
        counters.bytes_logical_discovered + bytes <= u64::MAX,
        counters.bytes_logical_copied + bytes <= u64::MAX,
        outcome matches OutcomeView::CopiedNew { bytes: own, .. } ==> own == bytes,
        outcome matches OutcomeView::CopiedReplaced { bytes: own, .. } ==> own == bytes,
        outcome matches OutcomeView::SkippedSame { bytes: own } ==> own == bytes,
        outcome matches OutcomeView::SkippedDifferent { bytes: own, .. } ==> own == bytes,
        outcome matches OutcomeView::MetadataFixed { bytes: own } ==> own == bytes,
        outcome matches OutcomeView::Failed { bytes: own, .. } ==> own == bytes,
        outcome matches OutcomeView::Excluded { bytes: own, .. } ==> own == bytes,
        outcome matches OutcomeView::NotAttempted { bytes: own, .. } ==> own == bytes,
    ensures
        ({
            let after = counters.after_outcome(outcome);
            let one = |yes: bool| -> int { if yes { 1int } else { 0int } };
            &&& after.copied_new == counters.copied_new + one(outcome is CopiedNew)
            &&& after.copied_replaced == counters.copied_replaced + one(outcome is CopiedReplaced)
            &&& after.skipped_same == counters.skipped_same + one(outcome is SkippedSame)
            &&& after.skipped_diff == counters.skipped_diff + one(outcome is SkippedDifferent)
            &&& after.meta_fixed == counters.meta_fixed + one(outcome is MetadataFixed)
            &&& after.failed == counters.failed + one(outcome is Failed)
            &&& after.excluded == counters.excluded + one(outcome is Excluded)
            &&& after.not_attempted == counters.not_attempted + one(outcome is NotAttempted)
            &&& after.bytes_logical_discovered == counters.bytes_logical_discovered + bytes
            &&& after.bytes_logical_copied == counters.bytes_logical_copied + if outcome
                is CopiedNew || outcome is CopiedReplaced {
                bytes as int
            } else {
                0
            }
            &&& after == Counters {
                copied_new: after.copied_new,
                copied_replaced: after.copied_replaced,
                skipped_same: after.skipped_same,
                skipped_diff: after.skipped_diff,
                meta_fixed: after.meta_fixed,
                failed: after.failed,
                excluded: after.excluded,
                not_attempted: after.not_attempted,
                bytes_logical_discovered: after.bytes_logical_discovered,
                bytes_logical_copied: after.bytes_logical_copied,
                ..counters
            }
        }),
{
}

/// A discovered file counts once, with its enumerated bytes; a directory or a
/// link that is settled at once counts as discovered and in its own counter.
pub proof fn discovery_counts_once(counters: Counters, bytes: u64)
    requires
        counters.files_discovered < u64::MAX,
        counters.dirs_discovered < u64::MAX,
        counters.links_discovered < u64::MAX,
        counters.directories_terminal() < u64::MAX,
        counters.links_terminal() < u64::MAX,
        counters.bytes_enumerated + bytes <= u64::MAX,
    ensures
        ({
            let file = counters.after_discovery(bytes);
            &&& file.files_discovered == counters.files_discovered + 1
            &&& file.bytes_enumerated == counters.bytes_enumerated + bytes
            &&& file.files_terminal() == counters.files_terminal()
            &&& file.bytes_logical_discovered == counters.bytes_logical_discovered
        }),
        ({
            let failed = counters.with_failed_directory();
            let excluded = counters.with_excluded_directory();
            &&& failed.dirs_discovered == counters.dirs_discovered + 1
            &&& failed.dirs_failed == counters.dirs_failed + 1
            &&& failed.directories_terminal() == counters.directories_terminal() + 1
            &&& excluded.dirs_discovered == counters.dirs_discovered + 1
            &&& excluded.dirs_excluded == counters.dirs_excluded + 1
            &&& excluded.directories_terminal() == counters.directories_terminal() + 1
        }),
        ({
            let failed = counters.with_failed_link();
            let excluded = counters.with_excluded_link();
            let unattempted = counters.with_unattempted_link();
            &&& failed.links_discovered == counters.links_discovered + 1
            &&& failed.links_failed == counters.links_failed + 1
            &&& failed.links_terminal() == counters.links_terminal() + 1
            &&& excluded.links_discovered == counters.links_discovered + 1
            &&& excluded.links_excluded == counters.links_excluded + 1
            &&& excluded.links_terminal() == counters.links_terminal() + 1
            &&& unattempted.links_discovered == counters.links_discovered + 1
            &&& unattempted.links_not_attempted == counters.links_not_attempted + 1
            &&& unattempted.links_terminal() == counters.links_terminal() + 1
        }),
{
}

/// Counters reconcile only if every discovered object has exactly one outcome,
/// while no sum is full: the eight file outcomes, the five directory outcomes
/// and the six link outcomes each add up to what was discovered.
pub proof fn reconciled_counters_add_up(counters: Counters)
    requires
        counters.files_discovered < u64::MAX,
        counters.dirs_discovered < u64::MAX,
        counters.links_discovered < u64::MAX,
    ensures
        counters.reconciles() <==> {
            &&& counters.files_discovered == counters.copied_new + counters.copied_replaced
                + counters.skipped_same + counters.skipped_diff + counters.meta_fixed
                + counters.failed + counters.excluded + counters.not_attempted
            &&& counters.dirs_discovered == counters.dir_done + counters.dirs_meta_failed
                + counters.dirs_failed + counters.dirs_excluded + counters.dirs_planned
            &&& counters.links_discovered == counters.links_copied + counters.links_failed
                + counters.links_excluded + counters.links_not_attempted + counters.links_skipped
                + counters.links_planned
            &&& counters.bytes_logical_copied <= counters.bytes_logical_discovered
        },
{
}

} // verus!
