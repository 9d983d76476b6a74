//! What becomes of one link: it is never followed, and it is copied only as the
//! link that was enumerated.

use vstd::prelude::*;
use vstd::string::*;

use crate::audit::{opt_error, opt_replacement, ReplacementEvent, ReplacementView};
use crate::classify::{
    classify, data_differences, label_texts, metadata_differences, types_conflict,
};
use crate::error::{
    category_of, io_error_view, semantic_error_view, ErrorCategory, ErrorView, IoError,
    IoErrorKind, OperationError,
};
use crate::file::{opt_work, ReplacementWork, ReplacementWorkView};
use crate::ledger::{Ledger, LedgerView};
use crate::model::{sat, Classification, Counters, EntrySnapshot};
use crate::options::RunRules;
use crate::platform::ObjectMetadata;
use crate::repair::opt_bytes;
use crate::revalidate::{
    destination_revalidation, revalidate_destination, revalidate_source, source_revalidation,
};
use crate::text::{comma_joined, concat, join_labels, owned_labels};
use crate::walk::{ObjectWork, WorkView};

verus! {

/// What is to be done about one link.
#[derive(Clone, Debug, PartialEq, Eq)]
pub enum LinkPlan {
    /// Everything is accounted.
    Settled,
    /// Its metadata is to be repaired.
    Repair {
        /// The differing fields.
        fields: Vec<&'static str>,
    },
    /// The link is to be copied.
    Copy {
        /// The replacement decision, where the destination exists.
        replacement: Option<ReplacementWork>,
    },
}

/// What is to be done about one link, as values.
#[verifier::ext_equal]
pub ghost enum LinkPlanView {
    Settled,
    Repair { fields: Seq<Seq<char>> },
    Copy { replacement: Option<ReplacementWorkView> },
}

impl View for LinkPlan {
    type V = LinkPlanView;

    open spec fn view(&self) -> LinkPlanView {
        match *self {
            LinkPlan::Settled => LinkPlanView::Settled,
            LinkPlan::Repair { fields } => LinkPlanView::Repair { fields: label_texts(fields@) },
            LinkPlan::Copy { replacement } => LinkPlanView::Copy {
                replacement: opt_work(replacement),
            },
        }
    }
}

impl LedgerView {
    /// With one more link.
    pub open spec fn seeing_link(self) -> LedgerView {
        self.counting(
            Counters { links_discovered: sat(self.counters.links_discovered, 1), ..self.counters },
        )
    }

    /// With a link that failed.
    pub open spec fn with_link_failure(
        self,
        rel: Seq<u16>,
        replacement: Option<ReplacementView>,
        error: ErrorView,
    ) -> LedgerView {
        self.counting(
            Counters { links_failed: sat(self.counters.links_failed, 1), ..self.counters },
        ).after_link(rel, "failed_link"@, None, replacement, Some(error))
    }

    /// With a link that a dry run would change.
    pub open spec fn with_planned_link(
        self,
        rel: Seq<u16>,
        reason: Seq<char>,
        replacement: Option<ReplacementView>,
    ) -> LedgerView {
        self.counting(
            Counters { links_planned: sat(self.counters.links_planned, 1), ..self.counters },
        ).after_link(rel, "not_attempted_link"@, Some(reason), replacement, None)
    }

    /// With a link that was brought up to its source.
    pub open spec fn with_copied_link(
        self,
        rel: Seq<u16>,
        action: Seq<char>,
        reason: Option<Seq<char>>,
        replacement: Option<ReplacementView>,
    ) -> LedgerView {
        self.counting(
            Counters { links_copied: sat(self.counters.links_copied, 1), ..self.counters },
        ).after_link(rel, action, reason, replacement, None)
    }
}

/// The failure of a link that the destination cannot hold.
pub open spec fn links_unsupported(rules: RunRules, rel: Seq<u16>) -> ErrorView {
    semantic_error_view(
        ErrorCategory::FsLimit,
        "create_reparse"@,
        rel,
        rules.policy.filesystem.spec_name()
            + " cannot represent reparse points; the link was not followed or copied as target data"@,
    )
}

/// What the log says of an overwritten link.
pub open spec fn link_replacement(
    replacement: Option<ReplacementWorkView>,
    destination: Option<ObjectMetadata>,
) -> Option<ReplacementView> {
    match (replacement, destination) {
        (Some(work), Some(old)) => Some(
            ReplacementView {
                old_size: old.size,
                old_mtime: old.basic.last_write_time,
                old_attributes: old.basic.attributes,
                destination_newer: work.destination_newer,
                differences: work.fields,
            },
        ),
        _ => None,
    }
}

/// The destination twin's metadata.
pub open spec fn twin_of(work: WorkView) -> Option<ObjectMetadata> {
    match work.destination {
        Some(entry) => Some(entry.metadata),
        None => None,
    }
}

/// The plan for one link, and the accounts after it.
pub open spec fn link_plan(rules: RunRules, work: WorkView, before: LedgerView) -> (
    LinkPlanView,
    LedgerView,
) {
    let rel = work.relative;
    let source = work.entry.metadata;
    let ledger = before.seeing_link();
    if !rules.policy.capabilities.reparse_points {
        (
            LinkPlanView::Settled,
            ledger.with_link_failure(rel, None, links_unsupported(rules, rel)),
        )
    } else {
        match twin_of(work) {
            None => if rules.dry_run {
                (
                    LinkPlanView::Settled,
                    ledger.with_planned_link(rel, "dry_run_would_copy_new"@, None),
                )
            } else {
                (LinkPlanView::Copy { replacement: None }, ledger)
            },
            Some(twin) => {
                let data = data_differences(source, twin, rules.policy);
                let metadata = metadata_differences(source, twin, rules.policy);
                let replacement = Some(
                    ReplacementWorkView {
                        fields: data,
                        destination_newer: twin.basic.last_write_time
                            > source.basic.last_write_time,
                    },
                );
                if types_conflict(source, twin) {
                    (
                        LinkPlanView::Settled,
                        ledger.with_link_failure(
                            rel,
                            None,
                            semantic_error_view(
                                ErrorCategory::TypeConflict,
                                "join"@,
                                rel,
                                "destination object type conflicts with source reparse point"@,
                            ),
                        ),
                    )
                } else if data.len() > 0 && rules.replace && rules.dry_run {
                    (
                        LinkPlanView::Settled,
                        ledger.with_planned_link(
                            rel,
                            "dry_run_would_replace"@,
                            link_replacement(replacement, Some(twin)),
                        ),
                    )
                } else if data.len() > 0 && rules.replace {
                    (LinkPlanView::Copy { replacement }, ledger)
                } else if data.len() > 0 {
                    (
                        LinkPlanView::Settled,
                        ledger.counting(
                            Counters {
                                links_not_attempted: sat(ledger.counters.links_not_attempted, 1),
                                ..ledger.counters
                            },
                        ).after_link(
                            rel,
                            "skipped_diff_link"@,
                            Some(comma_joined(data)),
                            None,
                            None,
                        ),
                    )
                } else if metadata.len() > 0 && rules.dry_run {
                    (
                        LinkPlanView::Settled,
                        ledger.with_planned_link(
                            rel,
                            "dry_run_would_fix_metadata:"@ + comma_joined(metadata),
                            None,
                        ),
                    )
                } else if metadata.len() > 0 {
                    (LinkPlanView::Repair { fields: metadata }, ledger)
                } else {
                    (
                        LinkPlanView::Settled,
                        ledger.counting(
                            Counters {
                                links_skipped: sat(ledger.counters.links_skipped, 1),
                                ..ledger.counters
                            },
                        ).after_link(rel, "skipped_link"@, Some("same"@), None, None),
                    )
                }
            },
        }
    }
}

fn replacement_event(replacement: &Option<ReplacementWork>, work: &ObjectWork) -> (event: Option<
    ReplacementEvent,
>)
    ensures
        opt_replacement(event) == link_replacement(opt_work(*replacement), twin_of(work@)),
{
    match (replacement, &work.destination) {
        (Some(replacement), Some(old)) => Some(
            ReplacementEvent {
                old_size: old.metadata.size,
                old_mtime: old.metadata.basic.last_write_time,
                old_attributes: old.metadata.basic.attributes,
                destination_newer: replacement.destination_newer,
                differences: owned_labels(replacement.fields.as_slice()),
            },
        ),
        _ => None,
    }
}

impl Ledger {
    fn fail_link(
        &mut self,
        work: &ObjectWork,
        replacement: Option<ReplacementEvent>,
        error: OperationError,
    )
        ensures
            final(self)@ == old(self)@.with_link_failure(
                work@.relative,
                opt_replacement(replacement),
                error@,
            ),
    {
        let ghost before = self@;
        self.counters.links_failed = self.counters.links_failed.saturating_add(1);
        assert(self@ =~= before.counting(
            Counters { links_failed: sat(before.counters.links_failed, 1), ..before.counters },
        ));
        self.record_link_event(&work.relative, "failed_link", None, replacement, Some(error));
    }

    fn plan_link_copy(
        &mut self,
        work: &ObjectWork,
        reason: String,
        replacement: Option<ReplacementEvent>,
    )
        ensures
            final(self)@ == old(self)@.with_planned_link(
                work@.relative,
                reason@,
                opt_replacement(replacement),
            ),
    {
        let ghost before = self@;
        self.counters.links_planned = self.counters.links_planned.saturating_add(1);
        assert(self@ =~= before.counting(
            Counters { links_planned: sat(before.counters.links_planned, 1), ..before.counters },
        ));
        self.record_link_event(
            &work.relative,
            "not_attempted_link",
            Some(reason),
            replacement,
            None,
        );
    }

    fn finish_link(
        &mut self,
        work: &ObjectWork,
        action: &str,
        reason: Option<String>,
        replacement: Option<ReplacementEvent>,
    )
        ensures
            final(self)@ == old(self)@.with_copied_link(
                work@.relative,
                action@,
                crate::audit::opt_text(reason),
                opt_replacement(replacement),
            ),
    {
        let ghost before = self@;
        self.counters.links_copied = self.counters.links_copied.saturating_add(1);
        assert(self@ =~= before.counting(
            Counters { links_copied: sat(before.counters.links_copied, 1), ..before.counters },
        ));
        self.record_link_event(&work.relative, action, reason, replacement, None);
    }
}

/// Decides what is to be done about one link and accounts what is settled by
/// that.
#[verifier::rlimit(60)]
pub fn plan_link(rules: &RunRules, ledger: &mut Ledger, work: &ObjectWork) -> (plan: LinkPlan)
    ensures
        link_plan(*rules, work@, old(ledger)@) == (plan@, final(ledger)@),
{
    let ghost before = ledger@;
    ledger.counters.links_discovered = ledger.counters.links_discovered.saturating_add(1);
    assert(ledger@ =~= before.seeing_link());
    let ghost seen = ledger@;
    if !rules.policy.supports_reparse_points() {
        let error = OperationError::semantic(
            ErrorCategory::FsLimit,
            "create_reparse",
            work.relative.copied(),
            concat(
                rules.policy.filesystem().name(),
                " cannot represent reparse points; the link was not followed or copied as target data",
            ),
        );
        ledger.fail_link(work, None, error);
        return LinkPlan::Settled;
    }
    let source = EntrySnapshot {
        relative_path: work.relative.copied(),
        metadata: work.entry.metadata,
    };
    let twin = match &work.destination {
        None => {
            if rules.dry_run {
                ledger.plan_link_copy(work, "dry_run_would_copy_new".to_owned(), None);
                return LinkPlan::Settled;
            }
            return LinkPlan::Copy { replacement: None };
        },
        Some(twin) => twin,
    };
    let destination = EntrySnapshot {
        relative_path: work.relative.copied(),
        metadata: twin.metadata,
    };
    match classify(&source, Some(&destination), rules.replace, rules.policy) {
        Classification::New => LinkPlan::Copy { replacement: None },
        Classification::Same => {
            ledger.counters.links_skipped = ledger.counters.links_skipped.saturating_add(1);
            assert(ledger@ =~= seen.counting(
                Counters { links_skipped: sat(seen.counters.links_skipped, 1), ..seen.counters },
            ));
            ledger.record_link_event(
                &work.relative,
                "skipped_link",
                Some("same".to_owned()),
                None,
                None,
            );
            LinkPlan::Settled
        },
        Classification::MetadataDiff(fields) => {
            if rules.dry_run {
                let joined = join_labels(fields.as_slice());
                let reason = concat("dry_run_would_fix_metadata:", joined.as_str());
                ledger.plan_link_copy(work, reason, None);
                LinkPlan::Settled
            } else {
                LinkPlan::Repair { fields }
            }
        },
        Classification::SkipDifferent { fields, .. } => {
            ledger.counters.links_not_attempted =
                ledger.counters.links_not_attempted.saturating_add(1);
            assert(ledger@ =~= seen.counting(
                Counters {
                    links_not_attempted: sat(seen.counters.links_not_attempted, 1),
                    ..seen.counters
                },
            ));
            ledger.record_link_event(
                &work.relative,
                "skipped_diff_link",
                Some(join_labels(fields.as_slice())),
                None,
                None,
            );
            LinkPlan::Settled
        },
        Classification::TypeConflict => {
            let error = OperationError::semantic(
                ErrorCategory::TypeConflict,
                "join",
                work.relative.copied(),
                "destination object type conflicts with source reparse point".to_owned(),
            );
            ledger.fail_link(work, None, error);
            LinkPlan::Settled
        },
        Classification::Replace { fields, destination_newer } => {
            let replacement = Some(ReplacementWork { fields, destination_newer });
            if rules.dry_run {
                let event = replacement_event(&replacement, work);
                ledger.plan_link_copy(work, "dry_run_would_replace".to_owned(), event);
                LinkPlan::Settled
            } else {
                LinkPlan::Copy { replacement }
            }
        },
    }
}

/// Accounts the metadata repair of a link.
pub fn record_link_repair(
    ledger: &mut Ledger,
    work: &ObjectWork,
    fields: &[&'static str],
    failure: Option<OperationError>,
)
    ensures
        final(ledger)@ == match opt_error(failure) {
            None => old(ledger)@.with_copied_link(
                work@.relative,
                "meta_fixed_link"@,
                Some(comma_joined(label_texts(fields@))),
                None,
            ),
            Some(error) => old(ledger)@.with_link_failure(work@.relative, None, error),
        },
{
    match failure {
        None => ledger.finish_link(work, "meta_fixed_link", Some(join_labels(fields)), None),
        Some(error) => ledger.fail_link(work, None, error),
    }
}

/// The next operation in copying one link.
#[derive(Clone, Debug, PartialEq, Eq)]
pub enum LinkStep {
    /// Read the source's metadata.
    CheckSource,
    /// Read the destination's metadata.
    CheckDestination,
    /// Read the destination's protected access list.
    ReadDacl,
    /// Copy the link.
    CopyLink {
        /// The access list that the new link is to keep.
        protected_dacl: Option<Vec<u8>>,
    },
    /// The link is accounted.
    Settled,
}

/// The next operation as values.
#[verifier::ext_equal]
pub ghost enum LinkStepView {
    CheckSource,
    CheckDestination,
    ReadDacl,
    CopyLink { protected_dacl: Option<Seq<u8>> },
    Settled,
}

impl View for LinkStep {
    type V = LinkStepView;

    open spec fn view(&self) -> LinkStepView {
        match *self {
            LinkStep::CheckSource => LinkStepView::CheckSource,
            LinkStep::CheckDestination => LinkStepView::CheckDestination,
            LinkStep::ReadDacl => LinkStepView::ReadDacl,
            LinkStep::CopyLink { protected_dacl } => LinkStepView::CopyLink {
                protected_dacl: opt_bytes(protected_dacl),
            },
            LinkStep::Settled => LinkStepView::Settled,
        }
    }
}

/// Why a link could not be copied.
#[derive(Clone, Debug, PartialEq, Eq)]
pub enum LinkCopyError {
    /// The source changed meanwhile.
    SourceChanged,
    /// An operation failed.
    Io(IoError),
}

/// What an operation came to.
#[derive(Debug, PartialEq, Eq)]
pub enum LinkReply {
    /// Metadata that was read.
    Metadata(Result<ObjectMetadata, IoError>),
    /// The protected access list that was read.
    Dacl(Result<Option<Vec<u8>>, IoError>),
    /// How many bytes of named streams were copied with the link.
    Copied(Result<u64, LinkCopyError>),
}

/// What an operation came to, as values.
#[verifier::ext_equal]
pub ghost enum LinkReplyView {
    Metadata(Result<ObjectMetadata, IoError>),
    Dacl(Result<Option<Seq<u8>>, IoError>),
    Copied(Result<u64, LinkCopyError>),
}

impl View for LinkReply {
    type V = LinkReplyView;

    open spec fn view(&self) -> LinkReplyView {
        match *self {
            LinkReply::Metadata(result) => LinkReplyView::Metadata(result),
            LinkReply::Dacl(Ok(dacl)) => LinkReplyView::Dacl(Ok(opt_bytes(dacl))),
            LinkReply::Dacl(Err(error)) => LinkReplyView::Dacl(Err(error)),
            LinkReply::Copied(result) => LinkReplyView::Copied(result),
        }
    }
}

/// Whether a reply answers a step.
pub open spec fn link_answers(step: LinkStepView, reply: LinkReplyView) -> bool {
    match step {
        LinkStepView::CheckSource => reply is Metadata,
        LinkStepView::CheckDestination => reply is Metadata,
        LinkStepView::ReadDacl => reply is Dacl,
        LinkStepView::CopyLink { .. } => reply is Copied,
        LinkStepView::Settled => false,
    }
}

/// The failure of reading a protected access list.
pub open spec fn dacl_failure(rel: Seq<u16>, error: IoError) -> ErrorView {
    io_error_view(
        if error.kind is InvalidData {
            ErrorCategory::DestinationChanged
        } else {
            category_of(error)
        },
        "read_dacl"@,
        rel,
        error,
    )
}

/// The failure of copying a link.
pub open spec fn link_failure(rel: Seq<u16>, error: LinkCopyError) -> ErrorView {
    match error {
        LinkCopyError::SourceChanged => semantic_error_view(
            ErrorCategory::SourceChanged,
            "copy_reparse"@,
            rel,
            "source reparse point changed while it was being copied"@,
        ),
        LinkCopyError::Io(error) => io_error_view(
            if error.kind is Unsupported {
                ErrorCategory::UnsupportedReparse
            } else {
                category_of(error)
            },
            "copy_reparse"@,
            rel,
            error,
        ),
    }
}

/// The accounts after a link was copied with some bytes of named streams.
pub open spec fn with_link_bytes(ledger: LedgerView, bytes: u64) -> LedgerView {
    ledger.counting(
        Counters {
            bytes_read_source: sat(ledger.counters.bytes_read_source, bytes),
            bytes_written_destination: sat(ledger.counters.bytes_written_destination, bytes),
            ..ledger.counters
        },
    )
}

/// The next step of copying one link, and the accounts after a reply.
pub open spec fn link_next(
    rules: RunRules,
    work: WorkView,
    replacement: Option<ReplacementWorkView>,
    step: LinkStepView,
    reply: LinkReplyView,
    ledger: LedgerView,
) -> (LinkStepView, LedgerView) {
    let rel = work.relative;
    let event = link_replacement(replacement, twin_of(work));
    match (step, reply) {
        (LinkStepView::CheckSource, LinkReplyView::Metadata(observed)) => {
            match source_revalidation(observed, work.entry.metadata, rel) {
                Some(error) => (
                    LinkStepView::Settled,
                    ledger.with_link_failure(rel, event, error),
                ),
                None => if work.destination is Some {
                    (LinkStepView::CheckDestination, ledger)
                } else {
                    (LinkStepView::CopyLink { protected_dacl: None }, ledger)
                },
            }
        },
        (LinkStepView::CheckDestination, LinkReplyView::Metadata(observed)) => {
            match twin_of(work) {
                Some(twin) => match destination_revalidation(observed, twin, rel) {
                    Some(error) => (
                        LinkStepView::Settled,
                        ledger.with_link_failure(rel, event, error),
                    ),
                    None => if rules.policy.capabilities.persistent_acls {
                        (LinkStepView::ReadDacl, ledger)
                    } else {
                        (LinkStepView::CopyLink { protected_dacl: None }, ledger)
                    },
                },
                None => (LinkStepView::CopyLink { protected_dacl: None }, ledger),
            }
        },
        (LinkStepView::ReadDacl, LinkReplyView::Dacl(read)) => match read {
            Ok(protected_dacl) => (LinkStepView::CopyLink { protected_dacl }, ledger),
            Err(error) => (
                LinkStepView::Settled,
                ledger.with_link_failure(rel, event, dacl_failure(rel, error)),
            ),
        },
        (LinkStepView::CopyLink { .. }, LinkReplyView::Copied(copied)) => match copied {
            Ok(bytes) => (
                LinkStepView::Settled,
                with_link_bytes(ledger, bytes).with_copied_link(
                    rel,
                    "copied_link"@,
                    None,
                    event,
                ),
            ),
            Err(error) => (
                LinkStepView::Settled,
                ledger.with_link_failure(rel, event, link_failure(rel, error)),
            ),
        },
        _ => (step, ledger),
    }
}

fn dacl_error(work: &ObjectWork, error: &IoError) -> (failure: OperationError)
    ensures
        failure@ == dacl_failure(work@.relative, *error),
{
    if error.kind == IoErrorKind::InvalidData {
        OperationError::from_io_as(
            ErrorCategory::DestinationChanged,
            "read_dacl",
            work.relative.copied(),
            error,
        )
    } else {
        OperationError::from_io("read_dacl", work.relative.copied(), error)
    }
}

fn link_error(work: &ObjectWork, error: &LinkCopyError) -> (failure: OperationError)
    ensures
        failure@ == link_failure(work@.relative, *error),
{
    match error {
        LinkCopyError::SourceChanged => OperationError::semantic(
            ErrorCategory::SourceChanged,
            "copy_reparse",
            work.relative.copied(),
            "source reparse point changed while it was being copied".to_owned(),
        ),
        LinkCopyError::Io(error) => {
            if error.kind == IoErrorKind::Unsupported {
                OperationError::from_io_as(
                    ErrorCategory::UnsupportedReparse,
                    "copy_reparse",
                    work.relative.copied(),
                    error,
                )
            } else {
                OperationError::from_io("copy_reparse", work.relative.copied(), error)
            }
        },
    }
}

/// Decides the next operation in copying one link from what became of the last
/// one. The first one is to read the source's metadata.
#[verifier::rlimit(60)]
pub fn handle_reparse(
    rules: &RunRules,
    ledger: &mut Ledger,
    work: &ObjectWork,
    replacement: &Option<ReplacementWork>,
    step: LinkStep,
    reply: LinkReply,
) -> (next: LinkStep)
    requires
        link_answers(step@, reply@),
    ensures
        link_next(
            *rules,
            work@,
            opt_work(*replacement),
            step@,
            reply@,
            old(ledger)@,
        ) == (next@, final(ledger)@),
{
    let ghost before = ledger@;
    match (step, reply) {
        (LinkStep::CheckSource, LinkReply::Metadata(observed)) => {
            match revalidate_source(&observed, &work.entry.metadata, &work.relative) {
                Err(error) => {
                    ledger.fail_link(work, replacement_event(replacement, work), error);
                    LinkStep::Settled
                },
                Ok(_) => {
                    if work.destination.is_some() {
                        LinkStep::CheckDestination
                    } else {
                        LinkStep::CopyLink { protected_dacl: None }
                    }
                },
            }
        },
        (LinkStep::CheckDestination, LinkReply::Metadata(observed)) => match &work.destination {
            Some(twin) => match revalidate_destination(&observed, &twin.metadata, &work.relative) {
                Err(error) => {
                    ledger.fail_link(work, replacement_event(replacement, work), error);
                    LinkStep::Settled
                },
                Ok(_) => {
                    if rules.policy.supports_persistent_acls() {
                        LinkStep::ReadDacl
                    } else {
                        LinkStep::CopyLink { protected_dacl: None }
                    }
                },
            },
            None => LinkStep::CopyLink { protected_dacl: None },
        },
        (LinkStep::ReadDacl, LinkReply::Dacl(read)) => match read {
            Ok(protected_dacl) => LinkStep::CopyLink { protected_dacl },
            Err(error) => {
                ledger.fail_link(
                    work,
                    replacement_event(replacement, work),
                    dacl_error(work, &error),
                );
                LinkStep::Settled
            },
        },
        (LinkStep::CopyLink { .. }, LinkReply::Copied(copied)) => match copied {
            Ok(bytes) => {
                ledger.counters.bytes_read_source =
                    ledger.counters.bytes_read_source.saturating_add(bytes);
                ledger.counters.bytes_written_destination =
                    ledger.counters.bytes_written_destination.saturating_add(bytes);
                assert(ledger@ =~= with_link_bytes(before, bytes));
                ledger.finish_link(
                    work,
                    "copied_link",
                    None,
                    replacement_event(replacement, work),
                );
                LinkStep::Settled
            },
            Err(error) => {
                ledger.fail_link(
                    work,
                    replacement_event(replacement, work),
                    link_error(work, &error),
                );
                LinkStep::Settled
            },
        },
        (step, _) => step,
    }
}

/// How many links a ledger holds a final state of.
pub open spec fn links_settled(counters: Counters) -> int {
    counters.links_copied + counters.links_skipped + counters.links_failed
        + counters.links_not_attempted + counters.links_planned + counters.links_excluded
}

/// Every link is discovered once and gets one final state: at once when its
/// plan settles it, otherwise with the step that ends its copy.
pub proof fn every_link_is_settled_once(
    rules: RunRules,
    work: WorkView,
    replacement: Option<ReplacementWorkView>,
    step: LinkStepView,
    reply: LinkReplyView,
    ledger: LedgerView,
)
    requires
        link_answers(step, reply),
        ledger.counters.links_discovered < u64::MAX,
        links_settled(ledger.counters) < u64::MAX,
    ensures
        ({
            let (plan, after) = link_plan(rules, work, ledger);
            &&& after.counters.links_discovered == ledger.counters.links_discovered + 1
            &&& links_settled(after.counters) == links_settled(ledger.counters) + (
            if plan is Settled {
                1int
            } else {
                0
            })
        }),
        ({
            let (next, after) = link_next(rules, work, replacement, step, reply, ledger);
            &&& after.counters.links_discovered == ledger.counters.links_discovered
            &&& links_settled(after.counters) == links_settled(ledger.counters) + (
            if next is Settled {
                1int
            } else {
                0
            })
        }),
{
}

/// What is done about one link, from the link, its twin and the rules alone. A
/// link that the destination cannot hold fails; one with no twin is copied; a
/// twin of another class or with another tag is a conflict; one whose data
/// differs is copied over its twin only where replacing is allowed; one whose
/// metadata alone differs is repaired. A dry run neither copies nor repairs.
pub proof fn plan_follows_the_link_and_its_twin(
    rules: RunRules,
    work: WorkView,
    ledger: LedgerView,
)
    requires
        ledger.counters.links_failed < u64::MAX,
        ledger.counters.links_planned < u64::MAX,
        ledger.counters.links_not_attempted < u64::MAX,
        ledger.counters.links_skipped < u64::MAX,
    ensures
        ({
            let (plan, after) = link_plan(rules, work, ledger);
            let source = work.entry.metadata;
            let fits = rules.policy.capabilities.reparse_points;
            let alone = work.destination is None;
            let twin = work.destination->0.metadata;
            let conflict = source.kind != twin.kind || source.kind is Reparse
                && source.reparse_tag != twin.reparse_tag;
            let other_data = source.size != twin.size || !rules.policy.spec_last_write_equal(
                source.basic.last_write_time as int,
                twin.basic.last_write_time as int,
            );
            let other_metadata = !rules.policy.spec_attributes_equal(
                source.basic.attributes,
                twin.basic.attributes,
            ) || !rules.policy.spec_creation_equal(
                source.basic.creation_time as int,
                twin.basic.creation_time as int,
            ) || rules.policy.capabilities.extended_attributes && source.ea_size != twin.ea_size;
            let wants_copy = fits && (alone || !conflict && other_data && rules.replace);
            let wants_repair = fits && !alone && !conflict && !other_data && other_metadata;
            let fails = !fits || !alone && conflict;
            let withheld = fits && !alone && !conflict && other_data && !rules.replace;
            let same = fits && !alone && !conflict && !other_data && !other_metadata;
            let one = |yes: bool| -> int { if yes { 1int } else { 0int } };
            &&& plan is Copy <==> wants_copy && !rules.dry_run
            &&& plan is Repair <==> wants_repair && !rules.dry_run
            &&& plan matches LinkPlanView::Copy { replacement } ==> {
                &&& replacement is Some <==> !alone
                &&& replacement is Some ==> replacement->0.destination_newer == (
                source.basic.last_write_time < twin.basic.last_write_time)
            }
            &&& after.counters.links_planned == ledger.counters.links_planned + one(
                rules.dry_run && (wants_copy || wants_repair),
            )
            &&& after.counters.links_failed == ledger.counters.links_failed + one(fails)
            &&& after.counters.links_not_attempted == ledger.counters.links_not_attempted + one(
                withheld,
            )
            &&& after.counters.links_skipped == ledger.counters.links_skipped + one(same)
            &&& after.counters.links_copied == ledger.counters.links_copied
        }),
{
}

/// How far copying one link came after a list of replies, and the accounts
/// then.
pub open spec fn linking(
    rules: RunRules,
    work: WorkView,
    replacement: Option<ReplacementWorkView>,
    replies: Seq<LinkReplyView>,
    ledger: LedgerView,
) -> (LinkStepView, LedgerView)
    decreases replies.len(),
{
    if replies.len() == 0 {
        (LinkStepView::CheckSource, ledger)
    } else {
        let (step, before) = linking(rules, work, replacement, replies.drop_last(), ledger);
        link_next(rules, work, replacement, step, replies.last(), before)
    }
}

/// Whether every reply answers the operation that was asked for.
pub open spec fn linking_is_answered(
    rules: RunRules,
    work: WorkView,
    replacement: Option<ReplacementWorkView>,
    replies: Seq<LinkReplyView>,
    ledger: LedgerView,
) -> bool
    decreases replies.len(),
{
    replies.len() > 0 ==> {
        &&& linking_is_answered(rules, work, replacement, replies.drop_last(), ledger)
        &&& link_answers(
            linking(rules, work, replacement, replies.drop_last(), ledger).0,
            replies.last(),
        )
    }
}

/// Whether a reply shows an object as it was captured.
pub open spec fn shows_object(reply: LinkReplyView, expected: ObjectMetadata) -> bool {
    reply matches LinkReplyView::Metadata(Ok(seen)) && {
        &&& seen.identity == expected.identity
        &&& seen.kind == expected.kind
        &&& seen.size == expected.size
        &&& seen.basic.last_write_time == expected.basic.last_write_time
        &&& seen.basic.attributes == expected.basic.attributes
        &&& seen.reparse_tag == expected.reparse_tag
    }
}

/// A link is copied only after its source was found as enumerated, and over a
/// twin only after that was found as classified; where access lists can be
/// protected, the twin's is read first and goes along.
pub proof fn link_copy_follows_its_looks(
    rules: RunRules,
    work: WorkView,
    replacement: Option<ReplacementWorkView>,
    replies: Seq<LinkReplyView>,
    ledger: LedgerView,
)
    requires
        linking_is_answered(rules, work, replacement, replies, ledger),
    ensures
        ({
            let (step, after) = linking(rules, work, replacement, replies, ledger);
            let twin = work.destination->0.metadata;
            let acls = rules.policy.capabilities.persistent_acls;
            &&& !(step is Settled) ==> after == ledger
            &&& step is CheckSource ==> replies.len() == 0
            &&& step is CheckDestination ==> replies.len() == 1 && work.destination is Some
                && shows_object(replies[0], work.entry.metadata)
            &&& step is ReadDacl ==> replies.len() == 2 && work.destination is Some && acls
                && shows_object(replies[0], work.entry.metadata) && shows_object(replies[1], twin)
            &&& step matches LinkStepView::CopyLink { protected_dacl } ==> {
                &&& shows_object(replies[0], work.entry.metadata)
                &&& work.destination is Some ==> replies.len() >= 2 && shows_object(
                    replies[1],
                    twin,
                )
                &&& work.destination is Some && acls ==> replies.len() == 3 && replies[2]
                    == LinkReplyView::Dacl(Ok(protected_dacl))
                &&& !(work.destination is Some && acls) ==> protected_dacl is None
            }
        }),
    decreases replies.len(),
{
    if replies.len() > 0 {
        let front = replies.drop_last();
        link_copy_follows_its_looks(rules, work, replacement, front, ledger);
        assert forall|i: int| 0 <= i < front.len() implies front[i] == replies[i] by {}
        assert(replies.last() == replies[replies.len() - 1]);
    }
}

/// A link counts as copied exactly if it was copied, with the bytes of its data
/// as read and written; anything else that settles it is a failure.
pub proof fn copied_link_is_counted_with_its_bytes(
    rules: RunRules,
    work: WorkView,
    replacement: Option<ReplacementWorkView>,
    step: LinkStepView,
    reply: LinkReplyView,
    ledger: LedgerView,
)
    requires
        link_answers(step, reply),
        ledger.counters.links_copied < u64::MAX,
        ledger.counters.links_failed < u64::MAX,
        reply matches LinkReplyView::Copied(Ok(bytes)) ==> ledger.counters.bytes_read_source + bytes
            <= u64::MAX && ledger.counters.bytes_written_destination + bytes <= u64::MAX,
    ensures
        ({
            let (next, after) = link_next(rules, work, replacement, step, reply, ledger);
            let copied = reply matches LinkReplyView::Copied(Ok(_));
            let bytes = if copied {
                reply->Copied_0->Ok_0 as int
            } else {
                0
            };
            &&& step is CopyLink ==> next is Settled
            &&& after.counters.links_copied == ledger.counters.links_copied + if copied {
                1int
            } else {
                0
            }
            &&& after.counters.links_failed == ledger.counters.links_failed + if next is Settled
                && !copied {
                1int
            } else {
                0
            }
            &&& after.counters.bytes_read_source == ledger.counters.bytes_read_source + bytes
            &&& after.counters.bytes_written_destination
                == ledger.counters.bytes_written_destination + bytes
        }),
{
}

/// A link that changed under its copy is a changed source, and one that the
/// system cannot make is unsupported.
pub proof fn failed_link_copy_is_named(rel: Seq<u16>, error: LinkCopyError)
    ensures
        link_failure(rel, error).operation == "copy_reparse"@,
        error is SourceChanged ==> link_failure(rel, error).category is SourceChanged,
        error matches LinkCopyError::Io(cause) ==> (cause.kind is Unsupported
            ==> link_failure(rel, error).category is UnsupportedReparse) && (!(cause.kind
            is Unsupported) ==> link_failure(rel, error).category == category_of(cause)),
{
}

/// A destination that is another object when its access list is read has
/// changed; every other refusal keeps the category of its own code.
pub proof fn refused_access_list_is_told_by_its_cause(rel: Seq<u16>, error: IoError)
    ensures
        ({
            let told = dacl_failure(rel, error);
            &&& told.path == rel
            &&& told.code == error.code
            &&& told.operation == "read_dacl"@
            &&& (error.kind is InvalidData ==> told.category is DestinationChanged)
            &&& (!(error.kind is InvalidData) ==> told.category == category_of(error))
        }),
{
}

} // verus!
