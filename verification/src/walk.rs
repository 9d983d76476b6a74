//! The walk through the source tree: which entries of a directory pair with
//! which destination entries, what becomes of each, and in which order
//! directories are entered and left.

use vstd::prelude::*;
use vstd::string::*;

use crate::audit::{audit_path, warning, warning_view, AuditEvent, AuditPath, EventView};
use crate::error::{
    category_of, io_error_view, semantic_error_view, ErrorCategory, ErrorView, IoError,
    IoErrorKind, OperationError,
};
use crate::ledger::{Ledger, LedgerView, NoticeView};
use crate::model::{Counters, FileOutcome, OutcomeView};
use crate::options::RunRules;
use crate::path::{child_of, lossy_text, units_eq, WidePath};
use crate::platform::{DirectoryEntry, EntryView, ObjectKind, ObjectMetadata};
use crate::report::REPORT_SAMPLE_LIMIT;
use crate::table::{
    keys_are_distinct, lemma_filter_all, lemma_position, lemma_position_is,
    lemma_remove_is_filter, lookup, position,
};
use crate::text::{ascii_lowered, concat, eq_ignore_ascii_case};

verus! {

/// Whether a name is that of a root-level operating-system artifact.
pub open spec fn is_system_name(name: Seq<char>) -> bool {
    let lower = ascii_lowered(name);
    ||| lower == ascii_lowered("$RECYCLE.BIN"@)
    ||| lower == ascii_lowered("System Volume Information"@)
    ||| lower == ascii_lowered("pagefile.sys"@)
    ||| lower == ascii_lowered("swapfile.sys"@)
    ||| lower == ascii_lowered("hiberfil.sys"@)
    ||| lower == ascii_lowered("DumpStack.log.tmp"@)
}

/// Whether an entry is an operating-system artifact in the root of a volume.
pub open spec fn system_candidate(rules: RunRules, entry: EntryView, parent: Seq<u16>) -> bool {
    rules.source_is_volume_root && parent.len() == 0 && is_system_name(lossy_text(entry.name))
}

/// Why an entry is excluded, if it is.
pub open spec fn exclusion(rules: RunRules, entry: EntryView, parent: Seq<u16>) -> Option<
    Seq<char>,
> {
    if !rules.include_system && system_candidate(rules, entry, parent) {
        Some("system"@)
    } else if rules.skip_cloud && entry.cloud_placeholder {
        Some("cloud_placeholder"@)
    } else {
        None
    }
}

/// Whether an entry is an operating-system artifact in the root of a volume.
pub fn is_system_candidate(rules: &RunRules, entry: &DirectoryEntry, parent: &WidePath) -> (r: bool)
    ensures
        r == system_candidate(*rules, entry@, parent@),
{
    if !rules.source_is_volume_root || parent.units.len() != 0 {
        return false;
    }
    let name = entry.name.to_text_lossy();
    let name = name.as_str();
    eq_ignore_ascii_case(name, "$RECYCLE.BIN") || eq_ignore_ascii_case(
        name,
        "System Volume Information",
    ) || eq_ignore_ascii_case(name, "pagefile.sys") || eq_ignore_ascii_case(name, "swapfile.sys")
        || eq_ignore_ascii_case(name, "hiberfil.sys") || eq_ignore_ascii_case(
        name,
        "DumpStack.log.tmp",
    )
}

/// Why an entry is excluded, if it is.
pub fn exclusion_reason(rules: &RunRules, entry: &DirectoryEntry, parent: &WidePath) -> (reason:
    Option<&'static str>)
    ensures
        match exclusion(*rules, entry@, parent@) {
            Some(text) => reason matches Some(reason) && reason@ == text,
            None => reason is None,
        },
{
    if !rules.include_system && is_system_candidate(rules, entry, parent) {
        Some("system")
    } else if rules.skip_cloud && entry.cloud_placeholder {
        Some("cloud_placeholder")
    } else {
        None
    }
}

impl LedgerView {
    /// With a directory event.
    pub open spec fn with_directory_event(self, action: Seq<char>, rel: Seq<u16>) -> LedgerView {
        self.emitted(EventView::Directory { action, rel: audit_path(rel) })
    }

    /// With a directory that failed with everything below it.
    pub open spec fn with_failed_subtree(self, error: ErrorView) -> LedgerView {
        self.counting(self.counters.with_failed_directory()).errored(error)
    }

    /// With a directory that is not traversed because the run stops.
    pub open spec fn with_stopped_directory(self, rel: Seq<u16>) -> LedgerView {
        let counted = self.counting(self.counters.with_failed_directory());
        if self.breaker is Some {
            counted.warned(
                "breaker_subtree"@,
                Some(rel),
                "directory was discovered but not traversed after the breaker tripped"@,
            )
        } else {
            counted.warned(
                "canceled_subtree"@,
                Some(rel),
                "directory was discovered but not traversed after cancellation"@,
            )
        }
    }

    /// With an entry that is not attempted because the breaker tripped.
    pub open spec fn with_broken_off_entry(self, metadata: ObjectMetadata, rel: Seq<u16>) -> LedgerView {
        match metadata.kind {
            ObjectKind::File => self.after_file(
                rel,
                OutcomeView::NotAttempted { bytes: metadata.size, reason: "breaker"@ },
                None,
            ),
            ObjectKind::Directory => self.counting(self.counters.with_failed_directory()).warned(
                "breaker_subtree"@,
                Some(rel),
                "directory was discovered but not traversed after the breaker tripped"@,
            ),
            ObjectKind::Reparse => self.counting(
                self.counters.with_unattempted_link(),
            ).after_link(rel, "not_attempted_link"@, Some("breaker"@), None, None),
        }
    }

    /// With an excluded entry.
    pub open spec fn with_exclusion(
        self,
        metadata: ObjectMetadata,
        rel: Seq<u16>,
        reason: Seq<char>,
    ) -> LedgerView {
        match metadata.kind {
            ObjectKind::File => self.after_file(
                rel,
                OutcomeView::Excluded { bytes: metadata.size, reason },
                None,
            ),
            ObjectKind::Directory => self.counting(
                self.counters.with_excluded_directory(),
            ).with_directory_event("excluded_"@ + reason, rel),
            ObjectKind::Reparse => self.counting(self.counters.with_excluded_link()).emitted(
                warning_view(
                    "link_excluded_"@ + reason,
                    Some(rel),
                    "reparse point excluded by "@ + reason + " policy"@,
                ),
            ),
        }
    }

    /// With an entry that failed before it could be paired. The failure carries
    /// the entry's path.
    pub open spec fn with_entry_failure(self, metadata: ObjectMetadata, error: ErrorView) -> LedgerView {
        match metadata.kind {
            ObjectKind::File => self.after_file(
                error.path,
                OutcomeView::Failed { bytes: metadata.size, error },
                None,
            ),
            ObjectKind::Directory => self.with_failed_subtree(error),
            ObjectKind::Reparse => self.counting(self.counters.with_failed_link()).errored(error),
        }
    }

    /// With an entry below a directory that failed.
    pub open spec fn with_orphaned_entry(self, metadata: ObjectMetadata, rel: Seq<u16>) -> LedgerView {
        match metadata.kind {
            ObjectKind::File => self.discovering(metadata.size).after_file(
                rel,
                OutcomeView::NotAttempted { bytes: metadata.size, reason: "parent_dir_failed"@ },
                None,
            ),
            ObjectKind::Directory => self.counting(
                self.counters.with_failed_directory(),
            ).with_directory_event("not_attempted_parent_failed"@, rel),
            ObjectKind::Reparse => self.counting(
                self.counters.with_unattempted_link(),
            ).after_link(rel, "not_attempted_link"@, Some("parent_dir_failed"@), None, None),
        }
    }

    /// With the first `count` entries below a directory that failed.
    pub open spec fn with_orphaned_entries(
        self,
        entries: Seq<EntryView>,
        parent: Seq<u16>,
        count: int,
    ) -> LedgerView
        decreases count,
    {
        if count <= 0 {
            self
        } else {
            self.with_orphaned_entries(entries, parent, count - 1).with_orphaned_entry(
                entries[count - 1].metadata,
                child_of(parent, entries[count - 1].name),
            )
        }
    }
}

/// A directory whose entries are still to be accounted.
#[derive(Clone, Debug, PartialEq, Eq)]
pub struct PendingDirectory {
    /// Absolute source path.
    pub source: WidePath,
    /// Path relative to the source root.
    pub relative: WidePath,
}

/// The views of a list of entries.
pub open spec fn entry_views(entries: Seq<DirectoryEntry>) -> Seq<EntryView> {
    entries.map_values(|entry: DirectoryEntry| entry@)
}

/// The source and relative paths of a list of directories.
pub open spec fn pending_views(list: Seq<PendingDirectory>) -> Seq<(Seq<u16>, Seq<u16>)> {
    list.map_values(|directory: PendingDirectory| (directory.source@, directory.relative@))
}

/// The directories among the first `count` entries, with their relative paths.
pub open spec fn directories_among(
    entries: Seq<EntryView>,
    parent: Seq<u16>,
    count: int,
) -> Seq<(Seq<u16>, Seq<u16>)>
    decreases count,
{
    if count <= 0 {
        seq![]
    } else {
        let before = directories_among(entries, parent, count - 1);
        let entry = entries[count - 1];
        if entry.metadata.kind is Directory {
            before.push((entry.path, child_of(parent, entry.name)))
        } else {
            before
        }
    }
}

impl Ledger {
    fn directory_event(&mut self, action: &str, relative: &WidePath)
        ensures
            final(self)@ == old(self)@.with_directory_event(action@, relative@),
    {
        self.emit(
            AuditEvent::Directory {
                action: action.to_owned(),
                rel: AuditPath::from_path(relative),
            },
        );
    }

    /// Accounts a directory that failed; everything below it is still to be
    /// accounted.
    pub fn fail_directory(&mut self, error: OperationError)
        ensures
            final(self)@ == old(self)@.with_failed_subtree(error@),
    {
        self.counters.note_failed_directory();
        assert(self@ =~= old(self)@.counting(old(self)@.counters.with_failed_directory()));
        self.record_error(error);
    }

    /// Accounts a directory that is not traversed because the run stops.
    pub fn record_stopped_directory(&mut self, relative: &WidePath)
        ensures
            final(self)@ == old(self)@.with_stopped_directory(relative@),
    {
        self.counters.note_failed_directory();
        assert(self@ =~= old(self)@.counting(old(self)@.counters.with_failed_directory()));
        if self.breaker.is_some() {
            self.warn(
                "breaker_subtree",
                Some(relative),
                "directory was discovered but not traversed after the breaker tripped",
            );
        } else {
            self.warn(
                "canceled_subtree",
                Some(relative),
                "directory was discovered but not traversed after cancellation",
            );
        }
    }

    /// Accounts an entry that is not attempted because the breaker tripped.
    pub fn record_broken_off_entry(&mut self, metadata: &ObjectMetadata, relative: &WidePath)
        ensures
            final(self)@ == old(self)@.with_broken_off_entry(*metadata, relative@),
    {
        match metadata.kind {
            ObjectKind::File => {
                self.record_file(
                    relative,
                    FileOutcome::NotAttempted {
                        bytes: metadata.size,
                        reason: "breaker".to_owned(),
                    },
                    None,
                );
            },
            ObjectKind::Directory => {
                self.counters.note_failed_directory();
                assert(self@ =~= old(self)@.counting(old(self)@.counters.with_failed_directory()));
                self.warn(
                    "breaker_subtree",
                    Some(relative),
                    "directory was discovered but not traversed after the breaker tripped",
                );
            },
            ObjectKind::Reparse => {
                self.counters.note_unattempted_link();
                assert(self@ =~= old(self)@.counting(old(self)@.counters.with_unattempted_link()));
                self.record_link_event(
                    relative,
                    "not_attempted_link",
                    Some("breaker".to_owned()),
                    None,
                    None,
                );
            },
        }
    }

    /// Accounts an excluded entry.
    pub fn record_exclusion(&mut self, metadata: &ObjectMetadata, relative: &WidePath, reason: &str)
        ensures
            final(self)@ == old(self)@.with_exclusion(*metadata, relative@, reason@),
    {
        match metadata.kind {
            ObjectKind::File => {
                self.record_file(
                    relative,
                    FileOutcome::Excluded { bytes: metadata.size, reason: reason.to_owned() },
                    None,
                );
            },
            ObjectKind::Directory => {
                self.counters.note_excluded_directory();
                assert(self@ =~= old(self)@.counting(
                    old(self)@.counters.with_excluded_directory(),
                ));
                let action = concat("excluded_", reason);
                self.directory_event(action.as_str(), relative);
            },
            ObjectKind::Reparse => {
                self.counters.note_excluded_link();
                assert(self@ =~= old(self)@.counting(old(self)@.counters.with_excluded_link()));
                let kind = concat("link_excluded_", reason);
                let mut message = concat("reparse point excluded by ", reason);
                message.append(" policy");
                self.emit(warning(kind.as_str(), Some(relative), message.as_str()));
            },
        }
    }

    /// Accounts an entry that failed before it could be paired. A directory's
    /// contents are still to be accounted.
    pub fn record_entry_failure(&mut self, metadata: &ObjectMetadata, error: OperationError)
        ensures
            final(self)@ == old(self)@.with_entry_failure(*metadata, error@),
    {
        match metadata.kind {
            ObjectKind::File => {
                let relative = error.path.copied();
                self.record_file(
                    &relative,
                    FileOutcome::Failed { bytes: metadata.size, error },
                    None,
                );
            },
            ObjectKind::Directory => {
                self.fail_directory(error);
            },
            ObjectKind::Reparse => {
                self.counters.note_failed_link();
                assert(self@ =~= old(self)@.counting(old(self)@.counters.with_failed_link()));
                self.record_error(error);
            },
        }
    }

    /// Accounts one entry below a directory that failed, without an error of
    /// its own.
    pub fn account_entry_not_attempted(&mut self, metadata: &ObjectMetadata, relative: &WidePath)
        ensures
            final(self)@ == old(self)@.with_orphaned_entry(*metadata, relative@),
    {
        match metadata.kind {
            ObjectKind::File => {
                self.note_file_discovered(metadata.size);
                self.record_file(
                    relative,
                    FileOutcome::NotAttempted {
                        bytes: metadata.size,
                        reason: "parent_dir_failed".to_owned(),
                    },
                    None,
                );
            },
            ObjectKind::Directory => {
                self.counters.note_failed_directory();
                assert(self@ =~= old(self)@.counting(old(self)@.counters.with_failed_directory()));
                self.directory_event("not_attempted_parent_failed", relative);
            },
            ObjectKind::Reparse => {
                self.counters.note_unattempted_link();
                assert(self@ =~= old(self)@.counting(old(self)@.counters.with_unattempted_link()));
                self.record_link_event(
                    relative,
                    "not_attempted_link",
                    Some("parent_dir_failed".to_owned()),
                    None,
                    None,
                );
            },
        }
    }

    /// Accounts what one directory below a failed one holds, and adds its
    /// subdirectories to those still to be accounted. One that cannot be listed
    /// is passed over: the failure above it is the recorded cause.
    pub fn walk_subtree_not_attempted(
        &mut self,
        directory: &PendingDirectory,
        listed: &Result<Vec<DirectoryEntry>, IoError>,
        pending: &mut Vec<PendingDirectory>,
    )
        ensures
            match *listed {
                Ok(entries) => {
                    &&& final(self)@ == old(self)@.with_orphaned_entries(
                        entry_views(entries@),
                        directory.relative@,
                        entries@.len() as int,
                    )
                    &&& pending_views(final(pending)@) == pending_views(old(pending)@)
                        + directories_among(
                        entry_views(entries@),
                        directory.relative@,
                        entries@.len() as int,
                    )
                },
                Err(_) => final(self)@ == old(self)@ && *final(pending) == *old(pending),
            },
    {
        if let Ok(entries) = listed {
            self.account_children_not_attempted(entries, &directory.relative, pending);
        }
    }

    /// Accounts the entries of a directory that failed or lies below one, and
    /// adds its subdirectories to those still to be accounted.
    pub fn account_children_not_attempted(
        &mut self,
        entries: &Vec<DirectoryEntry>,
        parent: &WidePath,
        pending: &mut Vec<PendingDirectory>,
    )
        ensures
            final(self)@ == old(self)@.with_orphaned_entries(
                entry_views(entries@),
                parent@,
                entries@.len() as int,
            ),
            pending_views(final(pending)@) == pending_views(old(pending)@) + directories_among(
                entry_views(entries@),
                parent@,
                entries@.len() as int,
            ),
    {
        let ghost views = entry_views(entries@);
        let ghost before = self@;
        let ghost known = pending_views(pending@);
        assert(known + directories_among(views, parent@, 0) =~= known);
        for i in 0..entries.len()
            invariant
                views == entry_views(entries@),
                self@ == before.with_orphaned_entries(views, parent@, i as int),
                pending_views(pending@) == known + directories_among(views, parent@, i as int),
        {
            let entry = &entries[i];
            assert(views[i as int] == entry@);
            let relative = parent.child(&entry.name);
            self.account_entry_not_attempted(&entry.metadata, &relative);
            if entry.metadata.kind == ObjectKind::Directory {
                let ghost list = pending_views(pending@);
                let directory = PendingDirectory { source: entry.path.copied(), relative };
                let ghost added = (directory.source@, directory.relative@);
                pending.push(directory);
                assert(pending_views(pending@) =~= list.push(added));
            }
            assert(pending_views(pending@) =~= known + directories_among(
                views,
                parent@,
                i as int + 1,
            ));
        }
    }
}

/// An entry with the key under which the destination matches its name.
#[derive(Debug, PartialEq, Eq)]
pub struct KeyedEntry {
    /// The entry.
    pub entry: DirectoryEntry,
    /// The matching key of the entry's name, or why there is none.
    pub key: Result<Vec<u16>, IoError>,
}

/// A destination entry that no source entry has claimed yet.
#[derive(Clone, Debug, PartialEq, Eq)]
pub struct UnclaimedEntry {
    /// The matching key.
    pub key: Vec<u16>,
    /// The entry.
    pub entry: DirectoryEntry,
}

/// A source directory that is entered once its siblings are handled.
#[derive(Clone, Debug, PartialEq, Eq)]
pub struct ChildDirectory {
    /// The source directory.
    pub entry: DirectoryEntry,
    /// Its destination twin.
    pub destination: Option<DirectoryEntry>,
    /// Path relative to the source root.
    pub relative: WidePath,
}

/// A file or link that is to be handled.
#[derive(Clone, Debug, PartialEq, Eq)]
pub struct ObjectWork {
    /// The source object.
    pub entry: DirectoryEntry,
    /// Its destination twin.
    pub destination: Option<DirectoryEntry>,
    /// Path relative to the source root.
    pub relative: WidePath,
}

/// What is to be done with one paired entry.
#[derive(Clone, Debug, PartialEq, Eq)]
pub enum Admission {
    /// Everything is accounted.
    Settled,
    /// The directory failed; its contents are to be accounted.
    AccountContents(PendingDirectory),
    /// The file is to be handled.
    File(ObjectWork),
    /// The link is to be handled.
    Link(ObjectWork),
    /// The directory waits among the children.
    Deferred,
}

/// An optional entry as values.
pub open spec fn opt_entry(entry: Option<DirectoryEntry>) -> Option<EntryView> {
    match entry {
        Some(entry) => Some(entry@),
        None => None,
    }
}

/// An object with its destination twin and relative path, as values.
#[verifier::ext_equal]
pub ghost struct WorkView {
    pub entry: EntryView,
    pub destination: Option<EntryView>,
    pub relative: Seq<u16>,
}

impl View for ObjectWork {
    type V = WorkView;

    open spec fn view(&self) -> WorkView {
        WorkView {
            entry: self.entry@,
            destination: opt_entry(self.destination),
            relative: self.relative@,
        }
    }
}

impl View for ChildDirectory {
    type V = WorkView;

    open spec fn view(&self) -> WorkView {
        WorkView {
            entry: self.entry@,
            destination: opt_entry(self.destination),
            relative: self.relative@,
        }
    }
}

/// The decision on one entry, as values.
#[verifier::ext_equal]
pub ghost enum AdmissionView {
    Settled,
    AccountContents { source: Seq<u16>, relative: Seq<u16> },
    File(WorkView),
    Link(WorkView),
    Deferred,
}

impl View for Admission {
    type V = AdmissionView;

    open spec fn view(&self) -> AdmissionView {
        match *self {
            Admission::Settled => AdmissionView::Settled,
            Admission::AccountContents(directory) => AdmissionView::AccountContents {
                source: directory.source@,
                relative: directory.relative@,
            },
            Admission::File(work) => AdmissionView::File(work@),
            Admission::Link(work) => AdmissionView::Link(work@),
            Admission::Deferred => AdmissionView::Deferred,
        }
    }
}

/// The pairing of one source directory with its destination, as values.
#[verifier::ext_equal]
pub ghost struct JoinView {
    pub relative: Seq<u16>,
    pub seen: Seq<Seq<u16>>,
    pub unclaimed: Seq<(Seq<u16>, EntryView)>,
    pub children: Seq<WorkView>,
}

impl JoinView {
    /// The unclaimed entry that a key pairs with.
    pub open spec fn twin(self, key: Seq<u16>) -> Option<EntryView> {
        lookup(self.unclaimed, key)
    }

    /// With one more key seen and its twin claimed.
    pub open spec fn claiming(self, key: Seq<u16>) -> JoinView {
        let at = position(self.unclaimed, key);
        JoinView {
            seen: self.seen.push(key),
            unclaimed: if at < self.unclaimed.len() {
                self.unclaimed.remove(at)
            } else {
                self.unclaimed
            },
            ..self
        }
    }
}

/// The failure of a name that cannot be folded.
pub open spec fn casefold_failure(error: IoError, rel: Seq<u16>) -> ErrorView {
    io_error_view(category_of(error), "casefold"@, rel, error)
}

/// The failure of a name that collides with an earlier one.
pub open spec fn collision_failure(rel: Seq<u16>) -> ErrorView {
    semantic_error_view(
        ErrorCategory::TypeConflict,
        "join"@,
        rel,
        "source directory contains names that collide under the destination's name-matching semantics"@,
    )
}

/// The decision on an entry that failed before it could be paired.
pub open spec fn failed_admission(entry: EntryView, rel: Seq<u16>) -> AdmissionView {
    if entry.metadata.kind is Directory {
        AdmissionView::AccountContents { source: entry.path, relative: rel }
    } else {
        AdmissionView::Settled
    }
}

/// The accounts, the pairing and the decision after one more source entry. An
/// entry that the breaker keeps from being attempted claims its twin all the
/// same: what the source holds is never destination-only.
pub open spec fn pair_step(
    rules: RunRules,
    join: JoinView,
    ledger: LedgerView,
    entry: EntryView,
    key: Result<Seq<u16>, IoError>,
) -> (JoinView, LedgerView, AdmissionView) {
    let rel = child_of(join.relative, entry.name);
    let noted = if entry.metadata.kind is File {
        ledger.discovering(entry.metadata.size)
    } else {
        ledger
    };
    if noted.breaker is Some {
        (
            match key {
                Ok(key) => join.claiming(key),
                Err(_) => join,
            },
            noted.with_broken_off_entry(entry.metadata, rel),
            AdmissionView::Settled,
        )
    } else {
        match key {
            Err(error) => (
                join,
                noted.with_entry_failure(entry.metadata, casefold_failure(error, rel)),
                failed_admission(entry, rel),
            ),
            Ok(key) => if join.seen.contains(key) {
                (
                    join,
                    noted.with_entry_failure(entry.metadata, collision_failure(rel)),
                    failed_admission(entry, rel),
                )
            } else {
                let paired = join.claiming(key);
                let told = if system_candidate(rules, entry, join.relative)
                    && rules.include_system {
                    noted.warned(
                        "system_candidate_included"@,
                        Some(rel),
                        "root-level operating-system artifact included by --include-system"@,
                    )
                } else {
                    noted
                };
                let work = WorkView { entry, destination: join.twin(key), relative: rel };
                match exclusion(rules, entry, join.relative) {
                    Some(reason) => (
                        paired,
                        told.with_exclusion(entry.metadata, rel, reason),
                        AdmissionView::Settled,
                    ),
                    None => match entry.metadata.kind {
                        ObjectKind::File => (paired, told, AdmissionView::File(work)),
                        ObjectKind::Reparse => (paired, told, AdmissionView::Link(work)),
                        ObjectKind::Directory => (
                            JoinView { children: paired.children.push(work), ..paired },
                            told,
                            AdmissionView::Deferred,
                        ),
                    },
                }
            },
        }
    }
}

/// The pairing of one source directory with its destination.
#[derive(Clone, Debug, PartialEq, Eq)]
pub struct DirectoryJoin {
    /// Path of the directory relative to the source root.
    pub relative: WidePath,
    /// Keys of the source entries so far.
    pub seen: Vec<Vec<u16>>,
    /// Destination entries that no source entry has claimed.
    pub unclaimed: Vec<UnclaimedEntry>,
    /// Directories that are entered next.
    pub children: Vec<ChildDirectory>,
}

impl View for DirectoryJoin {
    type V = JoinView;

    open spec fn view(&self) -> JoinView {
        JoinView {
            relative: self.relative@,
            seen: self.seen@.map_values(|key: Vec<u16>| key@),
            unclaimed: self.unclaimed@.map_values(|item: UnclaimedEntry| (item.key@, item.entry@)),
            children: self.children@.map_values(|child: ChildDirectory| child@),
        }
    }
}

/// An entry's key as values.
pub open spec fn key_view(key: Result<Vec<u16>, IoError>) -> Result<Seq<u16>, IoError> {
    match key {
        Ok(key) => Ok(key@),
        Err(error) => Err(error),
    }
}

/// A destination entry with the view of its key.
pub open spec fn keyed_view(item: KeyedEntry) -> (Result<Seq<u16>, IoError>, EntryView) {
    (key_view(item.key), item.entry@)
}

/// The failure of pairing the first `count` destination entries, if it fails:
/// the first entry without a key or with a key seen before decides.
pub open spec fn join_failure(
    entries: Seq<(Result<Seq<u16>, IoError>, EntryView)>,
    count: int,
) -> Option<JoinFailure>
    decreases count,
{
    if count <= 0 {
        None
    } else {
        match join_failure(entries, count - 1) {
            Some(failure) => Some(failure),
            None => match entries[count - 1].0 {
                Err(error) => Some(JoinFailure::Key(error)),
                Ok(key) => if exists|j: int|
                    0 <= j < count - 1 && (#[trigger] entries[j]).0 == Ok::<Seq<u16>, IoError>(
                        key,
                    ) {
                    Some(JoinFailure::Duplicate)
                } else {
                    None
                },
            },
        }
    }
}

/// Why destination entries cannot be paired.
pub ghost enum JoinFailure {
    Key(IoError),
    Duplicate,
}

/// The unclaimed destination entries before any source entry.
pub open spec fn initially_unclaimed(
    entries: Seq<(Result<Seq<u16>, IoError>, EntryView)>,
) -> Seq<(Seq<u16>, EntryView)> {
    entries.map_values(|item: (Result<Seq<u16>, IoError>, EntryView)| (item.0->Ok_0, item.1))
}

impl DirectoryJoin {
    fn find_unclaimed(&self, key: &Vec<u16>) -> (at: usize)
        ensures
            at == position(self@.unclaimed, key@),
            at <= self.unclaimed.len(),
    {
        let mut at: usize = 0;
        while at < self.unclaimed.len() && !units_eq(
            self.unclaimed[at].key.as_slice(),
            key.as_slice(),
        )
            invariant
                at <= self.unclaimed.len(),
                self@.unclaimed.len() == self.unclaimed.len(),
                forall|i: int| 0 <= i < at ==> (#[trigger] self@.unclaimed[i]).0 != key@,
            decreases self.unclaimed.len() - at,
        {
            assert(self@.unclaimed[at as int].0 == self.unclaimed@[at as int].key@);
            at += 1;
        }
        proof {
            if at < self.unclaimed.len() {
                assert(self@.unclaimed[at as int].0 == self.unclaimed@[at as int].key@);
            }
            lemma_position_is(self@.unclaimed, key@, at as int);
        }
        at
    }

    fn has_seen(&self, key: &Vec<u16>) -> (r: bool)
        ensures
            r == self@.seen.contains(key@),
    {
        for i in 0..self.seen.len()
            invariant
                forall|j: int| 0 <= j < i ==> (#[trigger] self@.seen[j]) != key@,
                self@.seen.len() == self.seen.len(),
        {
            if units_eq(self.seen[i].as_slice(), key.as_slice()) {
                assert(self@.seen[i as int] == key@);
                return true;
            }
            assert(self@.seen[i as int] != key@);
        }
        false
    }

    fn claim(&mut self, key: Vec<u16>) -> (twin: Option<DirectoryEntry>)
        ensures
            final(self)@ == old(self)@.claiming(key@),
            opt_entry(twin) == old(self)@.twin(key@),
    {
        let ghost before = self@;
        let at: usize = self.find_unclaimed(&key);
        let twin = if at < self.unclaimed.len() {
            assert(before.unclaimed[at as int].1 == self.unclaimed@[at as int].entry@);
            let claimed = self.unclaimed.remove(at);
            assert(self@.unclaimed =~= before.unclaimed.remove(at as int));
            Some(claimed.entry)
        } else {
            None
        };
        let ghost key_units = key@;
        self.seen.push(key);
        assert(self@.seen =~= before.seen.push(key_units));
        twin
    }

    /// Starts pairing a directory with the entries of its destination, which
    /// must have distinct matching keys.
    pub fn start(relative: WidePath, destination: Vec<KeyedEntry>) -> (join: Result<
        DirectoryJoin,
        IoError,
    >)
        ensures
            ({
                let entries = destination@.map_values(|item: KeyedEntry| keyed_view(item));
                match join_failure(entries, entries.len() as int) {
                    Some(JoinFailure::Key(error)) => join == Err::<DirectoryJoin, IoError>(error),
                    Some(JoinFailure::Duplicate) => join matches Err(error) && error.kind
                        is InvalidData && error.code is None && !error.cloud && error.message@
                        == "destination contains duplicate names under its matching semantics"@,
                    None => join matches Ok(join) && join@ == (JoinView {
                        relative: relative@,
                        seen: seq![],
                        unclaimed: initially_unclaimed(entries),
                        children: seq![],
                    }),
                }
            }),
    {
        let ghost entries = destination@.map_values(|item: KeyedEntry| keyed_view(item));
        let mut join = DirectoryJoin {
            relative,
            seen: Vec::new(),
            unclaimed: Vec::new(),
            children: Vec::new(),
        };
        let ghost start = JoinView {
            relative: relative@,
            seen: seq![],
            unclaimed: seq![],
            children: seq![],
        };
        assert(join@ =~= start);
        assert(initially_unclaimed(entries.take(0)) =~= seq![]);
        let mut items = destination;
        let ghost count = items@.len() as int;
        let mut done: usize = 0;
        while done < items.len()
            invariant
                done <= items.len(),
                items@ == destination@,
                entries == destination@.map_values(|item: KeyedEntry| keyed_view(item)),
                entries.len() == items.len(),
                join_failure(entries, done as int) is None,
                forall|j: int| 0 <= j < done ==> (#[trigger] entries[j]).0 is Ok,
                join@ == (JoinView {
                    unclaimed: initially_unclaimed(entries.take(done as int)),
                    ..start
                }),
                join@.unclaimed.len() == done,
                start == (JoinView {
                    relative: relative@,
                    seen: seq![],
                    unclaimed: seq![],
                    children: seq![],
                }),
            decreases items.len() - done,
        {
            let item = &items[done];
            assert(entries[done as int] == keyed_view(*item));
            match &item.key {
                Err(error) => {
                    let error = error.copied();
                    proof {
                        lemma_join_failure_stays(entries, done as int + 1, entries.len() as int);
                    }
                    return Err(error);
                },
                Ok(key) => {
                    let at: usize = join.find_unclaimed(key);
                    proof {
                        lemma_position(join@.unclaimed, key@);
                        assert forall|j: int| 0 <= j < done implies (#[trigger] entries[j]).0 == Ok::<
                            Seq<u16>,
                            IoError,
                        >(join@.unclaimed[j].0) by {
                            assert(entries.take(done as int)[j] == entries[j]);
                        }
                    }
                    if at < join.unclaimed.len() {
                        proof {
                            assert(entries[at as int].0 == Ok::<Seq<u16>, IoError>(key@));
                            lemma_join_failure_stays(
                                entries,
                                done as int + 1,
                                entries.len() as int,
                            );
                        }
                        return Err(
                            IoError {
                                code: None,
                                kind: IoErrorKind::InvalidData,
                                cloud: false,
                                message:
                                    "destination contains duplicate names under its matching semantics".to_owned(),
                            },
                        );
                    }
                    let copy = crate::path::copy_units(key.as_slice(), 0, key.len());
                    assert(copy@ =~= key@);
                    let ghost before = join@.unclaimed;
                    join.unclaimed.push(UnclaimedEntry { key: copy, entry: item.entry.copied() });
                    assert(join@.unclaimed =~= before.push((key@, item.entry@)));
                    assert(entries.take(done as int + 1) =~= entries.take(done as int).push(
                        entries[done as int],
                    ));
                    assert(join@.unclaimed =~= initially_unclaimed(
                        entries.take(done as int + 1),
                    ));
                    assert(join@ =~= (JoinView {
                        unclaimed: initially_unclaimed(entries.take(done as int + 1)),
                        ..start
                    }));
                    proof {
                        assert forall|j: int| 0 <= j < done implies (#[trigger] entries[j]).0 != Ok::<
                            Seq<u16>,
                            IoError,
                        >(key@) by {
                            assert(before[j].0 != key@);
                        }
                    }
                },
            }
            done += 1;
        }
        assert(entries.take(entries.len() as int) =~= entries);
        Ok(join)
    }

    /// Decides what becomes of the next source entry and accounts what is
    /// settled by that.
    pub fn pair(&mut self, rules: &RunRules, ledger: &mut Ledger, item: KeyedEntry) -> (admission:
        Admission)
        ensures
            pair_step(*rules, old(self)@, old(ledger)@, item.entry@, key_view(item.key)) == (
                final(self)@,
                final(ledger)@,
                admission@,
            ),
    {
        let KeyedEntry { entry, key } = item;
        let ghost view = entry@;
        let relative = self.relative.child(&entry.name);
        if entry.metadata.kind == ObjectKind::File {
            ledger.note_file_discovered(entry.metadata.size);
        }
        if ledger.breaker.is_some() {
            if let Ok(key) = key {
                self.claim(key);
            }
            ledger.record_broken_off_entry(&entry.metadata, &relative);
            return Admission::Settled;
        }
        let key = match key {
            Err(error) => {
                let failure = OperationError::from_io("casefold", relative.copied(), &error);
                ledger.record_entry_failure(&entry.metadata, failure);
                return failed_entry(entry, relative);
            },
            Ok(key) => key,
        };
        if self.has_seen(&key) {
            let failure = OperationError::semantic(
                ErrorCategory::TypeConflict,
                "join",
                relative.copied(),
                "source directory contains names that collide under the destination's name-matching semantics".to_owned(),
            );
            ledger.record_entry_failure(&entry.metadata, failure);
            return failed_entry(entry, relative);
        }
        let destination = self.claim(key);
        if is_system_candidate(rules, &entry, &self.relative) && rules.include_system {
            ledger.warn(
                "system_candidate_included",
                Some(&relative),
                "root-level operating-system artifact included by --include-system",
            );
        }
        if let Some(reason) = exclusion_reason(rules, &entry, &self.relative) {
            ledger.record_exclusion(&entry.metadata, &relative, reason);
            return Admission::Settled;
        }
        match entry.metadata.kind {
            ObjectKind::File => Admission::File(ObjectWork { entry, destination, relative }),
            ObjectKind::Reparse => Admission::Link(ObjectWork { entry, destination, relative }),
            ObjectKind::Directory => {
                let ghost children = self@.children;
                let child = ChildDirectory { entry, destination, relative };
                let ghost added = child@;
                self.children.push(child);
                assert(self@.children =~= children.push(added));
                Admission::Deferred
            },
        }
    }

    /// Accounts every destination entry that no source entry claimed.
    pub fn record_extras(&self, ledger: &mut Ledger)
        ensures
            final(ledger)@ == with_extras(
                old(ledger)@,
                self@.unclaimed,
                self@.relative,
                self@.unclaimed.len() as int,
            ),
    {
        let ghost before = ledger@;
        for i in 0..self.unclaimed.len()
            invariant
                self@.unclaimed.len() == self.unclaimed.len(),
                ledger@ == with_extras(before, self@.unclaimed, self@.relative, i as int),
        {
            assert(self@.unclaimed[i as int].1 == self.unclaimed@[i as int].entry@);
            let relative = self.relative.child(&self.unclaimed[i].entry.name);
            ledger.record_extra(&relative);
        }
    }
}

/// The accounts with the first `count` unclaimed destination entries.
pub open spec fn with_extras(
    ledger: LedgerView,
    unclaimed: Seq<(Seq<u16>, EntryView)>,
    parent: Seq<u16>,
    count: int,
) -> LedgerView
    decreases count,
{
    if count <= 0 {
        ledger
    } else {
        with_extras(ledger, unclaimed, parent, count - 1).with_extra(
            child_of(parent, unclaimed[count - 1].1.name),
        )
    }
}

fn failed_entry(entry: DirectoryEntry, relative: WidePath) -> (admission: Admission)
    ensures
        admission@ == failed_admission(entry@, relative@),
{
    if entry.metadata.kind == ObjectKind::Directory {
        Admission::AccountContents(PendingDirectory { source: entry.path, relative })
    } else {
        Admission::Settled
    }
}

proof fn lemma_join_failure_stays(
    entries: Seq<(Result<Seq<u16>, IoError>, EntryView)>,
    from: int,
    to: int,
)
    requires
        from <= to,
        join_failure(entries, from) is Some,
    ensures
        join_failure(entries, to) == join_failure(entries, from),
    decreases to - from,
{
    if from < to {
        lemma_join_failure_stays(entries, from, to - 1);
    }
}

/// The pairing after the first `count` source entries. The accounts may change
/// between two entries in any way: `ledgers` holds them as each entry met them.
pub open spec fn paired(
    rules: RunRules,
    join: JoinView,
    sources: Seq<(Result<Seq<u16>, IoError>, EntryView)>,
    ledgers: Seq<LedgerView>,
    count: int,
) -> JoinView
    decreases count,
{
    if count <= 0 {
        join
    } else {
        pair_step(
            rules,
            paired(rules, join, sources, ledgers, count - 1),
            ledgers[count - 1],
            sources[count - 1].1,
            sources[count - 1].0,
        ).0
    }
}

/// Whether one of the first `count` source entries has the given key.
pub open spec fn in_source(
    sources: Seq<(Result<Seq<u16>, IoError>, EntryView)>,
    count: int,
    key: Seq<u16>,
) -> bool {
    exists|i: int|
        0 <= i < count && (#[trigger] sources[i]).0 == Ok::<Seq<u16>, IoError>(key)
}

/// The destination entries whose key none of the first `count` source entries
/// has.
pub open spec fn destination_only(
    destination: Seq<(Seq<u16>, EntryView)>,
    sources: Seq<(Result<Seq<u16>, IoError>, EntryView)>,
    count: int,
) -> Seq<(Seq<u16>, EntryView)> {
    destination.filter(|item: (Seq<u16>, EntryView)| !in_source(sources, count, item.0))
}

/// Before any source entry is paired.
pub open spec fn unpaired(
    relative: Seq<u16>,
    destination: Seq<(Result<Seq<u16>, IoError>, EntryView)>,
) -> JoinView {
    JoinView {
        relative,
        seen: seq![],
        unclaimed: initially_unclaimed(destination),
        children: seq![],
    }
}

/// The audit event of each destination-only entry.
pub open spec fn extra_events(extras: Seq<(Seq<u16>, EntryView)>, parent: Seq<u16>) -> Seq<
    NoticeView,
> {
    extras.map_values(
        |item: (Seq<u16>, EntryView)|
            NoticeView::Event(EventView::Extra { rel: audit_path(child_of(parent, item.1.name)) }),
    )
}

/// The sampled path of each destination-only entry.
pub open spec fn extra_paths(extras: Seq<(Seq<u16>, EntryView)>, parent: Seq<u16>) -> Seq<
    Seq<char>,
> {
    extras.map_values(
        |item: (Seq<u16>, EntryView)| lossy_text(child_of(parent, item.1.name)),
    )
}

proof fn lemma_no_failure_is_distinct(
    entries: Seq<(Result<Seq<u16>, IoError>, EntryView)>,
    count: int,
)
    requires
        0 <= count <= entries.len(),
        join_failure(entries, count) is None,
    ensures
        forall|j: int| 0 <= j < count ==> (#[trigger] entries[j]).0 is Ok,
        forall|i: int, j: int|
            0 <= i < j < count ==> (#[trigger] entries[i]).0 != (#[trigger] entries[j]).0,
    decreases count,
{
    if count > 0 {
        lemma_no_failure_is_distinct(entries, count - 1);
    }
}

proof fn lemma_paired(
    rules: RunRules,
    join: JoinView,
    sources: Seq<(Result<Seq<u16>, IoError>, EntryView)>,
    ledgers: Seq<LedgerView>,
    count: int,
)
    requires
        0 <= count <= sources.len(),
        keys_are_distinct(join.unclaimed),
        join.seen.len() == 0,
    ensures
        ({
            let now = paired(rules, join, sources, ledgers, count);
            &&& now.relative == join.relative
            &&& now.unclaimed == destination_only(join.unclaimed, sources, count)
            &&& forall|key: Seq<u16>| #[trigger]
                now.seen.contains(key) ==> in_source(sources, count, key)
        }),
    decreases count,
{
    let now = paired(rules, join, sources, ledgers, count);
    if count == 0 {
        assert(destination_only(join.unclaimed, sources, 0) =~= join.unclaimed) by {
            lemma_filter_all(
                join.unclaimed,
                |item: (Seq<u16>, EntryView)| !in_source(sources, 0, item.0),
            );
        }
    } else {
        lemma_paired(rules, join, sources, ledgers, count - 1);
        let before = paired(rules, join, sources, ledgers, count - 1);
        let kept = |item: (Seq<u16>, EntryView)| !in_source(sources, count - 1, item.0);
        let rest = |item: (Seq<u16>, EntryView)| !in_source(sources, count, item.0);
        assert forall|key: Seq<u16>| in_source(sources, count, key) <==> in_source(
            sources,
            count - 1,
            key,
        ) || sources[count - 1].0 == Ok::<Seq<u16>, IoError>(key) by {
            if in_source(sources, count, key) {
                let i = choose|i: int|
                    0 <= i < count && (#[trigger] sources[i]).0 == Ok::<Seq<u16>, IoError>(key);
                assert(sources[i].0 == Ok::<Seq<u16>, IoError>(key));
            }
        }
        match sources[count - 1].0 {
            Err(_) => {
                assert(kept =~= rest);
            },
            Ok(key) => {
                if now.seen == before.seen {
                    assert(before.seen.contains(key));
                    assert(kept =~= rest);
                } else {
                    lemma_remove_is_filter(join.unclaimed, kept, rest, key);
                    assert forall|other: Seq<u16>| #[trigger]
                        now.seen.contains(other) implies in_source(sources, count, other) by {
                        let i = choose|i: int| 0 <= i < now.seen.len() && now.seen[i] == other;
                        if i < before.seen.len() {
                            assert(before.seen.contains(before.seen[i]));
                        } else {
                            assert(other == key);
                        }
                    }
                }
            },
        }
    }
}

/// Once every source entry is paired, the unclaimed entries are exactly the
/// destination entries whose key no source entry has, whatever became of the
/// source entries: copied, excluded, failed, or not attempted because the
/// breaker had tripped.
pub proof fn unclaimed_is_what_the_source_lacks(
    rules: RunRules,
    relative: Seq<u16>,
    destination: Seq<(Result<Seq<u16>, IoError>, EntryView)>,
    sources: Seq<(Result<Seq<u16>, IoError>, EntryView)>,
    ledgers: Seq<LedgerView>,
)
    requires
        join_failure(destination, destination.len() as int) is None,
        ledgers.len() == sources.len(),
    ensures
        ({
            let join = paired(
                rules,
                unpaired(relative, destination),
                sources,
                ledgers,
                sources.len() as int,
            );
            &&& join.relative == relative
            &&& join.unclaimed == destination_only(
                initially_unclaimed(destination),
                sources,
                sources.len() as int,
            )
        }),
{
    lemma_no_failure_is_distinct(destination, destination.len() as int);
    let start = unpaired(relative, destination);
    assert forall|i: int, j: int|
        0 <= i < start.unclaimed.len() && 0 <= j < start.unclaimed.len() && i
            != j implies #[trigger] start.unclaimed[i].0 != #[trigger] start.unclaimed[j].0 by {
        assert(destination[i].0 is Ok && destination[j].0 is Ok);
        if i < j {
            assert(destination[i].0 != destination[j].0);
        } else {
            assert(destination[j].0 != destination[i].0);
        }
    }
    lemma_paired(rules, start, sources, ledgers, sources.len() as int);
}

/// Every destination-only entry is counted once, while the counts are not full,
/// and told by one audit event; the first paths are sampled up to the limit.
/// Nothing else changes.
pub proof fn every_extra_is_accounted_once(
    ledger: LedgerView,
    extras: Seq<(Seq<u16>, EntryView)>,
    parent: Seq<u16>,
)
    ensures
        ({
            let next = with_extras(ledger, extras, parent, extras.len() as int);
            &&& next.counters.extra == vstd::math::min(
                ledger.counters.extra + extras.len(),
                u64::MAX as int,
            )
            &&& next.extras.count == vstd::math::min(
                ledger.extras.count + extras.len(),
                u64::MAX as int,
            )
            &&& next.notices == ledger.notices + extra_events(extras, parent)
            &&& ledger.extras.samples.len() <= REPORT_SAMPLE_LIMIT ==> next.extras.samples == (
            ledger.extras.samples + extra_paths(extras, parent)).take(
                vstd::math::min(
                    (ledger.extras.samples.len() + extras.len()) as int,
                    REPORT_SAMPLE_LIMIT as int,
                ),
            )
            &&& next == (LedgerView {
                counters: Counters { extra: next.counters.extra, ..ledger.counters },
                extras: next.extras,
                notices: next.notices,
                ..ledger
            })
        }),
    decreases extras.len(),
{
    let next = with_extras(ledger, extras, parent, extras.len() as int);
    if extras.len() == 0 {
        assert(extra_events(extras, parent) =~= seq![]);
        assert(next.notices =~= ledger.notices + extra_events(extras, parent));
        assert((ledger.extras.samples + extra_paths(extras, parent)).take(
            ledger.extras.samples.len() as int,
        ) =~= ledger.extras.samples);
    } else {
        let fewer = extras.drop_last();
        every_extra_is_accounted_once(ledger, fewer, parent);
        lemma_with_fewer_extras(ledger, extras, fewer, parent, fewer.len() as int);
        let before = with_extras(ledger, fewer, parent, fewer.len() as int);
        assert(extra_events(extras, parent) =~= extra_events(fewer, parent).push(
            NoticeView::Event(
                EventView::Extra { rel: audit_path(child_of(parent, extras.last().1.name)) },
            ),
        ));
        assert(next.notices =~= ledger.notices + extra_events(extras, parent));
        if ledger.extras.samples.len() <= REPORT_SAMPLE_LIMIT {
            let all = ledger.extras.samples + extra_paths(extras, parent);
            let most = ledger.extras.samples + extra_paths(fewer, parent);
            assert(all =~= most.push(lossy_text(child_of(parent, extras.last().1.name))));
            assert(next.extras.samples =~= all.take(
                vstd::math::min(all.len() as int, REPORT_SAMPLE_LIMIT as int),
            ));
        }
    }
}

/// In a directory that is paired to its end, exactly the destination entries
/// whose key no source entry has are counted as destination-only, and exactly
/// those are told, whatever the accounts were at the end.
pub proof fn extras_are_what_the_source_lacks(
    rules: RunRules,
    relative: Seq<u16>,
    destination: Seq<(Result<Seq<u16>, IoError>, EntryView)>,
    sources: Seq<(Result<Seq<u16>, IoError>, EntryView)>,
    ledgers: Seq<LedgerView>,
    ledger: LedgerView,
)
    requires
        join_failure(destination, destination.len() as int) is None,
        ledgers.len() == sources.len(),
    ensures
        ({
            let extras = destination_only(
                initially_unclaimed(destination),
                sources,
                sources.len() as int,
            );
            let join = paired(
                rules,
                unpaired(relative, destination),
                sources,
                ledgers,
                sources.len() as int,
            );
            let next = with_extras(
                ledger,
                join.unclaimed,
                join.relative,
                join.unclaimed.len() as int,
            );
            &&& next.counters.extra == vstd::math::min(
                ledger.counters.extra + extras.len(),
                u64::MAX as int,
            )
            &&& next.extras.count == vstd::math::min(
                ledger.extras.count + extras.len(),
                u64::MAX as int,
            )
            &&& next.notices == ledger.notices + extra_events(extras, relative)
            &&& ledger.extras.samples.len() <= REPORT_SAMPLE_LIMIT
                ==> next.extras.samples.len() <= REPORT_SAMPLE_LIMIT
        }),
{
    unclaimed_is_what_the_source_lacks(rules, relative, destination, sources, ledgers);
    every_extra_is_accounted_once(
        ledger,
        destination_only(initially_unclaimed(destination), sources, sources.len() as int),
        relative,
    );
}

proof fn lemma_with_fewer_extras(
    ledger: LedgerView,
    extras: Seq<(Seq<u16>, EntryView)>,
    fewer: Seq<(Seq<u16>, EntryView)>,
    parent: Seq<u16>,
    count: int,
)
    requires
        count <= fewer.len() <= extras.len(),
        fewer == extras.take(fewer.len() as int),
    ensures
        with_extras(ledger, fewer, parent, count) == with_extras(ledger, extras, parent, count),
    decreases count,
{
    if count > 0 {
        lemma_with_fewer_extras(ledger, extras, fewer, parent, count - 1);
        assert(fewer[count - 1] == extras[count - 1]);
    }
}

/// The artifacts of an operating system are excluded only at the root of a
/// volume and only unless they are asked for; a placeholder is excluded only
/// where placeholders are skipped; nothing else is excluded.
pub proof fn only_artifacts_and_placeholders_are_excluded(
    rules: RunRules,
    entry: EntryView,
    parent: Seq<u16>,
)
    ensures
        ({
            let name = ascii_lowered(lossy_text(entry.name));
            let artifact = name == ascii_lowered("$recycle.bin"@) || name == ascii_lowered(
                "system volume information"@,
            ) || name == ascii_lowered("pagefile.sys"@) || name == ascii_lowered("swapfile.sys"@)
                || name == ascii_lowered("hiberfil.sys"@) || name == ascii_lowered(
                "dumpstack.log.tmp"@,
            );
            let system = artifact && rules.source_is_volume_root && parent.len() == 0
                && !rules.include_system;
            let cloud = entry.cloud_placeholder && rules.skip_cloud;
            &&& exclusion(rules, entry, parent) is Some <==> system || cloud
            &&& system ==> exclusion(rules, entry, parent) == Some("system"@)
            &&& !system && cloud ==> exclusion(rules, entry, parent) == Some(
                "cloud_placeholder"@,
            )
        }),
{
    reveal_strlit("$recycle.bin");
    reveal_strlit("$RECYCLE.BIN");
    reveal_strlit("system volume information");
    reveal_strlit("System Volume Information");
    reveal_strlit("dumpstack.log.tmp");
    reveal_strlit("DumpStack.log.tmp");
    assert(ascii_lowered("$recycle.bin"@) =~= ascii_lowered("$RECYCLE.BIN"@));
    assert(ascii_lowered("system volume information"@) =~= ascii_lowered(
        "System Volume Information"@,
    ));
    assert(ascii_lowered("dumpstack.log.tmp"@) =~= ascii_lowered("DumpStack.log.tmp"@));
}

/// What one entry of a source directory is admitted as, from the entry and the
/// rules alone: nothing after the breaker tripped, nothing whose name cannot be
/// folded or collides with an earlier one, and nothing excluded; everything else
/// by its class, together with the destination entry of the same key.
pub proof fn entry_is_admitted_by_its_class(
    rules: RunRules,
    join: JoinView,
    ledger: LedgerView,
    entry: EntryView,
    key: Result<Seq<u16>, IoError>,
)
    ensures
        ({
            let (next, after, admission) = pair_step(rules, join, ledger, entry, key);
            let broken = ledger.breaker is Some;
            let clear = !broken && key is Ok && !join.seen.contains(key->Ok_0);
            let kind = entry.metadata.kind;
            let taken = clear && exclusion(rules, entry, join.relative) is None;
            let twin = lookup(join.unclaimed, key->Ok_0);
            &&& admission is File <==> taken && kind is File
            &&& admission is Link <==> taken && kind is Reparse
            &&& admission is Deferred <==> taken && kind is Directory
            &&& admission is AccountContents <==> !broken && !clear && kind is Directory
            &&& admission matches AdmissionView::File(work) ==> work.entry == entry
                && work.destination == twin && work.relative == child_of(join.relative, entry.name)
            &&& admission matches AdmissionView::Link(work) ==> work.entry == entry
                && work.destination == twin && work.relative == child_of(join.relative, entry.name)
            &&& admission is Deferred ==> next.children.len() == join.children.len() + 1
                && next.children.last().entry == entry && next.children.last().destination == twin
                && next.children.last().relative == child_of(join.relative, entry.name)
            &&& !(admission is Deferred) ==> next.children == join.children
            &&& clear ==> next.seen == join.seen.push(key->Ok_0)
            &&& after.breaker is Some <== broken
        }),
{
}

/// A file is discovered once with its bytes, whatever becomes of it; a link or a
/// directory is discovered here only where it is settled here.
pub proof fn entry_is_discovered_once(
    rules: RunRules,
    join: JoinView,
    ledger: LedgerView,
    entry: EntryView,
    key: Result<Seq<u16>, IoError>,
)
    requires
        ledger.counters.files_discovered < u64::MAX,
        ledger.counters.dirs_discovered < u64::MAX,
        ledger.counters.links_discovered < u64::MAX,
        ledger.counters.bytes_enumerated + entry.metadata.size <= u64::MAX,
    ensures
        ({
            let (next, after, admission) = pair_step(rules, join, ledger, entry, key);
            let kind = entry.metadata.kind;
            let settled = admission is Settled || admission is AccountContents;
            let one = |yes: bool| -> int { if yes { 1int } else { 0int } };
            &&& after.counters.files_discovered == ledger.counters.files_discovered + one(
                kind is File,
            )
            &&& after.counters.bytes_enumerated == ledger.counters.bytes_enumerated + if kind
                is File {
                entry.metadata.size as int
            } else {
                0
            }
            &&& after.counters.dirs_discovered == ledger.counters.dirs_discovered + one(
                kind is Directory && settled,
            )
            &&& after.counters.links_discovered == ledger.counters.links_discovered + one(
                kind is Reparse && settled,
            )
        }),
{
}

/// What settles an entry that is not admitted: an exclusion counts as excluded,
/// the breaker as not attempted, and a name that cannot be matched as failed;
/// a directory that is not entered counts as failed.
pub proof fn unadmitted_entry_has_its_own_outcome(
    ledger: LedgerView,
    metadata: ObjectMetadata,
    rel: Seq<u16>,
    reason: Seq<char>,
    error: ErrorView,
)
    requires
        ledger.counters.excluded < u64::MAX,
        ledger.counters.not_attempted < u64::MAX,
        ledger.counters.failed < u64::MAX,
        ledger.counters.dirs_excluded < u64::MAX,
        ledger.counters.dirs_failed < u64::MAX,
        ledger.counters.links_excluded < u64::MAX,
        ledger.counters.links_not_attempted < u64::MAX,
        ledger.counters.links_failed < u64::MAX,
    ensures
        ({
            let before = ledger.counters;
            let excluded = ledger.with_exclusion(metadata, rel, reason).counters;
            let broken = ledger.with_broken_off_entry(metadata, rel).counters;
            let failed = ledger.with_entry_failure(metadata, error).counters;
            &&& metadata.kind is File ==> {
                &&& excluded.excluded == before.excluded + 1
                &&& broken.not_attempted == before.not_attempted + 1
                &&& failed.failed == before.failed + 1
                &&& excluded.failed == before.failed && broken.failed == before.failed
            }
            &&& metadata.kind is Directory ==> {
                &&& excluded.dirs_excluded == before.dirs_excluded + 1
                &&& broken.dirs_failed == before.dirs_failed + 1
                &&& failed.dirs_failed == before.dirs_failed + 1
                &&& excluded.dirs_failed == before.dirs_failed
            }
            &&& metadata.kind is Reparse ==> {
                &&& excluded.links_excluded == before.links_excluded + 1
                &&& broken.links_not_attempted == before.links_not_attempted + 1
                &&& failed.links_failed == before.links_failed + 1
                &&& excluded.links_failed == before.links_failed
            }
        }),
{
}

/// An entry under a directory that failed is discovered and counts as not
/// attempted, a directory among them as failed.
pub proof fn orphaned_entry_is_not_attempted(
    ledger: LedgerView,
    metadata: ObjectMetadata,
    rel: Seq<u16>,
)
    requires
        ledger.counters.files_discovered < u64::MAX,
        ledger.counters.not_attempted < u64::MAX,
        ledger.counters.dirs_discovered < u64::MAX,
        ledger.counters.dirs_failed < u64::MAX,
        ledger.counters.links_discovered < u64::MAX,
        ledger.counters.links_not_attempted < u64::MAX,
    ensures
        ({
            let before = ledger.counters;
            let after = ledger.with_orphaned_entry(metadata, rel).counters;
            let one = |yes: bool| -> int { if yes { 1int } else { 0int } };
            let file = metadata.kind is File;
            let directory = metadata.kind is Directory;
            let link = metadata.kind is Reparse;
            &&& after.files_discovered == before.files_discovered + one(file)
            &&& after.not_attempted == before.not_attempted + one(file)
            &&& after.dirs_discovered == before.dirs_discovered + one(directory)
            &&& after.dirs_failed == before.dirs_failed + one(directory)
            &&& after.links_discovered == before.links_discovered + one(link)
            &&& after.links_not_attempted == before.links_not_attempted + one(link)
            &&& after.failed == before.failed
        }),
{
}

/// Every directory entry under a failed directory is walked too.
pub proof fn every_directory_below_is_walked(
    entries: Seq<EntryView>,
    parent: Seq<u16>,
    count: int,
    i: int,
)
    requires
        0 <= i < count <= entries.len(),
        entries[i].metadata.kind is Directory,
    ensures
        directories_among(entries, parent, count).contains(
            (entries[i].path, child_of(parent, entries[i].name)),
        ),
    decreases count,
{
    let before = directories_among(entries, parent, count - 1);
    let all = directories_among(entries, parent, count);
    let wanted = (entries[i].path, child_of(parent, entries[i].name));
    if i == count - 1 {
        assert(all[before.len() as int] == wanted);
    } else {
        every_directory_below_is_walked(entries, parent, count - 1, i);
        let at = choose|at: int| 0 <= at < before.len() && before[at] == wanted;
        assert(all[at] == wanted);
    }
}

/// A directory that the run no longer enters is counted as failed and told with
/// its path, and the breaker's stops are told apart from the user's.
pub proof fn stopped_directory_is_told_by_its_cause(ledger: LedgerView, rel: Seq<u16>)
    ensures
        ({
            let after = ledger.with_stopped_directory(rel);
            &&& after.counters == ledger.counters.with_failed_directory()
            &&& after.notices.len() == ledger.notices.len() + 1
            &&& (after.notices.last() matches NoticeView::Event(
                EventView::Warning { kind, rel: told, .. },
            ) && told == Some(audit_path(rel)) && kind == (match ledger.breaker {
                Some(_) => "breaker_subtree"@,
                None => "canceled_subtree"@,
            }))
            &&& after.errors == ledger.errors
            &&& after.breaker == ledger.breaker
        }),
{
}

} // verus!
