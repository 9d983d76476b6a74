//! The comparison of two whole trees, from their roots to the last entry.

use vstd::prelude::*;
use vstd::string::*;

use crate::error::{BigcpError, FailureView, IoError};
use crate::filesystem::FilesystemPolicy;
use crate::path::WidePath;
use crate::platform::{
    DirectoryEntry, EntryView, ObjectKind, ObjectMetadata, VolumeInfo,
};
use crate::readback::{AuxFailure, VerificationFeatures};
use crate::report::{VerificationSummary, VerificationView};
use crate::verify::{
    check_root_kinds, check_roots_apart, directory_verdict, gathered, judge_directory, judge_file,
    judge_link, judge_roots, link_verdict, start_summary, DirectoryPairing, PairVerdict,
    PairVerdictView, PairWork, PairWorkView, PairingView,
};
use crate::walk::{keyed_view, KeyedEntry};

verus! {

/// A pair of directories that is still to be compared.
#[derive(Clone, Debug, PartialEq, Eq)]
pub struct VerifyTask {
    /// Source directory.
    pub source: WidePath,
    /// Destination directory.
    pub destination: WidePath,
    /// Path relative to the roots.
    pub relative: WidePath,
}

/// A pair of directories, as values.
#[verifier::ext_equal]
pub ghost struct VerifyTaskView {
    pub source: Seq<u16>,
    pub destination: Seq<u16>,
    pub relative: Seq<u16>,
}

impl View for VerifyTask {
    type V = VerifyTaskView;

    open spec fn view(&self) -> VerifyTaskView {
        VerifyTaskView {
            source: self.source@,
            destination: self.destination@,
            relative: self.relative@,
        }
    }
}

/// The next operation of a comparison.
#[derive(Debug, PartialEq, Eq)]
pub enum VerifyStep {
    /// Make the source absolute.
    NormalizeSource,
    /// Make the destination absolute.
    NormalizeDestination,
    /// Open and pin the source.
    OpenSource,
    /// Open and pin the destination.
    OpenDestination,
    /// Resolve the pinned source.
    ResolveSource,
    /// Resolve the pinned destination.
    ResolveDestination,
    /// Tell whether one root lies in the other.
    CompareRoots,
    /// Probe the source volume.
    ProbeSource,
    /// Probe the destination volume.
    ProbeDestination,
    /// Read the source root's metadata.
    ReadSource,
    /// Read the destination root's metadata.
    ReadDestination,
    /// Compare the auxiliary data of the roots.
    CompareRootAux,
    /// List the source directory of the task at hand, with matching keys.
    ListSource,
    /// List its destination directory, with matching keys.
    ListDestination,
    /// Compare the contents of the pair at hand.
    Compare,
    /// The comparison is over.
    Finished,
    /// The comparison is not possible.
    Failed {
        /// Why.
        error: BigcpError,
    },
}

/// The next operation of a comparison, as values.
#[verifier::ext_equal]
pub ghost enum VerifyStepView {
    NormalizeSource,
    NormalizeDestination,
    OpenSource,
    OpenDestination,
    ResolveSource,
    ResolveDestination,
    CompareRoots,
    ProbeSource,
    ProbeDestination,
    ReadSource,
    ReadDestination,
    CompareRootAux,
    ListSource,
    ListDestination,
    Compare,
    Finished,
    Failed { failure: FailureView },
}

impl View for VerifyStep {
    type V = VerifyStepView;

    open spec fn view(&self) -> VerifyStepView {
        match *self {
            VerifyStep::NormalizeSource => VerifyStepView::NormalizeSource,
            VerifyStep::NormalizeDestination => VerifyStepView::NormalizeDestination,
            VerifyStep::OpenSource => VerifyStepView::OpenSource,
            VerifyStep::OpenDestination => VerifyStepView::OpenDestination,
            VerifyStep::ResolveSource => VerifyStepView::ResolveSource,
            VerifyStep::ResolveDestination => VerifyStepView::ResolveDestination,
            VerifyStep::CompareRoots => VerifyStepView::CompareRoots,
            VerifyStep::ProbeSource => VerifyStepView::ProbeSource,
            VerifyStep::ProbeDestination => VerifyStepView::ProbeDestination,
            VerifyStep::ReadSource => VerifyStepView::ReadSource,
            VerifyStep::ReadDestination => VerifyStepView::ReadDestination,
            VerifyStep::CompareRootAux => VerifyStepView::CompareRootAux,
            VerifyStep::ListSource => VerifyStepView::ListSource,
            VerifyStep::ListDestination => VerifyStepView::ListDestination,
            VerifyStep::Compare => VerifyStepView::Compare,
            VerifyStep::Finished => VerifyStepView::Finished,
            VerifyStep::Failed { error } => VerifyStepView::Failed { failure: error@ },
        }
    }
}

/// What an operation came to.
#[derive(Debug, PartialEq, Eq)]
pub enum VerifyReply {
    /// A path.
    Path(Result<WidePath, IoError>),
    /// Something was done.
    Done(Result<(), IoError>),
    /// Whether one root lies in the other.
    Compared {
        /// Whether the source is the destination or lies below it.
        source_below_destination: Result<bool, IoError>,
        /// Whether the destination is the source or lies below it.
        destination_below_source: Result<bool, IoError>,
    },
    /// A probed volume.
    Volume(Result<VolumeInfo, IoError>),
    /// Metadata that was read.
    Metadata(Result<ObjectMetadata, IoError>),
    /// Whether the auxiliary data of the roots is the same.
    RootAux(Result<bool, IoError>),
    /// Whether the auxiliary data of the pair at hand is the same.
    Aux(Result<bool, AuxFailure>),
    /// The entries of a directory.
    Entries(Result<Vec<KeyedEntry>, IoError>),
    /// The verdict on a pair of files.
    File(PairVerdict),
    /// What was read of a pair of links.
    Link {
        /// Whether the targets are the same.
        reparse: Result<bool, IoError>,
        /// Whether the auxiliary data is the same.
        aux: Result<bool, AuxFailure>,
    },
}

/// What an operation came to, as values.
#[verifier::ext_equal]
pub ghost enum VerifyReplyView {
    Path(Result<Seq<u16>, IoError>),
    Done(Result<(), IoError>),
    Compared {
        source_below_destination: Result<bool, IoError>,
        destination_below_source: Result<bool, IoError>,
    },
    Volume(Result<VolumeInfo, IoError>),
    Metadata(Result<ObjectMetadata, IoError>),
    RootAux(Result<bool, IoError>),
    Aux(Result<bool, AuxFailure>),
    Entries(Result<Seq<(Result<Seq<u16>, IoError>, EntryView)>, IoError>),
    File(PairVerdictView),
    Link { reparse: Result<bool, IoError>, aux: Result<bool, AuxFailure> },
}

/// Entries as values.
pub open spec fn entry_views(list: Seq<KeyedEntry>) -> Seq<(Result<Seq<u16>, IoError>, EntryView)> {
    list.map_values(|item: KeyedEntry| keyed_view(item))
}

impl View for VerifyReply {
    type V = VerifyReplyView;

    open spec fn view(&self) -> VerifyReplyView {
        match *self {
            VerifyReply::Path(Ok(path)) => VerifyReplyView::Path(Ok(path@)),
            VerifyReply::Path(Err(error)) => VerifyReplyView::Path(Err(error)),
            VerifyReply::Done(result) => VerifyReplyView::Done(result),
            VerifyReply::Compared { source_below_destination, destination_below_source } =>
                VerifyReplyView::Compared { source_below_destination, destination_below_source },
            VerifyReply::Volume(result) => VerifyReplyView::Volume(result),
            VerifyReply::Metadata(result) => VerifyReplyView::Metadata(result),
            VerifyReply::RootAux(result) => VerifyReplyView::RootAux(result),
            VerifyReply::Aux(result) => VerifyReplyView::Aux(result),
            VerifyReply::Entries(Ok(list)) => VerifyReplyView::Entries(Ok(entry_views(list@))),
            VerifyReply::Entries(Err(error)) => VerifyReplyView::Entries(Err(error)),
            VerifyReply::File(verdict) => VerifyReplyView::File(verdict@),
            VerifyReply::Link { reparse, aux } => VerifyReplyView::Link { reparse, aux },
        }
    }
}

/// A comparison of two trees on its way.
pub struct StandaloneVerify {
    source: WidePath,
    destination: WidePath,
    source_volume: Option<VolumeInfo>,
    destination_volume: Option<VolumeInfo>,
    source_root: Option<ObjectMetadata>,
    destination_root: Option<ObjectMetadata>,
    summary: VerificationSummary,
    tasks: Vec<VerifyTask>,
    task: VerifyTask,
    pending: Vec<KeyedEntry>,
    pairing: DirectoryPairing,
    pair: Option<(DirectoryEntry, DirectoryEntry, WidePath, bool)>,
}

/// A comparison of two trees on its way, as values.
#[verifier::ext_equal]
pub ghost struct StandaloneView {
    /// The resolved source root.
    pub source: Seq<u16>,
    /// The resolved destination root.
    pub destination: Seq<u16>,
    /// The source volume.
    pub source_volume: Option<VolumeInfo>,
    /// The destination volume.
    pub destination_volume: Option<VolumeInfo>,
    /// The source root's metadata.
    pub source_root: Option<ObjectMetadata>,
    /// The destination root's metadata.
    pub destination_root: Option<ObjectMetadata>,
    /// What was found so far.
    pub summary: VerificationView,
    /// Pairs of directories still to be compared; the last one comes next.
    pub tasks: Seq<VerifyTaskView>,
    /// The pair of directories at hand.
    pub task: VerifyTaskView,
    /// Source entries still to be paired; the last one comes next.
    pub pending: Seq<(Result<Seq<u16>, IoError>, EntryView)>,
    /// The pairing of the directories at hand.
    pub pairing: PairingView,
    /// The pair of entries at hand.
    pub pair: Option<(EntryView, EntryView, Seq<u16>, bool)>,
}

impl View for StandaloneVerify {
    type V = StandaloneView;

    closed spec fn view(&self) -> StandaloneView {
        StandaloneView {
            source: self.source@,
            destination: self.destination@,
            source_volume: self.source_volume,
            destination_volume: self.destination_volume,
            source_root: self.source_root,
            destination_root: self.destination_root,
            summary: self.summary@,
            tasks: self.tasks@.map_values(|task: VerifyTask| task@),
            task: self.task@,
            pending: entry_views(self.pending@),
            pairing: self.pairing@,
            pair: match self.pair {
                Some((source, destination, relative, metadata_equal)) => Some(
                    (source@, destination@, relative@, metadata_equal),
                ),
                None => None,
            },
        }
    }
}

/// The step of a comparison that fails.
pub open spec fn unverifiable_roots(context: Seq<char>, source: IoError) -> VerifyStepView {
    VerifyStepView::Failed { failure: FailureView::Io { context, source } }
}

impl StandaloneView {
    /// Before anything is known.
    pub open spec fn start() -> StandaloneView {
        StandaloneView {
            source: seq![],
            destination: seq![],
            source_volume: None,
            destination_volume: None,
            source_root: None,
            destination_root: None,
            summary: VerificationView {
                mode: seq![],
                destination_filesystem: None,
                projected: false,
                passed: 0,
                failed: 0,
                mismatches: seq![],
                last_access_differences: 0,
            },
            tasks: seq![],
            task: VerifyTaskView { source: seq![], destination: seq![], relative: seq![] },
            pending: seq![],
            pairing: PairingView { relative: seq![], destination: seq![], seen: seq![] },
            pair: None,
        }
    }

    /// Whether both volumes are probed, once they are needed.
    pub open spec fn has_volumes(self) -> bool {
        self.source_volume is Some && self.destination_volume is Some
    }

    /// Under what the trees are compared.
    pub open spec fn policy(self) -> FilesystemPolicy {
        let source = self.source_volume->0;
        let destination = self.destination_volume->0;
        FilesystemPolicy {
            filesystem: destination.filesystem,
            capabilities: destination.capabilities,
            endpoint: destination.endpoint,
            source_projects_basic: source.filesystem is Wsl || source.filesystem is Remote,
        }
    }

    /// Whether a reply answers a step.
    pub open spec fn answered_by(self, step: VerifyStepView, reply: VerifyReplyView) -> bool {
        match step {
            VerifyStepView::NormalizeSource => reply is Path,
            VerifyStepView::NormalizeDestination => reply is Path,
            VerifyStepView::OpenSource => reply is Done,
            VerifyStepView::OpenDestination => reply is Done,
            VerifyStepView::ResolveSource => reply is Path,
            VerifyStepView::ResolveDestination => reply is Path,
            VerifyStepView::CompareRoots => reply is Compared,
            VerifyStepView::ProbeSource => reply is Volume,
            VerifyStepView::ProbeDestination => reply is Volume && self.source_volume is Some,
            VerifyStepView::ReadSource => reply is Metadata && self.has_volumes(),
            VerifyStepView::ReadDestination => reply is Metadata && self.has_volumes()
                && self.source_root is Some,
            VerifyStepView::CompareRootAux => reply is RootAux && self.has_volumes()
                && self.source_root is Some && self.destination_root is Some,
            VerifyStepView::ListSource => reply is Entries && self.has_volumes(),
            VerifyStepView::ListDestination => reply is Entries && self.has_volumes(),
            VerifyStepView::Compare => self.has_volumes() && (self.pair matches Some(pair)
                && match pair.0.metadata.kind {
                ObjectKind::Directory => reply is Aux,
                ObjectKind::File => reply matches VerifyReplyView::File(verdict) && (verdict
                    is Same || verdict is Different),
                ObjectKind::Reparse => reply is Link,
            }),
            _ => false,
        }
    }

    /// On to the next pair of directories.
    pub open spec fn next_task(self) -> (StandaloneView, VerifyStepView) {
        if self.tasks.len() == 0 {
            (self, VerifyStepView::Finished)
        } else {
            (
                StandaloneView {
                    task: self.tasks.last(),
                    tasks: self.tasks.drop_last(),
                    ..self
                },
                VerifyStepView::ListSource,
            )
        }
    }

    /// After pairing the next source entry.
    pub open spec fn paired(self) -> (StandaloneView, PairWorkView) {
        let (pairing, summary, work) = self.pairing.pairing(
            self.summary,
            self.policy(),
            self.pending.last().0->Ok_0,
            self.pending.last().1,
        );
        (
            StandaloneView { pairing, summary, pending: self.pending.drop_last(), ..self },
            work,
        )
    }

    /// On to the next pair of entries whose contents are to be compared, or
    /// behind the last one.
    pub open spec fn seeking(self) -> (StandaloneView, VerifyStepView)
        decreases self.pending.len(),
    {
        if self.pending.len() == 0 {
            (StandaloneView {
                summary: self.pairing.extras(
                    self.summary,
                    self.pairing.destination.len() as int,
                ),
                ..self
            }).next_task()
        } else {
            match self.pending.last().0 {
                Err(error) => (self, unverifiable_roots("match verify source name"@, error)),
                Ok(_) => {
                    let (next, work) = self.paired();
                    match work {
                        PairWorkView::Settled => if next.pending.len() < self.pending.len() {
                            next.seeking()
                        } else {
                            (self, VerifyStepView::Finished)
                        },
                        PairWorkView::Compare { source, destination, relative, metadata_equal } =>
                            (
                            StandaloneView {
                                pair: Some((source, destination, relative, metadata_equal)),
                                ..next
                            },
                            VerifyStepView::Compare,
                        ),
                    }
                },
            }
        }
    }

    /// After the pair at hand was compared.
    pub open spec fn judged(self, reply: VerifyReplyView) -> StandaloneView {
        let (source, destination, relative, metadata_equal) = self.pair->0;
        let name = crate::path::lossy_text(relative);
        let next = StandaloneView { pair: None, ..self };
        match reply {
            VerifyReplyView::Aux(aux) => StandaloneView {
                summary: self.summary.judging(name, directory_verdict(metadata_equal, aux)),
                tasks: self.tasks.push(
                    VerifyTaskView {
                        source: source.path,
                        destination: destination.path,
                        relative,
                    },
                ),
                ..next
            },
            VerifyReplyView::File(verdict) => StandaloneView {
                summary: self.summary.judging(
                    name,
                    match verdict {
                        PairVerdictView::Different(message) => Some(message),
                        _ => None,
                    },
                ),
                ..next
            },
            VerifyReplyView::Link { reparse, aux } => StandaloneView {
                summary: self.summary.judging(name, link_verdict(metadata_equal, reparse, aux)),
                ..next
            },
            _ => self,
        }
    }

    /// The comparison after a reply, and what it does next.
    pub open spec fn after(self, step: VerifyStepView, reply: VerifyReplyView) -> (
        StandaloneView,
        VerifyStepView,
    ) {
        match (step, reply) {
            (VerifyStepView::NormalizeSource, VerifyReplyView::Path(path)) => (
                self,
                match path {
                    Ok(_) => VerifyStepView::NormalizeDestination,
                    Err(error) => unverifiable_roots("normalize verify source"@, error),
                },
            ),
            (VerifyStepView::NormalizeDestination, VerifyReplyView::Path(path)) => (
                self,
                match path {
                    Ok(_) => VerifyStepView::OpenSource,
                    Err(error) => unverifiable_roots("normalize verify destination"@, error),
                },
            ),
            (VerifyStepView::OpenSource, VerifyReplyView::Done(done)) => (
                self,
                match done {
                    Ok(_) => VerifyStepView::OpenDestination,
                    Err(error) => unverifiable_roots("open verify source"@, error),
                },
            ),
            (VerifyStepView::OpenDestination, VerifyReplyView::Done(done)) => (
                self,
                match done {
                    Ok(_) => VerifyStepView::ResolveSource,
                    Err(error) => unverifiable_roots("open verify destination"@, error),
                },
            ),
            (VerifyStepView::ResolveSource, VerifyReplyView::Path(path)) => match path {
                Ok(source) => (
                    StandaloneView { source, ..self },
                    VerifyStepView::ResolveDestination,
                ),
                Err(error) => (self, unverifiable_roots("resolve verify source"@, error)),
            },
            (VerifyStepView::ResolveDestination, VerifyReplyView::Path(path)) => match path {
                Ok(destination) => (
                    StandaloneView { destination, ..self },
                    VerifyStepView::CompareRoots,
                ),
                Err(error) => (self, unverifiable_roots("resolve verify destination"@, error)),
            },
            (
                VerifyStepView::CompareRoots,
                VerifyReplyView::Compared { source_below_destination, destination_below_source },
            ) => (
                self,
                match (source_below_destination, destination_below_source) {
                    (Err(error), _) => unverifiable_roots("compare verify roots"@, error),
                    (Ok(false), Err(error)) => unverifiable_roots("compare verify roots"@, error),
                    (Ok(false), Ok(false)) => VerifyStepView::ProbeSource,
                    _ => VerifyStepView::Failed {
                        failure: FailureView::Invalid(
                            "verification roots must be distinct, non-nested trees"@,
                        ),
                    },
                },
            ),
            (VerifyStepView::ProbeSource, VerifyReplyView::Volume(probed)) => match probed {
                Ok(volume) => (
                    StandaloneView { source_volume: Some(volume), ..self },
                    VerifyStepView::ProbeDestination,
                ),
                Err(error) => (self, unverifiable_roots("probe verify source"@, error)),
            },
            (VerifyStepView::ProbeDestination, VerifyReplyView::Volume(probed)) => match probed {
                Ok(volume) => {
                    let probed = StandaloneView { destination_volume: Some(volume), ..self };
                    (
                        StandaloneView {
                            summary: VerificationView::start("full"@, probed.policy()),
                            ..probed
                        },
                        VerifyStepView::ReadSource,
                    )
                },
                Err(error) => (self, unverifiable_roots("probe verify destination"@, error)),
            },
            (VerifyStepView::ReadSource, VerifyReplyView::Metadata(read)) => match read {
                Ok(metadata) => (
                    StandaloneView { source_root: Some(metadata), ..self },
                    VerifyStepView::ReadDestination,
                ),
                Err(error) => (
                    self,
                    unverifiable_roots("read verify source root metadata"@, error),
                ),
            },
            (VerifyStepView::ReadDestination, VerifyReplyView::Metadata(read)) => match read {
                Ok(metadata) => (
                    StandaloneView { destination_root: Some(metadata), ..self },
                    if self.source_root->0.kind is Directory && metadata.kind is Directory {
                        VerifyStepView::CompareRootAux
                    } else {
                        VerifyStepView::Failed {
                            failure: FailureView::Invalid(
                                "verification roots must both resolve to real directories"@,
                            ),
                        }
                    },
                ),
                Err(error) => (
                    self,
                    unverifiable_roots("read verify destination root metadata"@, error),
                ),
            },
            (VerifyStepView::CompareRootAux, VerifyReplyView::RootAux(aux)) => match aux {
                Ok(aux_equal) => {
                    let one = self.source_root->0.basic;
                    let other = self.destination_root->0.basic;
                    (StandaloneView {
                        summary: self.summary.comparing_access(
                            self.policy(),
                            one,
                            other,
                        ).judging(
                            "."@,
                            if self.policy().spec_metadata_equal(one, other) && aux_equal {
                                None
                            } else {
                                Some("root directory metadata, named streams, or EAs differ"@)
                            },
                        ),
                        tasks: seq![
                            VerifyTaskView {
                                source: self.source,
                                destination: self.destination,
                                relative: seq![],
                            },
                        ],
                        ..self
                    }).next_task()
                },
                Err(error) => (self, unverifiable_roots("verify root streams or EAs"@, error)),
            },
            (VerifyStepView::ListSource, VerifyReplyView::Entries(listed)) => match listed {
                Ok(entries) => (
                    StandaloneView { pending: entries.reverse(), ..self },
                    VerifyStepView::ListDestination,
                ),
                Err(error) => (self, unverifiable_roots("enumerate verify source"@, error)),
            },
            (VerifyStepView::ListDestination, VerifyReplyView::Entries(listed)) => match listed {
                Ok(entries) => {
                    let (table, summary, failure) = gathered(
                        entries,
                        entries.len() as int,
                        self.task.relative,
                        self.summary,
                    );
                    match failure {
                        Some(error) => (
                            StandaloneView { summary, ..self },
                            unverifiable_roots("match verify destination name"@, error),
                        ),
                        None => (StandaloneView {
                            summary,
                            pairing: PairingView {
                                relative: self.task.relative,
                                destination: table,
                                seen: seq![],
                            },
                            ..self
                        }).seeking(),
                    }
                },
                Err(error) => (self, unverifiable_roots("enumerate verify destination"@, error)),
            },
            (VerifyStepView::Compare, reply) => self.judged(reply).seeking(),
            _ => (self, step),
        }
    }
}

fn fail_io(context: &str, error: IoError) -> (step: VerifyStep)
    ensures
        step@ == unverifiable_roots(context@, error),
{
    VerifyStep::Failed { error: BigcpError::io(context, error) }
}

impl StandaloneVerify {
    /// Before anything is known.
    pub fn start() -> (verify: StandaloneVerify)
        ensures
            verify@ == StandaloneView::start(),
    {
        let verify = StandaloneVerify {
            source: WidePath::empty(),
            destination: WidePath::empty(),
            source_volume: None,
            destination_volume: None,
            source_root: None,
            destination_root: None,
            summary: VerificationSummary::default(),
            tasks: Vec::new(),
            task: VerifyTask {
                source: WidePath::empty(),
                destination: WidePath::empty(),
                relative: WidePath::empty(),
            },
            pending: Vec::new(),
            pairing: DirectoryPairing {
                relative: WidePath::empty(),
                destination: Vec::new(),
                seen: Vec::new(),
            },
            pair: None,
        };
        assert(verify@.summary.mismatches =~= seq![]);
        assert(verify@ =~= StandaloneView::start());
        verify
    }

    /// What was found so far.
    pub fn summary(&self) -> (summary: &VerificationSummary)
        ensures
            summary@ == self@.summary,
    {
        &self.summary
    }

    /// The resolved roots.
    pub fn roots(&self) -> (roots: (&WidePath, &WidePath))
        ensures
            roots.0@ == self@.source,
            roots.1@ == self@.destination,
    {
        (&self.source, &self.destination)
    }

    /// The pair of directories at hand.
    pub fn task(&self) -> (task: &VerifyTask)
        ensures
            task@ == self@.task,
    {
        &self.task
    }

    /// The pair of entries at hand, source first, and whether their copied
    /// metadata is the same.
    pub fn pair(&self) -> (pair: Option<(&DirectoryEntry, &DirectoryEntry, bool)>)
        ensures
            match pair {
                Some((source, destination, metadata_equal)) => self@.pair matches Some(found)
                    && found.0 == source@ && found.1 == destination@ && found.3 == metadata_equal,
                None => self@.pair is None,
            },
    {
        match &self.pair {
            Some((source, destination, _, metadata_equal)) => Some(
                (source, destination, *metadata_equal),
            ),
            None => None,
        }
    }

    /// What the source and the destination can hold.
    pub fn features(&self) -> (features: (VerificationFeatures, VerificationFeatures))
        requires
            self@.has_volumes(),
        ensures
            features.0 == (VerificationFeatures {
                streams: self@.source_volume->0.capabilities.named_streams,
                eas: self@.source_volume->0.capabilities.extended_attributes,
            }),
            features.1 == (VerificationFeatures {
                streams: self@.destination_volume->0.capabilities.named_streams,
                eas: self@.destination_volume->0.capabilities.extended_attributes,
            }),
    {
        let source = self.source_volume.unwrap();
        let destination = self.destination_volume.unwrap();
        (VerificationFeatures::of_volume(&source), VerificationFeatures::of_volume(&destination))
    }

    fn policy(&self) -> (policy: FilesystemPolicy)
        requires
            self@.has_volumes(),
        ensures
            policy == self@.policy(),
    {
        let source = self.source_volume.unwrap();
        let destination = self.destination_volume.unwrap();
        FilesystemPolicy::from_volumes(&source, &destination)
    }

    fn next_task(&mut self) -> (step: VerifyStep)
        ensures
            old(self)@.next_task() == (final(self)@, step@),
    {
        let ghost before = self@;
        match self.tasks.pop() {
            None => {
                assert(before.tasks.len() == 0);
                VerifyStep::Finished
            },
            Some(task) => {
                assert(before.tasks.last() == task@);
                self.task = task;
                assert(self@.tasks =~= before.tasks.drop_last());
                VerifyStep::ListSource
            },
        }
    }

    fn seek(&mut self) -> (step: VerifyStep)
        requires
            old(self)@.has_volumes(),
        ensures
            old(self)@.seeking() == (final(self)@, step@),
    {
        let ghost first = self@;
        let policy = self.policy();
        while self.pending.len() > 0
            invariant
                first == old(self)@,
                policy == self@.policy(),
                first.seeking() == self@.seeking(),
            decreases self.pending.len(),
        {
            let ghost before = self@;
            assert(before.pending.len() == self.pending.len());
            assert(before.pending.last() == keyed_view(self.pending@.last()));
            let item = match self.pending.pop() {
                Some(item) => item,
                None => {
                    return VerifyStep::Finished;
                },
            };
            assert(self@.pending =~= before.pending.drop_last());
            if let Err(error) = &item.key {
                let error = error.copied();
                self.pending.push(item);
                assert(self@.pending =~= before.pending);
                assert(self@ =~= before);
                return fail_io("match verify source name", error);
            }
            match self.pairing.pair(&mut self.summary, policy, item) {
                Err(error) => {
                    return VerifyStep::Failed { error };
                },
                Ok(PairWork::Settled) => {
                    assert(self@ =~= before.paired().0);
                },
                Ok(PairWork::Compare { source, destination, relative, metadata_equal }) => {
                    self.pair = Some((source, destination, relative, metadata_equal));
                    assert(self@ =~= (StandaloneView {
                        pair: Some((source@, destination@, relative@, metadata_equal)),
                        ..before.paired().0
                    }));
                    return VerifyStep::Compare;
                },
            }
        }
        assert(self@.pending.len() == 0);
        self.pairing.finish(&mut self.summary);
        self.next_task()
    }

    fn take_entries(&mut self, entries: Vec<KeyedEntry>)
        ensures
            final(self)@ == (StandaloneView {
                pending: entry_views(entries@).reverse(),
                ..old(self)@
            }),
    {
        let ghost views = entry_views(entries@);
        let mut rest = entries;
        let mut pending: Vec<KeyedEntry> = Vec::new();
        assert(entry_views(pending@) =~= views.reverse().take(0));
        while rest.len() > 0
            invariant
                views.len() == rest.len() + pending.len(),
                entry_views(rest@) == views.take(rest.len() as int),
                entry_views(pending@) == views.reverse().take(pending.len() as int),
            decreases rest.len(),
        {
            let ghost left = entry_views(rest@);
            let ghost done = entry_views(pending@);
            assert(left.last() == keyed_view(rest@.last()));
            if let Some(item) = rest.pop() {
                assert(entry_views(rest@) =~= left.drop_last());
                assert(left.drop_last() =~= views.take(rest.len() as int));
                pending.push(item);
                assert(entry_views(pending@) =~= done.push(left.last()));
                assert(views.reverse().take(pending.len() as int) =~= done.push(left.last()));
            }
        }
        assert(views.reverse().take(views.len() as int) =~= views.reverse());
        self.pending = pending;
    }

    fn judge(&mut self, reply: VerifyReply)
        requires
            old(self)@.answered_by(VerifyStepView::Compare, reply@),
        ensures
            final(self)@ == old(self)@.judged(reply@),
    {
        let ghost before = self@;
        let mut pair: Option<(DirectoryEntry, DirectoryEntry, WidePath, bool)> = None;
        std::mem::swap(&mut pair, &mut self.pair);
        if let Some((source, destination, relative, metadata_equal)) = pair {
            match reply {
                VerifyReply::Aux(aux) => {
                    judge_directory(&mut self.summary, &relative, metadata_equal, &aux);
                    let task = VerifyTask {
                        source: source.path,
                        destination: destination.path,
                        relative,
                    };
                    let ghost view = task@;
                    self.tasks.push(task);
                    assert(self@.tasks =~= before.tasks.push(view));
                },
                VerifyReply::File(verdict) => {
                    judge_file(&mut self.summary, &relative, &verdict);
                },
                VerifyReply::Link { reparse, aux } => {
                    judge_link(&mut self.summary, &relative, metadata_equal, &reparse, &aux);
                },
                _ => {},
            }
        }
        assert(self@ =~= before.judged(reply@));
    }

    /// Decides the next operation in comparing two whole trees. The first one
    /// is to make the source absolute.
    #[verifier::rlimit(80)]
    #[verifier::spinoff_prover]
    pub fn run_standalone_verify(&mut self, step: VerifyStep, reply: VerifyReply) -> (next:
        VerifyStep)
        requires
            old(self)@.answered_by(step@, reply@),
        ensures
            old(self)@.after(step@, reply@) == (final(self)@, next@),
    {
        let ghost before = self@;
        match (step, reply) {
            (VerifyStep::NormalizeSource, VerifyReply::Path(path)) => match path {
                Ok(_) => VerifyStep::NormalizeDestination,
                Err(error) => fail_io("normalize verify source", error),
            },
            (VerifyStep::NormalizeDestination, VerifyReply::Path(path)) => match path {
                Ok(_) => VerifyStep::OpenSource,
                Err(error) => fail_io("normalize verify destination", error),
            },
            (VerifyStep::OpenSource, VerifyReply::Done(done)) => match done {
                Ok(_) => VerifyStep::OpenDestination,
                Err(error) => fail_io("open verify source", error),
            },
            (VerifyStep::OpenDestination, VerifyReply::Done(done)) => match done {
                Ok(_) => VerifyStep::ResolveSource,
                Err(error) => fail_io("open verify destination", error),
            },
            (VerifyStep::ResolveSource, VerifyReply::Path(path)) => match path {
                Ok(source) => {
                    self.source = source;
                    VerifyStep::ResolveDestination
                },
                Err(error) => fail_io("resolve verify source", error),
            },
            (VerifyStep::ResolveDestination, VerifyReply::Path(path)) => match path {
                Ok(destination) => {
                    self.destination = destination;
                    VerifyStep::CompareRoots
                },
                Err(error) => fail_io("resolve verify destination", error),
            },
            (
                VerifyStep::CompareRoots,
                VerifyReply::Compared { source_below_destination, destination_below_source },
            ) => match check_roots_apart(source_below_destination, destination_below_source) {
                Ok(_) => VerifyStep::ProbeSource,
                Err(error) => VerifyStep::Failed { error },
            },
            (VerifyStep::ProbeSource, VerifyReply::Volume(probed)) => match probed {
                Ok(volume) => {
                    self.source_volume = Some(volume);
                    VerifyStep::ProbeDestination
                },
                Err(error) => fail_io("probe verify source", error),
            },
            (VerifyStep::ProbeDestination, VerifyReply::Volume(probed)) => match probed {
                Ok(volume) => {
                    self.destination_volume = Some(volume);
                    self.summary = start_summary("full", self.policy());
                    VerifyStep::ReadSource
                },
                Err(error) => fail_io("probe verify destination", error),
            },
            (VerifyStep::ReadSource, VerifyReply::Metadata(read)) => match read {
                Ok(metadata) => {
                    self.source_root = Some(metadata);
                    VerifyStep::ReadDestination
                },
                Err(error) => fail_io("read verify source root metadata", error),
            },
            (VerifyStep::ReadDestination, VerifyReply::Metadata(read)) => match read {
                Ok(metadata) => {
                    self.destination_root = Some(metadata);
                    let source = self.source_root.unwrap();
                    match check_root_kinds(source.kind, metadata.kind) {
                        Ok(_) => VerifyStep::CompareRootAux,
                        Err(error) => VerifyStep::Failed { error },
                    }
                },
                Err(error) => fail_io("read verify destination root metadata", error),
            },
            (VerifyStep::CompareRootAux, VerifyReply::RootAux(aux)) => match aux {
                Ok(aux_equal) => {
                    let source = self.source_root.unwrap();
                    let destination = self.destination_root.unwrap();
                    let policy = self.policy();
                    judge_roots(
                        &mut self.summary,
                        policy,
                        &source.basic,
                        &destination.basic,
                        aux_equal,
                    );
                    let task = VerifyTask {
                        source: self.source.copied(),
                        destination: self.destination.copied(),
                        relative: WidePath::empty(),
                    };
                    let ghost view = task@;
                    let mut tasks: Vec<VerifyTask> = Vec::new();
                    tasks.push(task);
                    self.tasks = tasks;
                    assert(self@.tasks =~= seq![view]);
                    assert(view.relative =~= seq![]);
                    self.next_task()
                },
                Err(error) => fail_io("verify root streams or EAs", error),
            },
            (VerifyStep::ListSource, VerifyReply::Entries(listed)) => match listed {
                Ok(entries) => {
                    self.take_entries(entries);
                    VerifyStep::ListDestination
                },
                Err(error) => fail_io("enumerate verify source", error),
            },
            (VerifyStep::ListDestination, VerifyReply::Entries(listed)) => match listed {
                Ok(entries) => {
                    let relative = self.task.relative.copied();
                    match DirectoryPairing::start(&mut self.summary, relative, entries) {
                        Err(error) => VerifyStep::Failed { error },
                        Ok(pairing) => {
                            self.pairing = pairing;
                            self.seek()
                        },
                    }
                },
                Err(error) => fail_io("enumerate verify destination", error),
            },
            (VerifyStep::Compare, reply) => {
                self.judge(reply);
                self.seek()
            },
            (step, _) => step,
        }
    }
}

/// A comparison that has started goes on with both volumes known, so that
/// every judgment is under the same policy.
pub proof fn policy_is_fixed(
    verify: StandaloneView,
    step: VerifyStepView,
    reply: VerifyReplyView,
)
    requires
        verify.answered_by(step, reply),
        verify.has_volumes(),
        !(step is ProbeSource) && !(step is ProbeDestination),
    ensures
        verify.after(step, reply).0.has_volumes(),
        verify.after(step, reply).0.policy() == verify.policy(),
{
    match (step, reply) {
        (VerifyStepView::Compare, reply) => {
            lemma_seeking_keeps_volumes(verify.judged(reply));
        },
        (VerifyStepView::ListDestination, VerifyReplyView::Entries(Ok(entries))) => {
            let (table, summary, failure) = gathered(
                entries,
                entries.len() as int,
                verify.task.relative,
                verify.summary,
            );
            lemma_seeking_keeps_volumes(
                StandaloneView {
                    summary,
                    pairing: PairingView {
                        relative: verify.task.relative,
                        destination: table,
                        seen: seq![],
                    },
                    ..verify
                },
            );
        },
        _ => {},
    }
}

proof fn lemma_seeking_keeps_volumes(verify: StandaloneView)
    ensures
        verify.seeking().0.source_volume == verify.source_volume,
        verify.seeking().0.destination_volume == verify.destination_volume,
    decreases verify.pending.len(),
{
    if verify.pending.len() > 0 && verify.pending.last().0 is Ok {
        let (next, work) = verify.paired();
        if work is Settled {
            lemma_seeking_keeps_volumes(next);
        }
    }
}

/// A pair is judged by all of its parts: a directory passes only if its
/// metadata, streams and extended attributes are the same, and is walked
/// whichever way it was judged; a link passes only if its payload is the same
/// too; a file passes only if it was found the same. Every pair counts once.
pub proof fn pair_is_judged_by_all_of_its_parts(verify: StandaloneView, reply: VerifyReplyView)
    requires
        verify.answered_by(VerifyStepView::Compare, reply),
        verify.summary.passed < u64::MAX,
        verify.summary.failed < u64::MAX,
    ensures
        ({
            let after = verify.judged(reply);
            let pair = verify.pair->0;
            let kind = pair.0.metadata.kind;
            let passes = match reply {
                VerifyReplyView::Aux(aux) => pair.3 && aux == Ok::<bool, AuxFailure>(true),
                VerifyReplyView::File(verdict) => verdict is Same,
                VerifyReplyView::Link { reparse, aux } => pair.3 && reparse == Ok::<bool, IoError>(
                    true,
                ) && aux == Ok::<bool, AuxFailure>(true),
                _ => false,
            };
            &&& after.summary.passed == verify.summary.passed + if passes {
                1int
            } else {
                0
            }
            &&& after.summary.failed == verify.summary.failed + if passes {
                0int
            } else {
                1
            }
            &&& after.pair is None
            &&& kind is Directory ==> after.tasks.len() == verify.tasks.len() + 1
                && after.tasks.last().source == pair.0.path && after.tasks.last().destination
                == pair.1.path && after.tasks.last().relative == pair.2
            &&& !(kind is Directory) ==> after.tasks == verify.tasks
        }),
{
}

/// Two trees are compared only if they lie apart and both roots are real
/// directories.
pub proof fn compared_roots_lie_apart(
    verify: StandaloneView,
    step: VerifyStepView,
    reply: VerifyReplyView,
)
    requires
        verify.answered_by(step, reply),
        step is CompareRoots || step is ReadDestination || step is ProbeDestination || step
            is ProbeSource,
    ensures
        ({
            let (after, next) = verify.after(step, reply);
            &&& step is CompareRoots ==> (next is ProbeSource <==> reply
                == (VerifyReplyView::Compared {
                source_below_destination: Ok(false),
                destination_below_source: Ok(false),
            }))
            &&& step is ReadDestination ==> (next is CompareRootAux <==> verify.source_root->0.kind
                is Directory && (reply matches VerifyReplyView::Metadata(Ok(root)) && root.kind
                is Directory))
            &&& step is ProbeSource ==> (reply matches VerifyReplyView::Volume(Ok(volume))
                ==> after.source_volume == Some(volume))
            &&& step is ProbeDestination ==> (reply matches VerifyReplyView::Volume(Ok(volume))
                ==> after.destination_volume == Some(volume) && after.policy().filesystem
                == volume.filesystem && after.policy().source_projects_basic == (
            verify.source_volume->0.filesystem is Wsl || verify.source_volume->0.filesystem
                is Remote) && after.summary.passed == 0 && after.summary.failed == 0)
        }),
{
}

/// Every directory that waits is taken once: taking one leaves the others, and
/// the comparison ends only when none waits.
pub proof fn waiting_directory_is_taken_once(state: StandaloneView)
    ensures
        state.next_task().1 is Finished <==> state.tasks.len() == 0,
        state.tasks.len() > 0 ==> state.next_task().0.tasks.push(state.next_task().0.task)
            == state.tasks,
        state.next_task().0.summary == state.summary,
{
    if state.tasks.len() > 0 {
        assert(state.tasks.drop_last().push(state.tasks.last()) =~= state.tasks);
    }
}

} // verus!
