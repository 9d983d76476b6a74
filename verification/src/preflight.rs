//! What is settled before the first directory is read: the two roots, the
//! machine-wide lock, the audit paths, the volumes and the profile.

use vstd::prelude::*;
use vstd::string::*;

use crate::devprofile::{composed, select_copy_profile, CopyProfile, ProfileView};
use crate::error::{BigcpError, FailureView, IoError, IoErrorKind};
use crate::identity::{path_hash, spec_path_hash, IdentityView, PathIdentity};
use crate::options::CopyOptions;
use crate::path::{child_of, lossy_text, WidePath};
use crate::platform::{DeviceInfo, ObjectKind, VolumeInfo};
use crate::text::text_prefix;

verus! {

/// A failure of an operation in some context.
pub open spec fn io_failure(context: Seq<char>, source: IoError) -> FailureView {
    FailureView::Io { context, source }
}

/// The search for the nearest ancestor that exists.
#[derive(Clone, Debug, PartialEq, Eq)]
pub struct AncestorSearch {
    /// Names that are missing, the deepest first.
    pub missing: Vec<WidePath>,
}

/// Paths as values.
pub open spec fn path_views(list: Seq<WidePath>) -> Seq<Seq<u16>> {
    list.map_values(|path: WidePath| path@)
}

impl AncestorSearch {
    /// Before the path itself is looked at.
    pub fn start() -> (search: AncestorSearch)
        ensures
            path_views(search.missing@) == Seq::<Seq<u16>>::empty(),
    {
        let search = AncestorSearch { missing: Vec::new() };
        assert(path_views(search.missing@) =~= Seq::<Seq<u16>>::empty());
        search
    }

    /// Takes note of one candidate: whether it exists, its last name, and
    /// whether it has a parent to go on with. Gives the missing names, the
    /// highest first, once a candidate exists.
    pub fn nearest_existing(
        &mut self,
        present: bool,
        name: Option<WidePath>,
        has_parent: bool,
    ) -> (found: Result<Option<Vec<WidePath>>, BigcpError>)
        ensures
            if present {
                (found matches Ok(Some(list)) && path_views(list@) == path_views(
                    old(self).missing@,
                ).reverse()) && *final(self) == *old(self)
            } else {
                match name {
                    None => (found matches Err(error) && error@ == FailureView::Invalid(
                        "destination has no existing ancestor"@,
                    )) && *final(self) == *old(self),
                    Some(name) => path_views(final(self).missing@) == path_views(
                        old(self).missing@,
                    ).push(name@) && (if has_parent {
                        found matches Ok(None)
                    } else {
                        found matches Err(error) && error@ == FailureView::Invalid(
                            "destination has no existing ancestor"@,
                        )
                    }),
                }
            },
    {
        if present {
            let mut list: Vec<WidePath> = Vec::new();
            let ghost views = path_views(self.missing@);
            let count: usize = self.missing.len();
            assert(path_views(list@) =~= views.reverse().take(0));
            for i in 0..count
                invariant
                    count == self.missing.len(),
                    views == path_views(self.missing@),
                    path_views(list@) == views.reverse().take(i as int),
            {
                let ghost before = path_views(list@);
                let item = self.missing[count - 1 - i].copied();
                assert(item@ == views[count - 1 - i]);
                list.push(item);
                assert(path_views(list@) =~= before.push(views[count - 1 - i]));
                assert(views.reverse().take(i as int + 1) =~= before.push(views[count - 1 - i]));
            }
            assert(views.reverse().take(count as int) =~= views.reverse());
            return Ok(Some(list));
        }
        match name {
            None => Err(BigcpError::Invalid("destination has no existing ancestor".to_owned())),
            Some(name) => {
                let ghost before = path_views(self.missing@);
                self.missing.push(name);
                assert(path_views(self.missing@) =~= before.push(name@));
                if has_parent {
                    Ok(None)
                } else {
                    Err(BigcpError::Invalid("destination has no existing ancestor".to_owned()))
                }
            },
        }
    }
}

/// The path below an ancestor with the missing names in order.
pub open spec fn joined(ancestor: Seq<u16>, missing: Seq<Seq<u16>>) -> Seq<u16>
    decreases missing.len(),
{
    if missing.len() == 0 {
        ancestor
    } else {
        child_of(joined(ancestor, missing.drop_last()), missing.last())
    }
}

/// The path below an ancestor with the missing names in order.
pub fn prospective_path(ancestor: &WidePath, missing: &Vec<WidePath>) -> (path: WidePath)
    ensures
        path@ == joined(ancestor@, path_views(missing@)),
{
    let mut path = ancestor.copied();
    let ghost views = path_views(missing@);
    assert(views.take(0) =~= Seq::<Seq<u16>>::empty());
    for i in 0..missing.len()
        invariant
            views == path_views(missing@),
            path@ == joined(ancestor@, views.take(i as int)),
    {
        let ghost next = views.take(i as int + 1);
        assert(next.drop_last() =~= views.take(i as int));
        assert(next.last() == missing@[i as int]@);
        path = path.child(&missing[i]);
    }
    assert(views.take(views.len() as int) =~= views);
    path
}

/// The next operation in creating the missing part of the destination root.
#[derive(Debug, PartialEq, Eq)]
pub enum RootStep {
    /// Create the directory at hand.
    Create,
    /// Read what stands there.
    Read,
    /// Every component exists.
    Finished,
    /// The root cannot be created.
    Failed {
        /// Why.
        error: BigcpError,
    },
}

/// The next operation, as values.
#[verifier::ext_equal]
pub ghost enum RootStepView {
    Create,
    Read,
    Finished,
    Failed { failure: FailureView },
}

impl View for RootStep {
    type V = RootStepView;

    open spec fn view(&self) -> RootStepView {
        match *self {
            RootStep::Create => RootStepView::Create,
            RootStep::Read => RootStepView::Read,
            RootStep::Finished => RootStepView::Finished,
            RootStep::Failed { error } => RootStepView::Failed { failure: error@ },
        }
    }
}

/// What an operation came to.
#[derive(Debug, PartialEq, Eq)]
pub enum RootReply {
    /// A directory was created.
    Created(Result<(), IoError>),
    /// What stands at the path.
    Kind(Result<ObjectKind, IoError>),
}

/// The missing part of the destination root on its way.
#[derive(Clone, Debug, PartialEq, Eq)]
pub struct RootCreation {
    /// The component at hand.
    pub current: WidePath,
    /// Components still to come, in order.
    pub rest: Vec<WidePath>,
}

/// Whether a reply answers a step.
pub open spec fn root_answers(step: RootStepView, reply: RootReply) -> bool {
    match step {
        RootStepView::Create => reply is Created,
        RootStepView::Read => reply is Kind,
        _ => false,
    }
}

/// The component at hand, those to come, and the next step.
pub open spec fn root_next(
    current: Seq<u16>,
    rest: Seq<Seq<u16>>,
    step: RootStepView,
    reply: RootReply,
) -> (Seq<u16>, Seq<Seq<u16>>, RootStepView) {
    match (step, reply) {
        (RootStepView::Create, RootReply::Created(done)) => (
            current,
            rest,
            match done {
                Err(error) => RootStepView::Failed {
                    failure: io_failure("create destination root component"@, error),
                },
                Ok(_) => RootStepView::Read,
            },
        ),
        (RootStepView::Read, RootReply::Kind(read)) => match read {
            Err(error) => (
                current,
                rest,
                RootStepView::Failed {
                    failure: io_failure("verify destination root component"@, error),
                },
            ),
            Ok(kind) => if !(kind is Directory) {
                (
                    current,
                    rest,
                    RootStepView::Failed {
                        failure: FailureView::Invalid(
                            "destination component is not a real directory: "@ + lossy_text(
                                current,
                            ),
                        ),
                    },
                )
            } else if rest.len() > 0 {
                (child_of(current, rest[0]), rest.drop_first(), RootStepView::Create)
            } else {
                (current, rest, RootStepView::Finished)
            },
        },
        _ => (current, rest, step),
    }
}

impl RootCreation {
    /// Starts creating the missing components below an ancestor.
    pub fn start(ancestor: &WidePath, missing: &Vec<WidePath>) -> (started: (
        RootCreation,
        RootStep,
    ))
        ensures
            if missing@.len() == 0 {
                started.1@ is Finished && started.0.current@ == ancestor@ && path_views(
                    started.0.rest@,
                ) == Seq::<Seq<u16>>::empty()
            } else {
                started.1@ is Create && started.0.current@ == child_of(
                    ancestor@,
                    missing@[0]@,
                ) && path_views(started.0.rest@) == path_views(missing@).drop_first()
            },
    {
        let mut rest: Vec<WidePath> = Vec::new();
        let ghost views = path_views(missing@);
        if missing.len() == 0 {
            assert(path_views(rest@) =~= Seq::<Seq<u16>>::empty());
            return (RootCreation { current: ancestor.copied(), rest }, RootStep::Finished);
        }
        assert(path_views(rest@) =~= views.subrange(1, 1));
        for i in 1..missing.len()
            invariant
                views == path_views(missing@),
                missing.len() >= 1,
                1 <= i <= missing.len(),
                path_views(rest@) == views.subrange(1, i as int),
        {
            let ghost before = path_views(rest@);
            rest.push(missing[i].copied());
            assert(path_views(rest@) =~= before.push(views[i as int]));
            assert(views.subrange(1, i as int + 1) =~= before.push(views[i as int]));
        }
        assert(path_views(rest@) =~= views.drop_first());
        (RootCreation { current: ancestor.child(&missing[0]), rest }, RootStep::Create)
    }

    /// Decides the next operation in creating the destination root.
    pub fn create_missing_components(&mut self, step: RootStep, reply: RootReply) -> (next:
        RootStep)
        requires
            root_answers(step@, reply),
        ensures
            root_next(old(self).current@, path_views(old(self).rest@), step@, reply) == (
                final(self).current@,
                path_views(final(self).rest@),
                next@,
            ),
    {
        match (step, reply) {
            (RootStep::Create, RootReply::Created(done)) => match done {
                Err(error) => RootStep::Failed {
                    error: BigcpError::io("create destination root component", error),
                },
                Ok(_) => RootStep::Read,
            },
            (RootStep::Read, RootReply::Kind(read)) => match read {
                Err(error) => RootStep::Failed {
                    error: BigcpError::io("verify destination root component", error),
                },
                Ok(kind) => {
                    if kind != ObjectKind::Directory {
                        let mut text =
                            "destination component is not a real directory: ".to_owned();
                        text.append(self.current.to_text_lossy().as_str());
                        return RootStep::Failed { error: BigcpError::Invalid(text) };
                    }
                    let ghost views = path_views(self.rest@);
                    assert(views.len() == self.rest.len());
                    if self.rest.len() > 0 {
                        let name = self.rest.remove(0);
                        assert(path_views(self.rest@) =~= views.drop_first());
                        assert(name@ == views[0]);
                        self.current = self.current.child(&name);
                        RootStep::Create
                    } else {
                        RootStep::Finished
                    }
                },
            },
            (step, _) => step,
        }
    }
}

/// The next operation before a run.
#[derive(Debug, PartialEq, Eq)]
pub enum PreflightStep {
    /// Make the source absolute.
    NormalizeSource,
    /// Open and pin it.
    OpenSource,
    /// Resolve the pinned source.
    ResolveSource,
    /// Read what stands there.
    ReadSource,
    /// Make the destination absolute.
    NormalizeDestination,
    /// Find its nearest ancestor that exists.
    FindAncestor,
    /// Open and pin the ancestor.
    OpenAncestor,
    /// Resolve the pinned ancestor.
    ResolveAncestor,
    /// Tell whether one root lies in the other.
    CompareRoots,
    /// Tell how the destination is compared.
    IdentifyDestination,
    /// Acquire the machine-wide lock of this name.
    AcquireLock {
        /// The name.
        name: String,
    },
    /// Choose and check the audit paths.
    ChooseAuditPaths,
    /// Probe the source volume.
    ProbeSource,
    /// Probe the destination volume.
    ProbeDestination,
    /// Profile both devices.
    ProfileDevices,
    /// Create the missing part of the destination.
    CreateRoot,
    /// Open and pin the created destination.
    PinRoot,
    /// Resolve it.
    ResolveRoot,
    /// Tell whether it lies below its ancestor.
    ConfirmRoot,
    /// Read what stands at the destination.
    ReadDestination,
    /// The run can start.
    Ready {
        /// Whether the destination exists.
        destination_exists: bool,
    },
    /// The run cannot start.
    Failed {
        /// Why.
        error: BigcpError,
    },
}

/// The next operation before a run, as values.
#[verifier::ext_equal]
pub ghost enum PreflightStepView {
    NormalizeSource,
    OpenSource,
    ResolveSource,
    ReadSource,
    NormalizeDestination,
    FindAncestor,
    OpenAncestor,
    ResolveAncestor,
    CompareRoots,
    IdentifyDestination,
    AcquireLock { name: Seq<char> },
    ChooseAuditPaths,
    ProbeSource,
    ProbeDestination,
    ProfileDevices,
    CreateRoot,
    PinRoot,
    ResolveRoot,
    ConfirmRoot,
    ReadDestination,
    Ready { destination_exists: bool },
    Failed { failure: FailureView },
}

impl View for PreflightStep {
    type V = PreflightStepView;

    open spec fn view(&self) -> PreflightStepView {
        match *self {
            PreflightStep::NormalizeSource => PreflightStepView::NormalizeSource,
            PreflightStep::OpenSource => PreflightStepView::OpenSource,
            PreflightStep::ResolveSource => PreflightStepView::ResolveSource,
            PreflightStep::ReadSource => PreflightStepView::ReadSource,
            PreflightStep::NormalizeDestination => PreflightStepView::NormalizeDestination,
            PreflightStep::FindAncestor => PreflightStepView::FindAncestor,
            PreflightStep::OpenAncestor => PreflightStepView::OpenAncestor,
            PreflightStep::ResolveAncestor => PreflightStepView::ResolveAncestor,
            PreflightStep::CompareRoots => PreflightStepView::CompareRoots,
            PreflightStep::IdentifyDestination => PreflightStepView::IdentifyDestination,
            PreflightStep::AcquireLock { name } => PreflightStepView::AcquireLock { name: name@ },
            PreflightStep::ChooseAuditPaths => PreflightStepView::ChooseAuditPaths,
            PreflightStep::ProbeSource => PreflightStepView::ProbeSource,
            PreflightStep::ProbeDestination => PreflightStepView::ProbeDestination,
            PreflightStep::ProfileDevices => PreflightStepView::ProfileDevices,
            PreflightStep::CreateRoot => PreflightStepView::CreateRoot,
            PreflightStep::PinRoot => PreflightStepView::PinRoot,
            PreflightStep::ResolveRoot => PreflightStepView::ResolveRoot,
            PreflightStep::ConfirmRoot => PreflightStepView::ConfirmRoot,
            PreflightStep::ReadDestination => PreflightStepView::ReadDestination,
            PreflightStep::Ready { destination_exists } => PreflightStepView::Ready {
                destination_exists,
            },
            PreflightStep::Failed { error } => PreflightStepView::Failed { failure: error@ },
        }
    }
}

/// What an operation came to.
#[derive(Debug, PartialEq, Eq)]
pub enum PreflightReply {
    /// A path.
    Path(Result<WidePath, IoError>),
    /// Something was done.
    Done(Result<(), IoError>),
    /// What stands at a path.
    Kind(Result<ObjectKind, IoError>),
    /// The names below the nearest ancestor that exists.
    Missing(Result<Vec<WidePath>, BigcpError>),
    /// Whether one root lies in the other.
    Compared {
        /// Whether the destination is the source or lies below it.
        destination_below_source: Result<bool, IoError>,
        /// Whether the source is the destination or lies below it.
        source_below_destination: Result<bool, IoError>,
    },
    /// How a path is compared.
    Identity(PathIdentity),
    /// Something of the library was done.
    Checked(Result<(), BigcpError>),
    /// A probed volume.
    Volume(Result<VolumeInfo, IoError>),
    /// Both devices.
    Devices {
        /// The source's device.
        source: DeviceInfo,
        /// The destination's device.
        destination: DeviceInfo,
    },
    /// Whether a path lies below another.
    Below(Result<bool, IoError>),
}

/// What an operation came to, as values.
#[verifier::ext_equal]
pub ghost enum PreflightReplyView {
    Path(Result<Seq<u16>, IoError>),
    Done(Result<(), IoError>),
    Kind(Result<ObjectKind, IoError>),
    Missing(Result<Seq<Seq<u16>>, FailureView>),
    Compared {
        destination_below_source: Result<bool, IoError>,
        source_below_destination: Result<bool, IoError>,
    },
    Identity(IdentityView),
    Checked(Result<(), FailureView>),
    Volume(Result<VolumeInfo, IoError>),
    Devices { source: DeviceInfo, destination: DeviceInfo },
    Below(Result<bool, IoError>),
}

impl View for PreflightReply {
    type V = PreflightReplyView;

    open spec fn view(&self) -> PreflightReplyView {
        match *self {
            PreflightReply::Path(Ok(path)) => PreflightReplyView::Path(Ok(path@)),
            PreflightReply::Path(Err(error)) => PreflightReplyView::Path(Err(error)),
            PreflightReply::Done(result) => PreflightReplyView::Done(result),
            PreflightReply::Kind(result) => PreflightReplyView::Kind(result),
            PreflightReply::Missing(Ok(list)) => PreflightReplyView::Missing(
                Ok(path_views(list@)),
            ),
            PreflightReply::Missing(Err(error)) => PreflightReplyView::Missing(Err(error@)),
            PreflightReply::Compared { destination_below_source, source_below_destination } =>
                PreflightReplyView::Compared {
                destination_below_source,
                source_below_destination,
            },
            PreflightReply::Identity(identity) => PreflightReplyView::Identity(identity@),
            PreflightReply::Checked(Ok(_)) => PreflightReplyView::Checked(Ok(())),
            PreflightReply::Checked(Err(error)) => PreflightReplyView::Checked(Err(error@)),
            PreflightReply::Volume(result) => PreflightReplyView::Volume(result),
            PreflightReply::Devices { source, destination } => PreflightReplyView::Devices {
                source,
                destination,
            },
            PreflightReply::Below(result) => PreflightReplyView::Below(result),
        }
    }
}

/// What was settled so far.
#[derive(Clone, Debug, PartialEq, Eq)]
pub struct Preflight {
    /// The resolved source root.
    pub source: WidePath,
    /// The resolved ancestor of the destination.
    pub ancestor: WidePath,
    /// Names below the ancestor that do not exist yet.
    pub missing: Vec<WidePath>,
    /// The destination root.
    pub destination: WidePath,
    /// The source volume.
    pub source_volume: Option<VolumeInfo>,
    /// The destination volume.
    pub destination_volume: Option<VolumeInfo>,
    /// The composed profile.
    pub profile: Option<CopyProfile>,
    /// Whether the destination's write cache is known to be off.
    pub destination_write_cache_disabled: bool,
}

/// What was settled so far, as values.
#[verifier::ext_equal]
pub ghost struct PreflightView {
    pub source: Seq<u16>,
    pub ancestor: Seq<u16>,
    pub missing: Seq<Seq<u16>>,
    pub destination: Seq<u16>,
    pub source_volume: Option<VolumeInfo>,
    pub destination_volume: Option<VolumeInfo>,
    pub profile: Option<ProfileView>,
    pub destination_write_cache_disabled: bool,
}

impl View for Preflight {
    type V = PreflightView;

    open spec fn view(&self) -> PreflightView {
        PreflightView {
            source: self.source@,
            ancestor: self.ancestor@,
            missing: path_views(self.missing@),
            destination: self.destination@,
            source_volume: self.source_volume,
            destination_volume: self.destination_volume,
            profile: match self.profile {
                Some(profile) => Some(profile@),
                None => None,
            },
            destination_write_cache_disabled: self.destination_write_cache_disabled,
        }
    }
}

/// Whether a reply answers a step.
pub open spec fn preflight_answers(step: PreflightStepView, reply: PreflightReplyView) -> bool {
    match step {
        PreflightStepView::NormalizeSource => reply is Path,
        PreflightStepView::OpenSource => reply is Done,
        PreflightStepView::ResolveSource => reply is Path,
        PreflightStepView::ReadSource => reply is Kind,
        PreflightStepView::NormalizeDestination => reply is Path,
        PreflightStepView::FindAncestor => reply is Missing,
        PreflightStepView::OpenAncestor => reply is Done,
        PreflightStepView::ResolveAncestor => reply is Path,
        PreflightStepView::CompareRoots => reply is Compared,
        PreflightStepView::IdentifyDestination => reply is Identity,
        PreflightStepView::AcquireLock { .. } => reply is Done,
        PreflightStepView::ChooseAuditPaths => reply is Checked,
        PreflightStepView::ProbeSource => reply is Volume,
        PreflightStepView::ProbeDestination => reply is Volume,
        PreflightStepView::ProfileDevices => reply is Devices,
        PreflightStepView::CreateRoot => reply is Checked,
        PreflightStepView::PinRoot => reply is Done,
        PreflightStepView::ResolveRoot => reply is Path,
        PreflightStepView::ConfirmRoot => reply is Below,
        PreflightStepView::ReadDestination => reply is Kind,
        _ => false,
    }
}

/// The end of a preflight that fails.
pub open spec fn refused(failure: FailureView) -> PreflightStepView {
    PreflightStepView::Failed { failure }
}

/// A step that only has to be done.
pub open spec fn once_done(
    done: Result<(), IoError>,
    context: Seq<char>,
    next: PreflightStepView,
) -> PreflightStepView {
    match done {
        Ok(_) => next,
        Err(error) => refused(io_failure(context, error)),
    }
}

/// A root that has to be a real directory.
pub open spec fn once_directory(
    read: Result<ObjectKind, IoError>,
    context: Seq<char>,
    complaint: Seq<char>,
    next: PreflightStepView,
) -> PreflightStepView {
    match read {
        Err(error) => refused(io_failure(context, error)),
        Ok(kind) => if kind is Directory {
            next
        } else {
            refused(FailureView::Invalid(complaint))
        },
    }
}

/// The step after the roots were compared.
pub open spec fn once_apart(
    first: Result<bool, IoError>,
    second: Result<bool, IoError>,
) -> PreflightStepView {
    let nested = refused(
        FailureView::Invalid("source and destination must be distinct, non-nested trees"@),
    );
    match first {
        Err(error) => refused(io_failure("compare roots"@, error)),
        Ok(true) => nested,
        Ok(false) => match second {
            Err(error) => refused(io_failure("compare roots"@, error)),
            Ok(true) => nested,
            Ok(false) => PreflightStepView::IdentifyDestination,
        },
    }
}

/// What stands against copying between two volumes, if anything does: limits
/// of remote paths or of a FAT-family destination that nobody accepted. A dry
/// run needs no acceptance.
pub open spec fn acceptance_failure(
    options: CopyOptions,
    source: VolumeInfo,
    destination: VolumeInfo,
) -> Option<FailureView> {
    if (source.endpoint.spec_is_remote() || destination.endpoint.spec_is_remote())
        && !options.accept_remote_paths && !options.dry_run {
        Some(
            FailureView::Invalid(
                "UNC/WSL copying requires explicit remote-path acceptance; rerun interactively or pass --accept-remote-paths"@,
            ),
        )
    } else if destination.filesystem.spec_is_fat_family() && !options.accept_degraded_filesystem
        && !options.dry_run {
        Some(
            FailureView::Invalid(
                destination.filesystem.spec_name()
                    + " destination requires explicit fidelity-degradation acceptance; rerun interactively or pass --accept-degraded-filesystem"@,
            ),
        )
    } else {
        None
    }
}

/// The step once the profile is composed.
pub open spec fn once_profiled(options: CopyOptions, missing: Seq<Seq<u16>>) -> PreflightStepView {
    if missing.len() == 0 {
        PreflightStepView::ReadDestination
    } else if options.dry_run {
        PreflightStepView::Ready { destination_exists: false }
    } else {
        PreflightStepView::CreateRoot
    }
}

/// The next step before a run, and what is settled then.
pub open spec fn preflight_next(
    options: CopyOptions,
    cores: usize,
    state: PreflightView,
    step: PreflightStepView,
    reply: PreflightReplyView,
) -> (PreflightStepView, PreflightView) {
    match (step, reply) {
        (PreflightStepView::NormalizeSource, PreflightReplyView::Path(path)) => (
            match path {
                Ok(_) => PreflightStepView::OpenSource,
                Err(error) => refused(io_failure("normalize source"@, error)),
            },
            state,
        ),
        (PreflightStepView::OpenSource, PreflightReplyView::Done(done)) => (
            once_done(done, "open source root"@, PreflightStepView::ResolveSource),
            state,
        ),
        (PreflightStepView::ResolveSource, PreflightReplyView::Path(path)) => match path {
            Ok(source) => (PreflightStepView::ReadSource, PreflightView { source, ..state }),
            Err(error) => (refused(io_failure("resolve source root"@, error)), state),
        },
        (PreflightStepView::ReadSource, PreflightReplyView::Kind(read)) => (
            once_directory(
                read,
                "read source root metadata"@,
                "source must resolve to a real directory, not a file or reparse point"@,
                PreflightStepView::NormalizeDestination,
            ),
            state,
        ),
        (PreflightStepView::NormalizeDestination, PreflightReplyView::Path(path)) => (
            match path {
                Ok(_) => PreflightStepView::FindAncestor,
                Err(error) => refused(io_failure("normalize destination"@, error)),
            },
            state,
        ),
        (PreflightStepView::FindAncestor, PreflightReplyView::Missing(found)) => match found {
            Ok(missing) => (PreflightStepView::OpenAncestor, PreflightView { missing, ..state }),
            Err(failure) => (refused(failure), state),
        },
        (PreflightStepView::OpenAncestor, PreflightReplyView::Done(done)) => (
            once_done(done, "open destination ancestor"@, PreflightStepView::ResolveAncestor),
            state,
        ),
        (PreflightStepView::ResolveAncestor, PreflightReplyView::Path(path)) => match path {
            Ok(ancestor) => (
                PreflightStepView::CompareRoots,
                PreflightView { ancestor, destination: joined(ancestor, state.missing), ..state },
            ),
            Err(error) => (refused(io_failure("resolve destination ancestor"@, error)), state),
        },
        (
            PreflightStepView::CompareRoots,
            PreflightReplyView::Compared { destination_below_source, source_below_destination },
        ) => (once_apart(destination_below_source, source_below_destination), state),
        (PreflightStepView::IdentifyDestination, PreflightReplyView::Identity(identity)) => (
            match spec_path_hash(identity) {
                Ok(hash) => PreflightStepView::AcquireLock { name: hash.take(32) },
                Err(error) => refused(io_failure("case-fold path lock identity"@, error)),
            },
            state,
        ),
        (PreflightStepView::AcquireLock { .. }, PreflightReplyView::Done(done)) => (
            match done {
                Ok(_) => PreflightStepView::ChooseAuditPaths,
                Err(error) => if error.kind is WouldBlock {
                    refused(FailureView::Locked(error.message@))
                } else {
                    refused(io_failure("acquire destination lock"@, error))
                },
            },
            state,
        ),
        (PreflightStepView::ChooseAuditPaths, PreflightReplyView::Checked(done)) => (
            match done {
                Ok(_) => PreflightStepView::ProbeSource,
                Err(failure) => refused(failure),
            },
            state,
        ),
        (PreflightStepView::ProbeSource, PreflightReplyView::Volume(probed)) => match probed {
            Ok(volume) => (
                PreflightStepView::ProbeDestination,
                PreflightView { source_volume: Some(volume), ..state },
            ),
            Err(error) => (refused(io_failure("probe source volume"@, error)), state),
        },
        (PreflightStepView::ProbeDestination, PreflightReplyView::Volume(probed)) => match probed {
            Err(error) => (refused(io_failure("probe destination volume"@, error)), state),
            Ok(volume) => (
                match state.source_volume {
                    Some(source) => match acceptance_failure(options, source, volume) {
                        Some(failure) => refused(failure),
                        None => PreflightStepView::ProfileDevices,
                    },
                    None => PreflightStepView::ProbeSource,
                },
                PreflightView { destination_volume: Some(volume), ..state },
            ),
        },
        (
            PreflightStepView::ProfileDevices,
            PreflightReplyView::Devices { source, destination },
        ) => match composed(
            source,
            destination,
            options.source_profile,
            options.destination_profile,
            options.tune,
            cores,
        ) {
            Err(text) => (refused(FailureView::Invalid(text)), state),
            Ok(profile) => (
                once_profiled(options, state.missing),
                PreflightView {
                    profile: Some(profile),
                    destination_write_cache_disabled: destination.write_cache_enabled == Some(
                        false,
                    ),
                    ..state
                },
            ),
        },
        (PreflightStepView::CreateRoot, PreflightReplyView::Checked(done)) => (
            match done {
                Ok(_) => PreflightStepView::PinRoot,
                Err(failure) => refused(failure),
            },
            state,
        ),
        (PreflightStepView::PinRoot, PreflightReplyView::Done(done)) => (
            once_done(done, "pin created destination root"@, PreflightStepView::ResolveRoot),
            state,
        ),
        (PreflightStepView::ResolveRoot, PreflightReplyView::Path(path)) => match path {
            Ok(destination) => (
                PreflightStepView::ConfirmRoot,
                PreflightView { destination, ..state },
            ),
            Err(error) => (refused(io_failure("resolve created destination root"@, error)), state),
        },
        (PreflightStepView::ConfirmRoot, PreflightReplyView::Below(below)) => (
            match below {
                Err(error) => refused(io_failure("revalidate created destination root"@, error)),
                Ok(true) => PreflightStepView::Ready { destination_exists: true },
                Ok(false) => refused(
                    FailureView::Invalid(
                        "created destination escaped its pinned ancestor through a reparse point"@,
                    ),
                ),
            },
            state,
        ),
        (PreflightStepView::ReadDestination, PreflightReplyView::Kind(read)) => (
            once_directory(
                read,
                "read destination root metadata"@,
                "destination must resolve to a real directory, not a file or reparse point"@,
                PreflightStepView::Ready { destination_exists: true },
            ),
            state,
        ),
        _ => (step, state),
    }
}

fn refuse(error: BigcpError) -> (step: PreflightStep)
    ensures
        step@ == refused(error@),
{
    PreflightStep::Failed { error }
}

fn refuse_io(context: &str, error: IoError) -> (step: PreflightStep)
    ensures
        step@ == refused(io_failure(context@, error)),
{
    PreflightStep::Failed { error: BigcpError::io(context, error) }
}

fn after_done(done: Result<(), IoError>, context: &str, next: PreflightStep) -> (step:
    PreflightStep)
    ensures
        step@ == once_done(done, context@, next@),
{
    match done {
        Ok(_) => next,
        Err(error) => refuse_io(context, error),
    }
}

fn after_kind(
    read: Result<ObjectKind, IoError>,
    context: &str,
    complaint: &str,
    next: PreflightStep,
) -> (step: PreflightStep)
    ensures
        step@ == once_directory(read, context@, complaint@, next@),
{
    match read {
        Err(error) => refuse_io(context, error),
        Ok(kind) => {
            if kind == ObjectKind::Directory {
                next
            } else {
                refuse(BigcpError::Invalid(complaint.to_owned()))
            }
        },
    }
}

fn after_comparison(first: Result<bool, IoError>, second: Result<bool, IoError>) -> (step:
    PreflightStep)
    ensures
        step@ == once_apart(first, second),
{
    let nested = match first {
        Err(error) => {
            return refuse_io("compare roots", error);
        },
        Ok(true) => true,
        Ok(false) => match second {
            Err(error) => {
                return refuse_io("compare roots", error);
            },
            Ok(nested) => nested,
        },
    };
    if nested {
        refuse(
            BigcpError::Invalid(
                "source and destination must be distinct, non-nested trees".to_owned(),
            ),
        )
    } else {
        PreflightStep::IdentifyDestination
    }
}

/// Checks that the limits of both volumes are accepted.
pub fn check_acceptance(options: &CopyOptions, source: &VolumeInfo, destination: &VolumeInfo) -> (verdict:
    Result<(), BigcpError>)
    ensures
        crate::identity::is_verdict_on(
            verdict,
            acceptance_failure(*options, *source, *destination),
        ),
{
    if (source.endpoint.is_remote() || destination.endpoint.is_remote())
        && !options.accept_remote_paths && !options.dry_run {
        return Err(
            BigcpError::Invalid(
                "UNC/WSL copying requires explicit remote-path acceptance; rerun interactively or pass --accept-remote-paths".to_owned(),
            ),
        );
    }
    if destination.filesystem.is_fat_family() && !options.accept_degraded_filesystem
        && !options.dry_run {
        let mut text = destination.filesystem.name().to_owned();
        text.append(
            " destination requires explicit fidelity-degradation acceptance; rerun interactively or pass --accept-degraded-filesystem",
        );
        return Err(BigcpError::Invalid(text));
    }
    Ok(())
}

impl Preflight {
    /// Before anything is settled.
    pub fn start() -> (state: Preflight)
        ensures
            state@ == (PreflightView {
                source: seq![],
                ancestor: seq![],
                missing: seq![],
                destination: seq![],
                source_volume: None,
                destination_volume: None,
                profile: None,
                destination_write_cache_disabled: false,
            }),
    {
        let state = Preflight {
            source: WidePath::empty(),
            ancestor: WidePath::empty(),
            missing: Vec::new(),
            destination: WidePath::empty(),
            source_volume: None,
            destination_volume: None,
            profile: None,
            destination_write_cache_disabled: false,
        };
        assert(state@ =~= (PreflightView {
            source: seq![],
            ancestor: seq![],
            missing: seq![],
            destination: seq![],
            source_volume: None,
            destination_volume: None,
            profile: None,
            destination_write_cache_disabled: false,
        }));
        state
    }

    /// Decides the next operation before a run on a machine with `cores`
    /// processors. The first one is to make the source absolute.
    #[verifier::rlimit(60)]
    #[verifier::spinoff_prover]
    pub fn preflight(
        &mut self,
        options: &CopyOptions,
        cores: usize,
        step: PreflightStep,
        reply: PreflightReply,
    ) -> (next: PreflightStep)
        requires
            preflight_answers(step@, reply@),
        ensures
            preflight_next(*options, cores, old(self)@, step@, reply@) == (next@, final(self)@),
    {
        match (step, reply) {
            (PreflightStep::NormalizeSource, PreflightReply::Path(path)) => match path {
                Ok(_) => PreflightStep::OpenSource,
                Err(error) => refuse_io("normalize source", error),
            },
            (PreflightStep::OpenSource, PreflightReply::Done(done)) => after_done(
                done,
                "open source root",
                PreflightStep::ResolveSource,
            ),
            (PreflightStep::ResolveSource, PreflightReply::Path(path)) => match path {
                Ok(source) => {
                    self.source = source;
                    PreflightStep::ReadSource
                },
                Err(error) => refuse_io("resolve source root", error),
            },
            (PreflightStep::ReadSource, PreflightReply::Kind(read)) => after_kind(
                read,
                "read source root metadata",
                "source must resolve to a real directory, not a file or reparse point",
                PreflightStep::NormalizeDestination,
            ),
            (PreflightStep::NormalizeDestination, PreflightReply::Path(path)) => match path {
                Ok(_) => PreflightStep::FindAncestor,
                Err(error) => refuse_io("normalize destination", error),
            },
            (PreflightStep::FindAncestor, PreflightReply::Missing(found)) => match found {
                Ok(missing) => {
                    self.missing = missing;
                    PreflightStep::OpenAncestor
                },
                Err(error) => refuse(error),
            },
            (PreflightStep::OpenAncestor, PreflightReply::Done(done)) => after_done(
                done,
                "open destination ancestor",
                PreflightStep::ResolveAncestor,
            ),
            (PreflightStep::ResolveAncestor, PreflightReply::Path(path)) => match path {
                Ok(ancestor) => {
                    self.destination = prospective_path(&ancestor, &self.missing);
                    self.ancestor = ancestor;
                    PreflightStep::CompareRoots
                },
                Err(error) => refuse_io("resolve destination ancestor", error),
            },
            (
                PreflightStep::CompareRoots,
                PreflightReply::Compared { destination_below_source, source_below_destination },
            ) => after_comparison(destination_below_source, source_below_destination),
            (PreflightStep::IdentifyDestination, PreflightReply::Identity(identity)) => {
                match path_hash(&identity) {
                    Ok(hash) => PreflightStep::AcquireLock {
                        name: text_prefix(hash.as_str(), 32),
                    },
                    Err(error) => refuse(error),
                }
            },
            (PreflightStep::AcquireLock { .. }, PreflightReply::Done(done)) => match done {
                Ok(_) => PreflightStep::ChooseAuditPaths,
                Err(error) => {
                    if error.kind == IoErrorKind::WouldBlock {
                        refuse(BigcpError::Locked(error.message))
                    } else {
                        refuse_io("acquire destination lock", error)
                    }
                },
            },
            (PreflightStep::ChooseAuditPaths, PreflightReply::Checked(done)) => match done {
                Ok(_) => PreflightStep::ProbeSource,
                Err(error) => refuse(error),
            },
            (PreflightStep::ProbeSource, PreflightReply::Volume(probed)) => match probed {
                Ok(volume) => {
                    self.source_volume = Some(volume);
                    PreflightStep::ProbeDestination
                },
                Err(error) => refuse_io("probe source volume", error),
            },
            (PreflightStep::ProbeDestination, PreflightReply::Volume(probed)) => match probed {
                Err(error) => refuse_io("probe destination volume", error),
                Ok(volume) => {
                    self.destination_volume = Some(volume);
                    match &self.source_volume {
                        Some(source) => match check_acceptance(options, source, &volume) {
                            Err(error) => refuse(error),
                            Ok(_) => PreflightStep::ProfileDevices,
                        },
                        None => PreflightStep::ProbeSource,
                    }
                },
            },
            (
                PreflightStep::ProfileDevices,
                PreflightReply::Devices { source, destination },
            ) => match select_copy_profile(
                &source,
                &destination,
                options.source_profile,
                options.destination_profile,
                &options.tune,
                cores,
            ) {
                Err(error) => refuse(error),
                Ok(profile) => {
                    self.profile = Some(profile);
                    self.destination_write_cache_disabled = match destination.write_cache_enabled {
                        Some(enabled) => !enabled,
                        None => false,
                    };
                    assert(path_views(self.missing@).len() == self.missing.len());
                    if self.missing.len() == 0 {
                        PreflightStep::ReadDestination
                    } else if options.dry_run {
                        PreflightStep::Ready { destination_exists: false }
                    } else {
                        PreflightStep::CreateRoot
                    }
                },
            },
            (PreflightStep::CreateRoot, PreflightReply::Checked(done)) => match done {
                Ok(_) => PreflightStep::PinRoot,
                Err(error) => refuse(error),
            },
            (PreflightStep::PinRoot, PreflightReply::Done(done)) => after_done(
                done,
                "pin created destination root",
                PreflightStep::ResolveRoot,
            ),
            (PreflightStep::ResolveRoot, PreflightReply::Path(path)) => match path {
                Ok(destination) => {
                    self.destination = destination;
                    PreflightStep::ConfirmRoot
                },
                Err(error) => refuse_io("resolve created destination root", error),
            },
            (PreflightStep::ConfirmRoot, PreflightReply::Below(below)) => match below {
                Err(error) => refuse_io("revalidate created destination root", error),
                Ok(true) => PreflightStep::Ready { destination_exists: true },
                Ok(false) => refuse(
                    BigcpError::Invalid(
                        "created destination escaped its pinned ancestor through a reparse point".to_owned(),
                    ),
                ),
            },
            (PreflightStep::ReadDestination, PreflightReply::Kind(read)) => after_kind(
                read,
                "read destination root metadata",
                "destination must resolve to a real directory, not a file or reparse point",
                PreflightStep::Ready { destination_exists: true },
            ),
            (step, _) => step,
        }
    }
}

/// A dry run creates nothing: no directory of the destination root is created
/// for it, and it needs no acceptance of limits.
pub proof fn dry_run_creates_no_root(
    options: CopyOptions,
    cores: usize,
    state: PreflightView,
    step: PreflightStepView,
    reply: PreflightReplyView,
)
    requires
        options.dry_run,
        preflight_answers(step, reply),
    ensures
        preflight_next(options, cores, state, step, reply).0 is CreateRoot ==> step is CreateRoot,
        forall|source: VolumeInfo, destination: VolumeInfo|
            #[trigger] acceptance_failure(options, source, destination) is None,
{
}

/// The lock is acquired before any audit path is chosen and before anything is
/// created, and only for roots that lie apart.
pub proof fn lock_precedes_every_change(
    options: CopyOptions,
    cores: usize,
    state: PreflightView,
    step: PreflightStepView,
    reply: PreflightReplyView,
)
    requires
        preflight_answers(step, reply),
    ensures
        ({
            let next = preflight_next(options, cores, state, step, reply).0;
            &&& next is AcquireLock ==> step is IdentifyDestination
            &&& next is IdentifyDestination ==> step is CompareRoots && (reply
                matches PreflightReplyView::Compared {
                destination_below_source,
                source_below_destination,
            } && destination_below_source == Ok::<bool, IoError>(false)
                && source_below_destination == Ok::<bool, IoError>(false))
            &&& next is ChooseAuditPaths ==> step is AcquireLock
            &&& next is ProbeSource ==> step is ChooseAuditPaths || step is ProbeDestination
            &&& next is CreateRoot ==> step is ProfileDevices
        }),
{
}

/// What a preflight has established so far.
pub ghost struct PreflightScene {
    pub step: PreflightStepView,
    pub state: PreflightView,
    pub source_is_directory: bool,
    pub apart: bool,
    pub locked: bool,
    pub artifacts_checked: bool,
    pub root_created: bool,
    pub root_pinned: bool,
    pub root_confirmed: bool,
    pub destination_is_directory: bool,
}

impl PreflightScene {
    /// The scene before anything was looked at.
    pub open spec fn fresh(state: PreflightView) -> PreflightScene {
        PreflightScene {
            step: PreflightStepView::NormalizeSource,
            state,
            source_is_directory: false,
            apart: false,
            locked: false,
            artifacts_checked: false,
            root_created: false,
            root_pinned: false,
            root_confirmed: false,
            destination_is_directory: false,
        }
    }

    /// The scene after an operation.
    pub open spec fn after(
        self,
        options: CopyOptions,
        cores: usize,
        reply: PreflightReplyView,
    ) -> PreflightScene {
        let (step, state) = preflight_next(options, cores, self.state, self.step, reply);
        let done = reply matches PreflightReplyView::Done(Ok(_));
        let checked = reply matches PreflightReplyView::Checked(Ok(_));
        let directory = reply == PreflightReplyView::Kind(Ok(ObjectKind::Directory));
        PreflightScene {
            step,
            state,
            source_is_directory: self.source_is_directory || (self.step is ReadSource && directory),
            apart: self.apart || (self.step is CompareRoots && (reply
                matches PreflightReplyView::Compared {
                destination_below_source,
                source_below_destination,
            } && destination_below_source == Ok::<bool, IoError>(false)
                && source_below_destination == Ok::<bool, IoError>(false))),
            locked: self.locked || (self.step is AcquireLock && done),
            artifacts_checked: self.artifacts_checked || (self.step is ChooseAuditPaths && checked),
            root_created: self.root_created || (self.step is CreateRoot && checked),
            root_pinned: self.root_pinned || (self.step is PinRoot && done),
            root_confirmed: self.root_confirmed || (self.step is ConfirmRoot && reply
                == PreflightReplyView::Below(Ok(true))),
            destination_is_directory: self.destination_is_directory || (self.step
                is ReadDestination && directory),
        }
    }

    /// The scene after a list of operations.
    pub open spec fn played(
        self,
        options: CopyOptions,
        cores: usize,
        replies: Seq<PreflightReplyView>,
    ) -> PreflightScene
        decreases replies.len(),
    {
        if replies.len() == 0 {
            self
        } else {
            self.played(options, cores, replies.drop_last()).after(options, cores, replies.last())
        }
    }

    /// Whether every reply answers the operation that was asked for.
    pub open spec fn answered_by(
        self,
        options: CopyOptions,
        cores: usize,
        replies: Seq<PreflightReplyView>,
    ) -> bool
        decreases replies.len(),
    {
        replies.len() > 0 ==> {
            &&& self.answered_by(options, cores, replies.drop_last())
            &&& preflight_answers(
                self.played(options, cores, replies.drop_last()).step,
                replies.last(),
            )
        }
    }

    /// Whether both volumes are known and what they cannot keep was accepted.
    pub open spec fn is_accepted(self, options: CopyOptions) -> bool {
        let source = self.state.source_volume->0;
        let destination = self.state.destination_volume->0;
        &&& self.state.source_volume is Some && self.state.destination_volume is Some
        &&& !(source.endpoint is Local) || !(destination.endpoint is Local)
            ==> options.accept_remote_paths || options.dry_run
        &&& destination.filesystem is Fat || destination.filesystem is ExFat
            ==> options.accept_degraded_filesystem || options.dry_run
    }
}

impl PreflightScene {
    /// What holds at every step of a preflight.
    pub open spec fn is_sound(self, options: CopyOptions) -> bool {
        let changing = self.step is CreateRoot || self.step is PinRoot || self.step is ResolveRoot
            || self.step is ConfirmRoot;
        let last = changing || self.step is ReadDestination || self.step is Ready;
        let probing = self.step is ProbeSource || self.step is ProbeDestination || self.step
            is ProfileDevices || last;
        let comparing = self.step is NormalizeDestination || self.step is FindAncestor
            || self.step is OpenAncestor || self.step is ResolveAncestor || self.step
            is CompareRoots;
        let locking = self.step is IdentifyDestination || self.step is AcquireLock;
        &&& comparing || locking || self.step is ChooseAuditPaths || probing
            ==> self.source_is_directory
        &&& locking || self.step is ChooseAuditPaths || probing ==> self.apart
        &&& self.step is ChooseAuditPaths || probing ==> self.locked
        &&& probing ==> self.artifacts_checked
        &&& self.step is ProbeDestination ==> self.state.source_volume is Some
        &&& self.step is ProfileDevices || last ==> self.is_accepted(options)
        &&& changing ==> !options.dry_run && self.state.missing.len() > 0
        &&& self.step is PinRoot || self.step is ResolveRoot || self.step is ConfirmRoot
            ==> self.root_created
        &&& self.step is ResolveRoot || self.step is ConfirmRoot ==> self.root_pinned
        &&& self.step is ReadDestination ==> self.state.missing.len() == 0
        &&& self.root_created ==> !options.dry_run
        &&& self.step matches PreflightStepView::Ready { destination_exists } ==> {
            &&& !destination_exists ==> options.dry_run && self.state.missing.len() > 0
            &&& destination_exists && self.state.missing.len() == 0
                ==> self.destination_is_directory
            &&& destination_exists && self.state.missing.len() > 0 ==> self.root_created
                && self.root_pinned && self.root_confirmed
        }
    }
}

#[verifier::rlimit(60)]
#[verifier::spinoff_prover]
proof fn lemma_preflight_step(
    scene: PreflightScene,
    options: CopyOptions,
    cores: usize,
    reply: PreflightReplyView,
)
    requires
        scene.is_sound(options),
        preflight_answers(scene.step, reply),
    ensures
        scene.after(options, cores, reply).is_sound(options),
{
}

/// A run gets ready, and changes anything, only once its source is a real
/// directory, the two roots lie apart, the destination is locked, its artifacts
/// lie outside both trees, and what the volumes cannot keep was accepted. A
/// destination that is there is a real directory; one that is not is created,
/// pinned and found under its ancestor, or left alone by a dry run.
pub proof fn ready_run_has_passed_every_check(
    options: CopyOptions,
    cores: usize,
    state: PreflightView,
    replies: Seq<PreflightReplyView>,
)
    requires
        PreflightScene::fresh(state).answered_by(options, cores, replies),
    ensures
        PreflightScene::fresh(state).played(options, cores, replies).is_sound(options),
    decreases replies.len(),
{
    if replies.len() > 0 {
        let front = replies.drop_last();
        ready_run_has_passed_every_check(options, cores, state, front);
        lemma_preflight_step(
            PreflightScene::fresh(state).played(options, cores, front),
            options,
            cores,
            replies.last(),
        );
    }
}

/// A remote root needs its own acceptance, and so does a FAT or exFAT
/// destination; a dry run needs neither.
pub proof fn losses_must_be_accepted(
    options: CopyOptions,
    source: VolumeInfo,
    destination: VolumeInfo,
)
    ensures
        acceptance_failure(options, source, destination) is None <==> options.dry_run || {
            &&& source.endpoint is Local && destination.endpoint is Local
                || options.accept_remote_paths
            &&& !(destination.filesystem is Fat || destination.filesystem is ExFat)
                || options.accept_degraded_filesystem
        },
{
}

proof fn lemma_joined_step(current: Seq<u16>, rest: Seq<Seq<u16>>)
    requires
        rest.len() > 0,
    ensures
        joined(child_of(current, rest[0]), rest.drop_first()) == joined(current, rest),
    decreases rest.len(),
{
    if rest.len() > 1 {
        let front = rest.drop_last();
        lemma_joined_step(current, front);
        assert(rest.drop_first().drop_last() =~= front.drop_first());
        assert(rest.drop_first().last() == rest.last());
        assert(front[0] == rest[0]);
    } else {
        assert(rest.drop_first() =~= seq![]);
        assert(rest.drop_last() =~= seq![]);
        assert(rest.last() == rest[0]);
        reveal_with_fuel(joined, 2);
    }
}

/// Missing components are created one below the other, each found to be a real
/// directory before the next, and the last of them is the requested root.
pub proof fn root_is_created_component_by_component(
    current: Seq<u16>,
    rest: Seq<Seq<u16>>,
    step: RootStepView,
    reply: RootReply,
)
    requires
        root_answers(step, reply),
    ensures
        ({
            let (after, left, next) = root_next(current, rest, step, reply);
            let directory = reply == RootReply::Kind(Ok(ObjectKind::Directory));
            &&& joined(after, left) == joined(current, rest)
            &&& next is Read ==> step is Create && (reply matches RootReply::Created(Ok(_)))
            &&& next is Create ==> step is Read && directory && rest.len() > 0 && after == child_of(
                current,
                rest[0],
            )
            &&& next is Finished ==> step is Read && directory && rest.len() == 0 && after
                == joined(current, rest)
            &&& step is Read && !directory ==> next is Failed
        }),
{
    if rest.len() > 0 {
        lemma_joined_step(current, rest);
    }
}

} // verus!
