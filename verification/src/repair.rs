//! Bringing the metadata of one destination object up to its source, without
//! touching data.

use vstd::prelude::*;
use vstd::string::*;

use crate::classify::label_texts;
use crate::error::{ErrorView, IoError, OperationError};
use crate::filesystem::FilesystemPolicy;
use crate::path::WidePath;
use crate::platform::{BasicMetadata, ObjectMetadata};
use crate::revalidate::{
    destination_access_error, destination_access_view, destination_revalidation,
    revalidate_destination, revalidate_source, source_access_error, source_access_view,
    source_revalidation,
};
use crate::text::str_eq;

verus! {

/// What is fixed while the metadata of one object is repaired.
#[derive(Clone, Debug, PartialEq, Eq)]
pub struct RepairContext {
    /// Path relative to the source root.
    pub relative: WidePath,
    /// Source metadata at enumeration.
    pub source: ObjectMetadata,
    /// Destination metadata at enumeration.
    pub destination: ObjectMetadata,
    /// Whether the extended attributes differ.
    pub eas_differ: bool,
    /// Whether the source has extended attributes.
    pub source_supports_eas: bool,
    /// Destination policy.
    pub policy: FilesystemPolicy,
}

/// What is fixed while the metadata of one object is repaired, as values.
#[verifier::ext_equal]
pub ghost struct RepairContextView {
    pub relative: Seq<u16>,
    pub source: ObjectMetadata,
    pub destination: ObjectMetadata,
    pub eas_differ: bool,
    pub source_supports_eas: bool,
    pub policy: FilesystemPolicy,
}

impl View for RepairContext {
    type V = RepairContextView;

    open spec fn view(&self) -> RepairContextView {
        RepairContextView {
            relative: self.relative@,
            source: self.source,
            destination: self.destination,
            eas_differ: self.eas_differ,
            source_supports_eas: self.source_supports_eas,
            policy: self.policy,
        }
    }
}

/// Whether the differing fields name the extended attributes.
pub fn names_eas(fields: &[&'static str]) -> (named: bool)
    ensures
        named == label_texts(fields@).contains("ea_size"@),
{
    for i in 0..fields.len()
        invariant
            forall|j: int| 0 <= j < i ==> fields@[j]@ != "ea_size"@,
    {
        if str_eq(fields[i], "ea_size") {
            assert(label_texts(fields@)[i as int] == "ea_size"@);
            return true;
        }
    }
    assert forall|j: int| 0 <= j < label_texts(fields@).len() implies label_texts(fields@)[j]
        != "ea_size"@ by {
        assert(label_texts(fields@)[j] == fields@[j]@);
    }
    false
}

/// The next operation in repairing metadata.
#[derive(Debug, PartialEq, Eq)]
pub enum RepairStep {
    /// Read the source's metadata.
    CheckSource,
    /// Read the source's extended attributes.
    ReadSourceEas,
    /// Read the source's metadata again.
    RecheckSource {
        /// The extended attributes that are to be written.
        eas: Option<Vec<u8>>,
    },
    /// Read the destination's metadata.
    CheckDestination {
        /// The extended attributes that are to be written.
        eas: Option<Vec<u8>>,
    },
    /// Clear the destination's extended attributes.
    ClearEas {
        /// The extended attributes that are to be written.
        eas: Vec<u8>,
    },
    /// Write extended attributes to the destination.
    WriteEas {
        /// The extended attributes that are to be written.
        eas: Vec<u8>,
    },
    /// Stamp the destination.
    Stamp {
        /// What it is stamped with.
        metadata: BasicMetadata,
    },
    /// The repair is over.
    Finished {
        /// Why it failed, if it did.
        failure: Option<OperationError>,
    },
}

/// The next operation as values.
#[verifier::ext_equal]
pub ghost enum RepairStepView {
    CheckSource,
    ReadSourceEas,
    RecheckSource { eas: Option<Seq<u8>> },
    CheckDestination { eas: Option<Seq<u8>> },
    ClearEas { eas: Seq<u8> },
    WriteEas { eas: Seq<u8> },
    Stamp { metadata: BasicMetadata },
    Finished { failure: Option<ErrorView> },
}

/// Optional bytes as values.
pub open spec fn opt_bytes(bytes: Option<Vec<u8>>) -> Option<Seq<u8>> {
    match bytes {
        Some(bytes) => Some(bytes@),
        None => None,
    }
}

impl View for RepairStep {
    type V = RepairStepView;

    open spec fn view(&self) -> RepairStepView {
        match *self {
            RepairStep::CheckSource => RepairStepView::CheckSource,
            RepairStep::ReadSourceEas => RepairStepView::ReadSourceEas,
            RepairStep::RecheckSource { eas } => RepairStepView::RecheckSource {
                eas: opt_bytes(eas),
            },
            RepairStep::CheckDestination { eas } => RepairStepView::CheckDestination {
                eas: opt_bytes(eas),
            },
            RepairStep::ClearEas { eas } => RepairStepView::ClearEas { eas: eas@ },
            RepairStep::WriteEas { eas } => RepairStepView::WriteEas { eas: eas@ },
            RepairStep::Stamp { metadata } => RepairStepView::Stamp { metadata },
            RepairStep::Finished { failure } => RepairStepView::Finished {
                failure: crate::audit::opt_error(failure),
            },
        }
    }
}

/// What an operation came to.
#[derive(Debug, PartialEq, Eq)]
pub enum RepairReply {
    /// Metadata that was read.
    Metadata(Result<ObjectMetadata, IoError>),
    /// Extended attributes that were read.
    Eas(Result<Vec<u8>, IoError>),
    /// A change that was made.
    Done(Result<(), IoError>),
}

/// What an operation came to, as values.
#[verifier::ext_equal]
pub ghost enum RepairReplyView {
    Metadata(Result<ObjectMetadata, IoError>),
    Eas(Result<Seq<u8>, IoError>),
    Done(Result<(), IoError>),
}

impl View for RepairReply {
    type V = RepairReplyView;

    open spec fn view(&self) -> RepairReplyView {
        match *self {
            RepairReply::Metadata(result) => RepairReplyView::Metadata(result),
            RepairReply::Eas(Ok(eas)) => RepairReplyView::Eas(Ok(eas@)),
            RepairReply::Eas(Err(error)) => RepairReplyView::Eas(Err(error)),
            RepairReply::Done(result) => RepairReplyView::Done(result),
        }
    }
}

/// Whether a reply answers a step.
pub open spec fn repair_answers(step: RepairStepView, reply: RepairReplyView) -> bool {
    match step {
        RepairStepView::CheckSource => reply is Metadata,
        RepairStepView::ReadSourceEas => reply is Eas,
        RepairStepView::RecheckSource { .. } => reply is Metadata,
        RepairStepView::CheckDestination { .. } => reply is Metadata,
        RepairStepView::ClearEas { .. } => reply is Done,
        RepairStepView::WriteEas { .. } => reply is Done,
        RepairStepView::Stamp { .. } => reply is Done,
        RepairStepView::Finished { .. } => false,
    }
}

/// The stamping of a destination with its source's metadata.
pub open spec fn repair_stamp(context: RepairContextView) -> RepairStepView {
    RepairStepView::Stamp { metadata: context.policy.spec_project_basic(context.source.basic) }
}

/// The step after a source that passed its first check.
pub open spec fn after_first_check(context: RepairContextView) -> RepairStepView {
    if !context.eas_differ {
        RepairStepView::RecheckSource { eas: None }
    } else if context.source_supports_eas {
        RepairStepView::ReadSourceEas
    } else {
        RepairStepView::RecheckSource { eas: Some(seq![]) }
    }
}

/// The end of a repair that failed.
pub open spec fn repair_failed(failure: ErrorView) -> RepairStepView {
    RepairStepView::Finished { failure: Some(failure) }
}

/// The next step of a repair.
pub open spec fn repair_next(
    context: RepairContextView,
    step: RepairStepView,
    reply: RepairReplyView,
) -> RepairStepView {
    let rel = context.relative;
    match (step, reply) {
        (RepairStepView::CheckSource, RepairReplyView::Metadata(observed)) => {
            match source_revalidation(observed, context.source, rel) {
                Some(failure) => repair_failed(failure),
                None => after_first_check(context),
            }
        },
        (RepairStepView::ReadSourceEas, RepairReplyView::Eas(read)) => match read {
            Ok(eas) => RepairStepView::RecheckSource { eas: Some(eas) },
            Err(error) => repair_failed(source_access_view("read_ea"@, rel, error)),
        },
        (RepairStepView::RecheckSource { eas }, RepairReplyView::Metadata(observed)) => {
            match source_revalidation(observed, context.source, rel) {
                Some(failure) => repair_failed(failure),
                None => RepairStepView::CheckDestination { eas },
            }
        },
        (RepairStepView::CheckDestination { eas }, RepairReplyView::Metadata(observed)) => {
            match destination_revalidation(observed, context.destination, rel) {
                Some(failure) => repair_failed(failure),
                None => match eas {
                    Some(eas) => RepairStepView::ClearEas { eas },
                    None => repair_stamp(context),
                },
            }
        },
        (RepairStepView::ClearEas { eas }, RepairReplyView::Done(done)) => match done {
            Ok(_) => if eas.len() == 0 {
                repair_stamp(context)
            } else {
                RepairStepView::WriteEas { eas }
            },
            Err(error) => repair_failed(destination_access_view("clear_ea"@, rel, error)),
        },
        (RepairStepView::WriteEas { .. }, RepairReplyView::Done(done)) => match done {
            Ok(_) => repair_stamp(context),
            Err(error) => repair_failed(destination_access_view("write_ea"@, rel, error)),
        },
        (RepairStepView::Stamp { .. }, RepairReplyView::Done(done)) => match done {
            Ok(_) => RepairStepView::Finished { failure: None },
            Err(error) => repair_failed(destination_access_view("set_meta"@, rel, error)),
        },
        _ => step,
    }
}

fn failed(error: OperationError) -> (step: RepairStep)
    ensures
        step@ == repair_failed(error@),
{
    RepairStep::Finished { failure: Some(error) }
}

impl RepairContext {
    fn stamp(&self) -> (step: RepairStep)
        ensures
            step@ == repair_stamp(self@),
    {
        RepairStep::Stamp { metadata: self.policy.project_basic(self.source.basic) }
    }
}

/// Decides the next operation in a repair from what became of the last one. The
/// first one is to read the source's metadata.
pub fn repair_metadata(context: &RepairContext, step: RepairStep, reply: RepairReply) -> (next:
    RepairStep)
    requires
        repair_answers(step@, reply@),
    ensures
        next@ == repair_next(context@, step@, reply@),
{
    let rel = &context.relative;
    match (step, reply) {
        (RepairStep::CheckSource, RepairReply::Metadata(observed)) => {
            match revalidate_source(&observed, &context.source, rel) {
                Err(error) => failed(error),
                Ok(_) => {
                    if !context.eas_differ {
                        RepairStep::RecheckSource { eas: None }
                    } else if context.source_supports_eas {
                        RepairStep::ReadSourceEas
                    } else {
                        let eas: Vec<u8> = Vec::new();
                        RepairStep::RecheckSource { eas: Some(eas) }
                    }
                },
            }
        },
        (RepairStep::ReadSourceEas, RepairReply::Eas(read)) => match read {
            Ok(eas) => RepairStep::RecheckSource { eas: Some(eas) },
            Err(error) => failed(source_access_error("read_ea", rel, &error)),
        },
        (RepairStep::RecheckSource { eas }, RepairReply::Metadata(observed)) => {
            match revalidate_source(&observed, &context.source, rel) {
                Err(error) => failed(error),
                Ok(_) => RepairStep::CheckDestination { eas },
            }
        },
        (RepairStep::CheckDestination { eas }, RepairReply::Metadata(observed)) => {
            match revalidate_destination(&observed, &context.destination, rel) {
                Err(error) => failed(error),
                Ok(_) => match eas {
                    Some(eas) => RepairStep::ClearEas { eas },
                    None => context.stamp(),
                },
            }
        },
        (RepairStep::ClearEas { eas }, RepairReply::Done(done)) => match done {
            Ok(_) => {
                if eas.len() == 0 {
                    context.stamp()
                } else {
                    RepairStep::WriteEas { eas }
                }
            },
            Err(error) => failed(destination_access_error("clear_ea", rel, &error)),
        },
        (RepairStep::WriteEas { .. }, RepairReply::Done(done)) => match done {
            Ok(_) => context.stamp(),
            Err(error) => failed(destination_access_error("write_ea", rel, &error)),
        },
        (RepairStep::Stamp { .. }, RepairReply::Done(done)) => match done {
            Ok(_) => RepairStep::Finished { failure: None },
            Err(error) => failed(destination_access_error("set_meta", rel, &error)),
        },
        (step, _) => step,
    }
}

/// How many operations a repair has before it at most.
pub open spec fn repair_steps_left(step: RepairStepView) -> int {
    match step {
        RepairStepView::CheckSource => 7,
        RepairStepView::ReadSourceEas => 6,
        RepairStepView::RecheckSource { .. } => 5,
        RepairStepView::CheckDestination { .. } => 4,
        RepairStepView::ClearEas { .. } => 3,
        RepairStepView::WriteEas { .. } => 2,
        RepairStepView::Stamp { .. } => 1,
        RepairStepView::Finished { .. } => 0,
    }
}

/// Whether a step changes the destination.
pub open spec fn repair_writes(step: RepairStepView) -> bool {
    step is ClearEas || step is WriteEas || step is Stamp
}

/// The destination is changed only after it was found as it was classified, and
/// a repair succeeds only with its stamp; every repair ends.
pub proof fn repair_changes_only_what_was_classified(
    context: RepairContextView,
    step: RepairStepView,
    reply: RepairReplyView,
)
    requires
        repair_answers(step, reply),
    ensures
        repair_steps_left(repair_next(context, step, reply)) < repair_steps_left(step),
        repair_writes(repair_next(context, step, reply)) && !repair_writes(step) ==> step
            is CheckDestination && destination_revalidation(
            reply->Metadata_0,
            context.destination,
            context.relative,
        ) is None,
        repair_next(context, step, reply) matches RepairStepView::Finished { failure: None }
            ==> step is Stamp && reply->Done_0 is Ok,
{
}

/// What is known of one object while its metadata is repaired: what comes next,
/// the extended attributes that were read of the source, those that are on the
/// destination, what it was stamped with, and whether source and destination
/// were looked at again before the first change.
pub ghost struct RepairScene {
    pub step: RepairStepView,
    pub read: Option<Seq<u8>>,
    pub eas: Seq<u8>,
    pub stamped: Option<BasicMetadata>,
    pub source_seen: bool,
    pub destination_seen: bool,
    pub touched: bool,
}

impl RepairScene {
    /// The scene before anything was done to a destination with these extended
    /// attributes.
    pub open spec fn untouched(eas: Seq<u8>) -> RepairScene {
        RepairScene {
            step: RepairStepView::CheckSource,
            read: None,
            eas,
            stamped: None,
            source_seen: false,
            destination_seen: false,
            touched: false,
        }
    }

    /// Whether a reply shows an object as it was captured.
    pub open spec fn shows(reply: RepairReplyView, expected: ObjectMetadata) -> bool {
        reply matches RepairReplyView::Metadata(Ok(seen)) && {
            &&& seen.identity == expected.identity
            &&& seen.kind == expected.kind
            &&& seen.size == expected.size
            &&& seen.basic.last_write_time == expected.basic.last_write_time
            &&& seen.basic.attributes == expected.basic.attributes
            &&& seen.reparse_tag == expected.reparse_tag
        }
    }

    /// The scene after an operation.
    pub open spec fn after(self, context: RepairContextView, reply: RepairReplyView) -> RepairScene {
        let done = reply matches RepairReplyView::Done(Ok(_));
        RepairScene {
            step: repair_next(context, self.step, reply),
            read: match (self.step, reply) {
                (RepairStepView::ReadSourceEas, RepairReplyView::Eas(Ok(eas))) => Some(eas),
                _ => self.read,
            },
            eas: match self.step {
                RepairStepView::ClearEas { .. } => if done {
                    seq![]
                } else {
                    self.eas
                },
                RepairStepView::WriteEas { eas } => if done {
                    self.eas + eas
                } else {
                    self.eas
                },
                _ => self.eas,
            },
            stamped: match self.step {
                RepairStepView::Stamp { metadata } => if done {
                    Some(metadata)
                } else {
                    self.stamped
                },
                _ => self.stamped,
            },
            source_seen: if self.step is ReadSourceEas {
                false
            } else if self.step is CheckSource || self.step is RecheckSource {
                Self::shows(reply, context.source)
            } else {
                self.source_seen
            },
            destination_seen: self.destination_seen || (self.step is CheckDestination
                && Self::shows(reply, context.destination)),
            touched: self.touched || self.step is ClearEas || self.step is WriteEas || self.step
                is Stamp,
        }
    }

    /// The scene after a list of operations.
    pub open spec fn played(
        self,
        context: RepairContextView,
        replies: Seq<RepairReplyView>,
    ) -> RepairScene
        decreases replies.len(),
    {
        if replies.len() == 0 {
            self
        } else {
            self.played(context, replies.drop_last()).after(context, replies.last())
        }
    }

    /// Whether every reply answers the operation that was asked for.
    pub open spec fn answered_by(
        self,
        context: RepairContextView,
        replies: Seq<RepairReplyView>,
    ) -> bool
        decreases replies.len(),
    {
        replies.len() > 0 ==> {
            &&& self.answered_by(context, replies.drop_last())
            &&& repair_answers(self.played(context, replies.drop_last()).step, replies.last())
        }
    }
}

/// Nothing of a destination is touched before it and the source, after its
/// extended attributes were read, were found as they were classified. A repair
/// that succeeds has stamped the source's last-write time with what else the
/// destination can hold, and where the extended attributes differed, the
/// destination has exactly those that were read of the source, or none where
/// the source can have none; elsewhere they are left alone.
pub proof fn repaired_object_carries_the_source_s_metadata(
    context: RepairContextView,
    eas: Seq<u8>,
    replies: Seq<RepairReplyView>,
)
    requires
        RepairScene::untouched(eas).answered_by(context, replies),
    ensures
        ({
            let scene = RepairScene::untouched(eas).played(context, replies);
            let wanted = if context.source_supports_eas && scene.read is Some {
                scene.read->0
            } else {
                seq![]
            };
            let reads = context.eas_differ && context.source_supports_eas;
            &&& scene.step is CheckSource ==> scene.read is None
            &&& scene.step is ReadSourceEas ==> reads && scene.read is None
            &&& scene.step matches RepairStepView::RecheckSource { eas: carried } ==> (carried
                is Some <==> context.eas_differ) && (carried is Some ==> carried->0 == wanted) && (
            reads ==> scene.read is Some)
            &&& scene.step matches RepairStepView::CheckDestination { eas: carried } ==> (carried
                is Some <==> context.eas_differ) && (carried is Some ==> carried->0 == wanted) && (
            reads ==> scene.read is Some) && scene.source_seen
            &&& scene.step matches RepairStepView::ClearEas { eas: carried } ==> context.eas_differ
                && carried == wanted && !scene.touched
            &&& scene.step matches RepairStepView::WriteEas { eas: carried } ==> context.eas_differ
                && carried == wanted && scene.eas.len() == 0
            &&& scene.step is CheckSource || scene.step is ReadSourceEas || scene.step
                is RecheckSource || scene.step is CheckDestination ==> !scene.touched && scene.eas
                == eas
            &&& scene.step is ClearEas || scene.step is WriteEas || scene.step is Stamp
                || scene.touched ==> {
                &&& scene.source_seen
                &&& scene.destination_seen
                &&& reads ==> scene.read is Some
            }
            &&& scene.step is Stamp || scene.step == (RepairStepView::Finished { failure: None })
                ==> scene.eas == if context.eas_differ {
                wanted
            } else {
                eas
            }
            &&& scene.step matches RepairStepView::Stamp { metadata } ==> metadata
                == context.policy.spec_project_basic(context.source.basic)
            &&& scene.step == (RepairStepView::Finished { failure: None }) ==> {
                &&& scene.touched
                &&& scene.stamped is Some
                &&& scene.stamped->0.last_write_time == context.source.basic.last_write_time
                &&& scene.stamped->0 == context.policy.spec_project_basic(context.source.basic)
            }
            &&& !(scene.step is Finished) ==> scene.stamped is None
        }),
    decreases replies.len(),
{
    if replies.len() > 0 {
        repaired_object_carries_the_source_s_metadata(context, eas, replies.drop_last());
        let before = RepairScene::untouched(eas).played(context, replies.drop_last());
        if before.step is WriteEas {
            assert(before.eas + before.step->WriteEas_eas =~= before.step->WriteEas_eas);
        }
        crate::filesystem::projection_keeps_what_the_destination_holds(
            context.policy,
            context.source.basic,
        );
    }
}

} // verus!
