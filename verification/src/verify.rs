//! The two forms of verification: reading back what this run has written, and
//! comparing two trees in full.

use vstd::prelude::*;
use vstd::string::*;

use crate::audit::opt_text;
use crate::digests::{digest_views, same_digests};
use crate::error::{BigcpError, IoError, OperationError};
pub use crate::file::VerificationTarget;
use crate::filesystem::FilesystemPolicy;
use crate::model::sat;
use crate::path::{child_of, lossy_text, units_eq, WidePath};
use crate::platform::{
    BasicMetadata, DirectoryEntry, EntryView, ObjectKind, ObjectMetadata, StreamInfo, StreamView,
};
use crate::readback::{AuxFailure, DigestedFile, DigestedView};
use crate::report::{VerificationSummary, VerificationView};
use crate::table::{lemma_position, lemma_position_is, position, put};
use crate::text::{
    decimal, push_decimal, push_signed_decimal, signed_decimal, str_eq, texts,
};
use crate::walk::{key_view, keyed_view, KeyedEntry};

verus! {

/// Mismatches that are described.
pub const MISMATCH_SAMPLE_LIMIT: usize = 100;

/// The mismatches with one more, as far as there is room.
pub open spec fn sampled(mismatches: Seq<Seq<char>>, message: Seq<char>) -> Seq<Seq<char>> {
    if mismatches.len() < MISMATCH_SAMPLE_LIMIT {
        mismatches.push(message)
    } else {
        mismatches
    }
}

impl VerificationView {
    /// A summary of nothing yet.
    pub open spec fn start(mode: Seq<char>, policy: FilesystemPolicy) -> VerificationView {
        VerificationView {
            mode,
            destination_filesystem: Some(policy.filesystem.spec_name()),
            projected: policy.spec_is_degraded(),
            passed: 0,
            failed: 0,
            mismatches: seq![],
            last_access_differences: 0,
        }
    }

    /// Whether exactly the first failures are described, up to the limit.
    pub open spec fn describes_failures(self) -> bool {
        self.mismatches.len() == vstd::math::min(self.failed as int, MISMATCH_SAMPLE_LIMIT as int)
    }

    /// With one more object that passed.
    pub open spec fn passing(self) -> VerificationView {
        VerificationView { passed: sat(self.passed, 1), ..self }
    }

    /// With one more object that failed.
    pub open spec fn failing(self, message: Seq<char>) -> VerificationView {
        VerificationView {
            failed: sat(self.failed, 1),
            mismatches: sampled(self.mismatches, message),
            ..self
        }
    }

    /// With two last-access times compared. They never fail an object.
    pub open spec fn comparing_access(
        self,
        policy: FilesystemPolicy,
        one: BasicMetadata,
        other: BasicMetadata,
    ) -> VerificationView {
        if policy.spec_last_access_equal(
            one.last_access_time as int,
            other.last_access_time as int,
        ) {
            self
        } else {
            VerificationView {
                last_access_differences: sat(self.last_access_differences, 1),
                ..self
            }
        }
    }

    /// With one judged object.
    pub open spec fn judging(self, name: Seq<char>, verdict: Option<Seq<char>>) -> VerificationView {
        match verdict {
            None => self.passing(),
            Some(message) => self.failing(name + ": "@ + message),
        }
    }
}

/// Describes a mismatch, as far as there is room.
pub fn push_mismatch(summary: &mut VerificationSummary, message: String)
    ensures
        final(summary)@ == (VerificationView {
            mismatches: sampled(old(summary)@.mismatches, message@),
            ..old(summary)@
        }),
{
    let ghost before = summary@;
    assert(texts(summary.mismatches@).len() == summary.mismatches.len());
    if summary.mismatches.len() < MISMATCH_SAMPLE_LIMIT {
        summary.mismatches.push(message);
        assert(summary@.mismatches =~= before.mismatches.push(message@));
    }
    assert(summary@ =~= (VerificationView {
        mismatches: sampled(before.mismatches, message@),
        ..before
    }));
}

fn fail_object(summary: &mut VerificationSummary, message: String)
    ensures
        final(summary)@ == old(summary)@.failing(message@),
{
    let ghost before = summary@;
    summary.failed = summary.failed.saturating_add(1);
    assert(summary@ =~= (VerificationView { failed: sat(before.failed, 1), ..before }));
    push_mismatch(summary, message);
}

fn pass_object(summary: &mut VerificationSummary)
    ensures
        final(summary)@ == old(summary)@.passing(),
{
    summary.passed = summary.passed.saturating_add(1);
    assert(summary@ =~= old(summary)@.passing());
}

fn compare_access(
    summary: &mut VerificationSummary,
    policy: FilesystemPolicy,
    one: &BasicMetadata,
    other: &BasicMetadata,
)
    ensures
        final(summary)@ == old(summary)@.comparing_access(policy, *one, *other),
{
    if !policy.last_access_equal(one.last_access_time, other.last_access_time) {
        summary.last_access_differences = summary.last_access_differences.saturating_add(1);
    }
    assert(summary@ =~= old(summary)@.comparing_access(policy, *one, *other));
}

/// Starts a summary.
pub fn start_summary(mode: &str, policy: FilesystemPolicy) -> (summary: VerificationSummary)
    ensures
        summary@ == VerificationView::start(mode@, policy),
{
    let summary = VerificationSummary {
        mode: mode.to_owned(),
        destination_filesystem: Some(policy.filesystem().name().to_owned()),
        projected: policy.is_degraded(),
        passed: 0,
        failed: 0,
        mismatches: Vec::new(),
        last_access_differences: 0,
    };
    assert(summary@ =~= VerificationView::start(mode@, policy));
    summary
}

/// The text of the digests of named streams.
pub open spec fn stream_items_text(list: Seq<(StreamView, Seq<char>)>) -> Seq<char>
    decreases list.len(),
{
    if list.len() == 0 {
        seq![]
    } else {
        let front = stream_items_text(list.drop_last());
        let item = list.last();
        (if list.len() == 1 {
            front
        } else {
            front + ", "@
        }) + "(StreamInfo { name: \""@ + lossy_text(item.0.name) + "\", size: "@ + decimal(
            item.0.size as nat,
        ) + " }, \""@ + item.1 + "\")"@
    }
}

/// The text of the digests of named streams.
pub open spec fn streams_text(list: Seq<(StreamView, Seq<char>)>) -> Seq<char> {
    "["@ + stream_items_text(list) + "]"@
}

fn render_streams(list: &Vec<(StreamInfo, String)>) -> (text: String)
    ensures
        text@ == streams_text(digest_views(list@)),
{
    let mut out = "[".to_owned();
    let ghost views = digest_views(list@);
    assert(out@ =~= "["@ + stream_items_text(views.take(0)));
    for i in 0..list.len()
        invariant
            views == digest_views(list@),
            out@ == "["@ + stream_items_text(views.take(i as int)),
    {
        let ghost next = views.take(i as int + 1);
        assert(next.drop_last() =~= views.take(i as int));
        assert(next.last() == (list@[i as int].0@, list@[i as int].1@));
        if i > 0 {
            out.append(", ");
        }
        out.append("(StreamInfo { name: \"");
        out.append(list[i].0.name.to_text_lossy().as_str());
        out.append("\", size: ");
        push_decimal(&mut out, list[i].0.size);
        out.append(" }, \"");
        out.append(list[i].1.as_str());
        out.append("\")");
        assert(out@ =~= "["@ + stream_items_text(next));
    }
    assert(views.take(views.len() as int) =~= views);
    out.append("]");
    assert(out@ =~= streams_text(views));
    out
}

/// The text of basic metadata.
pub open spec fn metadata_text(metadata: BasicMetadata) -> Seq<char> {
    "BasicMetadata { creation_time: "@ + signed_decimal(metadata.creation_time as int)
        + ", last_access_time: "@ + signed_decimal(metadata.last_access_time as int)
        + ", last_write_time: "@ + signed_decimal(metadata.last_write_time as int)
        + ", attributes: "@ + decimal(metadata.attributes as nat) + " }"@
}

fn push_metadata(out: &mut String, metadata: &BasicMetadata)
    ensures
        final(out)@ == old(out)@ + metadata_text(*metadata),
{
    out.append("BasicMetadata { creation_time: ");
    push_signed_decimal(out, metadata.creation_time);
    out.append(", last_access_time: ");
    push_signed_decimal(out, metadata.last_access_time);
    out.append(", last_write_time: ");
    push_signed_decimal(out, metadata.last_write_time);
    out.append(", attributes: ");
    push_decimal(out, metadata.attributes as u64);
    out.append(" }");
    assert(out@ =~= old(out)@ + metadata_text(*metadata));
}

/// What a written file is held against, as values.
#[verifier::ext_equal]
pub ghost struct ExpectedView {
    pub relative: Seq<u16>,
    pub size: u64,
    pub digest: Seq<char>,
    pub streams: Seq<(StreamView, Seq<char>)>,
    pub ea_digest: Option<Seq<char>>,
    pub metadata: BasicMetadata,
}

/// What a written file is held against.
pub open spec fn expected_view(target: VerificationTarget) -> ExpectedView {
    ExpectedView {
        relative: target.relative_path@,
        size: target.expected_size,
        digest: target.expected_digest@,
        streams: digest_views(target.expected_streams@),
        ea_digest: opt_text(target.expected_ea_digest),
        metadata: target.expected_metadata,
    }
}

/// Whether a written file is what it should be.
pub open spec fn written_matches(
    expected: ExpectedView,
    policy: FilesystemPolicy,
    read: DigestedView,
    observed: BasicMetadata,
) -> bool {
    &&& read.size == expected.size
    &&& read.digest == expected.digest
    &&& read.streams == expected.streams
    &&& expected.ea_digest matches Some(digest) ==> read.ea_digest == digest
    &&& policy.spec_metadata_equal(expected.metadata, observed)
}

/// The text of an optional digest.
pub open spec fn optional_text(text: Option<Seq<char>>) -> Seq<char> {
    match text {
        Some(text) => "Some(\""@ + text + "\")"@,
        None => "None"@,
    }
}

/// What is said of a written file that is not what it should be.
pub open spec fn written_mismatch(
    expected: ExpectedView,
    read: DigestedView,
    observed: BasicMetadata,
) -> Seq<char> {
    "expected size/hash/streams/ea/meta "@ + decimal(expected.size as nat) + "/"@
        + expected.digest + "/"@ + streams_text(expected.streams) + "/"@ + optional_text(
        expected.ea_digest,
    ) + "/"@ + metadata_text(expected.metadata) + ", observed "@ + decimal(read.size as nat)
        + "/"@ + read.digest + "/"@ + streams_text(read.streams) + "/"@ + read.ea_digest + "/"@
        + metadata_text(observed)
}

/// The verdict on a written file, if it fails.
pub open spec fn written_verdict(
    expected: ExpectedView,
    policy: FilesystemPolicy,
    read: Result<DigestedView, Seq<char>>,
    observed: Result<ObjectMetadata, IoError>,
) -> Option<Seq<char>> {
    match read {
        Err(text) => Some("read-back failed: "@ + text),
        Ok(read) => match observed {
            Err(error) => Some("metadata read-back failed: "@ + error.message@),
            Ok(metadata) => if written_matches(expected, policy, read, metadata.basic) {
                None
            } else {
                Some(written_mismatch(expected, read, metadata.basic))
            },
        },
    }
}

/// The text of a failed operation.
pub open spec fn failure_text(error: OperationError) -> Seq<char> {
    error.operation@ + " failed for "@ + lossy_text(error.path@) + ": "@ + error.message@
}

/// What was read back, or why not.
pub open spec fn read_view(read: Result<DigestedFile, OperationError>) -> Result<
    DigestedView,
    Seq<char>,
> {
    match read {
        Ok(read) => Ok(read@),
        Err(error) => Err(failure_text(error)),
    }
}

fn render_mismatch(
    target: &VerificationTarget,
    read: &DigestedFile,
    observed: &BasicMetadata,
) -> (text: String)
    ensures
        text@ == written_mismatch(expected_view(*target), read@, *observed),
{
    let mut out = "expected size/hash/streams/ea/meta ".to_owned();
    push_decimal(&mut out, target.expected_size);
    out.append("/");
    out.append(target.expected_digest.as_str());
    out.append("/");
    out.append(render_streams(&target.expected_streams).as_str());
    out.append("/");
    match &target.expected_ea_digest {
        Some(digest) => {
            out.append("Some(\"");
            out.append(digest.as_str());
            out.append("\")");
        },
        None => {
            out.append("None");
        },
    }
    out.append("/");
    push_metadata(&mut out, &target.expected_metadata);
    out.append(", observed ");
    push_decimal(&mut out, read.size);
    out.append("/");
    out.append(read.digest.as_str());
    out.append("/");
    out.append(render_streams(&read.streams).as_str());
    out.append("/");
    out.append(read.ea_digest.as_str());
    out.append("/");
    push_metadata(&mut out, observed);
    assert(out@ =~= written_mismatch(expected_view(*target), read@, *observed));
    out
}

fn written_is_right(
    target: &VerificationTarget,
    policy: FilesystemPolicy,
    read: &DigestedFile,
    observed: &BasicMetadata,
) -> (right: bool)
    ensures
        right == written_matches(expected_view(*target), policy, read@, *observed),
{
    let eas = match &target.expected_ea_digest {
        Some(digest) => str_eq(digest.as_str(), read.ea_digest.as_str()),
        None => true,
    };
    read.size == target.expected_size && str_eq(
        read.digest.as_str(),
        target.expected_digest.as_str(),
    ) && same_digests(&read.streams, &target.expected_streams) && eas && policy.metadata_equal(
        &target.expected_metadata,
        observed,
    )
}

fn named_message(name: &WidePath, message: &str) -> (text: String)
    ensures
        text@ == lossy_text(name@) + ": "@ + message@,
{
    let mut out = name.to_text_lossy();
    out.append(": ");
    out.append(message);
    out
}

/// Judges one file that this run has written, from what was read back. The
/// metadata counts only where the contents could be read.
pub fn verify_written_target(
    summary: &mut VerificationSummary,
    target: &VerificationTarget,
    policy: FilesystemPolicy,
    read: &Result<DigestedFile, OperationError>,
    observed: &Result<ObjectMetadata, IoError>,
)
    ensures
        ({
            let expected = expected_view(*target);
            let noted = match (*read, *observed) {
                (Ok(_), Ok(metadata)) => old(summary)@.comparing_access(
                    policy,
                    metadata.basic,
                    expected.metadata,
                ),
                _ => old(summary)@,
            };
            final(summary)@ == noted.judging(
                lossy_text(expected.relative),
                written_verdict(expected, policy, read_view(*read), *observed),
            )
        }),
{
    match read {
        Err(error) => {
            let mut message = "read-back failed: ".to_owned();
            message.append(error.to_text().as_str());
            let text = named_message(&target.relative_path, message.as_str());
            fail_object(summary, text);
        },
        Ok(read) => match observed {
            Err(error) => {
                let mut message = "metadata read-back failed: ".to_owned();
                message.append(error.message.as_str());
                let text = named_message(&target.relative_path, message.as_str());
                fail_object(summary, text);
            },
            Ok(metadata) => {
                compare_access(summary, policy, &metadata.basic, &target.expected_metadata);
                if written_is_right(target, policy, read, &metadata.basic) {
                    pass_object(summary);
                } else {
                    let message = render_mismatch(target, read, &metadata.basic);
                    let text = named_message(&target.relative_path, message.as_str());
                    fail_object(summary, text);
                }
            },
        },
    }
}

/// What was read back of one file that this run has written.
#[derive(Debug, PartialEq, Eq)]
pub struct WrittenReading {
    /// Its contents.
    pub read: Result<DigestedFile, OperationError>,
    /// Its metadata, looked at only where the contents could be read.
    pub observed: Result<ObjectMetadata, IoError>,
}

impl VerificationView {
    /// After judging one written file.
    pub open spec fn judging_written(
        self,
        target: VerificationTarget,
        policy: FilesystemPolicy,
        reading: WrittenReading,
    ) -> VerificationView {
        let expected = expected_view(target);
        let noted = match (reading.read, reading.observed) {
            (Ok(_), Ok(metadata)) => self.comparing_access(
                policy,
                metadata.basic,
                expected.metadata,
            ),
            _ => self,
        };
        noted.judging(
            lossy_text(expected.relative),
            written_verdict(expected, policy, read_view(reading.read), reading.observed),
        )
    }
}

/// The summary over the first `count` written files.
pub open spec fn written_summary(
    targets: Seq<VerificationTarget>,
    policy: FilesystemPolicy,
    readings: Seq<WrittenReading>,
    count: int,
) -> VerificationView
    decreases count,
{
    if count <= 0 {
        VerificationView::start("copied"@, policy)
    } else {
        written_summary(targets, policy, readings, count - 1).judging_written(
            targets[count - 1],
            policy,
            readings[count - 1],
        )
    }
}

/// Judges every file that this run has written, each from what was read back
/// of it.
pub fn verify_written_targets(
    targets: &Vec<VerificationTarget>,
    policy: FilesystemPolicy,
    readings: &Vec<WrittenReading>,
) -> (summary: VerificationSummary)
    requires
        targets.len() == readings.len(),
    ensures
        summary@ == written_summary(targets@, policy, readings@, targets.len() as int),
{
    let mut summary = start_summary("copied", policy);
    for i in 0..targets.len()
        invariant
            targets.len() == readings.len(),
            summary@ == written_summary(targets@, policy, readings@, i as int),
    {
        verify_written_target(
            &mut summary,
            &targets[i],
            policy,
            &readings[i].read,
            &readings[i].observed,
        );
    }
    summary
}

/// Checks that two trees are apart: neither root is the other or lies below
/// it.
pub fn check_roots_apart(
    source_below_destination: Result<bool, IoError>,
    destination_below_source: Result<bool, IoError>,
) -> (verdict: Result<(), BigcpError>)
    ensures
        match (source_below_destination, destination_below_source) {
            (Err(error), _) => verdict matches Err(BigcpError::Io { context, source }) && context@
                == "compare verify roots"@ && source == error,
            (Ok(false), Err(error)) => verdict matches Err(BigcpError::Io { context, source })
                && context@ == "compare verify roots"@ && source == error,
            (Ok(false), Ok(false)) => verdict is Ok,
            _ => verdict matches Err(BigcpError::Invalid(text)) && text@
                == "verification roots must be distinct, non-nested trees"@,
        },
{
    let below = match source_below_destination {
        Err(error) => {
            return Err(BigcpError::io("compare verify roots", error));
        },
        Ok(true) => true,
        Ok(false) => match destination_below_source {
            Err(error) => {
                return Err(BigcpError::io("compare verify roots", error));
            },
            Ok(below) => below,
        },
    };
    if below {
        Err(BigcpError::Invalid("verification roots must be distinct, non-nested trees".to_owned()))
    } else {
        Ok(())
    }
}

/// Checks that both roots are directories.
pub fn check_root_kinds(source: ObjectKind, destination: ObjectKind) -> (verdict: Result<
    (),
    BigcpError,
>)
    ensures
        if source is Directory && destination is Directory {
            verdict is Ok
        } else {
            verdict matches Err(BigcpError::Invalid(text)) && text@
                == "verification roots must both resolve to real directories"@
        },
{
    if source == ObjectKind::Directory && destination == ObjectKind::Directory {
        Ok(())
    } else {
        Err(
            BigcpError::Invalid(
                "verification roots must both resolve to real directories".to_owned(),
            ),
        )
    }
}

/// Judges the two roots themselves.
pub fn judge_roots(
    summary: &mut VerificationSummary,
    policy: FilesystemPolicy,
    source: &BasicMetadata,
    destination: &BasicMetadata,
    aux_equal: bool,
)
    ensures
        final(summary)@ == old(summary)@.comparing_access(policy, *source, *destination).judging(
            "."@,
            if policy.spec_metadata_equal(*source, *destination) && aux_equal {
                None
            } else {
                Some("root directory metadata, named streams, or EAs differ"@)
            },
        ),
{
    compare_access(summary, policy, source, destination);
    if policy.metadata_equal(source, destination) && aux_equal {
        pass_object(summary);
    } else {
        let mut text = ".".to_owned();
        text.append(": ");
        text.append("root directory metadata, named streams, or EAs differ");
        fail_object(summary, text);
    }
}

/// The destination's entries by their matching keys, the summary, and the
/// failure that ended the matching, if one did.
pub open spec fn gathered(
    entries: Seq<(Result<Seq<u16>, IoError>, EntryView)>,
    count: int,
    relative: Seq<u16>,
    summary: VerificationView,
) -> (Seq<(Seq<u16>, EntryView)>, VerificationView, Option<IoError>)
    decreases count,
{
    if count <= 0 {
        (seq![], summary, None)
    } else {
        let (table, counted, failure) = gathered(entries, count - 1, relative, summary);
        if failure is Some {
            (table, counted, failure)
        } else {
            match entries[count - 1].0 {
                Err(error) => (table, counted, Some(error)),
                Ok(key) => (
                    put(table, key, entries[count - 1].1),
                    if position(table, key) < table.len() {
                        counted.failing(
                            lossy_text(relative)
                                + ": destination has a name collision under its matching semantics"@,
                        )
                    } else {
                        counted
                    },
                    None,
                ),
            }
        }
    }
}

proof fn lemma_gathered_stays(
    entries: Seq<(Result<Seq<u16>, IoError>, EntryView)>,
    count: int,
    more: int,
    relative: Seq<u16>,
    summary: VerificationView,
)
    requires
        0 <= count <= more,
        gathered(entries, count, relative, summary).2 is Some,
    ensures
        gathered(entries, more, relative, summary) == gathered(entries, count, relative, summary),
    decreases more - count,
{
    if count < more {
        lemma_gathered_stays(entries, count, more - 1, relative, summary);
    }
}

/// Two directories whose entries are paired.
#[derive(Clone, Debug, PartialEq, Eq)]
pub struct DirectoryPairing {
    /// Path relative to the roots.
    pub relative: WidePath,
    /// Destination entries that are not paired yet, by matching key.
    pub destination: Vec<(Vec<u16>, DirectoryEntry)>,
    /// Matching keys of the source entries so far.
    pub seen: Vec<Vec<u16>>,
}

/// Two directories whose entries are paired, as values.
#[verifier::ext_equal]
pub ghost struct PairingView {
    pub relative: Seq<u16>,
    pub destination: Seq<(Seq<u16>, EntryView)>,
    pub seen: Seq<Seq<u16>>,
}

impl View for DirectoryPairing {
    type V = PairingView;

    open spec fn view(&self) -> PairingView {
        PairingView {
            relative: self.relative@,
            destination: self.destination@.map_values(
                |item: (Vec<u16>, DirectoryEntry)| (item.0@, item.1@),
            ),
            seen: self.seen@.map_values(|key: Vec<u16>| key@),
        }
    }
}

/// What pairing one source entry came to.
#[derive(Clone, Debug, PartialEq, Eq)]
pub enum PairWork {
    /// The entry is judged.
    Settled,
    /// The contents are to be compared.
    Compare {
        /// The source entry.
        source: DirectoryEntry,
        /// Its destination twin, of the same kind.
        destination: DirectoryEntry,
        /// Path relative to the roots.
        relative: WidePath,
        /// Whether the copied metadata is the same.
        metadata_equal: bool,
    },
}

/// What pairing one source entry came to, as values.
#[verifier::ext_equal]
pub ghost enum PairWorkView {
    Settled,
    Compare {
        source: EntryView,
        destination: EntryView,
        relative: Seq<u16>,
        metadata_equal: bool,
    },
}

impl View for PairWork {
    type V = PairWorkView;

    open spec fn view(&self) -> PairWorkView {
        match *self {
            PairWork::Settled => PairWorkView::Settled,
            PairWork::Compare { source, destination, relative, metadata_equal } =>
                PairWorkView::Compare {
                source: source@,
                destination: destination@,
                relative: relative@,
                metadata_equal,
            },
        }
    }
}

impl PairingView {
    /// After pairing one source entry: the pairing, the summary and what is
    /// left to do.
    pub open spec fn pairing(
        self,
        summary: VerificationView,
        policy: FilesystemPolicy,
        key: Seq<u16>,
        entry: EntryView,
    ) -> (PairingView, VerificationView, PairWorkView) {
        let relative = child_of(self.relative, entry.name);
        let name = lossy_text(relative);
        let at = position(self.destination, key);
        let known = PairingView { seen: self.seen.push(key), ..self };
        if self.seen.contains(key) {
            (
                self,
                summary.failing(
                    name + ": "@
                        + "source has a name collision under destination matching semantics"@,
                ),
                PairWorkView::Settled,
            )
        } else if at >= self.destination.len() {
            (known, summary.failing(name + ": "@ + "missing"@), PairWorkView::Settled)
        } else {
            let twin = self.destination[at].1;
            let paired = PairingView { destination: self.destination.remove(at), ..known };
            if entry.metadata.kind != twin.metadata.kind {
                (
                    paired,
                    summary.failing(name + ": "@ + "object type differs"@),
                    PairWorkView::Settled,
                )
            } else {
                (
                    paired,
                    summary.comparing_access(policy, entry.metadata.basic, twin.metadata.basic),
                    PairWorkView::Compare {
                        source: entry,
                        destination: twin,
                        relative,
                        metadata_equal: policy.spec_metadata_equal(
                            entry.metadata.basic,
                            twin.metadata.basic,
                        ),
                    },
                )
            }
        }
    }

    /// The summary with the first `count` unpaired destination entries.
    pub open spec fn extras(self, summary: VerificationView, count: int) -> VerificationView
        decreases count,
    {
        if count <= 0 {
            summary
        } else {
            self.extras(summary, count - 1).failing(
                lossy_text(child_of(self.relative, self.destination[count - 1].1.name)) + ": "@
                    + "extra"@,
            )
        }
    }
}

impl DirectoryPairing {
    fn find(&self, key: &Vec<u16>) -> (at: usize)
        ensures
            at == position(self@.destination, key@),
            at <= self.destination.len(),
    {
        let mut at: usize = 0;
        while at < self.destination.len() && !units_eq(
            self.destination[at].0.as_slice(),
            key.as_slice(),
        )
            invariant
                at <= self.destination.len(),
                self@.destination.len() == self.destination.len(),
                forall|i: int| 0 <= i < at ==> (#[trigger] self@.destination[i]).0 != key@,
            decreases self.destination.len() - at,
        {
            assert(self@.destination[at as int].0 == self.destination@[at as int].0@);
            at = at + 1;
        }
        proof {
            if at < self.destination.len() {
                assert(self@.destination[at as int].0 == self.destination@[at as int].0@);
            }
            lemma_position_is(self@.destination, key@, at as int);
        }
        at
    }

    fn has_seen(&self, key: &Vec<u16>) -> (seen: bool)
        ensures
            seen == self@.seen.contains(key@),
    {
        for i in 0..self.seen.len()
            invariant
                forall|j: int| 0 <= j < i ==> #[trigger] self@.seen[j] != key@,
        {
            assert(self@.seen[i as int] == self.seen@[i as int]@);
            if units_eq(self.seen[i].as_slice(), key.as_slice()) {
                return true;
            }
        }
        assert(self@.seen.len() == self.seen.len());
        false
    }

    fn place(&mut self, key: Vec<u16>, entry: DirectoryEntry) -> (collides: bool)
        ensures
            final(self)@ == (PairingView {
                destination: put(old(self)@.destination, key@, entry@),
                ..old(self)@
            }),
            collides == (position(old(self)@.destination, key@) < old(self)@.destination.len()),
    {
        let at: usize = self.find(&key);
        let ghost before = self@;
        let ghost key_seq = key@;
        let ghost entry_view = entry@;
        assert(before.destination.len() == self.destination.len());
        if at < self.destination.len() {
            self.destination.set(at, (key, entry));
            assert(self@.destination =~= put(before.destination, key_seq, entry_view));
            true
        } else {
            self.destination.push((key, entry));
            assert(self@.destination =~= put(before.destination, key_seq, entry_view));
            false
        }
    }

    /// Starts pairing two directories. Destination entries that share a
    /// matching key are a mismatch; the last one stands.
    pub fn start(
        summary: &mut VerificationSummary,
        relative: WidePath,
        entries: Vec<KeyedEntry>,
    ) -> (pairing: Result<DirectoryPairing, BigcpError>)
        ensures
            ({
                let views = entries@.map_values(|item: KeyedEntry| keyed_view(item));
                let (table, counted, failure) = gathered(
                    views,
                    views.len() as int,
                    relative@,
                    old(summary)@,
                );
                final(summary)@ == counted && match failure {
                    None => pairing matches Ok(pairing) && pairing@ == (PairingView {
                        relative: relative@,
                        destination: table,
                        seen: seq![],
                    }),
                    Some(error) => pairing matches Err(BigcpError::Io { context, source })
                        && context@ == "match verify destination name"@ && source == error,
                }
            }),
    {
        let ghost views = entries@.map_values(|item: KeyedEntry| keyed_view(item));
        let ghost first = summary@;
        let ghost rel = relative@;
        let mut pairing = DirectoryPairing {
            relative,
            destination: Vec::new(),
            seen: Vec::new(),
        };
        assert(pairing@ =~= (PairingView {
            relative: rel,
            destination: seq![],
            seen: seq![],
        }));
        let mut done: usize = 0;
        while done < entries.len()
            invariant
                done <= entries.len(),
                views == entries@.map_values(|item: KeyedEntry| keyed_view(item)),
                views.len() == entries.len(),
                first == old(summary)@,
                rel == relative@,
                pairing@ == (PairingView {
                    relative: rel,
                    destination: gathered(views, done as int, rel, first).0,
                    seen: seq![],
                }),
                summary@ == gathered(views, done as int, rel, first).1,
                gathered(views, done as int, rel, first).2 is None,
            decreases entries.len() - done,
        {
            assert(views[done as int] == keyed_view(entries@[done as int]));
            match &entries[done].key {
                Err(error) => {
                    let error = error.copied();
                    proof {
                        lemma_gathered_stays(
                            views,
                            done as int + 1,
                            views.len() as int,
                            rel,
                            first,
                        );
                    }
                    return Err(BigcpError::io("match verify destination name", error));
                },
                Ok(key) => {
                    let key = crate::path::copy_units(key.as_slice(), 0, key.len());
                    assert(key@ =~= entries@[done as int].key->Ok_0@);
                    let collides = pairing.place(key, entries[done].entry.copied());
                    if collides {
                        let mut text = pairing.relative.to_text_lossy();
                        text.append(
                            ": destination has a name collision under its matching semantics",
                        );
                        fail_object(summary, text);
                    }
                },
            }
            done = done + 1;
        }
        Ok(pairing)
    }

    /// Pairs one source entry with its destination twin.
    pub fn pair(
        &mut self,
        summary: &mut VerificationSummary,
        policy: FilesystemPolicy,
        item: KeyedEntry,
    ) -> (work: Result<PairWork, BigcpError>)
        ensures
            match key_view(item.key) {
                Err(error) => (work matches Err(BigcpError::Io { context, source }) && context@
                    == "match verify source name"@ && source == error) && final(self)@ == old(
                    self,
                )@ && final(summary)@ == old(summary)@,
                Ok(key) => work matches Ok(work) && old(self)@.pairing(
                    old(summary)@,
                    policy,
                    key,
                    item.entry@,
                ) == (final(self)@, final(summary)@, work@),
            },
    {
        let entry = item.entry;
        let key = match item.key {
            Err(error) => {
                return Err(BigcpError::io("match verify source name", error));
            },
            Ok(key) => key,
        };
        let ghost before = self@;
        let relative = self.relative.child(&entry.name);
        if self.has_seen(&key) {
            let text = named_message(
                &relative,
                "source has a name collision under destination matching semantics",
            );
            fail_object(summary, text);
            return Ok(PairWork::Settled);
        }
        let at: usize = self.find(&key);
        assert(before.destination.len() == self.destination.len());
        let ghost key_seq = key@;
        self.seen.push(key);
        assert(self@ =~= (PairingView { seen: before.seen.push(key_seq), ..before }));
        if at >= self.destination.len() {
            let text = named_message(&relative, "missing");
            fail_object(summary, text);
            return Ok(PairWork::Settled);
        }
        assert(before.destination[at as int].1 == self.destination@[at as int].1@);
        let twin = self.destination.remove(at).1;
        assert(self@ =~= (PairingView {
            seen: before.seen.push(key_seq),
            destination: before.destination.remove(at as int),
            ..before
        }));
        if entry.metadata.kind != twin.metadata.kind {
            let text = named_message(&relative, "object type differs");
            fail_object(summary, text);
            return Ok(PairWork::Settled);
        }
        compare_access(summary, policy, &entry.metadata.basic, &twin.metadata.basic);
        let metadata_equal = policy.metadata_equal(&entry.metadata.basic, &twin.metadata.basic);
        Ok(PairWork::Compare { source: entry, destination: twin, relative, metadata_equal })
    }

    /// Counts the destination entries without a source entry.
    pub fn finish(&self, summary: &mut VerificationSummary)
        ensures
            final(summary)@ == self@.extras(old(summary)@, self@.destination.len() as int),
    {
        let ghost first = summary@;
        assert(self@.destination.len() == self.destination.len());
        for i in 0..self.destination.len()
            invariant
                first == old(summary)@,
                self@.destination.len() == self.destination.len(),
                summary@ == self@.extras(first, i as int),
        {
            assert(self@.destination[i as int].1 == self.destination@[i as int].1@);
            let path = self.relative.child(&self.destination[i].1.name);
            let text = named_message(&path, "extra");
            fail_object(summary, text);
        }
    }
}

/// What was read of one side of a pair of files.
#[derive(Debug, PartialEq, Eq)]
pub enum PairDigest {
    /// Nothing was read yet.
    Unread,
    /// The file was read.
    Read(DigestedFile),
    /// The file could not be read.
    Failed(OperationError),
}

/// The verdict on a pair of files.
#[derive(Clone, Debug, PartialEq, Eq)]
pub enum PairVerdict {
    /// The source is to be read.
    ReadSource,
    /// The destination is to be read.
    ReadDestination,
    /// The files are the same.
    Same,
    /// The files differ, or cannot be compared.
    Different(String),
}

/// The verdict on a pair of files, as values.
#[verifier::ext_equal]
pub ghost enum PairVerdictView {
    ReadSource,
    ReadDestination,
    Same,
    Different(Seq<char>),
}

impl View for PairVerdict {
    type V = PairVerdictView;

    open spec fn view(&self) -> PairVerdictView {
        match *self {
            PairVerdict::ReadSource => PairVerdictView::ReadSource,
            PairVerdict::ReadDestination => PairVerdictView::ReadDestination,
            PairVerdict::Same => PairVerdictView::Same,
            PairVerdict::Different(text) => PairVerdictView::Different(text@),
        }
    }
}

/// What is said of an object that could not be read. It is never called
/// different.
pub open spec fn unverifiable(text: Seq<char>) -> Seq<char> {
    "could not be verified (read failed: "@ + text + ")"@
}

/// The text of what was read of one side.
pub open spec fn side_text(read: DigestedView) -> Seq<char> {
    read.digest + "/"@ + streams_text(read.streams) + "/"@ + read.ea_digest
}

/// Whether two files hold the same contents, named streams and extended
/// attributes.
pub open spec fn same_contents(source: DigestedView, destination: DigestedView) -> bool {
    source.digest == destination.digest && source.streams == destination.streams
        && source.ea_digest == destination.ea_digest
}

/// The verdict on a pair of files: sizes and metadata decide first, without a
/// read.
pub open spec fn pair_verdict(
    source_size: u64,
    destination_size: u64,
    metadata_equal: bool,
    source: PairDigest,
    destination: PairDigest,
) -> PairVerdictView {
    if source_size != destination_size {
        PairVerdictView::Different(
            "size differs: source="@ + decimal(source_size as nat) + ", destination="@ + decimal(
                destination_size as nat,
            ),
        )
    } else if !metadata_equal {
        PairVerdictView::Different("copied metadata differs"@)
    } else {
        match source {
            PairDigest::Unread => PairVerdictView::ReadSource,
            PairDigest::Failed(error) => PairVerdictView::Different(
                unverifiable(failure_text(error)),
            ),
            PairDigest::Read(source) => match destination {
                PairDigest::Unread => PairVerdictView::ReadDestination,
                PairDigest::Failed(error) => PairVerdictView::Different(
                    unverifiable(failure_text(error)),
                ),
                PairDigest::Read(destination) => if same_contents(source@, destination@) {
                    PairVerdictView::Same
                } else {
                    PairVerdictView::Different(
                        "content, named streams, or EAs differ: source="@ + side_text(source@)
                            + ", destination="@ + side_text(destination@),
                    )
                },
            },
        }
    }
}

fn unverifiable_text(text: &str) -> (out: String)
    ensures
        out@ == unverifiable(text@),
{
    let mut out = "could not be verified (read failed: ".to_owned();
    out.append(text);
    out.append(")");
    out
}

fn push_side(out: &mut String, read: &DigestedFile)
    ensures
        final(out)@ == old(out)@ + side_text(read@),
{
    out.append(read.digest.as_str());
    out.append("/");
    out.append(render_streams(&read.streams).as_str());
    out.append("/");
    out.append(read.ea_digest.as_str());
    assert(out@ =~= old(out)@ + side_text(read@));
}

/// Judges a pair of files from what was read of them so far.
pub fn verify_file_pair(
    source_size: u64,
    destination_size: u64,
    metadata_equal: bool,
    source: &PairDigest,
    destination: &PairDigest,
) -> (verdict: PairVerdict)
    ensures
        verdict@ == pair_verdict(
            source_size,
            destination_size,
            metadata_equal,
            *source,
            *destination,
        ),
{
    if source_size != destination_size {
        let mut text = "size differs: source=".to_owned();
        push_decimal(&mut text, source_size);
        text.append(", destination=");
        push_decimal(&mut text, destination_size);
        return PairVerdict::Different(text);
    }
    if !metadata_equal {
        return PairVerdict::Different("copied metadata differs".to_owned());
    }
    let source = match source {
        PairDigest::Unread => {
            return PairVerdict::ReadSource;
        },
        PairDigest::Failed(error) => {
            return PairVerdict::Different(unverifiable_text(error.to_text().as_str()));
        },
        PairDigest::Read(read) => read,
    };
    let destination = match destination {
        PairDigest::Unread => {
            return PairVerdict::ReadDestination;
        },
        PairDigest::Failed(error) => {
            return PairVerdict::Different(unverifiable_text(error.to_text().as_str()));
        },
        PairDigest::Read(read) => read,
    };
    if str_eq(source.digest.as_str(), destination.digest.as_str()) && same_digests(
        &source.streams,
        &destination.streams,
    ) && str_eq(source.ea_digest.as_str(), destination.ea_digest.as_str()) {
        PairVerdict::Same
    } else {
        let mut text = "content, named streams, or EAs differ: source=".to_owned();
        push_side(&mut text, source);
        text.append(", destination=");
        push_side(&mut text, destination);
        PairVerdict::Different(text)
    }
}

/// Counts the verdict on a pair of files that is settled.
pub fn judge_file(summary: &mut VerificationSummary, relative: &WidePath, verdict: &PairVerdict)
    requires
        verdict is Same || verdict is Different,
    ensures
        final(summary)@ == old(summary)@.judging(
            lossy_text(relative@),
            match verdict@ {
                PairVerdictView::Different(message) => Some(message),
                _ => None,
            },
        ),
{
    match verdict {
        PairVerdict::Different(message) => {
            let text = named_message(relative, message.as_str());
            fail_object(summary, text);
        },
        _ => {
            pass_object(summary);
        },
    }
}

/// The verdict on a pair of directories, if it fails.
pub open spec fn directory_verdict(
    metadata_equal: bool,
    aux: Result<bool, AuxFailure>,
) -> Option<Seq<char>> {
    match aux {
        Err(failure) => Some(unverifiable(failure.spec_text())),
        Ok(aux_equal) => if metadata_equal && aux_equal {
            None
        } else {
            Some("directory metadata, named streams, or EAs differ"@)
        },
    }
}

/// Judges a pair of directories. One that cannot be read is not called
/// different.
pub fn judge_directory(
    summary: &mut VerificationSummary,
    relative: &WidePath,
    metadata_equal: bool,
    aux: &Result<bool, AuxFailure>,
)
    ensures
        final(summary)@ == old(summary)@.judging(
            lossy_text(relative@),
            directory_verdict(metadata_equal, *aux),
        ),
{
    match aux {
        Err(failure) => {
            let message = unverifiable_text(failure.to_text().as_str());
            let text = named_message(relative, message.as_str());
            fail_object(summary, text);
        },
        Ok(aux_equal) => {
            if metadata_equal && *aux_equal {
                pass_object(summary);
            } else {
                let text = named_message(
                    relative,
                    "directory metadata, named streams, or EAs differ",
                );
                fail_object(summary, text);
            }
        },
    }
}

/// The verdict on a pair of links, if it fails.
pub open spec fn link_verdict(
    metadata_equal: bool,
    reparse: Result<bool, IoError>,
    aux: Result<bool, AuxFailure>,
) -> Option<Seq<char>> {
    match (reparse, aux) {
        (Err(error), _) => Some(unverifiable(error.message@)),
        (_, Err(failure)) => Some(unverifiable(failure.spec_text())),
        (Ok(reparse_equal), Ok(aux_equal)) => if reparse_equal && metadata_equal && aux_equal {
            None
        } else {
            Some("reparse payload, named streams, EAs, or metadata differ"@)
        },
    }
}

/// Judges a pair of links. One that cannot be read is not called different.
pub fn judge_link(
    summary: &mut VerificationSummary,
    relative: &WidePath,
    metadata_equal: bool,
    reparse: &Result<bool, IoError>,
    aux: &Result<bool, AuxFailure>,
)
    ensures
        final(summary)@ == old(summary)@.judging(
            lossy_text(relative@),
            link_verdict(metadata_equal, *reparse, *aux),
        ),
{
    match (reparse, aux) {
        (Err(error), _) => {
            let message = unverifiable_text(error.message.as_str());
            let text = named_message(relative, message.as_str());
            fail_object(summary, text);
        },
        (_, Err(failure)) => {
            let message = unverifiable_text(failure.to_text().as_str());
            let text = named_message(relative, message.as_str());
            fail_object(summary, text);
        },
        (Ok(reparse_equal), Ok(aux_equal)) => {
            if *reparse_equal && metadata_equal && *aux_equal {
                pass_object(summary);
            } else {
                let text = named_message(
                    relative,
                    "reparse payload, named streams, EAs, or metadata differ",
                );
                fail_object(summary, text);
            }
        },
    }
}

/// Every judged object counts exactly once, as passed or as failed, while the
/// counts are not full; every failure is described while there is room.
pub proof fn every_object_is_judged_once(
    summary: VerificationView,
    name: Seq<char>,
    verdict: Option<Seq<char>>,
)
    requires
        summary.passed < u64::MAX,
        summary.failed < u64::MAX,
        summary.describes_failures(),
    ensures
        ({
            let next = summary.judging(name, verdict);
            &&& next.passed + next.failed == summary.passed + summary.failed + 1
            &&& next.failed > summary.failed <==> verdict is Some
            &&& next.describes_failures()
            &&& next.last_access_differences == summary.last_access_differences
        }),
{
}

/// Every file that this run has written is judged once: the counts add up to
/// the files, nothing failed only if every file is what it should be, and every
/// failure is described while there is room.
pub proof fn every_written_file_is_judged_once(
    targets: Seq<VerificationTarget>,
    policy: FilesystemPolicy,
    readings: Seq<WrittenReading>,
    count: int,
)
    requires
        0 <= count <= targets.len(),
        count <= u64::MAX,
        targets.len() == readings.len(),
    ensures
        ({
            let summary = written_summary(targets, policy, readings, count);
            &&& summary.passed + summary.failed == count
            &&& summary.describes_failures()
            &&& summary.failed == 0 <==> forall|i: int|
                0 <= i < count ==> written_verdict(
                    expected_view(#[trigger] targets[i]),
                    policy,
                    read_view(readings[i].read),
                    readings[i].observed,
                ) is None
        }),
    decreases count,
{
    if count > 0 {
        every_written_file_is_judged_once(targets, policy, readings, count - 1);
        let before = written_summary(targets, policy, readings, count - 1);
        let summary = written_summary(targets, policy, readings, count);
        let verdict = written_verdict(
            expected_view(targets[count - 1]),
            policy,
            read_view(readings[count - 1].read),
            readings[count - 1].observed,
        );
        assert(summary.failed == before.failed + if verdict is Some {
            1int
        } else {
            0int
        });
        if summary.failed == 0 {
            assert forall|i: int| 0 <= i < count implies written_verdict(
                expected_view(#[trigger] targets[i]),
                policy,
                read_view(readings[i].read),
                readings[i].observed,
            ) is None by {
                if i == count - 1 {
                    assert(verdict is None);
                }
            }
        }
    }
}

/// Last-access times are informational: comparing them fails nothing.
pub proof fn access_times_never_fail(
    summary: VerificationView,
    policy: FilesystemPolicy,
    one: BasicMetadata,
    other: BasicMetadata,
)
    ensures
        summary.comparing_access(policy, one, other).failed == summary.failed,
        summary.comparing_access(policy, one, other).passed == summary.passed,
        summary.comparing_access(policy, one, other).mismatches == summary.mismatches,
{
}

/// A paired source entry is either judged at once or left with a twin of its
/// kind, and the twin is no longer among the unpaired entries.
pub proof fn pairing_claims_one_twin(
    pairing: PairingView,
    summary: VerificationView,
    policy: FilesystemPolicy,
    key: Seq<u16>,
    entry: EntryView,
)
    requires
        summary.failed < u64::MAX,
    ensures
        ({
            let (next, counted, work) = pairing.pairing(summary, policy, key, entry);
            match work {
                PairWorkView::Settled => counted.failed == summary.failed + 1,
                PairWorkView::Compare { destination, .. } => {
                    &&& counted.failed == summary.failed
                    &&& destination.metadata.kind == entry.metadata.kind
                    &&& next.destination.len() + 1 == pairing.destination.len()
                    &&& next.destination == pairing.destination.remove(
                        position(pairing.destination, key),
                    )
                    &&& pairing.destination[position(pairing.destination, key)] == (
                        key,
                        destination,
                    )
                },
            }
        }),
{
    lemma_position(pairing.destination, key);
}

/// A file that could be read on both sides is called the same exactly when its
/// size, metadata and contents are.
pub proof fn same_means_same(
    source_size: u64,
    destination_size: u64,
    metadata_equal: bool,
    source: DigestedFile,
    destination: DigestedFile,
)
    ensures
        pair_verdict(
            source_size,
            destination_size,
            metadata_equal,
            PairDigest::Read(source),
            PairDigest::Read(destination),
        ) is Same <==> source_size == destination_size && metadata_equal && same_contents(
            source@,
            destination@,
        ),
{
}

/// Files that were read on both sides are called the same only if everything
/// that was read of them is: the size, the digest of the content, every named
/// stream by name, size and digest, and the digest of the extended attributes.
pub proof fn same_file_is_the_same_in_every_part(
    source_size: u64,
    destination_size: u64,
    metadata_equal: bool,
    source: DigestedFile,
    destination: DigestedFile,
)
    ensures
        pair_verdict(
            source_size,
            destination_size,
            metadata_equal,
            PairDigest::Read(source),
            PairDigest::Read(destination),
        ) is Same <==> {
            &&& source_size == destination_size
            &&& metadata_equal
            &&& source.digest@ == destination.digest@
            &&& source.ea_digest@ == destination.ea_digest@
            &&& source.streams@.len() == destination.streams@.len()
            &&& forall|i: int|
                0 <= i < source.streams@.len() ==> (#[trigger] source.streams@[i]).0.name@
                    == destination.streams@[i].0.name@ && source.streams@[i].0.size
                    == destination.streams@[i].0.size && source.streams@[i].1@
                    == destination.streams@[i].1@
        },
        pair_verdict(
            source_size,
            destination_size,
            metadata_equal,
            PairDigest::Read(source),
            PairDigest::Read(destination),
        ) is Same || pair_verdict(
            source_size,
            destination_size,
            metadata_equal,
            PairDigest::Read(source),
            PairDigest::Read(destination),
        ) is Different,
{
    let one = digest_views(source.streams@);
    let other = digest_views(destination.streams@);
    if one == other {
        assert(one.len() == source.streams@.len() && other.len() == destination.streams@.len());
        assert forall|i: int| 0 <= i < source.streams@.len() implies (
        #[trigger] source.streams@[i]).0.name@ == destination.streams@[i].0.name@
            && source.streams@[i].0.size == destination.streams@[i].0.size
            && source.streams@[i].1@ == destination.streams@[i].1@ by {
            assert(one[i] == other[i]);
        }
    }
    if source.streams@.len() == destination.streams@.len() && (forall|i: int|
        0 <= i < source.streams@.len() ==> (#[trigger] source.streams@[i]).0.name@
            == destination.streams@[i].0.name@ && source.streams@[i].0.size
            == destination.streams@[i].0.size && source.streams@[i].1@
            == destination.streams@[i].1@) {
        assert forall|i: int| 0 <= i < one.len() implies one[i] == other[i] by {
            assert(source.streams@[i].0.name@ == destination.streams@[i].0.name@);
        }
        assert(one =~= other);
    }
}

/// A file that cannot be read is never called the same, and a file is read
/// only where its size and metadata left the verdict open; the source comes
/// first.
pub proof fn unread_file_is_not_judged(
    source_size: u64,
    destination_size: u64,
    metadata_equal: bool,
    source: PairDigest,
    destination: PairDigest,
)
    ensures
        ({
            let verdict = pair_verdict(
                source_size,
                destination_size,
                metadata_equal,
                source,
                destination,
            );
            &&& verdict is Same ==> source is Read && destination is Read
            &&& verdict is ReadSource <==> source_size == destination_size && metadata_equal
                && source is Unread
            &&& verdict is ReadDestination <==> source_size == destination_size && metadata_equal
                && source is Read && destination is Unread
            &&& source_size != destination_size || !metadata_equal || source is Failed ==> verdict
                is Different
        }),
{
}

/// A written file passes only if it was read back whole with the size, digest,
/// named streams and extended attributes that were copied, and its metadata
/// compares equal at the destination.
pub proof fn written_file_passes_only_as_copied(
    expected: ExpectedView,
    policy: FilesystemPolicy,
    read: Result<DigestedView, Seq<char>>,
    observed: Result<ObjectMetadata, IoError>,
)
    ensures
        written_verdict(expected, policy, read, observed) is None <==> {
            &&& read matches Ok(found) && found.size == expected.size && found.digest
                == expected.digest && found.streams == expected.streams && (
            expected.ea_digest matches Some(digest) ==> found.ea_digest == digest)
            &&& observed matches Ok(metadata) && policy.spec_creation_equal(
                expected.metadata.creation_time as int,
                metadata.basic.creation_time as int,
            ) && policy.spec_last_write_equal(
                expected.metadata.last_write_time as int,
                metadata.basic.last_write_time as int,
            ) && policy.spec_attributes_equal(
                expected.metadata.attributes,
                metadata.basic.attributes,
            )
        },
{
}

/// Directories and links pass only where their metadata and everything that
/// was read of them is the same on both sides; one that cannot be read fails.
pub proof fn object_passes_only_when_equal(
    metadata_equal: bool,
    reparse: Result<bool, IoError>,
    aux: Result<bool, AuxFailure>,
)
    ensures
        directory_verdict(metadata_equal, aux) is None <==> metadata_equal && (aux matches Ok(same)
            && same),
        link_verdict(metadata_equal, reparse, aux) is None <==> metadata_equal && (
        aux matches Ok(same) && same) && (reparse matches Ok(same) && same),
{
}

/// A source entry is left for a comparison only with the destination entry
/// that has the same key, is of the same kind and was paired with no other.
/// Otherwise it fails at once: a missing twin, a twin of another kind, or a
/// name that another source entry already took.
pub proof fn entry_without_an_equal_twin_fails(
    pairing: PairingView,
    summary: VerificationView,
    policy: FilesystemPolicy,
    key: Seq<u16>,
    entry: EntryView,
)
    requires
        summary.failed < u64::MAX,
    ensures
        ({
            let (next, counted, work) = pairing.pairing(summary, policy, key, entry);
            let known = exists|i: int|
                0 <= i < pairing.destination.len() && (#[trigger] pairing.destination[i]).0 == key;
            &&& pairing.seen.contains(key) ==> work is Settled && counted.failed == summary.failed
                + 1
            &&& !known ==> work is Settled && counted.failed == summary.failed + 1
            &&& work matches PairWorkView::Compare {
                source,
                destination,
                metadata_equal,
                ..
            } ==> {
                &&& source == entry
                &&& pairing.destination.contains((key, destination))
                &&& source.metadata.kind == destination.metadata.kind
                &&& metadata_equal == (policy.spec_creation_equal(
                    source.metadata.basic.creation_time as int,
                    destination.metadata.basic.creation_time as int,
                ) && policy.spec_last_write_equal(
                    source.metadata.basic.last_write_time as int,
                    destination.metadata.basic.last_write_time as int,
                ) && policy.spec_attributes_equal(
                    source.metadata.basic.attributes,
                    destination.metadata.basic.attributes,
                ))
            }
            &&& counted.passed == summary.passed
        }),
{
    lemma_position(pairing.destination, key);
    let at = position(pairing.destination, key);
    if at < pairing.destination.len() {
        assert(pairing.destination[at].0 == key);
        assert(pairing.destination[at] == (key, pairing.destination[at].1));
    }
}

/// A difference of last-access times is counted where the destination would
/// show it, and never fails an object.
pub proof fn access_differences_are_only_counted(
    summary: VerificationView,
    policy: FilesystemPolicy,
    one: BasicMetadata,
    other: BasicMetadata,
)
    requires
        summary.last_access_differences < u64::MAX,
    ensures
        ({
            let after = summary.comparing_access(policy, one, other);
            let same = policy.spec_last_access_equal(
                one.last_access_time as int,
                other.last_access_time as int,
            );
            &&& after.last_access_differences == summary.last_access_differences + if same {
                0int
            } else {
                1
            }
            &&& after.failed == summary.failed && after.passed == summary.passed
        }),
{
}

/// A verification starts with nothing judged, and says which filesystem it
/// judges and whether metadata is projected on it.
pub proof fn verification_starts_empty(mode: Seq<char>, policy: FilesystemPolicy)
    ensures
        ({
            let start = VerificationView::start(mode, policy);
            &&& start.mode == mode
            &&& start.passed == 0 && start.failed == 0 && start.mismatches.len() == 0
                && start.last_access_differences == 0
            &&& start.destination_filesystem == Some(policy.filesystem.spec_name())
            &&& start.projected == (policy.filesystem is Fat || policy.filesystem is ExFat
                || policy.filesystem is Wsl || policy.filesystem is Remote
                || policy.source_projects_basic)
        }),
{
}

/// Every object on the destination that no source object claimed fails as extra.
pub proof fn every_unclaimed_object_fails(
    pairing: PairingView,
    summary: VerificationView,
    count: int,
)
    requires
        0 <= count <= pairing.destination.len(),
        summary.failed + count <= u64::MAX,
    ensures
        pairing.extras(summary, count).failed == summary.failed + count,
        pairing.extras(summary, count).passed == summary.passed,
    decreases count,
{
    if count > 0 {
        every_unclaimed_object_fails(pairing, summary, count - 1);
    }
}

} // verus!
