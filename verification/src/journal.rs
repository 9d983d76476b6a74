//! CRC-tagged append-only checkpoint journal.
//!
//! Journal records can accelerate resume but can never authorize a completed
//! skip. The records are lines of JSON; this module frames lines, checks them
//! and replays what they say.

use vstd::prelude::*;
use vstd::string::*;

use crate::checkpoints::{
    checkpoint_views, find_checkpoint, found, harvest_reclaimable, harvested, retire_path, store_checkpoint, stored, temp_views, without_path, Checkpoint,
    CheckpointFileIdentity, CheckpointView, IdentityView, ReclaimableTemp, TempView,
};
use crate::error::{BigcpError, IoError};
use crate::hashing::{crc32c_checksum, crc32c_of};
use crate::keys::{is_key, key_to_path, units_of_key};
use crate::model::sat;
use crate::path::{lies_directly_in, WidePath};
use crate::text::{chars_of, decimal, fixed_hex, fixed_hex_string, hex_char, push_decimal, str_eq};
use crate::JOURNAL_SCHEMA_VERSION;

verus! {

/// The longest line that is parsed. A legitimate record stays far below; a
/// corrupt journal without a newline cannot grow replay memory beyond it.
pub const MAX_JOURNAL_RECORD_BYTES: usize = 1_048_576;

/// Version-one journal event.
#[derive(Clone, Debug, PartialEq, Eq)]
pub enum JournalEvent {
    /// Job header.
    Job {
        /// Unique run identifier.
        run_id: String,
        /// Resolved source display path.
        source: String,
        /// Resolved destination display path.
        destination: String,
        /// Stable hash of semantic options.
        options_hash: String,
        /// RFC3339 timestamp.
        timestamp: String,
    },
    /// Tentative large-stream checkpoint.
    Checkpoint(Checkpoint),
    /// All streams committed and old checkpoints retire.
    PartDone {
        /// Journal key of the relative path.
        relative_path: String,
    },
    /// Clean run end.
    End {
        /// Run identifier.
        run_id: String,
    },
}

/// A journal event as values.
#[verifier::ext_equal]
pub ghost enum JournalEventView {
    Job {
        run_id: Seq<char>,
        source: Seq<char>,
        destination: Seq<char>,
        options_hash: Seq<char>,
        timestamp: Seq<char>,
    },
    Checkpoint(CheckpointView),
    PartDone { relative_path: Seq<char> },
    End { run_id: Seq<char> },
}

impl View for JournalEvent {
    type V = JournalEventView;

    open spec fn view(&self) -> JournalEventView {
        match *self {
            JournalEvent::Job { run_id, source, destination, options_hash, timestamp } =>
                JournalEventView::Job {
                    run_id: run_id@,
                    source: source@,
                    destination: destination@,
                    options_hash: options_hash@,
                    timestamp: timestamp@,
                },
            JournalEvent::Checkpoint(checkpoint) => JournalEventView::Checkpoint(checkpoint@),
            JournalEvent::PartDone { relative_path } => JournalEventView::PartDone {
                relative_path: relative_path@,
            },
            JournalEvent::End { run_id } => JournalEventView::End { run_id: run_id@ },
        }
    }
}

impl JournalEvent {
    /// An equal event.
    pub fn copied(&self) -> (copy: JournalEvent)
        ensures
            copy@ == self@,
    {
        match self {
            JournalEvent::Job { run_id, source, destination, options_hash, timestamp } =>
                JournalEvent::Job {
                    run_id: run_id.clone(),
                    source: source.clone(),
                    destination: destination.clone(),
                    options_hash: options_hash.clone(),
                    timestamp: timestamp.clone(),
                },
            JournalEvent::Checkpoint(checkpoint) => JournalEvent::Checkpoint(checkpoint.copied()),
            JournalEvent::PartDone { relative_path } => JournalEvent::PartDone {
                relative_path: relative_path.clone(),
            },
            JournalEvent::End { run_id } => JournalEvent::End { run_id: run_id.clone() },
        }
    }
}

/// The events as values.
pub open spec fn event_views(list: Seq<JournalEvent>) -> Seq<JournalEventView> {
    list.map_values(|event: JournalEvent| event@)
}

/// What makes two runs the same job.
#[derive(Clone, Debug, PartialEq, Eq)]
pub struct JobSignature {
    /// Resolved source display path.
    pub source: String,
    /// Resolved destination display path.
    pub destination: String,
    /// Stable hash of semantic options.
    pub options_hash: String,
}

/// What makes two runs the same job, as values.
#[verifier::ext_equal]
pub ghost struct SignatureView {
    pub source: Seq<char>,
    pub destination: Seq<char>,
    pub options_hash: Seq<char>,
}

impl View for JobSignature {
    type V = SignatureView;

    open spec fn view(&self) -> SignatureView {
        SignatureView {
            source: self.source@,
            destination: self.destination@,
            options_hash: self.options_hash@,
        }
    }
}

/// An optional signature as values.
pub open spec fn opt_signature(signature: Option<JobSignature>) -> Option<SignatureView> {
    match signature {
        Some(signature) => Some(signature@),
        None => None,
    }
}

impl JobSignature {
    fn same_as(&self, other: &JobSignature) -> (same: bool)
        ensures
            same == (self@ == other@),
    {
        str_eq(self.source.as_str(), other.source.as_str()) && str_eq(
            self.destination.as_str(),
            other.destination.as_str(),
        ) && str_eq(self.options_hash.as_str(), other.options_hash.as_str())
    }
}

/// Whether a signature ends the job that was active.
pub open spec fn ends_job(active: Option<SignatureView>, signature: SignatureView) -> bool {
    active is Some && active->0 != signature
}

fn job_changes(active: &Option<JobSignature>, signature: &JobSignature) -> (changes: bool)
    ensures
        changes == ends_job(opt_signature(*active), signature@),
{
    match active {
        Some(current) => !current.same_as(signature),
        None => false,
    }
}

/// The hints that a journal holds: resumable checkpoints, harvested orphans and
/// the job that they belong to.
#[verifier::ext_equal]
pub ghost struct HintsView {
    pub resumable: Seq<CheckpointView>,
    pub reclaimable: Seq<TempView>,
    pub active_job: Option<SignatureView>,
}

impl HintsView {
    /// Without any hint.
    pub open spec fn none() -> HintsView {
        HintsView { resumable: seq![], reclaimable: seq![], active_job: None }
    }

    /// With every provable checkpoint turned into an orphan record.
    pub open spec fn harvesting(self) -> HintsView {
        HintsView {
            resumable: seq![],
            reclaimable: harvested(self.reclaimable, self.resumable),
            ..self
        }
    }

    /// After the start of a job. A changed signature makes every earlier
    /// checkpoint unreachable; the provable ones stay as orphan records.
    pub open spec fn starting(self, signature: SignatureView) -> HintsView {
        let kept = if ends_job(self.active_job, signature) {
            self.harvesting()
        } else {
            self
        };
        HintsView { active_job: Some(signature), ..kept }
    }

    /// After one event was replayed.
    pub open spec fn replaying(self, event: JournalEventView) -> HintsView {
        match event {
            JournalEventView::Job { source, destination, options_hash, .. } => self.starting(
                SignatureView { source, destination, options_hash },
            ),
            _ => self.appending(event),
        }
    }

    /// After one event was appended.
    pub open spec fn appending(self, event: JournalEventView) -> HintsView {
        match event {
            JournalEventView::Checkpoint(checkpoint) => HintsView {
                resumable: stored(self.resumable, checkpoint),
                ..self
            },
            JournalEventView::PartDone { relative_path } => HintsView {
                resumable: without_path(self.resumable, relative_path),
                ..self
            },
            _ => self,
        }
    }
}

/// State recovered from an existing journal file by the tolerant loader.
#[derive(Clone, Debug, PartialEq, Eq)]
pub struct LoadedState {
    /// Resumable checkpoints in key order.
    pub resumable: Vec<Checkpoint>,
    /// Harvested orphans.
    pub reclaimable: Vec<ReclaimableTemp>,
    /// Whether the last record was invalid.
    pub torn_tail: bool,
    /// Bytes in front of a torn tail.
    pub valid_length: u64,
    /// The job of the latest header.
    pub active_job: Option<JobSignature>,
    /// Interior records that were ignored: never trusted, never truncated.
    pub skipped_records: u64,
}

/// What was recovered, as values.
#[verifier::ext_equal]
pub ghost struct LoadedView {
    pub hints: HintsView,
    pub torn_tail: bool,
    pub valid_length: u64,
    pub skipped_records: u64,
}

impl View for LoadedState {
    type V = LoadedView;

    open spec fn view(&self) -> LoadedView {
        LoadedView {
            hints: HintsView {
                resumable: checkpoint_views(self.resumable@),
                reclaimable: temp_views(self.reclaimable@),
                active_job: opt_signature(self.active_job),
            },
            torn_tail: self.torn_tail,
            valid_length: self.valid_length,
            skipped_records: self.skipped_records,
        }
    }
}

impl LoadedView {
    /// Before the first record.
    pub open spec fn empty() -> LoadedView {
        LoadedView {
            hints: HintsView::none(),
            torn_tail: false,
            valid_length: 0,
            skipped_records: 0,
        }
    }
}

impl Default for LoadedState {
    fn default() -> (state: Self)
        ensures
            state@ == LoadedView::empty(),
    {
        let state = LoadedState {
            resumable: Vec::new(),
            reclaimable: Vec::new(),
            torn_tail: false,
            valid_length: 0,
            active_job: None,
            skipped_records: 0,
        };
        assert(state@.hints =~= HintsView::none());
        state
    }
}

impl LoadedState {
    /// Converts every temporary that the file proves into harvest entries: the
    /// surviving checkpoints join what earlier job changes already harvested.
    pub fn into_reclaimable(self) -> (list: Vec<ReclaimableTemp>)
        ensures
            temp_views(list@) == self@.hints.harvesting().reclaimable,
    {
        let mut resumable = self.resumable;
        let mut reclaimable = self.reclaimable;
        harvest_reclaimable(&mut resumable, &mut reclaimable);
        reclaimable
    }

    fn replay(&mut self, event: JournalEvent)
        ensures
            final(self)@ == (LoadedView {
                hints: old(self)@.hints.replaying(event@),
                ..old(self)@
            }),
    {
        let ghost before = self@;
        match event {
            JournalEvent::Job { source, destination, options_hash, .. } => {
                let signature = JobSignature { source, destination, options_hash };
                if job_changes(&self.active_job, &signature) {
                    harvest_reclaimable(&mut self.resumable, &mut self.reclaimable);
                }
                self.active_job = Some(signature);
                assert(self@.hints =~= before.hints.starting(signature@));
            },
            JournalEvent::Checkpoint(checkpoint) => {
                store_checkpoint(&mut self.resumable, checkpoint);
            },
            JournalEvent::PartDone { relative_path } => {
                let mut list: Vec<Checkpoint> = Vec::new();
                std::mem::swap(&mut list, &mut self.resumable);
                self.resumable = retire_path(list, relative_path.as_str());
            },
            JournalEvent::End { .. } => {},
        }
        assert(self@.hints =~= before.hints.replaying(event@));
    }
}

/// One record while it is read in pieces: what is kept of it, how long it is,
/// and whether something of it was left out.
#[derive(Clone, Debug, PartialEq, Eq)]
pub struct BoundedRecord {
    /// The kept bytes.
    pub retained: Vec<u8>,
    /// The bytes of the record so far.
    pub consumed: u64,
    /// Whether the record is longer than what is kept.
    pub oversized: bool,
}

/// A record while it is read in pieces, as values.
#[verifier::ext_equal]
pub ghost struct BoundedView {
    pub retained: Seq<u8>,
    pub consumed: u64,
    pub oversized: bool,
}

impl View for BoundedRecord {
    type V = BoundedView;

    open spec fn view(&self) -> BoundedView {
        BoundedView {
            retained: self.retained@,
            consumed: self.consumed,
            oversized: self.oversized,
        }
    }
}

/// What is kept of a record of which `raw` was read.
pub open spec fn bounded(raw: Seq<u8>) -> BoundedView {
    BoundedView {
        retained: if raw.len() <= MAX_JOURNAL_RECORD_BYTES {
            raw
        } else {
            raw.take(MAX_JOURNAL_RECORD_BYTES as int)
        },
        consumed: raw.len() as u64,
        oversized: raw.len() > MAX_JOURNAL_RECORD_BYTES,
    }
}

/// How many of the buffered bytes belong to the record: through the first
/// newline, or all.
pub open spec fn record_part(buffer: Seq<u8>) -> int
    decreases buffer.len(),
{
    if buffer.len() == 0 {
        0
    } else if buffer[0] == 10 {
        1
    } else {
        1 + record_part(buffer.drop_first())
    }
}

impl BoundedView {
    /// With more bytes of the record.
    pub open spec fn fed(self, part: Seq<u8>) -> BoundedView {
        let available = MAX_JOURNAL_RECORD_BYTES - self.retained.len();
        let keep = if part.len() <= available {
            part.len() as int
        } else if available > 0 {
            available
        } else {
            0
        };
        BoundedView {
            retained: self.retained + part.take(keep),
            consumed: (self.consumed + part.len()) as u64,
            oversized: self.oversized || keep < part.len(),
        }
    }
}

/// How far a record got with one buffer.
#[derive(Clone, Copy, Debug, PartialEq, Eq, Structural)]
pub enum RecordProgress {
    /// Bytes of the buffer were taken and the record goes on.
    More {
        /// How many.
        taken: usize,
    },
    /// Bytes of the buffer were taken and the record is complete.
    Complete {
        /// How many.
        taken: usize,
    },
    /// The file ended; a record was pending exactly if bytes were consumed.
    EndOfFile {
        /// Whether an unterminated record is pending.
        pending: bool,
    },
}

impl BoundedRecord {
    /// A record of which nothing was read.
    pub fn new() -> (record: BoundedRecord)
        ensures
            record@ == bounded(seq![]),
    {
        let record = BoundedRecord { retained: Vec::new(), consumed: 0, oversized: false };
        assert(record@ =~= bounded(seq![]));
        record
    }
}

fn part_of(buffer: &[u8]) -> (end: usize)
    ensures
        end == record_part(buffer@),
        end <= buffer@.len(),
        end > 0 <==> buffer@.len() > 0,
{
    let mut at: usize = 0;
    assert(buffer@.skip(0) =~= buffer@);
    while at < buffer.len()
        invariant
            at <= buffer@.len(),
            record_part(buffer@) == at + record_part(buffer@.skip(at as int)),
        decreases buffer@.len() - at,
    {
        assert(buffer@.skip(at as int).drop_first() =~= buffer@.skip(at as int + 1));
        if buffer[at] == 10 {
            return at + 1;
        }
        at = at + 1;
    }
    at
}

/// Takes one buffer's share of the current record while keeping at most the
/// parse budget. An empty buffer is the end of the file.
pub fn read_bounded_record(record: &mut BoundedRecord, buffer: &[u8]) -> (progress: Result<
    RecordProgress,
    IoError,
>)
    ensures
        buffer@.len() == 0 ==> final(record)@ == old(record)@ && (progress matches Ok(
            RecordProgress::EndOfFile { pending },
        ) && pending == (old(record)@.consumed != 0)),
        buffer@.len() > 0 ==> if old(record)@.consumed + record_part(buffer@) > u64::MAX {
            &&& final(record)@ == old(record)@
            &&& progress matches Err(error) && error.kind is Other && error.code is None
                && error.message@ == "journal record length overflowed"@
        } else {
            &&& final(record)@ == old(record)@.fed(buffer@.take(record_part(buffer@)))
            &&& progress == if buffer@[record_part(buffer@) - 1] == 10 {
                Ok::<RecordProgress, IoError>(
                    RecordProgress::Complete { taken: record_part(buffer@) as usize },
                )
            } else {
                Ok::<RecordProgress, IoError>(
                    RecordProgress::More { taken: record_part(buffer@) as usize },
                )
            }
        },
{
    let ghost before = record@;
    if buffer.len() == 0 {
        return Ok(RecordProgress::EndOfFile { pending: record.consumed != 0 });
    }
    let end: usize = part_of(buffer);
    let consumed = match record.consumed.checked_add(end as u64) {
        Some(consumed) => consumed,
        None => {
            return Err(IoError::other("journal record length overflowed"));
        },
    };
    record.consumed = consumed;
    let available: usize = if record.retained.len() < MAX_JOURNAL_RECORD_BYTES {
        MAX_JOURNAL_RECORD_BYTES - record.retained.len()
    } else {
        0
    };
    let keep: usize = if end <= available {
        end
    } else {
        available
    };
    let ghost part = buffer@.take(end as int);
    if keep > 0 {
        record.retained.extend_from_slice(vstd::slice::slice_subrange(buffer, 0, keep));
    }
    assert(record.retained@ =~= before.retained + part.take(keep as int));
    record.oversized = record.oversized || keep < end;
    assert(record@ =~= before.fed(part));
    if buffer[end - 1] == 10 {
        Ok(RecordProgress::Complete { taken: end })
    } else {
        Ok(RecordProgress::More { taken: end })
    }
}

/// However a record is cut into buffers, what is kept of it is the same: its
/// first bytes up to the budget, its full length, and whether it is longer.
pub proof fn bounded_reading_ignores_the_cuts(raw: Seq<u8>, part: Seq<u8>)
    requires
        raw.len() + part.len() <= u64::MAX,
    ensures
        bounded(raw).fed(part) == bounded(raw + part),
{
    assert(bounded(raw).fed(part) =~= bounded(raw + part));
}

/// What serde_json makes of a line, as far as one unsigned field goes: `None`
/// where the line is no JSON, otherwise the field where it is there and an
/// unsigned integer.
pub uninterp spec fn json_unsigned_field_of(line: Seq<u8>, key: Seq<char>) -> Option<Option<u64>>;

/// [`serde_json::from_slice`] into a [`serde_json::Value`], of which
/// [`serde_json::Value::get`] and [`serde_json::Value::as_u64`] read one field:
/// a function of the line and the key alone. What counts as JSON is not stated.
#[verifier::external_body]
fn json_unsigned_field(line: &[u8], key: &str) -> (field: Option<Option<u64>>)
    ensures
        field == json_unsigned_field_of(line@, key@),
{
    serde_json::from_slice::<serde_json::Value>(line).ok().map(
        |value| value.get(key).and_then(serde_json::Value::as_u64),
    )
}

/// A line without its line ending.
pub open spec fn line_of(raw: Seq<u8>) -> Seq<u8> {
    let first = if raw.len() > 0 && raw.last() == 10 {
        raw.drop_last()
    } else {
        raw
    };
    if first.len() > 0 && first.last() == 13 {
        first.drop_last()
    } else {
        first
    }
}

/// A line without its line ending.
pub fn record_line(raw: &[u8]) -> (line: &[u8])
    ensures
        line@ == line_of(raw@),
{
    let mut end: usize = raw.len();
    if end > 0 && raw[end - 1] == 10 {
        end = end - 1;
    }
    if end > 0 && raw[end - 1] == 13 {
        end = end - 1;
    }
    let line = vstd::slice::slice_subrange(raw, 0, end);
    assert(line@ =~= line_of(raw@));
    line
}

/// What the JSON of one line stands for: the event, the checksum that the line
/// carries, and the record without its checksum as it is serialized.
#[derive(Clone, Debug, PartialEq, Eq)]
pub struct TypedRecord {
    /// The event.
    pub event: JournalEvent,
    /// The checksum that the line carries.
    pub crc: String,
    /// The record without its checksum.
    pub unsigned: Vec<u8>,
}

/// What the JSON of one line stands for, as values.
#[verifier::ext_equal]
pub ghost struct TypedView {
    pub event: JournalEventView,
    pub crc: Seq<char>,
    pub unsigned: Seq<u8>,
}

impl View for TypedRecord {
    type V = TypedView;

    open spec fn view(&self) -> TypedView {
        TypedView { event: self.event@, crc: self.crc@, unsigned: self.unsigned@ }
    }
}

/// An optional typed record as values.
pub open spec fn opt_typed(record: Option<TypedRecord>) -> Option<TypedView> {
    match record {
        Some(record) => Some(record@),
        None => None,
    }
}

/// The checksum text of a serialized record: eight hexadecimal digits.
pub open spec fn crc_text_of(unsigned: Seq<u8>) -> Seq<char> {
    fixed_hex(crc32c_of(unsigned) as nat, 8)
}

/// The checksum text of a serialized record: eight hexadecimal digits.
pub fn crc_text(unsigned: &[u8]) -> (text: String)
    ensures
        text@ == crc_text_of(unsigned@),
{
    fixed_hex_string(crc32c_checksum(unsigned) as u128, 8)
}

/// Whether a record carries the checksum of its content.
pub fn crc_matches(record: &TypedRecord) -> (matches: bool)
    ensures
        matches == (record@.crc == crc_text_of(record@.unsigned)),
{
    let text = crc_text(record.unsigned.as_slice());
    str_eq(record.crc.as_str(), text.as_str())
}

/// What introduces the checksum of a record: `,"crc":"`.
pub const CRC_FIELD: [u8; 8] = [44, 34, 99, 114, 99, 34, 58, 34];

/// What ends a record: `"}` and a newline.
pub const RECORD_END: [u8; 3] = [34, 125, 10];

/// A record whose JSON object is `unsigned`, as one line with its checksum.
pub open spec fn sealed(unsigned: Seq<u8>) -> Seq<u8> {
    unsigned.drop_last() + CRC_FIELD@ + crc_text_of(unsigned).map_values(|c: char| c as u8)
        + RECORD_END@
}

/// Puts the checksum into a serialized record and ends its line. The record is
/// a JSON object, whose last byte is its closing brace.
pub fn encode_record(unsigned: &Vec<u8>) -> (line: Vec<u8>)
    requires
        unsigned@.len() > 0,
    ensures
        line@ == sealed(unsigned@),
{
    let text = crc_text(unsigned.as_slice());
    let mut line: Vec<u8> = Vec::new();
    let body: usize = unsigned.len() - 1;
    for i in 0..body
        invariant
            body == unsigned@.len() - 1,
            line@ == unsigned@.take(i as int),
    {
        line.push(unsigned[i]);
        assert(line@ =~= unsigned@.take(i as int + 1));
    }
    for i in 0..CRC_FIELD.len()
        invariant
            body == unsigned@.len() - 1,
            line@ == unsigned@.take(body as int) + CRC_FIELD@.take(i as int),
    {
        line.push(CRC_FIELD[i]);
        assert(line@ =~= unsigned@.take(body as int) + CRC_FIELD@.take(i as int + 1));
    }
    assert(CRC_FIELD@.take(8) =~= CRC_FIELD@);
    let digits = chars_of(text.as_str());
    let ghost bytes = text@.map_values(|c: char| c as u8);
    for i in 0..digits.len()
        invariant
            digits@ == text@,
            bytes == text@.map_values(|c: char| c as u8),
            line@ == unsigned@.take(body as int) + CRC_FIELD@ + bytes.take(i as int),
    {
        line.push(digits[i] as u8);
        assert(line@ =~= unsigned@.take(body as int) + CRC_FIELD@ + bytes.take(i as int + 1));
    }
    assert(bytes.take(digits.len() as int) =~= bytes);
    for i in 0..RECORD_END.len()
        invariant
            line@ == unsigned@.take(body as int) + CRC_FIELD@ + bytes + RECORD_END@.take(i as int),
    {
        line.push(RECORD_END[i]);
        assert(line@ =~= unsigned@.take(body as int) + CRC_FIELD@ + bytes + RECORD_END@.take(
            i as int + 1,
        ));
    }
    assert(RECORD_END@.take(3) =~= RECORD_END@);
    assert(unsigned@.take(body as int) =~= unsigned@.drop_last());
    line
}

/// Whether a line is of another journal version.
pub open spec fn refused_version(raw: Seq<u8>, oversized: bool) -> Option<u64> {
    if oversized {
        None
    } else {
        match json_unsigned_field_of(line_of(raw), "j"@) {
            Some(Some(found)) => if found != JOURNAL_SCHEMA_VERSION {
                Some(found)
            } else {
                None
            },
            _ => None,
        }
    }
}

/// The event that a line says, if the line can be trusted.
pub open spec fn trusted_event(raw: Seq<u8>, oversized: bool, typed: Option<TypedView>) -> Option<
    JournalEventView,
> {
    if oversized || json_unsigned_field_of(line_of(raw), "j"@) is None {
        None
    } else {
        match typed {
            Some(record) => if record.crc == crc_text_of(record.unsigned) {
                Some(record.event)
            } else {
                None
            },
            None => None,
        }
    }
}

/// The refusal of another journal version.
pub open spec fn version_text(found: u64) -> Seq<char> {
    "unsupported journal version "@ + decimal(found as nat) + "; this build supports "@ + decimal(
        JOURNAL_SCHEMA_VERSION as nat,
    )
}

/// The state after one record, and whether the record is kept on disk.
pub open spec fn after_record(
    state: LoadedView,
    event: Option<JournalEventView>,
    is_last: bool,
) -> (LoadedView, bool) {
    match event {
        Some(event) => (LoadedView { hints: state.hints.replaying(event), ..state }, true),
        None => if is_last {
            (state, false)
        } else {
            (LoadedView { skipped_records: sat(state.skipped_records, 1), ..state }, true)
        },
    }
}

/// Applies one complete record. `false` means that the last record was invalid
/// and is to be truncated; an invalid interior record is counted and kept, so
/// that a corrupt line cannot destroy later valid checkpoints.
///
/// The version is read before anything else: a record of a future version
/// rarely has the shape of this one, and must be refused rather than skipped or
/// truncated.
pub fn apply_loaded_line(
    raw: &[u8],
    oversized: bool,
    is_last: bool,
    typed: Option<TypedRecord>,
    state: &mut LoadedState,
) -> (retained: Result<bool, BigcpError>)
    ensures
        match refused_version(raw@, oversized) {
            Some(found) => final(state)@ == old(state)@ && (retained matches Err(
                BigcpError::Format(text),
            ) && text@ == version_text(found)),
            None => retained matches Ok(kept) && after_record(
                old(state)@,
                trusted_event(raw@, oversized, opt_typed(typed)),
                is_last,
            ) == (final(state)@, kept),
        },
{
    let mut event: Option<JournalEvent> = None;
    if !oversized {
        let line = record_line(raw);
        if let Some(version) = json_unsigned_field(line, "j") {
            if let Some(found) = version {
                if found != JOURNAL_SCHEMA_VERSION as u64 {
                    let mut text = "unsupported journal version ".to_owned();
                    push_decimal(&mut text, found);
                    text.append("; this build supports ");
                    push_decimal(&mut text, JOURNAL_SCHEMA_VERSION as u64);
                    return Err(BigcpError::Format(text));
                }
            }
            if let Some(record) = typed {
                if crc_matches(&record) {
                    event = Some(record.event);
                }
            }
        }
    }
    match event {
        Some(event) => {
            state.replay(event);
            Ok(true)
        },
        None => {
            if is_last {
                Ok(false)
            } else {
                state.skipped_records = state.skipped_records.saturating_add(1);
                assert(state@ =~= (LoadedView {
                    skipped_records: sat(old(state)@.skipped_records, 1),
                    ..old(state)@
                }));
                Ok(true)
            }
        },
    }
}

/// One record of a journal file.
#[derive(Clone, Debug, PartialEq, Eq)]
pub struct LoadedRecord {
    /// What is kept of the line.
    pub raw: Vec<u8>,
    /// How long the line is on disk.
    pub bytes: u64,
    /// Whether the line is longer than what is kept.
    pub oversized: bool,
    /// What its JSON stands for, where it has the shape of a record.
    pub typed: Option<TypedRecord>,
}

/// One record of a journal file, as values.
#[verifier::ext_equal]
pub ghost struct RecordView {
    pub raw: Seq<u8>,
    pub bytes: u64,
    pub oversized: bool,
    pub typed: Option<TypedView>,
}

impl View for LoadedRecord {
    type V = RecordView;

    open spec fn view(&self) -> RecordView {
        RecordView {
            raw: self.raw@,
            bytes: self.bytes,
            oversized: self.oversized,
            typed: opt_typed(self.typed),
        }
    }
}

impl RecordView {
    /// The event that the record says, if it can be trusted.
    pub open spec fn event(self) -> Option<JournalEventView> {
        trusted_event(self.raw, self.oversized, self.typed)
    }

    /// Whether the record is of another version.
    pub open spec fn refused(self) -> Option<u64> {
        refused_version(self.raw, self.oversized)
    }
}

/// The state after one more record of the file.
pub open spec fn replayed(state: LoadedView, record: RecordView, is_last: bool) -> LoadedView {
    let (next, kept) = after_record(state, record.event(), is_last);
    if kept {
        LoadedView { valid_length: sat(next.valid_length, record.bytes), ..next }
    } else {
        LoadedView { torn_tail: true, ..next }
    }
}

/// The state after interior records.
pub open spec fn interior(records: Seq<RecordView>) -> LoadedView
    decreases records.len(),
{
    if records.len() == 0 {
        LoadedView::empty()
    } else {
        replayed(interior(records.drop_last()), records.last(), false)
    }
}

/// What a whole file says.
pub open spec fn loaded(records: Seq<RecordView>) -> LoadedView {
    if records.len() == 0 {
        LoadedView::empty()
    } else {
        replayed(interior(records.drop_last()), records.last(), true)
    }
}

/// Replays one journal file. One record of lookahead tells a torn last append
/// from an invalid interior record, so that memory stays at one record.
pub struct JournalLoader {
    state: LoadedState,
    pending: Option<LoadedRecord>,
    accepted: Ghost<Seq<RecordView>>,
}

impl JournalLoader {
    /// The records that were handed over.
    pub closed spec fn records(self) -> Seq<RecordView> {
        self.accepted@
    }

    /// Whether the state stands for the records, up to the one of lookahead.
    pub closed spec fn wf(self) -> bool {
        let records = self.accepted@;
        match self.pending {
            None => records.len() == 0 && self.state@ == LoadedView::empty(),
            Some(record) => records.len() > 0 && record@ == records.last() && self.state@
                == interior(records.drop_last()),
        }
    }

    /// Before the first record.
    pub fn new() -> (loader: JournalLoader)
        ensures
            loader.wf(),
            loader.records() == Seq::<RecordView>::empty(),
    {
        JournalLoader { state: LoadedState::default(), pending: None, accepted: Ghost(Seq::empty()) }
    }

    /// Takes the next record and applies the one before it.
    pub fn accept(&mut self, record: LoadedRecord) -> (accepted: Result<(), BigcpError>)
        requires
            old(self).wf(),
        ensures
            accepted is Ok ==> final(self).wf() && final(self).records()
                == old(self).records().push(record@),
            ({
                let records = old(self).records();
                match if records.len() == 0 {
                    None
                } else {
                    records.last().refused()
                } {
                    Some(found) => accepted matches Err(BigcpError::Format(text)) && text@
                        == version_text(found),
                    None => accepted is Ok,
                }
            }),
    {
        let ghost records = self.accepted@;
        let ghost view = record@;
        let mut previous: Option<LoadedRecord> = Some(record);
        std::mem::swap(&mut previous, &mut self.pending);
        if let Some(previous) = previous {
            let LoadedRecord { raw, bytes, oversized, typed } = previous;
            match apply_loaded_line(raw.as_slice(), oversized, false, typed, &mut self.state) {
                Err(error) => {
                    return Err(error);
                },
                Ok(_) => {
                    self.state.valid_length = self.state.valid_length.saturating_add(bytes);
                },
            }
            assert(self.state@ =~= interior(records));
        }
        proof {
            self.accepted@ = records.push(view);
        }
        assert(self.accepted@.drop_last() =~= records);
        Ok(())
    }

    /// Applies the last record.
    pub fn finish(self) -> (state: Result<LoadedState, BigcpError>)
        requires
            self.wf(),
        ensures
            match if self.records().len() == 0 {
                None
            } else {
                self.records().last().refused()
            } {
                Some(found) => state matches Err(BigcpError::Format(text)) && text@
                    == version_text(found),
                None => state matches Ok(state) && state@ == loaded(self.records()),
            },
    {
        let ghost records = self.accepted@;
        let mut state = self.state;
        match self.pending {
            None => Ok(state),
            Some(last) => {
                let LoadedRecord { raw, bytes, oversized, typed } = last;
                match apply_loaded_line(raw.as_slice(), oversized, true, typed, &mut state) {
                    Err(error) => Err(error),
                    Ok(kept) => {
                        if kept {
                            state.valid_length = state.valid_length.saturating_add(bytes);
                        } else {
                            state.torn_tail = true;
                        }
                        assert(state@ =~= loaded(records));
                        Ok(state)
                    },
                }
            },
        }
    }
}

proof fn lemma_interior_push(records: Seq<RecordView>, record: RecordView)
    ensures
        interior(records.push(record)) == replayed(interior(records), record, false),
{
    assert(records.push(record).drop_last() =~= records);
}

/// An invalid interior record changes no hint: the file says what it says
/// without it, and the record is counted and kept.
pub proof fn bad_interior_record_changes_no_hint(records: Seq<RecordView>, bad: RecordView)
    requires
        bad.event() is None,
    ensures
        interior(records.push(bad)).hints == interior(records).hints,
        interior(records.push(bad)).skipped_records == sat(
            interior(records).skipped_records,
            1,
        ),
        interior(records.push(bad)).valid_length == sat(
            interior(records).valid_length,
            bad.bytes,
        ),
        !interior(records.push(bad)).torn_tail,
{
    lemma_interior_push(records, bad);
    lemma_interior_is_not_torn(records);
}

proof fn lemma_interior_is_not_torn(records: Seq<RecordView>)
    ensures
        !interior(records).torn_tail,
    decreases records.len(),
{
    if records.len() > 0 {
        lemma_interior_is_not_torn(records.drop_last());
    }
}

/// A file is truncated exactly if its last record is invalid, and then right
/// behind the record before it: the hints are those of the records in front.
pub proof fn only_the_last_record_can_be_torn(records: Seq<RecordView>)
    requires
        records.len() > 0,
    ensures
        loaded(records).torn_tail <==> records.last().event() is None,
        loaded(records).torn_tail ==> loaded(records).hints == interior(records.drop_last()).hints
            && loaded(records).valid_length == interior(records.drop_last()).valid_length,
        !loaded(records).torn_tail ==> loaded(records) == interior(records),
{
    lemma_interior_is_not_torn(records.drop_last());
}

/// A checkpoint that was appended is found again when the file is read back.
pub proof fn appended_checkpoint_survives_a_reload(
    records: Seq<RecordView>,
    record: RecordView,
    checkpoint: CheckpointView,
)
    requires
        record.event() == Some(JournalEventView::Checkpoint(checkpoint)),
    ensures
        found(loaded(records.push(record)).hints.resumable, checkpoint.key()) == Some(checkpoint),
{
    assert(records.push(record).drop_last() =~= records);
    crate::checkpoints::stored_checkpoint_is_found(
        interior(records).hints.resumable,
        checkpoint,
        checkpoint.key(),
    );
}

/// A record that carries the checksum of its content is trusted, and one that
/// carries another is not.
pub proof fn only_sealed_records_are_trusted(raw: Seq<u8>, typed: TypedView)
    requires
        json_unsigned_field_of(line_of(raw), "j"@) is Some,
    ensures
        typed.crc == crc_text_of(typed.unsigned) <==> trusted_event(raw, false, Some(typed))
            == Some(typed.event),
{
}

/// A sealed record is one line: its newline is its last byte, and no other byte
/// is one.
pub proof fn sealed_record_is_one_line(unsigned: Seq<u8>)
    requires
        unsigned.len() > 0,
        !unsigned.contains(10),
    ensures
        sealed(unsigned).last() == 10,
        !sealed(unsigned).drop_last().contains(10),
{
    let digits = crc_text_of(unsigned).map_values(|c: char| c as u8);
    lemma_hex_digits(crc32c_of(unsigned) as nat, 8);
    let front = unsigned.drop_last();
    assert forall|i: int| 0 <= i < sealed(unsigned).len() - 1 implies sealed(unsigned)[i] != 10 by {
        if i < front.len() {
            assert(sealed(unsigned)[i] == unsigned[i]);
        } else if i < front.len() + 8 {
            assert(sealed(unsigned)[i] == CRC_FIELD@[i - front.len()]);
        } else if i < front.len() + 8 + digits.len() {
            let at = i - front.len() - 8;
            assert(sealed(unsigned)[i] == digits[at]);
            assert(crc_text_of(unsigned)[at] >= '0');
        }
    }
}

proof fn lemma_hex_digits(n: nat, width: nat)
    ensures
        forall|i: int|
            0 <= i < fixed_hex(n, width).len() ==> '0' <= #[trigger] fixed_hex(n, width)[i] <= 'f',
    decreases width,
{
    if width > 0 {
        let front = fixed_hex(n / 16, (width - 1) as nat);
        lemma_hex_digits(n / 16, (width - 1) as nat);
        assert forall|i: int| 0 <= i < fixed_hex(n, width).len() implies '0' <= #[trigger] fixed_hex(
            n,
            width,
        )[i] <= 'f' by {
            if i < front.len() {
                assert(fixed_hex(n, width)[i] == front[i]);
            } else {
                assert(fixed_hex(n, width)[i] == hex_char(n % 16));
            }
        }
    }
}

/// The journal of one run.
#[derive(Clone, Debug, PartialEq, Eq)]
pub struct Journal {
    resumable: Vec<Checkpoint>,
    reclaimable: Vec<ReclaimableTemp>,
    active_job: Option<JobSignature>,
    torn_tail: bool,
    job_record: Option<JournalEvent>,
    skipped_records: u64,
}

/// The journal of one run, as values.
#[verifier::ext_equal]
pub ghost struct JournalView {
    pub hints: HintsView,
    pub torn_tail: bool,
    pub job_record: Option<JournalEventView>,
    pub skipped_records: u64,
}

/// An optional event as values.
pub open spec fn opt_event(event: Option<JournalEvent>) -> Option<JournalEventView> {
    match event {
        Some(event) => Some(event@),
        None => None,
    }
}

impl View for Journal {
    type V = JournalView;

    closed spec fn view(&self) -> JournalView {
        JournalView {
            hints: HintsView {
                resumable: checkpoint_views(self.resumable@),
                reclaimable: temp_views(self.reclaimable@),
                active_job: opt_signature(self.active_job),
            },
            torn_tail: self.torn_tail,
            job_record: opt_event(self.job_record),
            skipped_records: self.skipped_records,
        }
    }
}

/// A journal that was opened.
#[derive(Clone, Debug, PartialEq, Eq)]
pub struct OpenedJournal {
    /// The journal.
    pub journal: Journal,
    /// The length that the file is to be cut to, if it is to be cut.
    pub truncate_to: Option<u64>,
}

impl Journal {
    /// Opens a journal over what an existing file says; `None` where there is
    /// no file.
    ///
    /// A fresh start empties the file and resumes nothing, and it never fails
    /// on an unreadable file. But it keeps the proof of every temporary that
    /// the file names, so that orphans can be reclaimed.
    pub fn open(previous: Option<Result<LoadedState, BigcpError>>, fresh: bool) -> (opened: Result<
        OpenedJournal,
        BigcpError,
    >)
        ensures
            match previous {
                None => opened matches Ok(opened) && opened.journal@ == (JournalView {
                    hints: HintsView::none(),
                    torn_tail: false,
                    job_record: None,
                    skipped_records: 0,
                }) && opened.truncate_to == if fresh {
                    Some(0u64)
                } else {
                    None
                },
                Some(Ok(state)) => opened matches Ok(opened) && if fresh {
                    opened.journal@ == (JournalView {
                        hints: HintsView {
                            active_job: None,
                            ..state@.hints.harvesting()
                        },
                        torn_tail: false,
                        job_record: None,
                        skipped_records: 0,
                    }) && opened.truncate_to == Some(0u64)
                } else {
                    opened.journal@ == (JournalView {
                        hints: state@.hints,
                        torn_tail: state@.torn_tail,
                        job_record: None,
                        skipped_records: state@.skipped_records,
                    }) && opened.truncate_to == if state@.torn_tail {
                        Some(state@.valid_length)
                    } else {
                        None
                    }
                },
                Some(Err(error)) => if fresh {
                    opened matches Ok(opened) && opened.journal@ == (JournalView {
                        hints: HintsView::none(),
                        torn_tail: false,
                        job_record: None,
                        skipped_records: 0,
                    }) && opened.truncate_to == Some(0u64)
                } else {
                    opened == Err::<OpenedJournal, BigcpError>(error)
                },
            },
    {
        let mut loaded_state = LoadedState::default();
        match previous {
            None => {},
            Some(Ok(state)) => {
                if fresh {
                    let ghost view = state@;
                    loaded_state.reclaimable = state.into_reclaimable();
                    assert(loaded_state@.hints =~= (HintsView {
                        active_job: None,
                        ..view.hints.harvesting()
                    }));
                } else {
                    loaded_state = state;
                }
            },
            Some(Err(error)) => {
                if !fresh {
                    return Err(error);
                }
            },
        }
        let truncate_to: Option<u64> = if fresh {
            Some(0)
        } else if loaded_state.torn_tail {
            Some(loaded_state.valid_length)
        } else {
            None
        };
        let ghost view = loaded_state@;
        let journal = Journal {
            resumable: loaded_state.resumable,
            reclaimable: loaded_state.reclaimable,
            active_job: loaded_state.active_job,
            torn_tail: loaded_state.torn_tail,
            job_record: None,
            skipped_records: loaded_state.skipped_records,
        };
        assert(journal@.hints =~= view.hints);
        Ok(OpenedJournal { journal, truncate_to })
    }

    /// Interior records ignored during load: never trusted, never truncated.
    pub fn skipped_records(&self) -> (count: u64)
        ensures
            count == self@.skipped_records,
    {
        self.skipped_records
    }

    /// The header record of a job, after hints of another job were turned into
    /// orphan records. The job starts once the record is on disk.
    pub fn begin_job(
        &mut self,
        run_id: String,
        source: String,
        destination: String,
        options_hash: String,
        timestamp: String,
    ) -> (job: JournalEvent)
        ensures
            job@ == (JournalEventView::Job {
                run_id: run_id@,
                source: source@,
                destination: destination@,
                options_hash: options_hash@,
                timestamp: timestamp@,
            }),
            final(self)@ == (JournalView {
                hints: if ends_job(
                    old(self)@.hints.active_job,
                    SignatureView {
                        source: source@,
                        destination: destination@,
                        options_hash: options_hash@,
                    },
                ) {
                    old(self)@.hints.harvesting()
                } else {
                    old(self)@.hints
                },
                ..old(self)@
            }),
    {
        let ghost before = self@;
        let signature = JobSignature {
            source: source.clone(),
            destination: destination.clone(),
            options_hash: options_hash.clone(),
        };
        if job_changes(&self.active_job, &signature) {
            harvest_reclaimable(&mut self.resumable, &mut self.reclaimable);
            assert(self@.hints =~= before.hints.harvesting());
        }
        JournalEvent::Job { run_id, source, destination, options_hash, timestamp }
    }

    /// Marks the start of a job whose header is on disk.
    pub fn start_job(&mut self, job: JournalEvent)
        requires
            job is Job,
        ensures
            final(self)@ == (JournalView {
                hints: HintsView {
                    active_job: Some(
                        SignatureView {
                            source: job->Job_source@,
                            destination: job->Job_destination@,
                            options_hash: job->options_hash@,
                        },
                    ),
                    ..old(self)@.hints
                },
                job_record: Some(job@),
                ..old(self)@
            }),
    {
        let ghost before = self@;
        if let JournalEvent::Job { source, destination, options_hash, .. } = &job {
            self.active_job = Some(
                JobSignature {
                    source: source.clone(),
                    destination: destination.clone(),
                    options_hash: options_hash.clone(),
                },
            );
        }
        self.job_record = Some(job);
        assert(self@.hints =~= (HintsView {
            active_job: self@.hints.active_job,
            ..before.hints
        }));
    }

    /// The records that a compacted journal holds: the header of the current
    /// job and every live checkpoint. Nothing is compacted before a job.
    pub fn compact(&self) -> (records: Option<Vec<JournalEvent>>)
        ensures
            records is Some <==> self@.job_record is Some,
            records matches Some(list) ==> event_views(list@) == seq![self@.job_record->0]
                + self@.hints.resumable.map_values(
                |checkpoint: CheckpointView| JournalEventView::Checkpoint(checkpoint),
            ),
    {
        let job = match &self.job_record {
            Some(job) => job,
            None => {
                return None;
            },
        };
        let ghost wrap = |checkpoint: CheckpointView| JournalEventView::Checkpoint(checkpoint);
        let ghost all = self@.hints.resumable;
        let ghost header = seq![job@];
        let mut list: Vec<JournalEvent> = Vec::new();
        list.push(job.copied());
        assert(event_views(list@) =~= header + all.take(0).map_values(wrap));
        for i in 0..self.resumable.len()
            invariant
                wrap == (|checkpoint: CheckpointView| JournalEventView::Checkpoint(checkpoint)),
                all == checkpoint_views(self.resumable@),
                event_views(list@) == header + all.take(i as int).map_values(wrap),
        {
            let ghost before = event_views(list@);
            let copy = JournalEvent::Checkpoint(self.resumable[i].copied());
            list.push(copy);
            assert(event_views(list@) =~= before.push(copy@));
            assert(all.take(i as int + 1).map_values(wrap) =~= all.take(i as int).map_values(
                wrap,
            ).push(copy@));
            assert(event_views(list@) =~= header + all.take(i as int + 1).map_values(wrap));
        }
        assert(all.take(all.len() as int) =~= all);
        Some(list)
    }

    /// Marks an event that is on disk.
    pub fn append(&mut self, event: JournalEvent)
        ensures
            final(self)@ == (JournalView {
                hints: old(self)@.hints.appending(event@),
                ..old(self)@
            }),
    {
        let ghost before = self@;
        match event {
            JournalEvent::Checkpoint(checkpoint) => {
                store_checkpoint(&mut self.resumable, checkpoint);
            },
            JournalEvent::PartDone { relative_path } => {
                let mut list: Vec<Checkpoint> = Vec::new();
                std::mem::swap(&mut list, &mut self.resumable);
                self.resumable = retire_path(list, relative_path.as_str());
            },
            _ => {},
        }
        assert(self@.hints =~= before.hints.appending(event@));
    }

    /// Returns the last valid checkpoint for a relative stream.
    pub fn checkpoint(&self, relative_path: &str, stream: &str) -> (hit: Option<&Checkpoint>)
        ensures
            match hit {
                Some(checkpoint) => found(self@.hints.resumable, (relative_path@, stream@))
                    == Some(checkpoint@),
                None => found(self@.hints.resumable, (relative_path@, stream@)) is None,
            },
    {
        find_checkpoint(&self.resumable, relative_path, stream)
    }

    /// A copy of the last valid hint, so that callers can append while they
    /// evaluate it.
    pub fn checkpoint_owned(&self, relative_path: &str, stream: &str) -> (hit: Option<Checkpoint>)
        ensures
            match hit {
                Some(checkpoint) => found(self@.hints.resumable, (relative_path@, stream@))
                    == Some(checkpoint@),
                None => found(self@.hints.resumable, (relative_path@, stream@)) is None,
            },
    {
        match self.checkpoint(relative_path, stream) {
            Some(checkpoint) => Some(checkpoint.copied()),
            None => None,
        }
    }

    /// The resumable checkpoint recorded for a destination child name: the key
    /// of the final file that it was staged for, and the recorded identity.
    pub fn resume_temp_record(&self, name: &str) -> (hit: Option<(&str, Option<&CheckpointFileIdentity>)>)
        ensures
            match hit {
                Some((path, identity)) => temp_record(self@.hints.resumable, name@) == Some(
                    (path@, opt_identity_ref(identity)),
                ),
                None => temp_record(self@.hints.resumable, name@) is None,
            },
    {
        let ghost all = checkpoint_views(self.resumable@);
        assert(all.skip(0) =~= all);
        for i in 0..self.resumable.len()
            invariant
                all == checkpoint_views(self.resumable@),
                temp_record(all, name@) == temp_record(all.skip(i as int), name@),
        {
            assert(all.skip(i as int).drop_first() =~= all.skip(i as int + 1));
            assert(all.skip(i as int)[0] == self.resumable@[i as int]@);
            let checkpoint = &self.resumable[i];
            if str_eq(checkpoint.temp_name.as_str(), name) {
                let identity = match &checkpoint.temp_identity {
                    Some(identity) => Some(identity),
                    None => None,
                };
                return Some((checkpoint.relative_path.as_str(), identity));
            }
        }
        None
    }

    /// Removes and returns the orphan record for one destination child name,
    /// but only where the record's final path lies in `directory`: a checkpoint
    /// speaks only for the directory that holds its final file.
    pub fn take_reclaimable_temp(&mut self, name: &str, directory: &WidePath) -> (taken: Option<
        ReclaimableTemp,
    >)
        ensures
            ({
                let list = old(self)@.hints.reclaimable;
                let at = first_speaking(list, name@, directory@);
                if at < list.len() {
                    &&& taken matches Some(temp) && temp@ == list[at]
                    &&& final(self)@ == (JournalView {
                        hints: HintsView {
                            reclaimable: list.update(at, list.last()).drop_last(),
                            ..old(self)@.hints
                        },
                        ..old(self)@
                    })
                } else {
                    taken is None && final(self)@ == old(self)@
                }
            }),
    {
        let ghost before = self@;
        let ghost all = temp_views(self.reclaimable@);
        let mut at: usize = 0;
        assert(all.skip(0) =~= all);
        while at < self.reclaimable.len()
            invariant
                at <= self.reclaimable.len(),
                self@ == before,
                before == old(self)@,
                before.hints.reclaimable == all,
                all == temp_views(self.reclaimable@),
                first_speaking(all, name@, directory@) == at + first_speaking(
                    all.skip(at as int),
                    name@,
                    directory@,
                ),
            decreases self.reclaimable.len() - at,
        {
            let temp = &self.reclaimable[at];
            assert(all.skip(at as int)[0] == temp@);
            assert(all.skip(at as int).drop_first() =~= all.skip(at as int + 1));
            let speaks = str_eq(temp.temp_name.as_str(), name) && match key_to_path(
                temp.relative_path.as_str(),
            ) {
                Some(path) => path.is_directly_in(directory),
                None => false,
            };
            assert(speaks == speaks_for(temp@, name@, directory@));
            if speaks {
                assert(first_speaking(all, name@, directory@) == at);
                assert(all[at as int] == self.reclaimable@[at as int]@);
                let taken = self.reclaimable.swap_remove(at);
                assert(temp_views(self.reclaimable@) =~= all.update(
                    at as int,
                    all.last(),
                ).drop_last());
                assert(self@ =~= (JournalView {
                    hints: HintsView {
                        reclaimable: all.update(at as int, all.last()).drop_last(),
                        ..before.hints
                    },
                    ..before
                }));
                return Some(taken);
            }
            at = at + 1;
        }
        None
    }

    /// Reports whether there is any hint about a temporary.
    pub fn has_temp_records(&self) -> (any: bool)
        ensures
            any == (self@.hints.resumable.len() > 0 || self@.hints.reclaimable.len() > 0),
    {
        assert(checkpoint_views(self.resumable@).len() == self.resumable.len());
        assert(temp_views(self.reclaimable@).len() == self.reclaimable.len());
        self.resumable.len() > 0 || self.reclaimable.len() > 0
    }

    /// Reports whether loading discarded a torn tail.
    pub fn had_torn_tail(&self) -> (torn: bool)
        ensures
            torn == self@.torn_tail,
    {
        self.torn_tail
    }
}

/// An optional borrowed identity as values.
pub open spec fn opt_identity_ref(identity: Option<&CheckpointFileIdentity>) -> Option<
    IdentityView,
> {
    match identity {
        Some(identity) => Some(identity@),
        None => None,
    }
}

/// The first checkpoint that names a temporary: its path and identity.
pub open spec fn temp_record(list: Seq<CheckpointView>, name: Seq<char>) -> Option<
    (Seq<char>, Option<IdentityView>),
>
    decreases list.len(),
{
    if list.len() == 0 {
        None
    } else if list[0].temp_name == name {
        Some((list[0].relative_path, list[0].temp_identity))
    } else {
        temp_record(list.drop_first(), name)
    }
}

/// Whether an orphan record speaks for a child of a directory.
pub open spec fn speaks_for(temp: TempView, name: Seq<char>, directory: Seq<u16>) -> bool {
    &&& temp.temp_name == name
    &&& is_key(temp.relative_path)
    &&& lies_directly_in(units_of_key(temp.relative_path), directory)
}

/// Where the first orphan record stands that speaks for a child of a directory.
pub open spec fn first_speaking(
    list: Seq<TempView>,
    name: Seq<char>,
    directory: Seq<u16>,
) -> int
    decreases list.len(),
{
    if list.len() == 0 || speaks_for(list[0], name, directory) {
        0
    } else {
        1 + first_speaking(list.drop_first(), name, directory)
    }
}

/// What part of an append failed.
#[derive(Clone, Copy, Debug, PartialEq, Eq, Structural)]
pub enum AppendStage {
    /// Seeking the end.
    Seek,
    /// Reading the last byte.
    Probe,
    /// Terminating the last line.
    Heal,
    /// Writing the record.
    Write,
    /// Flushing.
    Flush,
}

impl AppendStage {
    /// How a failure of this part is labelled.
    pub open spec fn spec_context(self) -> Seq<char> {
        match self {
            AppendStage::Seek => "seek journal append"@,
            AppendStage::Probe => "probe journal tail"@,
            AppendStage::Heal => "heal journal tail"@,
            AppendStage::Write => "append journal"@,
            AppendStage::Flush => "flush journal"@,
        }
    }

    /// How a failure of this part is labelled.
    pub fn context(self) -> (text: &'static str)
        ensures
            text@ == self.spec_context(),
    {
        match self {
            AppendStage::Seek => "seek journal append",
            AppendStage::Probe => "probe journal tail",
            AppendStage::Heal => "heal journal tail",
            AppendStage::Write => "append journal",
            AppendStage::Flush => "flush journal",
        }
    }
}

/// The next operation of an append.
#[derive(Clone, Debug, PartialEq, Eq)]
pub enum AppendStep {
    /// Seek the end of the file.
    SeekEnd,
    /// Read the byte in front of the end.
    ProbeTail {
        /// Where the record is to begin.
        before: u64,
    },
    /// Seek the end again.
    SeekBack {
        /// Where the record is to begin.
        before: u64,
        /// Whether the last line is terminated.
        terminated: bool,
    },
    /// Write a newline.
    Heal {
        /// Where the record was to begin.
        before: u64,
    },
    /// Write the record.
    WriteRecord {
        /// Where the record begins.
        before: u64,
    },
    /// Cut the file to where the record began and seek there.
    Rollback {
        /// Where the record began.
        before: u64,
        /// Why it could not be written.
        error: IoError,
    },
    /// Flush the file.
    Flush,
    /// The record is on disk.
    Appended,
    /// The record could not be appended.
    Failed {
        /// What failed.
        stage: AppendStage,
        /// Why.
        error: IoError,
    },
}

/// What an operation of an append came to.
#[derive(Debug, PartialEq, Eq)]
pub enum AppendReply {
    /// The position that was sought.
    Position(Result<u64, IoError>),
    /// The byte that was read.
    Tail(Result<u8, IoError>),
    /// A change that was made.
    Done(Result<(), IoError>),
}

/// Whether a reply answers a step.
pub open spec fn append_answers(step: AppendStep, reply: AppendReply) -> bool {
    match step {
        AppendStep::SeekEnd => reply is Position,
        AppendStep::ProbeTail { .. } => reply is Tail,
        AppendStep::SeekBack { .. } => reply is Position,
        AppendStep::Heal { .. } => reply is Done,
        AppendStep::WriteRecord { .. } => reply is Done,
        AppendStep::Rollback { .. } => reply is Done,
        AppendStep::Flush => reply is Done,
        _ => false,
    }
}

/// The next step of an append.
pub open spec fn append_next(step: AppendStep, reply: AppendReply) -> AppendStep {
    match (step, reply) {
        (AppendStep::SeekEnd, AppendReply::Position(sought)) => match sought {
            Ok(before) => if before > 0 {
                AppendStep::ProbeTail { before }
            } else {
                AppendStep::WriteRecord { before }
            },
            Err(error) => AppendStep::Failed { stage: AppendStage::Seek, error },
        },
        (AppendStep::ProbeTail { before }, AppendReply::Tail(read)) => match read {
            Ok(byte) => AppendStep::SeekBack { before, terminated: byte == 10 },
            Err(error) => AppendStep::Failed { stage: AppendStage::Probe, error },
        },
        (AppendStep::SeekBack { before, terminated }, AppendReply::Position(sought)) => {
            match sought {
                Ok(_) => if terminated {
                    AppendStep::WriteRecord { before }
                } else {
                    AppendStep::Heal { before }
                },
                Err(error) => AppendStep::Failed { stage: AppendStage::Seek, error },
            }
        },
        (AppendStep::Heal { before }, AppendReply::Done(done)) => match done {
            Ok(_) => AppendStep::WriteRecord { before: sat(before, 1) },
            Err(error) => AppendStep::Failed { stage: AppendStage::Heal, error },
        },
        (AppendStep::WriteRecord { before }, AppendReply::Done(done)) => match done {
            Ok(_) => AppendStep::Flush,
            Err(error) => AppendStep::Rollback { before, error },
        },
        (AppendStep::Rollback { error, .. }, AppendReply::Done(_)) => AppendStep::Failed {
            stage: AppendStage::Write,
            error,
        },
        (AppendStep::Flush, AppendReply::Done(done)) => match done {
            Ok(_) => AppendStep::Appended,
            Err(error) => AppendStep::Failed { stage: AppendStage::Flush, error },
        },
        _ => step,
    }
}

/// Decides the next operation of an append. The first one is to seek the end.
///
/// A missing line ending is healed first: a record behind an unterminated line
/// would corrupt both.
pub fn continue_append(step: AppendStep, reply: AppendReply) -> (next: AppendStep)
    requires
        append_answers(step, reply),
    ensures
        next == append_next(step, reply),
{
    match (step, reply) {
        (AppendStep::SeekEnd, AppendReply::Position(sought)) => match sought {
            Ok(before) => {
                if before > 0 {
                    AppendStep::ProbeTail { before }
                } else {
                    AppendStep::WriteRecord { before }
                }
            },
            Err(error) => AppendStep::Failed { stage: AppendStage::Seek, error },
        },
        (AppendStep::ProbeTail { before }, AppendReply::Tail(read)) => match read {
            Ok(byte) => AppendStep::SeekBack { before, terminated: byte == 10 },
            Err(error) => AppendStep::Failed { stage: AppendStage::Probe, error },
        },
        (AppendStep::SeekBack { before, terminated }, AppendReply::Position(sought)) => {
            match sought {
                Ok(_) => {
                    if terminated {
                        AppendStep::WriteRecord { before }
                    } else {
                        AppendStep::Heal { before }
                    }
                },
                Err(error) => AppendStep::Failed { stage: AppendStage::Seek, error },
            }
        },
        (AppendStep::Heal { before }, AppendReply::Done(done)) => match done {
            Ok(_) => AppendStep::WriteRecord { before: before.saturating_add(1) },
            Err(error) => AppendStep::Failed { stage: AppendStage::Heal, error },
        },
        (AppendStep::WriteRecord { before }, AppendReply::Done(done)) => match done {
            Ok(_) => AppendStep::Flush,
            Err(error) => AppendStep::Rollback { before, error },
        },
        (AppendStep::Rollback { error, .. }, AppendReply::Done(_)) => AppendStep::Failed {
            stage: AppendStage::Write,
            error,
        },
        (AppendStep::Flush, AppendReply::Done(done)) => match done {
            Ok(_) => AppendStep::Appended,
            Err(error) => AppendStep::Failed { stage: AppendStage::Flush, error },
        },
        (step, _) => step,
    }
}

/// A record is written only at the start of a line: behind an empty file, a
/// terminated line or a healed one.
pub proof fn records_start_on_their_own_line(step: AppendStep, reply: AppendReply)
    requires
        append_answers(step, reply),
        append_next(step, reply) is WriteRecord,
    ensures
        (step is SeekEnd && reply == AppendReply::Position(Ok(0u64))) || (
        step matches AppendStep::SeekBack { terminated, .. } && terminated) || step is Heal,
{
}

/// A job with another source, destination or other options resumes nothing of
/// the job before it: no checkpoint of that one is left, and each temporary that
/// it can prove to own may be reclaimed. The same job keeps every checkpoint.
pub proof fn another_job_resumes_nothing(
    hints: HintsView,
    run_id: Seq<char>,
    source: Seq<char>,
    destination: Seq<char>,
    options_hash: Seq<char>,
    timestamp: Seq<char>,
    name: Seq<char>,
)
    ensures
        ({
            let after = hints.replaying(
                JournalEventView::Job { run_id, source, destination, options_hash, timestamp },
            );
            let other = hints.active_job matches Some(job) && (job.source != source
                || job.destination != destination || job.options_hash != options_hash);
            let owned = exists|i: int|
                0 <= i < hints.resumable.len() && (#[trigger] hints.resumable[i]).temp_name == name
                    && hints.resumable[i].temp_identity is Some;
            &&& after.active_job matches Some(job) && job.source == source && job.destination
                == destination && job.options_hash == options_hash
            &&& other ==> after.resumable.len() == 0
            &&& !other ==> after.resumable == hints.resumable && after.reclaimable
                == hints.reclaimable
            &&& other ==> (crate::checkpoints::holds_name(after.reclaimable, name)
                <==> crate::checkpoints::holds_name(hints.reclaimable, name) || owned)
        }),
{
    crate::checkpoints::harvest_keeps_every_proof(hints.reclaimable, hints.resumable, name);
    if hints.active_job is Some {
        let job = hints.active_job->0;
        let signature = SignatureView { source, destination, options_hash };
        assert(job == signature <==> job.source == source && job.destination == destination
            && job.options_hash == options_hash);
    }
}

/// A finished file is not resumed after a reload: no checkpoint of any of its
/// streams is left, while those of other files stay.
pub proof fn finished_file_is_not_resumed(
    records: Seq<RecordView>,
    record: RecordView,
    path: Seq<char>,
    key: (Seq<char>, Seq<char>),
)
    requires
        record.event() == Some(JournalEventView::PartDone { relative_path: path }),
    ensures
        ({
            let after = loaded(records.push(record)).hints.resumable;
            &&& key.0 == path ==> found(after, key) is None
            &&& key.0 != path ==> found(after, key) == found(
                interior(records).hints.resumable,
                key,
            )
        }),
{
    assert(records.push(record).drop_last() =~= records);
    crate::checkpoints::retired_path_is_forgotten(interior(records).hints.resumable, path, key);
}

/// A record is trusted only if it is short enough, is JSON and carries the
/// checksum of its own content; a record of another version refuses the whole
/// journal.
pub proof fn record_must_be_whole_and_current(
    raw: Seq<u8>,
    oversized: bool,
    typed: Option<TypedView>,
)
    ensures
        trusted_event(raw, oversized, typed) is Some <==> !oversized && json_unsigned_field_of(
            line_of(raw),
            "j"@,
        ) is Some && (typed matches Some(record) && record.crc == fixed_hex(
            crc32c_of(record.unsigned) as nat,
            8,
        )),
        trusted_event(raw, oversized, typed) matches Some(event) ==> event == typed->0.event,
        refused_version(raw, oversized) is Some <==> !oversized && (json_unsigned_field_of(
            line_of(raw),
            "j"@,
        ) matches Some(Some(version)) && version != 1),
{
}

/// A line is what stands before its line break, with or without a carriage
/// return.
pub proof fn line_ends_before_its_break(text: Seq<u8>)
    requires
        text.len() > 0 ==> text.last() != 10 && text.last() != 13,
    ensures
        line_of(text) == text,
        line_of(text.push(10)) == text,
        line_of(text.push(13).push(10)) == text,
{
    assert(text.push(10).drop_last() =~= text);
    assert(text.push(13).push(10).drop_last() =~= text.push(13));
    assert(text.push(13).drop_last() =~= text);
}

/// Of a record no more than a mebibyte is kept, and a longer one is marked.
pub proof fn long_record_is_cut_and_marked(raw: Seq<u8>)
    requires
        raw.len() <= u64::MAX,
    ensures
        bounded(raw).oversized <==> raw.len() > 0x10_0000,
        bounded(raw).retained.len() <= 0x10_0000,
        bounded(raw).retained.is_prefix_of(raw),
        !bounded(raw).oversized ==> bounded(raw).retained == raw,
        bounded(raw).consumed == raw.len(),
{
}

/// A sealed record is its content up to the closing brace, followed by its own
/// checksum.
pub proof fn sealed_record_carries_its_checksum(unsigned: Seq<u8>)
    requires
        unsigned.len() > 0,
    ensures
        ({
            let line = sealed(unsigned);
            let digits = fixed_hex(crc32c_of(unsigned) as nat, 8);
            let at = unsigned.len() - 1;
            &&& line.take(at) == unsigned.take(at)
            &&& line.len() == at + 8 + digits.len() + 3
            &&& forall|i: int|
                0 <= i < digits.len() ==> line[at + 8 + i] == #[trigger] digits[i] as u8
            &&& line[line.len() - 2] == 125
            &&& line[line.len() - 1] == 10
        }),
{
    let line = sealed(unsigned);
    assert(line.take(unsigned.len() - 1) =~= unsigned.take(unsigned.len() - 1));
}

/// What is in the journal's file while a record is appended to it, and what
/// comes next.
pub ghost struct AppendScene {
    pub step: AppendStep,
    pub file: Seq<u8>,
}

impl AppendScene {
    /// The scene after an operation. A write that fails may leave any part of
    /// itself behind.
    pub open spec fn after(
        self,
        record: Seq<u8>,
        reply: AppendReply,
        debris: Seq<u8>,
    ) -> AppendScene {
        let done = reply matches AppendReply::Done(Ok(_));
        AppendScene {
            step: append_next(self.step, reply),
            file: match self.step {
                AppendStep::Heal { .. } => if done {
                    self.file.push(10)
                } else {
                    self.file
                },
                AppendStep::WriteRecord { .. } => if done {
                    self.file + record
                } else {
                    self.file + debris
                },
                AppendStep::Rollback { before, .. } => if done {
                    self.file.take(before as int)
                } else {
                    self.file
                },
                _ => self.file,
            },
        }
    }

    /// Whether a reply answers the operation and tells the truth of the file.
    pub open spec fn answered_by(self, reply: AppendReply) -> bool {
        &&& append_answers(self.step, reply)
        &&& self.step is SeekEnd ==> (reply matches AppendReply::Position(Ok(end)) ==> end
            == self.file.len())
        &&& self.step is ProbeTail ==> (reply matches AppendReply::Tail(Ok(byte)) ==> byte
            == self.file.last())
    }

    /// What holds of the file at every operation: nothing of what was there is
    /// lost, a record starts only at the start of a line, and what is rolled
    /// back to is the start of the record.
    pub open spec fn keeps(self, old: Seq<u8>, record: Seq<u8>) -> bool {
        let healed = old.push(10);
        let at_line = self.file == old && (old.len() == 0 || old.last() == 10) || self.file
            == healed;
        match self.step {
            AppendStep::SeekEnd => self.file == old,
            AppendStep::ProbeTail { before } => self.file == old && before == old.len() && before
                > 0,
            AppendStep::SeekBack { before, terminated } => self.file == old && before == old.len()
                && before > 0 && terminated == (old.last() == 10),
            AppendStep::Heal { before } => self.file == old && before == old.len(),
            AppendStep::WriteRecord { before } => at_line && before == self.file.len(),
            AppendStep::Rollback { before, .. } => {
                &&& before <= self.file.len()
                &&& self.file.take(before as int) == old || self.file.take(before as int)
                    == healed
            },
            AppendStep::Flush => self.is_appended(old, record),
            AppendStep::Appended => self.is_appended(old, record),
            AppendStep::Failed { .. } => true,
        }
    }

    /// Whether the record stands at the end of the file on a line of its own,
    /// after everything that was there.
    pub open spec fn is_appended(self, old: Seq<u8>, record: Seq<u8>) -> bool {
        self.file == old + record && (old.len() == 0 || old.last() == 10) || self.file
            == old.push(10) + record
    }
}

/// Appending a record keeps everything that was in the journal. It ends well
/// only with the record at the end of the file, on a line of its own; a write
/// that fails is rolled back to exactly where the record would have started.
pub proof fn append_keeps_the_journal_whole(
    scene: AppendScene,
    old: Seq<u8>,
    record: Seq<u8>,
    reply: AppendReply,
    debris: Seq<u8>,
)
    requires
        old.len() < u64::MAX,
        scene.keeps(old, record),
        scene.answered_by(reply),
    ensures
        (AppendScene { step: AppendStep::SeekEnd, file: old }).keeps(old, record),
        scene.after(record, reply, debris).keeps(old, record),
        scene.after(record, reply, debris).step is Appended ==> scene.after(
            record,
            reply,
            debris,
        ).is_appended(old, record),
        scene.step is Rollback && (reply matches AppendReply::Done(Ok(_))) ==> scene.after(
            record,
            reply,
            debris,
        ).file == old || scene.after(record, reply, debris).file == old.push(10),
        scene.after(record, reply, debris).step is Failed && !(scene.step is Rollback)
            ==> scene.after(record, reply, debris).file == scene.file,
{
    let next = scene.after(record, reply, debris);
    if scene.step is WriteRecord && next.step is Rollback {
        assert(next.file.take(scene.file.len() as int) =~= scene.file);
    }
}

/// A temporary may be reclaimed only under the name that was recorded for it and
/// only in the directory of the file it belongs to; the first such record
/// speaks.
pub proof fn reclaimed_temporary_is_a_recorded_one(
    list: Seq<TempView>,
    name: Seq<char>,
    directory: Seq<u16>,
)
    ensures
        0 <= first_speaking(list, name, directory) <= list.len(),
        first_speaking(list, name, directory) < list.len() ==> {
            let temp = list[first_speaking(list, name, directory)];
            temp.temp_name == name && is_key(temp.relative_path) && lies_directly_in(
                units_of_key(temp.relative_path),
                directory,
            )
        },
        first_speaking(list, name, directory) == list.len() ==> forall|i: int|
            0 <= i < list.len() ==> !((#[trigger] list[i]).temp_name == name && is_key(
                list[i].relative_path,
            ) && lies_directly_in(units_of_key(list[i].relative_path), directory)),
    decreases list.len(),
{
    if list.len() > 0 && !speaks_for(list[0], name, directory) {
        let rest = list.drop_first();
        reclaimed_temporary_is_a_recorded_one(rest, name, directory);
        assert forall|i: int| 0 < i < list.len() implies list[i] == rest[i - 1] by {}
    }
}

/// A temporary that may still be resumed is known by the name, the file and the
/// identity of one and the same checkpoint.
pub proof fn resumable_temporary_is_a_recorded_one(list: Seq<CheckpointView>, name: Seq<char>)
    ensures
        temp_record(list, name) matches Some(known) ==> exists|i: int|
            0 <= i < list.len() && (#[trigger] list[i]).temp_name == name && list[i].relative_path
                == known.0 && list[i].temp_identity == known.1,
        temp_record(list, name) is None ==> forall|i: int|
            0 <= i < list.len() ==> (#[trigger] list[i]).temp_name != name,
    decreases list.len(),
{
    if list.len() > 0 && list[0].temp_name != name {
        let rest = list.drop_first();
        resumable_temporary_is_a_recorded_one(rest, name);
        assert forall|i: int| 0 < i < list.len() implies list[i] == rest[i - 1] by {}
        if temp_record(rest, name) is Some {
            let at = choose|i: int|
                0 <= i < rest.len() && (#[trigger] rest[i]).temp_name == name
                    && rest[i].relative_path == (temp_record(rest, name)->0).0
                    && rest[i].temp_identity == (temp_record(rest, name)->0).1;
            assert(list[at + 1] == rest[at]);
        }
    }
}

} // verus!
