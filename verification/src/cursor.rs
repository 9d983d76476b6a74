//! Checkpoint boundaries of one stream, and what is recorded at them.

use vstd::prelude::*;
use vstd::string::*;

use crate::checkpoints::{recorded, Checkpoint, CheckpointFileIdentity, CheckpointView};
use crate::error::{semantic_error_view, ErrorCategory, ErrorView, OperationError};
use crate::hashing::{digest_text, StreamDigest};
use crate::keys::{path_key, spec_key};
use crate::path::{lossy_text, unpaired_from, WidePath};
use crate::platform::{FileIdentity, ObjectMetadata, StreamInfo, StreamView};
use crate::streams::stream_views;

verus! {

/// One gibibyte.
pub const GIB: u64 = 1_073_741_824;

/// One mebibyte.
pub const MIB: u64 = 1_048_576;

/// Whether a stream is checkpointed: it is long enough and there is a journal.
pub fn checkpoint_eligible(size: u64, threshold: u64, journal_available: bool) -> (eligible: bool)
    ensures
        eligible == (size >= threshold && journal_available),
{
    size >= threshold && journal_available
}

/// The distance between the checkpoints of a stream.
pub open spec fn spec_checkpoint_interval(logical_size: u64) -> u64 {
    if logical_size >= 1024 * GIB {
        (4 * GIB) as u64
    } else if logical_size >= 64 * GIB {
        GIB
    } else {
        (256 * MIB) as u64
    }
}

/// The distance between the checkpoints of a stream: longer streams have wider
/// intervals.
pub fn checkpoint_interval(logical_size: u64) -> (interval: u64)
    ensures
        interval == spec_checkpoint_interval(logical_size),
        interval > 0,
{
    if logical_size >= 1024 * GIB {
        4 * GIB
    } else if logical_size >= 64 * GIB {
        GIB
    } else {
        256 * MIB
    }
}

/// The first multiple of the interval behind an offset, or the size of the
/// stream where it ends before.
pub open spec fn spec_next_checkpoint_after(offset: u64, interval: u64, size: u64) -> int {
    if interval == 0 {
        0
    } else {
        let boundary = (offset as int / interval as int + 1) * interval;
        if boundary < size {
            boundary
        } else {
            size as int
        }
    }
}

/// The first boundary behind an offset.
pub fn next_checkpoint_after(offset: u64, interval: u64, size: u64) -> (boundary: u64)
    ensures
        boundary == spec_next_checkpoint_after(offset, interval, size),
{
    if interval == 0 {
        return 0;
    }
    let index: u64 = offset / interval;
    let ghost exact = (offset as int / interval as int + 1) * interval;
    if index == u64::MAX {
        assert(interval >= 1 && exact >= index + 1) by (nonlinear_arith)
            requires
                interval >= 1,
                exact == (index + 1) * interval,
        ;
        return size;
    }
    match (index + 1).checked_mul(interval) {
        Some(boundary) => {
            if boundary < size {
                boundary
            } else {
                size
            }
        },
        None => size,
    }
}

/// A boundary lies behind its offset and inside the stream, and at a multiple
/// of the interval unless the stream ends first.
pub proof fn boundary_lies_ahead(offset: u64, interval: u64, size: u64)
    requires
        interval > 0,
        offset < size,
    ensures
        offset < spec_next_checkpoint_after(offset, interval, size) <= size,
        spec_next_checkpoint_after(offset, interval, size) < size
            ==> spec_next_checkpoint_after(offset, interval, size) % (interval as int) == 0,
        spec_next_checkpoint_after(offset, interval, size) - offset <= interval,
{
    let index = offset as int / interval as int;
    assert(offset < (index + 1) * interval && (index + 1) * interval - offset <= interval)
        by (nonlinear_arith)
        requires
            interval > 0,
            index == offset as int / interval as int,
    ;
    assert(((index + 1) * interval) % (interval as int) == 0) by (nonlinear_arith)
        requires
            interval > 0,
    ;
}

/// What became of a checkpoint.
#[derive(Clone, Copy, Debug, PartialEq, Eq, Structural)]
pub enum CheckpointStatus {
    /// It is on disk and its temporary outlives the process.
    Written,
    /// It could not be written; the file goes on without checkpoints.
    Disabled,
    /// There is no journal.
    NotConfigured,
}

/// Per-stream checkpoint-boundary bookkeeping.
#[derive(Clone, Copy, Debug, PartialEq, Eq)]
pub struct CheckpointCursor {
    /// Next boundary at which a checkpoint is to be appended.
    pub next: Option<u64>,
    /// Distance between checkpoint boundaries for this stream.
    pub interval: u64,
    /// Logical size of the stream being checkpointed.
    pub total_size: u64,
    /// Identity of the temporary, captured once. `None` while eligible means
    /// that the capture failed, which disables checkpointing.
    pub temp_identity: Option<FileIdentity>,
}

impl CheckpointCursor {
    /// Whether the pending boundary lies ahead of a position, or at the end
    /// with it.
    pub open spec fn stands_at(self, position: u64) -> bool {
        &&& self.interval > 0
        &&& position <= self.total_size
        &&& self.next matches Some(boundary) ==> position < boundary <= self.total_size || (
        position == self.total_size && boundary == self.total_size)
    }

    /// The bookkeeping of one stream whose copy starts at `position`.
    pub open spec fn scheduled(
        eligible: bool,
        position: u64,
        total_size: u64,
        temp_identity: Option<FileIdentity>,
    ) -> CheckpointCursor {
        let interval = spec_checkpoint_interval(total_size);
        CheckpointCursor {
            next: if eligible {
                Some(spec_next_checkpoint_after(position, interval, total_size) as u64)
            } else {
                None
            },
            interval,
            total_size,
            temp_identity,
        }
    }

    /// Schedules boundaries for one stream whose copy starts at `position`.
    pub fn new(
        eligible: bool,
        position: u64,
        total_size: u64,
        temp_identity: Option<FileIdentity>,
    ) -> (cursor: CheckpointCursor)
        requires
            position <= total_size,
        ensures
            cursor.stands_at(position),
            cursor == CheckpointCursor::scheduled(eligible, position, total_size, temp_identity),
    {
        let interval: u64 = checkpoint_interval(total_size);
        let next: Option<u64> = if eligible {
            Some(next_checkpoint_after(position, interval, total_size))
        } else {
            None
        };
        proof {
            if position < total_size {
                boundary_lies_ahead(position, interval, total_size);
            } else {
                lemma_boundary_at_the_end(total_size, interval);
            }
        }
        CheckpointCursor { next, interval, total_size, temp_identity }
    }

    /// The bytes that may be moved from a position.
    pub open spec fn spec_bound(self, position: u64, remaining: u64) -> u64 {
        match self.next {
            Some(boundary) => if boundary - position < remaining {
                (boundary - position) as u64
            } else {
                remaining
            },
            None => remaining,
        }
    }

    /// Bytes the caller may move from `position` before the pending boundary,
    /// capped at `remaining`.
    pub fn bound(&self, position: u64, remaining: u64) -> (bytes: u64)
        requires
            self.stands_at(position),
        ensures
            bytes == self.spec_bound(position, remaining),
    {
        match self.next {
            Some(boundary) => {
                let ahead: u64 = boundary - position;
                if ahead < remaining {
                    ahead
                } else {
                    remaining
                }
            },
            None => remaining,
        }
    }

    /// Whether a checkpoint is due exactly at a position.
    pub fn is_due(&self, position: u64) -> (due: bool)
        ensures
            due == (self.next == Some(position)),
    {
        match self.next {
            Some(boundary) => boundary == position,
            None => false,
        }
    }

    /// The cursor after a checkpoint at a position.
    pub open spec fn after(self, position: u64, status: CheckpointStatus) -> CheckpointCursor {
        CheckpointCursor {
            next: match status {
                CheckpointStatus::Written => if position < self.total_size {
                    Some(
                        spec_next_checkpoint_after(
                            position,
                            self.interval,
                            self.total_size,
                        ) as u64,
                    )
                } else {
                    None
                },
                _ => None,
            },
            ..self
        }
    }

    /// Schedules the boundary after a checkpoint that was due at `position`. A
    /// journal that cannot be written ends checkpointing for this file.
    pub fn advance(&mut self, position: u64, status: CheckpointStatus)
        requires
            old(self).next == Some(position),
            old(self).interval > 0,
            position <= old(self).total_size,
        ensures
            *final(self) == old(self).after(position, status),
            final(self).stands_at(position),
    {
        let next: Option<u64> = match status {
            CheckpointStatus::Written => {
                if position < self.total_size {
                    proof {
                        boundary_lies_ahead(position, self.interval, self.total_size);
                    }
                    Some(next_checkpoint_after(position, self.interval, self.total_size))
                } else {
                    None
                }
            },
            _ => None,
        };
        self.next = next;
    }
}

proof fn lemma_boundary_at_the_end(size: u64, interval: u64)
    requires
        interval > 0,
    ensures
        spec_next_checkpoint_after(size, interval, size) == size,
{
    let index = size as int / interval as int;
    assert((index + 1) * interval > size) by (nonlinear_arith)
        requires
            interval > 0,
            index == size as int / interval as int,
    ;
}

/// A transfer bounded by the cursor makes progress, stays inside the stream and
/// never crosses a boundary: the position that it reaches is at most the
/// pending one.
pub proof fn bounded_transfer_stops_at_the_boundary(
    cursor: CheckpointCursor,
    position: u64,
    moved: u64,
)
    requires
        cursor.stands_at(position),
        position < cursor.total_size,
        moved <= cursor.spec_bound(position, (cursor.total_size - position) as u64),
    ensures
        cursor.spec_bound(position, (cursor.total_size - position) as u64) > 0,
        position + moved <= cursor.total_size,
        cursor.next matches Some(boundary) ==> position + moved <= boundary,
        cursor.next != Some((position + moved) as u64) ==> cursor.stands_at(
            (position + moved) as u64,
        ),
{
}

/// What is to be done about one checkpoint.
#[derive(Clone, Debug, PartialEq, Eq)]
pub enum CheckpointPlan {
    /// Nothing is appended.
    Settled(CheckpointStatus),
    /// The checkpoint is to be appended.
    Append(Checkpoint),
}

/// The failure of a stream that reached a boundary without a digest.
pub open spec fn no_digest(rel: Seq<u16>) -> ErrorView {
    semantic_error_view(
        ErrorCategory::Internal,
        "checkpoint"@,
        rel,
        "checkpoint-eligible stream did not have an in-flight digest"@,
    )
}

/// The failure of a temporary whose name cannot be recorded.
pub open spec fn unrecordable_name(rel: Seq<u16>) -> ErrorView {
    semantic_error_view(
        ErrorCategory::Internal,
        "checkpoint"@,
        rel,
        "owned temporary name was not valid UTF-8"@,
    )
}

/// What a checkpoint records of a stream whose first `watermark` bytes are in
/// `prefix`.
pub open spec fn checkpoint_of(
    rel: Seq<u16>,
    stream: Seq<char>,
    temp_name: Seq<u16>,
    temp_identity: FileIdentity,
    source: ObjectMetadata,
    source_size: u64,
    watermark: u64,
    prefix: Seq<u8>,
) -> CheckpointView {
    CheckpointView {
        relative_path: spec_key(rel),
        stream,
        temp_name: lossy_text(temp_name),
        temp_identity: Some(recorded(temp_identity)),
        source_identity: Some(recorded(source.identity)),
        source_size,
        source_mtime: source.basic.last_write_time,
        watermark,
        prefix_digest: digest_text(prefix),
    }
}

/// Prepares the checkpoint that attests the stream prefix up to `watermark`.
pub fn append_checkpoint(
    journal_available: bool,
    relative: &WidePath,
    stream: &str,
    temp_name: &WidePath,
    temp_identity: Option<FileIdentity>,
    source: &ObjectMetadata,
    source_size: u64,
    watermark: u64,
    hasher: &Option<StreamDigest>,
) -> (plan: Result<CheckpointPlan, OperationError>)
    ensures
        if !journal_available {
            plan matches Ok(CheckpointPlan::Settled(CheckpointStatus::NotConfigured))
        } else if *hasher is None {
            plan matches Err(error) && error@ == no_digest(relative@)
        } else if unpaired_from(temp_name@, 0) {
            plan matches Err(error) && error@ == unrecordable_name(relative@)
        } else if temp_identity is None {
            plan matches Ok(CheckpointPlan::Settled(CheckpointStatus::Disabled))
        } else {
            plan matches Ok(CheckpointPlan::Append(checkpoint)) && checkpoint@ == checkpoint_of(
                relative@,
                stream@,
                temp_name@,
                temp_identity->0,
                *source,
                source_size,
                watermark,
                hasher->0@,
            )
        },
{
    if !journal_available {
        return Ok(CheckpointPlan::Settled(CheckpointStatus::NotConfigured));
    }
    let hasher = match hasher {
        Some(hasher) => hasher,
        None => {
            return Err(
                OperationError::semantic(
                    ErrorCategory::Internal,
                    "checkpoint",
                    relative.copied(),
                    "checkpoint-eligible stream did not have an in-flight digest".to_owned(),
                ),
            );
        },
    };
    if temp_name.is_lossy() {
        return Err(
            OperationError::semantic(
                ErrorCategory::Internal,
                "checkpoint",
                relative.copied(),
                "owned temporary name was not valid UTF-8".to_owned(),
            ),
        );
    }
    let identity = match temp_identity {
        Some(identity) => identity,
        None => {
            return Ok(CheckpointPlan::Settled(CheckpointStatus::Disabled));
        },
    };
    Ok(
        CheckpointPlan::Append(
            Checkpoint {
                relative_path: path_key(relative),
                stream: stream.to_owned(),
                temp_name: temp_name.to_text_lossy(),
                temp_identity: Some(CheckpointFileIdentity::from_file(identity)),
                source_identity: Some(CheckpointFileIdentity::from_file(source.identity)),
                source_size,
                source_mtime: source.basic.last_write_time,
                watermark,
                prefix_digest: hasher.finish(),
            },
        ),
    )
}

/// What became of a checkpoint: it counts only once its record is on disk and
/// its temporary is kept. A temporary that is not kept is still deleted with
/// its handle, and its record will miss on the next run.
pub fn checkpoint_status(appended: bool, persisted: bool) -> (status: CheckpointStatus)
    ensures
        status is Written <==> appended && persisted,
        status is Disabled <==> !(appended && persisted),
{
    if appended && persisted {
        CheckpointStatus::Written
    } else {
        CheckpointStatus::Disabled
    }
}

/// Whether a named stream is long enough for checkpoints.
pub open spec fn has_resumable_name(streams: Seq<StreamView>, threshold: u64) -> bool {
    exists|i: int|
        0 <= i < streams.len() && !(#[trigger] streams[i]).is_unnamed() && streams[i].size
            >= threshold
}

/// Whether a base checkpoint is to precede the named streams: one of them is
/// long enough for checkpoints, and none has been written for this file.
pub fn needs_base_checkpoint(
    destination_supports_streams: bool,
    streams: &[StreamInfo],
    threshold: u64,
    journal_available: bool,
    temp_is_persistent: bool,
) -> (needed: bool)
    ensures
        needed == (destination_supports_streams && journal_available && !temp_is_persistent
            && has_resumable_name(stream_views(streams@), threshold)),
{
    if !destination_supports_streams || !journal_available || temp_is_persistent {
        return false;
    }
    for i in 0..streams.len()
        invariant
            destination_supports_streams && journal_available && !temp_is_persistent,
            forall|j: int|
                0 <= j < i ==> (#[trigger] streams@[j])@.is_unnamed() || streams@[j].size
                    < threshold,
    {
        if !streams[i].is_unnamed() && streams[i].size >= threshold {
            assert(stream_views(streams@)[i as int] == streams@[i as int]@);
            return true;
        }
    }
    assert forall|j: int| 0 <= j < stream_views(streams@).len() implies (#[trigger] stream_views(
        streams@,
    )[j]).is_unnamed() || stream_views(streams@)[j].size < threshold by {
        assert(stream_views(streams@)[j] == streams@[j]@);
    }
    false
}

/// Checkpoints are a quarter of a gibibyte apart up to 64 GiB, one gibibyte up
/// to a tebibyte and four from there on.
pub proof fn checkpoint_spacing_follows_the_size(size: u64)
    ensures
        size < 0x10_0000_0000 ==> spec_checkpoint_interval(size) == 0x1000_0000,
        0x10_0000_0000 <= size < 0x100_0000_0000 ==> spec_checkpoint_interval(size) == 0x4000_0000,
        size >= 0x100_0000_0000 ==> spec_checkpoint_interval(size) == 0x1_0000_0000,
{
}

/// A checkpoint says of the source exactly what a later run compares, and of
/// the temporary exactly how far it is written and what was digested by then.
pub proof fn checkpoint_records_what_a_resume_compares(
    rel: Seq<u16>,
    stream: Seq<char>,
    temp_name: Seq<u16>,
    temp_identity: FileIdentity,
    source: ObjectMetadata,
    source_size: u64,
    watermark: u64,
    prefix: Seq<u8>,
)
    ensures
        ({
            let checkpoint = checkpoint_of(
                rel,
                stream,
                temp_name,
                temp_identity,
                source,
                source_size,
                watermark,
                prefix,
            );
            &&& checkpoint.relative_path == spec_key(rel)
            &&& checkpoint.stream == stream
            &&& checkpoint.temp_name == lossy_text(temp_name)
            &&& checkpoint.source_size == source_size
            &&& checkpoint.source_mtime == source.basic.last_write_time
            &&& checkpoint.source_identity matches Some(identity) && identity.volume_serial
                == source.identity.volume_serial && identity == recorded(source.identity)
            &&& checkpoint.temp_identity matches Some(identity) && identity.volume_serial
                == temp_identity.volume_serial && identity == recorded(temp_identity)
            &&& checkpoint.watermark == watermark
            &&& checkpoint.prefix_digest == digest_text(prefix)
        }),
{
}

/// A cursor that could write its checkpoint points at the next boundary ahead,
/// until the stream ends; one that could not asks for none again.
pub proof fn cursor_moves_ahead_or_ends(
    cursor: CheckpointCursor,
    position: u64,
    status: CheckpointStatus,
)
    requires
        cursor.interval > 0,
        position <= cursor.total_size,
    ensures
        ({
            let next = cursor.after(position, status);
            &&& next.next is Some <==> status is Written && position < cursor.total_size
            &&& next.next matches Some(boundary) ==> position < boundary <= cursor.total_size
                && boundary - position <= cursor.interval
            &&& next.interval == cursor.interval
            &&& next.total_size == cursor.total_size
            &&& next.temp_identity == cursor.temp_identity
        }),
{
    if position < cursor.total_size {
        boundary_lies_ahead(position, cursor.interval, cursor.total_size);
    }
}

} // verus!
