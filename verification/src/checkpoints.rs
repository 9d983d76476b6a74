//! Resumable stream checkpoints: hints about partial copies, kept in key order,
//! and the temporaries that outlive them.

use vstd::prelude::*;
use vstd::string::*;

use crate::hashing::{hex_encode, hex_is_injective, hex_text};
use crate::platform::FileIdentity;
use crate::text::{
    str_eq, text_before, text_less, text_order_is_irreflexive, text_order_is_total,
    text_order_is_transitive,
};

verus! {

/// Stable identity of a file named by a checkpoint.
///
/// The name alone is no proof of ownership: an old temporary can be removed and
/// an unrelated object can later appear at the same path.
#[derive(Clone, Debug, PartialEq, Eq)]
pub struct CheckpointFileIdentity {
    /// Volume serial.
    pub volume_serial: u64,
    /// Lowercase hexadecimal encoding of the 128-bit file ID.
    pub file_id: String,
}

/// A recorded identity as values.
#[verifier::ext_equal]
pub ghost struct IdentityView {
    pub volume_serial: u64,
    pub file_id: Seq<char>,
}

impl View for CheckpointFileIdentity {
    type V = IdentityView;

    open spec fn view(&self) -> IdentityView {
        IdentityView { volume_serial: self.volume_serial, file_id: self.file_id@ }
    }
}

/// How an identity is recorded.
pub open spec fn recorded(identity: FileIdentity) -> IdentityView {
    IdentityView {
        volume_serial: identity.volume_serial,
        file_id: hex_text(identity.file_id@),
    }
}

impl CheckpointFileIdentity {
    /// Captures a filesystem identity in the journal's stable shape.
    pub fn from_file(identity: FileIdentity) -> (recorded_identity: Self)
        ensures
            recorded_identity@ == recorded(identity),
    {
        CheckpointFileIdentity {
            volume_serial: identity.volume_serial,
            file_id: hex_encode(identity.file_id.as_slice()),
        }
    }

    /// Returns whether a currently opened object is the recorded one.
    pub fn matches(&self, identity: FileIdentity) -> (same: bool)
        ensures
            same == (self@ == recorded(identity)),
    {
        let text = hex_encode(identity.file_id.as_slice());
        self.volume_serial == identity.volume_serial && str_eq(self.file_id.as_str(), text.as_str())
    }

    /// An equal identity.
    pub fn copied(&self) -> (copy: Self)
        ensures
            copy@ == self@,
    {
        CheckpointFileIdentity {
            volume_serial: self.volume_serial,
            file_id: self.file_id.clone(),
        }
    }
}

/// A recorded identity matches exactly the file that it was taken from: volume
/// and file ID both count.
pub proof fn recorded_identity_is_unique(left: FileIdentity, right: FileIdentity)
    ensures
        recorded(left) == recorded(right) <==> left.volume_serial == right.volume_serial
            && left.file_id@ == right.file_id@,
{
    if recorded(left) == recorded(right) {
        hex_is_injective(left.file_id@, right.file_id@);
    }
}

/// One resumable stream checkpoint.
#[derive(Clone, Debug, PartialEq, Eq)]
pub struct Checkpoint {
    /// Journal key of the relative path.
    pub relative_path: String,
    /// Empty for the unnamed stream, otherwise the key of the named stream.
    pub stream: String,
    /// Opaque sibling temporary name.
    pub temp_name: String,
    /// Identity of the temporary at checkpoint time. A record without it is
    /// never eligible for resume.
    pub temp_identity: Option<CheckpointFileIdentity>,
    /// Identity of the source file that produced this partial.
    pub source_identity: Option<CheckpointFileIdentity>,
    /// Source stream size at checkpoint time.
    pub source_size: u64,
    /// Source last-write time.
    pub source_mtime: i64,
    /// Tentative contiguous write watermark.
    pub watermark: u64,
    /// Digest of exactly the prefix before the watermark.
    pub prefix_digest: String,
}

/// A checkpoint as values.
#[verifier::ext_equal]
pub ghost struct CheckpointView {
    pub relative_path: Seq<char>,
    pub stream: Seq<char>,
    pub temp_name: Seq<char>,
    pub temp_identity: Option<IdentityView>,
    pub source_identity: Option<IdentityView>,
    pub source_size: u64,
    pub source_mtime: i64,
    pub watermark: u64,
    pub prefix_digest: Seq<char>,
}

/// An optional identity as values.
pub open spec fn opt_identity(identity: Option<CheckpointFileIdentity>) -> Option<IdentityView> {
    match identity {
        Some(identity) => Some(identity@),
        None => None,
    }
}

fn copy_identity(identity: &Option<CheckpointFileIdentity>) -> (copy: Option<
    CheckpointFileIdentity,
>)
    ensures
        opt_identity(copy) == opt_identity(*identity),
{
    match identity {
        Some(identity) => Some(identity.copied()),
        None => None,
    }
}

impl View for Checkpoint {
    type V = CheckpointView;

    open spec fn view(&self) -> CheckpointView {
        CheckpointView {
            relative_path: self.relative_path@,
            stream: self.stream@,
            temp_name: self.temp_name@,
            temp_identity: opt_identity(self.temp_identity),
            source_identity: opt_identity(self.source_identity),
            source_size: self.source_size,
            source_mtime: self.source_mtime,
            watermark: self.watermark,
            prefix_digest: self.prefix_digest@,
        }
    }
}

impl CheckpointView {
    /// Whose stream a checkpoint is about.
    pub open spec fn key(self) -> (Seq<char>, Seq<char>) {
        (self.relative_path, self.stream)
    }
}

impl Checkpoint {
    /// An equal checkpoint.
    pub fn copied(&self) -> (copy: Checkpoint)
        ensures
            copy@ == self@,
    {
        Checkpoint {
            relative_path: self.relative_path.clone(),
            stream: self.stream.clone(),
            temp_name: self.temp_name.clone(),
            temp_identity: copy_identity(&self.temp_identity),
            source_identity: copy_identity(&self.source_identity),
            source_size: self.source_size,
            source_mtime: self.source_mtime,
            watermark: self.watermark,
            prefix_digest: self.prefix_digest.clone(),
        }
    }

    fn has_key(&self, path: &str, stream: &str) -> (same: bool)
        ensures
            same == (self@.key() == (path@, stream@)),
    {
        str_eq(self.relative_path.as_str(), path) && str_eq(self.stream.as_str(), stream)
    }
}

/// Whether a key comes strictly before another: by path, then by stream.
pub open spec fn key_before(
    left: (Seq<char>, Seq<char>),
    right: (Seq<char>, Seq<char>),
) -> bool {
    text_before(left.0, right.0) || (left.0 == right.0 && text_before(left.1, right.1))
}

fn key_less(left: &Checkpoint, right: &Checkpoint) -> (less: bool)
    ensures
        less == key_before(left@.key(), right@.key()),
{
    text_less(left.relative_path.as_str(), right.relative_path.as_str()) || (str_eq(
        left.relative_path.as_str(),
        right.relative_path.as_str(),
    ) && text_less(left.stream.as_str(), right.stream.as_str()))
}

/// The checkpoints as values.
pub open spec fn checkpoint_views(list: Seq<Checkpoint>) -> Seq<CheckpointView> {
    list.map_values(|checkpoint: Checkpoint| checkpoint@)
}

/// Whether the keys are in strictly ascending order.
pub open spec fn ordered(list: Seq<CheckpointView>) -> bool {
    forall|i: int, j: int|
        0 <= i < j < list.len() ==> key_before(#[trigger] list[i].key(), #[trigger] list[j].key())
}

/// Where a key belongs: behind every key that comes before it.
pub open spec fn slot(list: Seq<CheckpointView>, key: (Seq<char>, Seq<char>)) -> int
    decreases list.len(),
{
    if list.len() == 0 || !key_before(list[0].key(), key) {
        0
    } else {
        1 + slot(list.drop_first(), key)
    }
}

/// The checkpoints with one more, which replaces an earlier one of its stream.
pub open spec fn stored(list: Seq<CheckpointView>, checkpoint: CheckpointView) -> Seq<
    CheckpointView,
> {
    let at = slot(list, checkpoint.key());
    if at < list.len() && list[at].key() == checkpoint.key() {
        list.update(at, checkpoint)
    } else {
        list.insert(at, checkpoint)
    }
}

/// The checkpoint of a stream.
pub open spec fn found(list: Seq<CheckpointView>, key: (Seq<char>, Seq<char>)) -> Option<
    CheckpointView,
>
    decreases list.len(),
{
    if list.len() == 0 {
        None
    } else if list[0].key() == key {
        Some(list[0])
    } else {
        found(list.drop_first(), key)
    }
}

/// The checkpoints of every other path.
pub open spec fn without_path(list: Seq<CheckpointView>, path: Seq<char>) -> Seq<CheckpointView>
    decreases list.len(),
{
    if list.len() == 0 {
        seq![]
    } else {
        let rest = without_path(list.drop_last(), path);
        if list.last().relative_path == path {
            rest
        } else {
            rest.push(list.last())
        }
    }
}

/// Stores a checkpoint, in place of an earlier one of its stream.
pub fn store_checkpoint(list: &mut Vec<Checkpoint>, checkpoint: Checkpoint)
    ensures
        checkpoint_views(final(list)@) == stored(checkpoint_views(old(list)@), checkpoint@),
{
    let ghost all = checkpoint_views(list@);
    let ghost key = checkpoint@.key();
    let mut at: usize = 0;
    assert(all.skip(0) =~= all);
    while at < list.len() && key_less(&list[at], &checkpoint)
        invariant
            at <= list.len(),
            all == checkpoint_views(list@),
            key == checkpoint@.key(),
            slot(all, key) == at + slot(all.skip(at as int), key),
        decreases list.len() - at,
    {
        assert(all.skip(at as int).drop_first() =~= all.skip(at as int + 1));
        at = at + 1;
    }
    assert(slot(all.skip(at as int), key) == 0);
    if at < list.len() && list[at].has_key(
        checkpoint.relative_path.as_str(),
        checkpoint.stream.as_str(),
    ) {
        list.set(at, checkpoint);
        assert(checkpoint_views(list@) =~= stored(all, checkpoint@));
    } else {
        list.insert(at, checkpoint);
        assert(checkpoint_views(list@) =~= stored(all, checkpoint@));
    }
}

/// Finds the checkpoint of a stream.
pub fn find_checkpoint<'a>(list: &'a Vec<Checkpoint>, path: &str, stream: &str) -> (hit: Option<
    &'a Checkpoint,
>)
    ensures
        match hit {
            Some(checkpoint) => found(checkpoint_views(list@), (path@, stream@)) == Some(
                checkpoint@,
            ),
            None => found(checkpoint_views(list@), (path@, stream@)) is None,
        },
{
    let ghost all = checkpoint_views(list@);
    assert(all.skip(0) =~= all);
    for i in 0..list.len()
        invariant
            all == checkpoint_views(list@),
            found(all, (path@, stream@)) == found(all.skip(i as int), (path@, stream@)),
    {
        assert(all.skip(i as int).drop_first() =~= all.skip(i as int + 1));
        assert(all.skip(i as int)[0] == list@[i as int]@);
        if list[i].has_key(path, stream) {
            return Some(&list[i]);
        }
    }
    None
}

/// Retires every checkpoint of one path.
pub fn retire_path(list: Vec<Checkpoint>, path: &str) -> (kept: Vec<Checkpoint>)
    ensures
        checkpoint_views(kept@) == without_path(checkpoint_views(list@), path@),
{
    let ghost all = checkpoint_views(list@);
    let mut kept: Vec<Checkpoint> = Vec::new();
    assert(checkpoint_views(kept@) =~= without_path(all.take(0), path@));
    for i in 0..list.len()
        invariant
            all == checkpoint_views(list@),
            checkpoint_views(kept@) == without_path(all.take(i as int), path@),
    {
        let ghost before = checkpoint_views(kept@);
        assert(all.take(i as int + 1).drop_last() =~= all.take(i as int));
        assert(all.take(i as int + 1).last() == list@[i as int]@);
        if !str_eq(list[i].relative_path.as_str(), path) {
            kept.push(list[i].copied());
            assert(checkpoint_views(kept@) =~= before.push(list@[i as int]@));
        }
    }
    assert(all.take(all.len() as int) =~= all);
    kept
}

/// One orphaned temporary that a checkpoint proves to be owned.
#[derive(Clone, Debug, PartialEq, Eq)]
pub struct ReclaimableTemp {
    /// Opaque sibling temporary name recorded by the checkpoint.
    pub temp_name: String,
    /// Filesystem identity captured when the temporary was created.
    pub temp_identity: CheckpointFileIdentity,
    /// Journal key of the final file the temporary was staged for.
    pub relative_path: String,
}

/// An orphaned temporary as values.
#[verifier::ext_equal]
pub ghost struct TempView {
    pub temp_name: Seq<char>,
    pub temp_identity: IdentityView,
    pub relative_path: Seq<char>,
}

impl View for ReclaimableTemp {
    type V = TempView;

    open spec fn view(&self) -> TempView {
        TempView {
            temp_name: self.temp_name@,
            temp_identity: self.temp_identity@,
            relative_path: self.relative_path@,
        }
    }
}

/// The temporaries as values.
pub open spec fn temp_views(list: Seq<ReclaimableTemp>) -> Seq<TempView> {
    list.map_values(|temp: ReclaimableTemp| temp@)
}

/// Whether a temporary of that name is among the harvested ones.
pub open spec fn holds_name(list: Seq<TempView>, name: Seq<char>) -> bool {
    exists|i: int| 0 <= i < list.len() && #[trigger] list[i].temp_name == name
}

/// The harvest with the temporary of one checkpoint, if it can be proven and is
/// not there yet: the streams of one file share one temporary.
pub open spec fn with_temp(list: Seq<TempView>, checkpoint: CheckpointView) -> Seq<TempView> {
    match checkpoint.temp_identity {
        Some(identity) => if holds_name(list, checkpoint.temp_name) {
            list
        } else {
            list.push(
                TempView {
                    temp_name: checkpoint.temp_name,
                    temp_identity: identity,
                    relative_path: checkpoint.relative_path,
                },
            )
        },
        None => list,
    }
}

/// The harvest with the temporaries of all checkpoints.
pub open spec fn harvested(list: Seq<TempView>, checkpoints: Seq<CheckpointView>) -> Seq<TempView>
    decreases checkpoints.len(),
{
    if checkpoints.len() == 0 {
        list
    } else {
        with_temp(harvested(list, checkpoints.drop_last()), checkpoints.last())
    }
}

fn is_held(list: &Vec<ReclaimableTemp>, name: &str) -> (held: bool)
    ensures
        held == holds_name(temp_views(list@), name@),
{
    for i in 0..list.len()
        invariant
            forall|j: int| 0 <= j < i ==> list@[j].temp_name@ != name@,
    {
        if str_eq(list[i].temp_name.as_str(), name) {
            assert(temp_views(list@)[i as int].temp_name == name@);
            return true;
        }
    }
    assert forall|j: int| 0 <= j < temp_views(list@).len() implies #[trigger] temp_views(
        list@,
    )[j].temp_name != name@ by {
        assert(temp_views(list@)[j].temp_name == list@[j].temp_name@);
    }
    false
}

/// Moves every checkpoint with a recorded identity into the harvest. The others
/// are dropped: nothing can ever prove that the object on disk is the temporary
/// that they mean.
pub fn harvest_reclaimable(resumable: &mut Vec<Checkpoint>, reclaimable: &mut Vec<ReclaimableTemp>)
    ensures
        final(resumable)@.len() == 0,
        temp_views(final(reclaimable)@) == harvested(
            temp_views(old(reclaimable)@),
            checkpoint_views(old(resumable)@),
        ),
{
    let ghost start = temp_views(reclaimable@);
    let ghost all = checkpoint_views(resumable@);
    let mut taken: Vec<Checkpoint> = Vec::new();
    std::mem::swap(&mut taken, resumable);
    for i in 0..taken.len()
        invariant
            all == checkpoint_views(taken@),
            temp_views(reclaimable@) == harvested(start, all.take(i as int)),
    {
        let ghost before = temp_views(reclaimable@);
        assert(all.take(i as int + 1).drop_last() =~= all.take(i as int));
        assert(all.take(i as int + 1).last() == taken@[i as int]@);
        if let Some(identity) = &taken[i].temp_identity {
            if !is_held(reclaimable, taken[i].temp_name.as_str()) {
                let temp = ReclaimableTemp {
                    temp_name: taken[i].temp_name.clone(),
                    temp_identity: identity.copied(),
                    relative_path: taken[i].relative_path.clone(),
                };
                reclaimable.push(temp);
                assert(temp_views(reclaimable@) =~= before.push(temp@));
            }
        }
    }
    assert(all.take(all.len() as int) =~= all);
}

proof fn lemma_key_order(
    one: (Seq<char>, Seq<char>),
    two: (Seq<char>, Seq<char>),
    three: (Seq<char>, Seq<char>),
)
    ensures
        !key_before(one, one),
        key_before(one, two) && key_before(two, three) ==> key_before(one, three),
        key_before(one, two) || key_before(two, one) || one == two,
{
    text_order_is_irreflexive(one.0);
    text_order_is_irreflexive(one.1);
    text_order_is_total(one.0, two.0);
    text_order_is_total(one.1, two.1);
    if key_before(one, two) && key_before(two, three) {
        if text_before(one.0, two.0) && text_before(two.0, three.0) {
            text_order_is_transitive(one.0, two.0, three.0);
        }
        if text_before(one.1, two.1) && text_before(two.1, three.1) {
            text_order_is_transitive(one.1, two.1, three.1);
        }
    }
}

proof fn lemma_slot(list: Seq<CheckpointView>, key: (Seq<char>, Seq<char>))
    ensures
        0 <= slot(list, key) <= list.len(),
        forall|i: int|
            0 <= i < slot(list, key) ==> key_before(#[trigger] list[i].key(), key),
        slot(list, key) < list.len() ==> !key_before(list[slot(list, key)].key(), key),
    decreases list.len(),
{
    if list.len() > 0 && key_before(list[0].key(), key) {
        let rest = list.drop_first();
        lemma_slot(rest, key);
        assert forall|i: int| 0 <= i < slot(list, key) implies key_before(
            #[trigger] list[i].key(),
            key,
        ) by {
            if i > 0 {
                assert(rest[i - 1].key() == list[i].key());
            }
        }
    }
}

proof fn lemma_found_at(list: Seq<CheckpointView>, key: (Seq<char>, Seq<char>), at: int)
    requires
        0 <= at < list.len(),
        list[at].key() == key,
        forall|i: int| 0 <= i < at ==> (#[trigger] list[i].key()) != key,
    ensures
        found(list, key) == Some(list[at]),
    decreases at,
{
    if at > 0 {
        let rest = list.drop_first();
        assert(list[0].key() != key);
        assert forall|i: int| 0 <= i < at - 1 implies (#[trigger] rest[i].key()) != key by {
            assert(list[i + 1].key() != key);
        }
        lemma_found_at(rest, key, at - 1);
    }
}

proof fn lemma_found_beside(
    list: Seq<CheckpointView>,
    key: (Seq<char>, Seq<char>),
    at: int,
    checkpoint: CheckpointView,
)
    requires
        checkpoint.key() != key,
        0 <= at <= list.len(),
    ensures
        found(list.insert(at, checkpoint), key) == found(list, key),
        at < list.len() && list[at].key() != key ==> found(list.update(at, checkpoint), key)
            == found(list, key),
    decreases list.len(),
{
    if at == 0 {
        assert(list.insert(0, checkpoint).drop_first() =~= list);
        if list.len() > 0 {
            assert(list.update(0, checkpoint).drop_first() =~= list.drop_first());
        }
    } else {
        lemma_found_beside(list.drop_first(), key, at - 1, checkpoint);
        assert(list.insert(at, checkpoint).drop_first() =~= list.drop_first().insert(
            at - 1,
            checkpoint,
        ));
        if at < list.len() {
            assert(list.update(at, checkpoint).drop_first() =~= list.drop_first().update(
                at - 1,
                checkpoint,
            ));
        }
    }
}

/// The last checkpoint of a stream is the one that is found, and the
/// checkpoints of other streams are found as before.
pub proof fn stored_checkpoint_is_found(
    list: Seq<CheckpointView>,
    checkpoint: CheckpointView,
    other: (Seq<char>, Seq<char>),
)
    ensures
        found(stored(list, checkpoint), checkpoint.key()) == Some(checkpoint),
        other != checkpoint.key() ==> found(stored(list, checkpoint), other) == found(list, other),
{
    let key = checkpoint.key();
    let at = slot(list, key);
    lemma_slot(list, key);
    let next = stored(list, checkpoint);
    assert forall|i: int| 0 <= i < at implies (#[trigger] next[i].key()) != key by {
        assert(next[i] == list[i]);
        lemma_key_order(list[i].key(), key, key);
        lemma_key_order(key, key, key);
    }
    lemma_found_at(next, key, at);
    if other != key {
        lemma_found_beside(list, other, at, checkpoint);
    }
}

/// Storing keeps the keys in strictly ascending order.
pub proof fn storing_keeps_the_order(list: Seq<CheckpointView>, checkpoint: CheckpointView)
    requires
        ordered(list),
    ensures
        ordered(stored(list, checkpoint)),
{
    let key = checkpoint.key();
    let at = slot(list, key);
    lemma_slot(list, key);
    let next = stored(list, checkpoint);
    let replaced = at < list.len() && list[at].key() == key;
    assert forall|i: int, j: int| 0 <= i < j < next.len() implies key_before(
        #[trigger] next[i].key(),
        #[trigger] next[j].key(),
    ) by {
        if replaced {
            assert(next[i].key() == list[i].key());
            assert(next[j].key() == list[j].key());
        } else {
            let old_i = if i < at {
                i
            } else {
                i - 1
            };
            let old_j = if j < at {
                j
            } else {
                j - 1
            };
            if i == at {
                // Everything from the slot on comes behind the new key.
                assert(next[j] == list[old_j]);
                lemma_key_order(key, list[at].key(), list[old_j].key());
                if old_j > at {
                    assert(key_before(list[at].key(), list[old_j].key()));
                }
            } else if j == at {
                assert(next[i] == list[i]);
            } else {
                assert(next[i] == list[old_i]);
                assert(next[j] == list[old_j]);
            }
        }
    }
}

proof fn lemma_without_path_found(
    list: Seq<CheckpointView>,
    path: Seq<char>,
    key: (Seq<char>, Seq<char>),
)
    ensures
        found(without_path(list, path), key) == if key.0 == path {
            None
        } else {
            found(list, key)
        },
    decreases list.len(),
{
    if list.len() > 0 {
        let rest = without_path(list.drop_last(), path);
        lemma_without_path_found(list.drop_last(), path, key);
        lemma_found_push(list.drop_last(), list.last(), key);
        lemma_found_push(rest, list.last(), key);
        assert(list.drop_last().push(list.last()) =~= list);
    }
}

proof fn lemma_found_push(
    list: Seq<CheckpointView>,
    last: CheckpointView,
    key: (Seq<char>, Seq<char>),
)
    ensures
        found(list.push(last), key) == if found(list, key) is Some {
            found(list, key)
        } else if last.key() == key {
            Some(last)
        } else {
            None
        },
    decreases list.len(),
{
    if list.len() == 0 {
        assert(list.push(last).drop_first() =~= Seq::<CheckpointView>::empty());
        assert(found(Seq::<CheckpointView>::empty(), key) is None);
    } else {
        lemma_found_push(list.drop_first(), last, key);
        assert(list.push(last).drop_first() =~= list.drop_first().push(last));
    }
}

/// Retiring a path forgets every checkpoint of it and no other.
pub proof fn retired_path_is_forgotten(
    list: Seq<CheckpointView>,
    path: Seq<char>,
    key: (Seq<char>, Seq<char>),
)
    ensures
        key.0 == path ==> found(without_path(list, path), key) is None,
        key.0 != path ==> found(without_path(list, path), key) == found(list, key),
{
    lemma_without_path_found(list, path, key);
}

/// No temporary with a recorded identity is lost by a harvest, and nothing else
/// joins it.
pub proof fn harvest_keeps_every_proof(
    list: Seq<TempView>,
    checkpoints: Seq<CheckpointView>,
    name: Seq<char>,
)
    ensures
        holds_name(harvested(list, checkpoints), name) <==> holds_name(list, name) || exists|i: int|
            0 <= i < checkpoints.len() && (#[trigger] checkpoints[i]).temp_name == name
                && checkpoints[i].temp_identity is Some,
    decreases checkpoints.len(),
{
    if checkpoints.len() > 0 {
        let rest = checkpoints.drop_last();
        let last = checkpoints.last();
        let before = harvested(list, rest);
        let after = harvested(list, checkpoints);
        harvest_keeps_every_proof(list, rest, name);
        assert(holds_name(after, name) <==> holds_name(before, name) || (last.temp_name == name
            && last.temp_identity is Some)) by {
            if holds_name(before, name) {
                let i = choose|i: int|
                    0 <= i < before.len() && #[trigger] before[i].temp_name == name;
                assert(after[i].temp_name == name);
            }
            if holds_name(after, name) && !holds_name(before, name) {
                let i = choose|i: int| 0 <= i < after.len() && #[trigger] after[i].temp_name == name;
                if i < before.len() {
                    assert(before[i].temp_name == name);
                }
            }
            if last.temp_name == name && last.temp_identity is Some && !holds_name(before, name) {
                assert(after[before.len() as int].temp_name == name);
            }
        }
        if exists|i: int|
            0 <= i < checkpoints.len() && (#[trigger] checkpoints[i]).temp_name == name
                && checkpoints[i].temp_identity is Some {
            let i = choose|i: int|
                0 <= i < checkpoints.len() && (#[trigger] checkpoints[i]).temp_name == name
                    && checkpoints[i].temp_identity is Some;
            if i < rest.len() {
                assert(rest[i] == checkpoints[i]);
            }
        }
        if exists|i: int|
            0 <= i < rest.len() && (#[trigger] rest[i]).temp_name == name
                && rest[i].temp_identity is Some {
            let i = choose|i: int|
                0 <= i < rest.len() && (#[trigger] rest[i]).temp_name == name
                    && rest[i].temp_identity is Some;
            assert(checkpoints[i] == rest[i]);
        }
        if last.temp_name == name && last.temp_identity is Some {
            assert(checkpoints[checkpoints.len() - 1] == last);
        }
    }
}

} // verus!
