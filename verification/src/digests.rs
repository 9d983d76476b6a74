//! Digests of named streams, in the order of the stream names, so that the
//! order of discovery does not matter.

use vstd::prelude::*;
use vstd::string::*;

use crate::path::{name_before, name_less, point_order_is_total, points_from};
use crate::platform::{StreamInfo, StreamView};
use crate::text::str_eq;

verus! {

/// Stream digests as values.
pub open spec fn digest_views(list: Seq<(StreamInfo, String)>) -> Seq<(StreamView, Seq<char>)> {
    list.map_values(|item: (StreamInfo, String)| (item.0@, item.1@))
}

/// Where a digest belongs: behind every stream whose name does not come after
/// its own.
pub open spec fn digest_slot(list: Seq<(StreamView, Seq<char>)>, name: Seq<u16>) -> int
    decreases list.len(),
{
    if list.len() == 0 || name_before(name, list[0].0.name) {
        0
    } else {
        1 + digest_slot(list.drop_first(), name)
    }
}

/// The digests with one more.
pub open spec fn placed(
    list: Seq<(StreamView, Seq<char>)>,
    item: (StreamView, Seq<char>),
) -> Seq<(StreamView, Seq<char>)> {
    list.insert(digest_slot(list, item.0.name), item)
}

/// Adds the digest of one more stream in its place.
pub fn place_digest(list: &mut Vec<(StreamInfo, String)>, stream: StreamInfo, digest: String)
    ensures
        digest_views(final(list)@) == placed(digest_views(old(list)@), (stream@, digest@)),
{
    let ghost all = digest_views(list@);
    let mut at: usize = 0;
    assert(all.skip(0) =~= all);
    while at < list.len() && !name_less(&stream.name, &list[at].0.name)
        invariant
            at <= list.len(),
            all == digest_views(list@),
            digest_slot(all, stream@.name) == at + digest_slot(all.skip(at as int), stream@.name),
        decreases list.len() - at,
    {
        assert(all.skip(at as int).drop_first() =~= all.skip(at as int + 1));
        at = at + 1;
    }
    assert(digest_slot(all.skip(at as int), stream@.name) == 0);
    list.insert(at, (stream, digest));
    assert(digest_views(list@) =~= placed(all, (stream@, digest@)));
}

/// An equal list.
pub fn copy_digests(list: &Vec<(StreamInfo, String)>) -> (copy: Vec<(StreamInfo, String)>)
    ensures
        digest_views(copy@) == digest_views(list@),
{
    let mut copy: Vec<(StreamInfo, String)> = Vec::new();
    for i in 0..list.len()
        invariant
            digest_views(copy@) == digest_views(list@.take(i as int)),
    {
        let ghost before = digest_views(copy@);
        let item = (list[i].0.copied(), list[i].1.clone());
        copy.push(item);
        assert(digest_views(copy@) =~= before.push((list@[i as int].0@, list@[i as int].1@)));
        assert(digest_views(list@.take(i as int + 1)) =~= digest_views(
            list@.take(i as int),
        ).push((list@[i as int].0@, list@[i as int].1@)));
    }
    assert(list@.take(list@.len() as int) =~= list@);
    copy
}

/// Whether two lists hold the same streams with the same digests in the same
/// order.
pub fn same_digests(left: &Vec<(StreamInfo, String)>, right: &Vec<(StreamInfo, String)>) -> (same:
    bool)
    ensures
        same == (digest_views(left@) == digest_views(right@)),
{
    if left.len() != right.len() {
        assert(digest_views(left@).len() != digest_views(right@).len());
        return false;
    }
    for i in 0..left.len()
        invariant
            left.len() == right.len(),
            forall|j: int|
                0 <= j < i ==> digest_views(left@)[j] == #[trigger] digest_views(right@)[j],
    {
        if left[i].0.size != right[i].0.size || !left[i].0.name.same_as(&right[i].0.name)
            || !str_eq(left[i].1.as_str(), right[i].1.as_str()) {
            assert(digest_views(left@)[i as int] != digest_views(right@)[i as int]);
            return false;
        }
    }
    assert(digest_views(left@) =~= digest_views(right@));
    true
}

/// Whether no name comes before the one in front of it.
pub open spec fn in_name_order(list: Seq<(StreamView, Seq<char>)>) -> bool {
    forall|i: int, j: int|
        0 <= i < j < list.len() ==> !name_before((#[trigger] list[j]).0.name, (
        #[trigger] list[i]).0.name)
}

proof fn lemma_digest_slot(list: Seq<(StreamView, Seq<char>)>, name: Seq<u16>)
    ensures
        0 <= digest_slot(list, name) <= list.len(),
        forall|i: int|
            0 <= i < digest_slot(list, name) ==> !name_before(name, (#[trigger] list[i]).0.name),
        digest_slot(list, name) < list.len() ==> name_before(
            name,
            list[digest_slot(list, name)].0.name,
        ),
    decreases list.len(),
{
    if list.len() > 0 && !name_before(name, list[0].0.name) {
        let rest = list.drop_first();
        lemma_digest_slot(rest, name);
        assert forall|i: int| 0 <= i < digest_slot(list, name) implies !name_before(
            name,
            (#[trigger] list[i]).0.name,
        ) by {
            if i > 0 {
                assert(rest[i - 1] == list[i]);
            }
        }
    }
}

/// Placing keeps the name order, and adds exactly the new digest.
pub proof fn placing_keeps_the_name_order(
    list: Seq<(StreamView, Seq<char>)>,
    item: (StreamView, Seq<char>),
)
    requires
        in_name_order(list),
    ensures
        in_name_order(placed(list, item)),
        placed(list, item).to_multiset() == list.to_multiset().insert(item),
{
    let name = item.0.name;
    let at = digest_slot(list, name);
    lemma_digest_slot(list, name);
    let next = placed(list, item);
    assert forall|i: int, j: int| 0 <= i < j < next.len() implies !name_before(
        (#[trigger] next[j]).0.name,
        (#[trigger] next[i]).0.name,
    ) by {
        let old_i = if i < at {
            i
        } else {
            i - 1
        };
        let old_j = if j < at {
            j
        } else {
            j - 1
        };
        if i == at {
            assert(next[j] == list[old_j]);
            let here = points_from(name, 0);
            let first = points_from(list[at].0.name, 0);
            let there = points_from(list[old_j].0.name, 0);
            point_order_is_total(here, first, there);
            point_order_is_total(first, there, here);
            point_order_is_total(here, there, here);
            if old_j > at {
                assert(!name_before(list[old_j].0.name, list[at].0.name));
            }
        } else if j == at {
            assert(next[i] == list[i]);
        } else {
            assert(next[i] == list[old_i]);
            assert(next[j] == list[old_j]);
        }
    }
    vstd::seq_lib::to_multiset_insert(list, at, item);
}

} // verus!
