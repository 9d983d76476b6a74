//! The data streams of one object.

use vstd::prelude::*;
use vstd::string::*;

use crate::model::sat;
use crate::platform::{StreamInfo, StreamView};

verus! {

/// The views of a list of streams.
pub open spec fn stream_views(streams: Seq<StreamInfo>) -> Seq<StreamView> {
    streams.map_values(|stream: StreamInfo| stream@)
}

/// The named streams of a list, in order.
pub open spec fn named_of(streams: Seq<StreamView>) -> Seq<StreamView>
    decreases streams.len(),
{
    if streams.len() == 0 {
        seq![]
    } else if streams.last().is_unnamed() {
        named_of(streams.drop_last())
    } else {
        named_of(streams.drop_last()).push(streams.last())
    }
}

/// The sum of the sizes of a list of streams on top of `base`, stopping at the
/// largest value.
pub open spec fn sizes_on(base: u64, streams: Seq<StreamView>) -> u64
    decreases streams.len(),
{
    if streams.len() == 0 {
        base
    } else {
        sat(sizes_on(base, streams.drop_last()), streams.last().size)
    }
}

/// The logical bytes of a file: its unnamed size and all named streams.
pub open spec fn logical_size(unnamed: u64, streams: Seq<StreamView>) -> u64 {
    sizes_on(unnamed, named_of(streams))
}

/// The named streams of a list, in order.
pub fn named_streams(streams: &[StreamInfo]) -> (named: Vec<StreamInfo>)
    ensures
        stream_views(named@) == named_of(stream_views(streams@)),
{
    let mut named: Vec<StreamInfo> = Vec::new();
    let ghost views = stream_views(streams@);
    assert(stream_views(named@) =~= named_of(views.take(0)));
    for i in 0..streams.len()
        invariant
            views == stream_views(streams@),
            stream_views(named@) == named_of(views.take(i as int)),
    {
        let ghost before = stream_views(named@);
        let ghost next = views.take(i as int + 1);
        assert(next.drop_last() =~= views.take(i as int));
        assert(next.last() == streams@[i as int]@);
        if !streams[i].is_unnamed() {
            named.push(streams[i].copied());
            assert(stream_views(named@) =~= before.push(next.last()));
        }
    }
    assert(views.take(views.len() as int) =~= views);
    named
}

/// The logical bytes of a file: its unnamed size and all named streams.
pub fn logical_bytes(unnamed: u64, streams: &[StreamInfo]) -> (bytes: u64)
    ensures
        bytes == logical_size(unnamed, stream_views(streams@)),
{
    let named = named_streams(streams);
    let ghost views = stream_views(named@);
    let mut total: u64 = unnamed;
    assert(views.take(0) =~= seq![]);
    for i in 0..named.len()
        invariant
            views == stream_views(named@),
            total == sizes_on(unnamed, views.take(i as int)),
    {
        let ghost next = views.take(i as int + 1);
        assert(next.drop_last() =~= views.take(i as int));
        assert(next.last() == named@[i as int]@);
        total = total.saturating_add(named[i].size);
    }
    assert(views.take(views.len() as int) =~= views);
    total
}

/// The sizes of streams, added up.
pub open spec fn size_sum(streams: Seq<StreamView>) -> int
    decreases streams.len(),
{
    if streams.len() == 0 {
        0
    } else {
        size_sum(streams.drop_last()) + streams.last().size
    }
}

/// The named streams of a list are all of its streams but the data itself, in
/// their order.
pub proof fn named_streams_are_all_but_the_data(streams: Seq<StreamView>)
    ensures
        named_of(streams) == streams.filter(|stream: StreamView| !stream.is_unnamed()),
        forall|i: int|
            0 <= i < named_of(streams).len() ==> !(#[trigger] named_of(streams)[i]).is_unnamed(),
    decreases streams.len(),
{
    reveal(Seq::filter);
    if streams.len() > 0 {
        named_streams_are_all_but_the_data(streams.drop_last());
    }
}

proof fn lemma_sizes_on(base: u64, streams: Seq<StreamView>)
    ensures
        size_sum(streams) >= 0,
        base + size_sum(streams) <= u64::MAX ==> sizes_on(base, streams) == base + size_sum(
            streams,
        ),
        base + size_sum(streams) > u64::MAX ==> sizes_on(base, streams) == u64::MAX,
    decreases streams.len(),
{
    if streams.len() > 0 {
        lemma_sizes_on(base, streams.drop_last());
    }
}

/// The logical bytes of a file are those of its data and of every named stream,
/// as long as they can be counted.
pub proof fn logical_bytes_count_every_stream(unnamed: u64, streams: Seq<StreamView>)
    ensures
        unnamed + size_sum(named_of(streams)) <= u64::MAX ==> logical_size(unnamed, streams)
            == unnamed + size_sum(named_of(streams)),
        unnamed + size_sum(named_of(streams)) > u64::MAX ==> logical_size(unnamed, streams)
            == u64::MAX,
{
    lemma_sizes_on(unnamed, named_of(streams));
}

} // verus!
