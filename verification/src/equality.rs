//! What a whole comparison of two trees shows: that its mismatches are told,
//! and that without one the trees are equal.

use vstd::prelude::*;

use crate::error::IoError;
use crate::path::child_of;
use crate::platform::EntryView;
use crate::readback::AuxFailure;
use crate::report::VerificationView;
use crate::standalone::{StandaloneView, VerifyReplyView, VerifyStepView, VerifyTaskView};
use crate::table::{
    keys_are_distinct, lemma_filter_all, lemma_position, lemma_remove_is_filter, position,
};
use crate::verify::{gathered, PairingView};
use crate::walk::in_source;

verus! {

/// A comparison from its start: its states, its steps, and what each step but
/// the last came to.
#[verifier::ext_equal]
pub ghost struct ComparisonRun {
    pub states: Seq<StandaloneView>,
    pub steps: Seq<VerifyStepView>,
    pub replies: Seq<VerifyReplyView>,
}

/// Whether a step comes before any directory is listed.
pub open spec fn sets_up(step: VerifyStepView) -> bool {
    !(step is ListSource) && !(step is ListDestination) && !(step is Compare) && !(step is Finished)
        && !(step is Failed)
}

/// Whether what was read of a pair of entries is the same on both sides.
pub open spec fn reads_equal(metadata_equal: bool, reply: VerifyReplyView) -> bool {
    match reply {
        VerifyReplyView::Aux(aux) => metadata_equal && aux == Ok::<bool, AuxFailure>(true),
        VerifyReplyView::File(verdict) => verdict is Same,
        VerifyReplyView::Link { reparse, aux } => metadata_equal && reparse == Ok::<bool, IoError>(
            true,
        ) && aux == Ok::<bool, AuxFailure>(true),
        _ => false,
    }
}

impl ComparisonRun {
    /// Whether one step led to the next.
    pub open spec fn moves(self, i: int) -> bool {
        &&& self.states[i].answered_by(self.steps[i], self.replies[i])
        &&& self.states[i].after(self.steps[i], self.replies[i]) == (
            self.states[i + 1],
            self.steps[i + 1],
        )
    }

    /// Whether this is how a comparison goes.
    pub open spec fn valid(self) -> bool {
        &&& self.states.len() == self.replies.len() + 1
        &&& self.steps.len() == self.replies.len() + 1
        &&& self.states[0] == StandaloneView::start()
        &&& self.steps[0] is NormalizeSource
        &&& forall|i: int| 0 <= i < self.replies.len() ==> #[trigger] self.moves(i)
    }

    /// Whether the comparison came to its end.
    pub open spec fn finished(self) -> bool {
        self.steps.last() is Finished
    }

    /// Whether the comparison came to its end without a mismatch.
    pub open spec fn clean(self) -> bool {
        self.valid() && self.finished() && self.states.last().summary.failed == 0
    }

    /// Whether the entries of a pair of directories are listed from this step
    /// on.
    pub open spec fn lists(self, i: int, task: VerifyTaskView) -> bool {
        &&& 0 <= i < self.replies.len()
        &&& self.steps[i] is ListSource
        &&& self.states[i].task == task
    }

    /// Whether this step found a listed source entry equal to the destination
    /// entry with the same key.
    pub open spec fn finds_equal(
        self,
        j: int,
        relative: Seq<u16>,
        item: (Result<Seq<u16>, IoError>, EntryView),
        destination: Seq<(Result<Seq<u16>, IoError>, EntryView)>,
    ) -> bool {
        &&& 0 <= j < self.replies.len()
        &&& self.steps[j] is Compare
        &&& item.0 is Ok
        &&& match self.states[j].pair {
            Some((one, other, path, metadata_equal)) => {
                &&& one == item.1
                &&& destination.contains((item.0, other))
                &&& path == child_of(relative, item.1.name)
                &&& one.metadata.kind == other.metadata.kind
                &&& metadata_equal == self.states[j].policy().spec_metadata_equal(
                    one.metadata.basic,
                    other.metadata.basic,
                )
                &&& reads_equal(metadata_equal, self.replies[j])
            },
            None => false,
        }
    }

    /// Whether some step found a listed source entry equal to the destination
    /// entry with the same key.
    pub open spec fn found_equal(
        self,
        relative: Seq<u16>,
        item: (Result<Seq<u16>, IoError>, EntryView),
        destination: Seq<(Result<Seq<u16>, IoError>, EntryView)>,
    ) -> bool {
        exists|j: int| #[trigger] self.finds_equal(j, relative, item, destination)
    }

    /// Whether the pair of directories that is listed from this step on holds
    /// the same names, and every pair of entries with the same name was found
    /// equal.
    pub open spec fn finds_directory_equal(self, i: int) -> bool {
        match (self.replies[i], self.replies[i + 1]) {
            (
                VerifyReplyView::Entries(Ok(source)),
                VerifyReplyView::Entries(Ok(destination)),
            ) => {
                &&& forall|k: int|
                    0 <= k < source.len() ==> self.found_equal(
                        self.states[i].task.relative,
                        #[trigger] source[k],
                        destination,
                    )
                &&& forall|d: int|
                    0 <= d < destination.len() ==> (#[trigger] destination[d]).0 is Ok
                        && in_source(source, source.len() as int, destination[d].0->Ok_0)
            },
            _ => false,
        }
    }

    /// Whether this step found the roots equal, so that their entries are
    /// listed next.
    pub open spec fn finds_roots_equal(self, i: int) -> bool {
        &&& 0 <= i < self.replies.len()
        &&& self.steps[i] is CompareRootAux
        &&& self.replies[i] == VerifyReplyView::RootAux(Ok(true))
        &&& self.states[i].policy().spec_metadata_equal(
            self.states[i].source_root->0.basic,
            self.states[i].destination_root->0.basic,
        )
        &&& self.lists(
            i + 1,
            VerifyTaskView {
                source: self.states[i].source,
                destination: self.states[i].destination,
                relative: seq![],
            },
        )
    }

    /// The pair of directories that this step compares, if it compares one.
    pub open spec fn compared_directory(self, j: int) -> Option<VerifyTaskView> {
        match (self.steps[j], self.states[j].pair) {
            (VerifyStepView::Compare, Some((one, other, path, _))) => if one.metadata.kind
                is Directory {
                Some(
                    VerifyTaskView {
                        source: one.path,
                        destination: other.path,
                        relative: path,
                    },
                )
            } else {
                None
            },
            _ => None,
        }
    }
}

proof fn lemma_extras(pairing: PairingView, summary: VerificationView, count: int)
    requires
        0 <= count,
    ensures
        pairing.extras(summary, count).failed >= summary.failed,
        summary.failed == 0 && pairing.extras(summary, count).failed == 0 ==> count == 0,
        summary.describes_failures() ==> pairing.extras(summary, count).describes_failures(),
    decreases count,
{
    if count > 0 {
        lemma_extras(pairing, summary, count - 1);
    }
}

proof fn lemma_gathered(
    entries: Seq<(Result<Seq<u16>, IoError>, EntryView)>,
    count: int,
    relative: Seq<u16>,
    summary: VerificationView,
)
    requires
        0 <= count <= entries.len(),
    ensures
        gathered(entries, count, relative, summary).1.failed >= summary.failed,
        summary.describes_failures() ==> gathered(
            entries,
            count,
            relative,
            summary,
        ).1.describes_failures(),
    decreases count,
{
    if count > 0 {
        lemma_gathered(entries, count - 1, relative, summary);
    }
}

proof fn lemma_gathered_clean(
    entries: Seq<(Result<Seq<u16>, IoError>, EntryView)>,
    count: int,
    relative: Seq<u16>,
    summary: VerificationView,
)
    requires
        0 <= count <= entries.len(),
        gathered(entries, count, relative, summary).1.failed == 0,
        gathered(entries, count, relative, summary).2 is None,
    ensures
        ({
            let table = gathered(entries, count, relative, summary).0;
            &&& table.len() == count
            &&& keys_are_distinct(table)
            &&& forall|j: int|
                0 <= j < count ==> (#[trigger] entries[j]).0 == Ok::<Seq<u16>, IoError>(
                    table[j].0,
                ) && entries[j].1 == table[j].1
        }),
    decreases count,
{
    if count > 0 {
        lemma_gathered(entries, count - 1, relative, summary);
        lemma_gathered_clean(entries, count - 1, relative, summary);
        let before = gathered(entries, count - 1, relative, summary).0;
        let key = entries[count - 1].0->Ok_0;
        lemma_position(before, key);
        assert(position(before, key) == before.len());
        let table = gathered(entries, count, relative, summary).0;
        assert(table == before.push((key, entries[count - 1].1)));
        assert forall|i: int, j: int|
            0 <= i < table.len() && 0 <= j < table.len() && i != j implies #[trigger] table[i].0
            != #[trigger] table[j].0 by {
            if i < before.len() {
                assert(before[i].0 != key);
            }
            if j < before.len() {
                assert(before[j].0 != key);
            }
            if i < before.len() && j < before.len() {
                assert(before[i].0 != before[j].0);
            }
        }
    }
}

/// Seeking adds failures at most, describes them, and leaves the queue of
/// directories alone but for the one it takes.
proof fn lemma_seeking(verify: StandaloneView)
    ensures
        ({
            let (next, step) = verify.seeking();
            &&& next.summary.failed >= verify.summary.failed
            &&& verify.summary.describes_failures() ==> next.summary.describes_failures()
            &&& step is Compare || step is ListSource || step is Finished || step is Failed
            &&& step is Finished ==> next.tasks.len() == 0
            &&& step is ListSource ==> verify.tasks.len() > 0 && next.task == verify.tasks.last()
                && next.tasks == verify.tasks.drop_last()
            &&& !(step is ListSource) ==> next.tasks == verify.tasks
        }),
    decreases verify.pending.len(),
{
    if verify.pending.len() == 0 {
        lemma_extras(verify.pairing, verify.summary, verify.pairing.destination.len() as int);
    } else if verify.pending.last().0 is Ok {
        let (next, work) = verify.paired();
        if work is Settled {
            lemma_seeking(next);
        }
    }
}

/// A seek that ends without a mismatch found a twin of the same kind, or
/// nothing was left on either side.
proof fn lemma_clean_seek(verify: StandaloneView)
    requires
        verify.seeking().0.summary.failed == 0,
        !(verify.seeking().1 is Failed),
    ensures
        verify.summary.failed == 0,
        verify.pending.len() == 0 ==> verify.pairing.destination.len() == 0,
        verify.pending.len() > 0 ==> ({
            let (key, entry) = (verify.pending.last().0->Ok_0, verify.pending.last().1);
            let at = position(verify.pairing.destination, key);
            let twin = verify.pairing.destination[at].1;
            let (next, step) = verify.seeking();
            &&& verify.pending.last().0 is Ok
            &&& 0 <= at < verify.pairing.destination.len()
            &&& verify.pairing.destination[at] == (key, twin)
            &&& entry.metadata.kind == twin.metadata.kind
            &&& step is Compare
            &&& next.pair == Some(
                (
                    entry,
                    twin,
                    child_of(verify.pairing.relative, entry.name),
                    verify.policy().spec_metadata_equal(
                        entry.metadata.basic,
                        twin.metadata.basic,
                    ),
                ),
            )
            &&& next.pending == verify.pending.drop_last()
            &&& next.pairing.destination == verify.pairing.destination.remove(at)
            &&& next.pairing.relative == verify.pairing.relative
            &&& next.policy() == verify.policy()
            &&& next.task == verify.task
        }),
{
    lemma_seeking(verify);
    if verify.pending.len() == 0 {
        lemma_extras(verify.pairing, verify.summary, verify.pairing.destination.len() as int);
    } else {
        let key = verify.pending.last().0->Ok_0;
        lemma_position(verify.pairing.destination, key);
        let (next, work) = verify.paired();
        if work is Settled {
            lemma_seeking(next);
        }
    }
}

/// A step adds failures at most and describes them; it takes the next pair of
/// directories, or leaves those that wait.
proof fn lemma_step(verify: StandaloneView, step: VerifyStepView, reply: VerifyReplyView)
    requires
        verify.answered_by(step, reply),
        sets_up(step) ==> verify.tasks.len() == 0 && verify.summary.failed == 0,
        verify.summary.describes_failures(),
    ensures
        ({
            let (next, then_step) = verify.after(step, reply);
            &&& next.summary.failed >= verify.summary.failed
            &&& next.summary.describes_failures()
            &&& sets_up(then_step) ==> sets_up(step) && next.tasks.len() == 0
                && next.summary.failed == 0
            &&& sets_up(step) && !sets_up(then_step) && !(then_step is Failed) ==> step
                is CompareRootAux && then_step is ListSource
            &&& then_step is Finished ==> next.tasks.len() == 0
            &&& !sets_up(step) && !(then_step is ListSource) ==> next.tasks.len()
                >= verify.tasks.len() && next.tasks.take(verify.tasks.len() as int)
                == verify.tasks
            &&& !sets_up(step) && then_step is ListSource ==> {
                ||| next.tasks == verify.tasks
                ||| verify.tasks.len() > 0 && next.task == verify.tasks.last() && next.tasks
                    == verify.tasks.drop_last()
            }
        }),
{
    let (next, then_step) = verify.after(step, reply);
    match (step, reply) {
        (VerifyStepView::Compare, reply) => {
            let judged = verify.judged(reply);
            lemma_seeking(judged);
            if judged.tasks.len() > verify.tasks.len() {
                assert(judged.tasks.drop_last() =~= verify.tasks);
                assert(judged.tasks.take(verify.tasks.len() as int) =~= verify.tasks);
            } else {
                assert(judged.tasks.take(verify.tasks.len() as int) =~= verify.tasks);
            }
        },
        (VerifyStepView::ListDestination, VerifyReplyView::Entries(Ok(entries))) => {
            lemma_gathered(
                entries,
                entries.len() as int,
                verify.task.relative,
                verify.summary,
            );
            let (table, summary, failure) = gathered(
                entries,
                entries.len() as int,
                verify.task.relative,
                verify.summary,
            );
            lemma_seeking(listed(verify, table, summary));
            assert(verify.tasks.take(verify.tasks.len() as int) =~= verify.tasks);
        },
        _ => {
            assert(verify.tasks.take(verify.tasks.len() as int) =~= verify.tasks);
        },
    }
}

/// The comparison with the entries of a destination directory.
spec fn listed(
    verify: StandaloneView,
    table: Seq<(Seq<u16>, EntryView)>,
    summary: VerificationView,
) -> StandaloneView {
    StandaloneView {
        summary,
        pairing: PairingView {
            relative: verify.task.relative,
            destination: table,
            seen: seq![],
        },
        ..verify
    }
}

proof fn lemma_along(run: ComparisonRun, i: int)
    requires
        run.valid(),
        0 <= i <= run.replies.len(),
    ensures
        run.states[i].summary.describes_failures(),
        sets_up(run.steps[i]) ==> run.states[i].tasks.len() == 0 && run.states[i].summary.failed
            == 0,
    decreases i,
{
    if i > 0 {
        lemma_along(run, i - 1);
        assert(run.moves(i - 1));
        lemma_step(run.states[i - 1], run.steps[i - 1], run.replies[i - 1]);
    }
}

proof fn lemma_failures_stay(run: ComparisonRun, i: int)
    requires
        run.valid(),
        0 <= i <= run.replies.len(),
    ensures
        run.states[i].summary.failed <= run.states.last().summary.failed,
    decreases run.replies.len() - i,
{
    if i < run.replies.len() {
        lemma_failures_stay(run, i + 1);
        lemma_along(run, i);
        assert(run.moves(i));
        lemma_step(run.states[i], run.steps[i], run.replies[i]);
    }
}

/// A step that was answered did not end the comparison.
proof fn lemma_goes_on(run: ComparisonRun, i: int)
    requires
        run.valid(),
        run.finished(),
        0 <= i <= run.replies.len(),
    ensures
        !(run.steps[i] is Failed),
        i < run.replies.len() <==> !(run.steps[i] is Finished),
{
    if i < run.replies.len() {
        assert(run.moves(i));
    }
}

/// The entries that are left after the last `done` source entries took theirs.
spec fn left_over(
    table: Seq<(Seq<u16>, EntryView)>,
    source: Seq<(Result<Seq<u16>, IoError>, EntryView)>,
    done: int,
) -> Seq<(Seq<u16>, EntryView)> {
    table.filter(|item: (Seq<u16>, EntryView)| !in_tail(source, done, item.0))
}

/// Whether one of the last `done` entries has the given key.
spec fn in_tail(
    source: Seq<(Result<Seq<u16>, IoError>, EntryView)>,
    done: int,
    key: Seq<u16>,
) -> bool {
    exists|k: int|
        source.len() - done <= k < source.len() && (#[trigger] source[k]).0 == Ok::<
            Seq<u16>,
            IoError,
        >(key)
}

/// The comparison of a directory whose destination is listed at step `i`,
/// before its next pair is sought for the time `done`, counted from zero.
spec fn seeker(run: ComparisonRun, i: int, done: int) -> StandaloneView {
    if done <= 0 {
        let entries = run.replies[i]->Entries_0->Ok_0;
        let (table, summary, failure) = gathered(
            entries,
            entries.len() as int,
            run.states[i].task.relative,
            run.states[i].summary,
        );
        listed(run.states[i], table, summary)
    } else {
        run.states[i + done].judged(run.replies[i + done])
    }
}

proof fn lemma_directory(run: ComparisonRun, i: int, done: int)
    requires
        run.clean(),
        0 <= i < run.replies.len(),
        run.steps[i] is ListDestination,
        0 <= done <= run.states[i].pending.len(),
    ensures
        ({
            let pending = run.states[i].pending;
            let relative = run.states[i].task.relative;
            let entries = run.replies[i]->Entries_0->Ok_0;
            let table = gathered(
                entries,
                entries.len() as int,
                relative,
                run.states[i].summary,
            ).0;
            let at = seeker(run, i, done);
            &&& run.replies[i] matches VerifyReplyView::Entries(Ok(_))
            &&& i + done < run.replies.len()
            &&& at.seeking() == (run.states[i + done + 1], run.steps[i + done + 1])
            &&& at.pending == pending.take(pending.len() - done)
            &&& at.pairing.relative == relative
            &&& keys_are_distinct(table)
            &&& at.pairing.destination == left_over(table, pending, done)
            &&& forall|j: int|
                0 <= j < entries.len() ==> (#[trigger] entries[j]).0 == Ok::<Seq<u16>, IoError>(
                    table[j].0,
                ) && entries[j].1 == table[j].1
            &&& table.len() == entries.len()
            &&& done > 0 ==> run.finds_equal(
                i + done,
                relative,
                pending[pending.len() - done],
                entries,
            )
        }),
    decreases done,
{
    let pending = run.states[i].pending;
    let relative = run.states[i].task.relative;
    lemma_goes_on(run, i);
    lemma_goes_on(run, i + 1);
    assert(run.moves(i));
    assert(run.replies[i] matches VerifyReplyView::Entries(Ok(_)));
    let entries = run.replies[i]->Entries_0->Ok_0;
    let (table, summary, failure) = gathered(
        entries,
        entries.len() as int,
        relative,
        run.states[i].summary,
    );
    if done == 0 {
        let at = seeker(run, i, 0);
        assert(failure is None);
        lemma_failures_stay(run, i + 1);
        lemma_seeking(at);
        lemma_gathered_clean(entries, entries.len() as int, relative, run.states[i].summary);
        assert(pending.take(pending.len() as int) =~= pending);
        lemma_filter_all(
            table,
            |item: (Seq<u16>, EntryView)| !in_tail(pending, 0, item.0),
        );
    } else {
        lemma_directory(run, i, done - 1);
        let before = seeker(run, i, done - 1);
        let m = i + done;
        lemma_failures_stay(run, m);
        lemma_goes_on(run, m);
        lemma_clean_seek(before);
        let item = pending[pending.len() - done];
        assert(before.pending.last() == item);
        let key = item.0->Ok_0;
        assert(run.steps[m] is Compare);
        assert(run.moves(m));
        let at = seeker(run, i, done);
        lemma_seeking(at);
        lemma_failures_stay(run, m + 1);
        assert(at.pending =~= pending.take(pending.len() - done));
        let kept = |item: (Seq<u16>, EntryView)| !in_tail(pending, done - 1, item.0);
        let rest = |item: (Seq<u16>, EntryView)| !in_tail(pending, done, item.0);
        assert forall|other: (Seq<u16>, EntryView)| #[trigger]
            rest(other) == (kept(other) && other.0 != key) by {
            if in_tail(pending, done, other.0) {
                let k = choose|k: int|
                    pending.len() - done <= k < pending.len() && (#[trigger] pending[k]).0 == Ok::<
                        Seq<u16>,
                        IoError,
                    >(other.0);
                assert(pending[k].0 == Ok::<Seq<u16>, IoError>(other.0));
            }
            if in_tail(pending, done - 1, other.0) {
                let k = choose|k: int|
                    pending.len() - (done - 1) <= k < pending.len() && (#[trigger] pending[k]).0
                        == Ok::<Seq<u16>, IoError>(other.0);
                assert(pending[k].0 == Ok::<Seq<u16>, IoError>(other.0));
            }
            if other.0 == key {
                assert(pending[pending.len() - done].0 == Ok::<Seq<u16>, IoError>(other.0));
            }
        }
        lemma_remove_is_filter(table, kept, rest, key);
        let place = position(before.pairing.destination, key);
        let twin = before.pairing.destination[place];
        assert(table.filter(kept).contains(twin));
        table.lemma_filter_contains_rev(kept, twin);
        let t = choose|t: int| 0 <= t < table.len() && table[t] == twin;
        assert(entries[t].0 == Ok::<Seq<u16>, IoError>(table[t].0));
        assert(entries[t] == (item.0, twin.1));
        assert(reads_equal((run.states[m].pair->0).3, run.replies[m]));
    }
}

proof fn lemma_listing(run: ComparisonRun, i: int)
    requires
        run.clean(),
        0 <= i < run.replies.len(),
        run.steps[i] is ListSource,
    ensures
        run.finds_directory_equal(i),
{
    assert(run.moves(i));
    lemma_goes_on(run, i + 1);
    let source = run.replies[i]->Entries_0->Ok_0;
    let pending = run.states[i + 1].pending;
    let relative = run.states[i].task.relative;
    lemma_directory(run, i + 1, 0);
    let destination = run.replies[i + 1]->Entries_0->Ok_0;
    assert forall|k: int| 0 <= k < source.len() implies run.found_equal(
        relative,
        #[trigger] source[k],
        destination,
    ) by {
        let done = k + 1;
        lemma_directory(run, i + 1, done);
        assert(pending[pending.len() - done] == source[k]);
        assert(run.finds_equal(i + 1 + done, relative, source[k], destination));
    }
    let all = pending.len() as int;
    lemma_directory(run, i + 1, all);
    lemma_failures_stay(run, i + 1 + all + 1);
    lemma_goes_on(run, i + 1 + all + 1);
    lemma_clean_seek(seeker(run, i + 1, all));
    let table = gathered(
        destination,
        destination.len() as int,
        relative,
        run.states[i + 1].summary,
    ).0;
    let kept = |item: (Seq<u16>, EntryView)| !in_tail(pending, all, item.0);
    assert forall|d: int| 0 <= d < destination.len() implies (#[trigger] destination[d]).0 is Ok
        && in_source(source, source.len() as int, destination[d].0->Ok_0) by {
        let key = destination[d].0->Ok_0;
        assert(table[d].0 == key);
        if kept(table[d]) {
            assert(table.contains(table[d]));
            table.lemma_filter_contains(kept, d);
        }
        let k = choose|k: int|
            pending.len() - all <= k < pending.len() && (#[trigger] pending[k]).0 == Ok::<
                Seq<u16>,
                IoError,
            >(key);
        assert(pending[k] == source[source.len() - 1 - k]);
    }
}

proof fn lemma_waiting_task_is_listed(run: ComparisonRun, m: int, q: int)
    requires
        run.valid(),
        run.finished(),
        0 <= m <= run.replies.len(),
        !sets_up(run.steps[m]),
        0 <= q < run.states[m].tasks.len(),
    ensures
        exists|i: int| m < i && #[trigger] run.lists(i, run.states[m].tasks[q]),
    decreases run.replies.len() - m,
{
    let task = run.states[m].tasks[q];
    if m == run.replies.len() {
        assert(m > 0);
        assert(run.moves(m - 1));
        lemma_along(run, m - 1);
        lemma_step(run.states[m - 1], run.steps[m - 1], run.replies[m - 1]);
    } else {
        assert(run.moves(m));
        lemma_along(run, m);
        lemma_step(run.states[m], run.steps[m], run.replies[m]);
        lemma_goes_on(run, m + 1);
        let next = run.states[m + 1];
        if run.steps[m + 1] is ListSource && next.tasks != run.states[m].tasks && q
            == run.states[m].tasks.len() - 1 {
            assert(run.lists(m + 1, task));
        } else {
            assert(next.tasks[q] == task) by {
                if !(run.steps[m + 1] is ListSource) {
                    assert(next.tasks.take(run.states[m].tasks.len() as int)[q] == next.tasks[q]);
                }
            }
            lemma_waiting_task_is_listed(run, m + 1, q);
            let i = choose|i: int| m + 1 < i && #[trigger] run.lists(i, next.tasks[q]);
            assert(run.lists(i, task));
        }
    }
}

proof fn lemma_compared_directory_is_listed(run: ComparisonRun, j: int)
    requires
        run.valid(),
        run.finished(),
        0 <= j < run.replies.len(),
        run.compared_directory(j) is Some,
    ensures
        exists|i: int| j < i && #[trigger] run.lists(i, run.compared_directory(j)->0),
{
    let task = run.compared_directory(j)->0;
    assert(run.moves(j));
    let judged = run.states[j].judged(run.replies[j]);
    assert(judged.tasks.last() == task);
    lemma_seeking(judged);
    lemma_goes_on(run, j + 1);
    if run.steps[j + 1] is ListSource {
        assert(run.lists(j + 1, task));
    } else {
        let q = judged.tasks.len() - 1;
        lemma_waiting_task_is_listed(run, j + 1, q);
        let i = choose|i: int| j + 1 < i && #[trigger] run.lists(i, run.states[j + 1].tasks[q]);
        assert(run.lists(i, task));
    }
}

proof fn lemma_roots(run: ComparisonRun, i: int)
    requires
        run.clean(),
        0 <= i <= run.replies.len(),
        !sets_up(run.steps[i]),
    ensures
        exists|r: int| #[trigger] run.finds_roots_equal(r),
    decreases i,
{
    assert(i > 0);
    if sets_up(run.steps[i - 1]) {
        assert(run.moves(i - 1));
        lemma_along(run, i - 1);
        lemma_step(run.states[i - 1], run.steps[i - 1], run.replies[i - 1]);
        lemma_goes_on(run, i);
        lemma_failures_stay(run, i);
        assert(run.finds_roots_equal(i - 1));
    } else {
        lemma_roots(run, i - 1);
    }
}

/// At every step of a comparison exactly the first failures are described, up
/// to the limit.
pub proof fn every_failure_is_described(run: ComparisonRun, i: int)
    requires
        run.valid(),
        0 <= i < run.states.len(),
    ensures
        run.states[i].summary.describes_failures(),
{
    lemma_along(run, i);
}

/// A failure that was counted stays counted to the end.
pub proof fn failures_are_never_taken_back(run: ComparisonRun, i: int)
    requires
        run.valid(),
        0 <= i < run.states.len(),
    ensures
        run.states[i].summary.failed <= run.states.last().summary.failed,
{
    lemma_failures_stay(run, i);
}

/// A comparison ends without a mismatch only if the trees are equal: the roots
/// were found equal, every pair of directories that was listed holds the same
/// names and only pairs that were found equal, and every pair of directories
/// that was found equal was listed in turn.
pub proof fn no_mismatch_means_equal_trees(run: ComparisonRun)
    requires
        run.valid(),
        run.finished(),
        run.states.last().summary.failed == 0,
    ensures
        exists|i: int| #[trigger] run.finds_roots_equal(i),
        forall|i: int|
            0 <= i < run.replies.len() && (#[trigger] run.steps[i]) is ListSource
                ==> run.finds_directory_equal(i),
        forall|j: int|
            0 <= j < run.replies.len() && (#[trigger] run.compared_directory(j)) is Some
                ==> exists|i: int| j < i && #[trigger] run.lists(i, run.compared_directory(j)->0),
{
    lemma_roots(run, run.replies.len() as int);
    assert forall|i: int|
        0 <= i < run.replies.len() && (#[trigger] run.steps[i]) is ListSource implies
        run.finds_directory_equal(i) by {
        lemma_listing(run, i);
    }
    assert forall|j: int|
        0 <= j < run.replies.len() && (#[trigger] run.compared_directory(j)) is Some implies exists|
        i: int,
    | j < i && #[trigger] run.lists(i, run.compared_directory(j)->0) by {
        lemma_compared_directory_is_listed(run, j);
    }
}

} // verus!
