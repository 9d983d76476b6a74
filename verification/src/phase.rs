//! Wall-time measurements of one run, by phase.
//!
//! A tracker belongs to exactly one run, so that one run's measurements cannot
//! reach another's.

use vstd::prelude::*;
use vstd::string::*;

use crate::text::{decimal, push_decimal};

verus! {

/// Instrumented phases in reporting order: worker-side engine phases first,
/// then the coordinator's serial stages.
pub const PHASE_NAMES: [&'static str; 9] = [
    "open_src",
    "list_streams",
    "read",
    "create_dst",
    "write",
    "set_meta",
    "coord_enum_join",
    "coord_entry",
    "coord_finish",
];

/// Engine phase: opening the source file.
pub const PHASE_OPEN_SRC: usize = 0;

/// Engine phase: enumerating the source stream set.
pub const PHASE_LIST_STREAMS: usize = 1;

/// Engine phase: source data reads.
pub const PHASE_READ: usize = 2;

/// Engine phase: creating the destination object.
pub const PHASE_CREATE_DST: usize = 3;

/// Engine phase: destination data writes.
pub const PHASE_WRITE: usize = 4;

/// Engine phase: destination metadata stamping.
pub const PHASE_SET_META: usize = 5;

/// Coordinator phase: directory enumeration and join.
pub const PHASE_COORD_ENUM_JOIN: usize = 6;

/// Coordinator phase: per-entry classification and dispatch.
pub const PHASE_COORD_ENTRY: usize = 7;

/// Coordinator phase: worker-result accounting.
pub const PHASE_COORD_FINISH: usize = 8;

/// The name of a phase.
pub open spec fn phase_name(index: int) -> Seq<char> {
    PHASE_NAMES@[index]@
}

/// Phase measurements of one run.
#[derive(Clone, Debug, PartialEq, Eq)]
pub struct PhaseTracker {
    nanos: [u64; 9],
    calls: [u64; 9],
}

/// Nanoseconds and calls per phase, in reporting order.
#[verifier::ext_equal]
pub ghost struct PhasesView {
    pub nanos: Seq<u64>,
    pub calls: Seq<u64>,
}

impl View for PhaseTracker {
    type V = PhasesView;

    closed spec fn view(&self) -> PhasesView {
        PhasesView { nanos: self.nanos@, calls: self.calls@ }
    }
}

/// A duration that fits, or the largest one.
pub open spec fn nanos_of(elapsed: u128) -> u64 {
    if elapsed <= u64::MAX {
        elapsed as u64
    } else {
        u64::MAX
    }
}

/// The sum of two counts, starting over behind the largest one.
pub open spec fn wrapped(left: u64, right: u64) -> u64 {
    if left + right <= u64::MAX {
        (left + right) as u64
    } else {
        (left + right - 0x1_0000_0000_0000_0000) as u64
    }
}

/// The nearest integer to `value / unit`; from one half on the next one.
pub open spec fn nearest(value: nat, unit: nat) -> nat {
    if 2 * (value % unit) >= unit {
        value / unit + 1
    } else {
        value / unit
    }
}

/// The nearest integer to `value / unit`; at one half the even one.
pub open spec fn nearest_even(value: nat, unit: nat) -> nat {
    let floor = value / unit;
    if 2 * (value % unit) > unit || (2 * (value % unit) == unit && floor % 2 == 1) {
        floor + 1
    } else {
        floor
    }
}

/// Nanoseconds in seconds with two digits behind the point.
pub open spec fn seconds_text(nanos: u64) -> Seq<char> {
    let hundredths = nearest(nanos as nat, 10_000_000);
    decimal(hundredths / 100) + "."@ + decimal(hundredths % 100 / 10) + decimal(hundredths % 10)
}

/// What is said of one phase; nothing where it was never called.
pub open spec fn phase_text(name: Seq<char>, nanos: u64, calls: u64) -> Seq<char> {
    if calls == 0 {
        seq![]
    } else {
        name + ": total="@ + seconds_text(nanos) + "s calls="@ + decimal(calls as nat) + " mean="@
            + decimal(nearest_even(nanos as nat, 1000 * calls as nat)) + "us; "@
    }
}

impl PhasesView {
    /// No measurement.
    pub open spec fn empty() -> PhasesView {
        PhasesView { nanos: Seq::new(9, |i: int| 0u64), calls: Seq::new(9, |i: int| 0u64) }
    }

    /// With one more timed call of a phase. A phase that does not exist is not
    /// measured.
    pub open spec fn recording(self, index: int, elapsed: u128) -> PhasesView {
        if 0 <= index < 9 {
            PhasesView {
                nanos: self.nanos.update(index, wrapped(self.nanos[index], nanos_of(elapsed))),
                calls: self.calls.update(index, wrapped(self.calls[index], 1)),
            }
        } else {
            self
        }
    }

    /// What is said of the first `count` phases.
    pub open spec fn text(self, count: int) -> Seq<char>
        decreases count,
    {
        if count <= 0 {
            seq![]
        } else {
            self.text(count - 1) + phase_text(
                phase_name(count - 1),
                self.nanos[count - 1],
                self.calls[count - 1],
            )
        }
    }
}

fn push_seconds(out: &mut String, nanos: u64)
    ensures
        final(out)@ == old(out)@ + seconds_text(nanos),
{
    let floor: u64 = nanos / 10_000_000;
    let hundredths: u64 = if 2 * (nanos % 10_000_000) >= 10_000_000 {
        floor + 1
    } else {
        floor
    };
    push_decimal(out, hundredths / 100);
    out.append(".");
    push_decimal(out, hundredths % 100 / 10);
    push_decimal(out, hundredths % 10);
    assert(out@ =~= old(out)@ + seconds_text(nanos));
}

fn mean_micros(nanos: u64, calls: u64) -> (mean: u64)
    requires
        calls > 0,
    ensures
        mean == nearest_even(nanos as nat, 1000 * calls as nat),
{
    let unit: u128 = 1000 * calls as u128;
    let value: u128 = nanos as u128;
    let floor: u128 = value / unit;
    let rest: u128 = value % unit;
    assert(floor <= value / 1000) by (nonlinear_arith)
        requires
            floor == value / unit,
            unit >= 1000,
    ;
    if 2 * rest > unit || (2 * rest == unit && floor % 2 == 1) {
        (floor + 1) as u64
    } else {
        floor as u64
    }
}

impl PhaseTracker {
    /// Creates empty measurements for a new run.
    pub fn new() -> (tracker: Self)
        ensures
            tracker@ == PhasesView::empty(),
    {
        let tracker = PhaseTracker { nanos: [0u64; 9], calls: [0u64; 9] };
        assert(tracker@ =~= PhasesView::empty());
        tracker
    }

    /// Adds one timed call of so many nanoseconds to a phase.
    pub fn record(&mut self, index: usize, elapsed: u128)
        ensures
            final(self)@ == old(self)@.recording(index as int, elapsed),
    {
        if index < 9 {
            let nanos: u64 = if elapsed <= u64::MAX as u128 {
                elapsed as u64
            } else {
                u64::MAX
            };
            let total: u64 = self.nanos[index].wrapping_add(nanos);
            let count: u64 = self.calls[index].wrapping_add(1);
            self.nanos[index] = total;
            self.calls[index] = count;
        }
        assert(self@ =~= old(self)@.recording(index as int, elapsed));
    }

    /// One line of text on every phase that was called.
    pub fn summary(&self) -> (text: String)
        ensures
            text@ == self@.text(9),
    {
        let mut out = String::new();
        let names = PHASE_NAMES;
        assert(out@ =~= self@.text(0));
        for index in 0..9usize
            invariant
                names == PHASE_NAMES,
                out@ == self@.text(index as int),
        {
            let nanos: u64 = self.nanos[index];
            let calls: u64 = self.calls[index];
            let ghost before = out@;
            if calls > 0 {
                out.append(names[index]);
                out.append(": total=");
                push_seconds(&mut out, nanos);
                out.append("s calls=");
                push_decimal(&mut out, calls);
                out.append(" mean=");
                push_decimal(&mut out, mean_micros(nanos, calls));
                out.append("us; ");
            }
            assert(out@ =~= before + phase_text(phase_name(index as int), nanos, calls));
        }
        out
    }
}

impl Default for PhaseTracker {
    fn default() -> (tracker: Self)
        ensures
            tracker@ == PhasesView::empty(),
    {
        PhaseTracker::new()
    }
}

/// Measuring one phase leaves the others alone.
pub proof fn phases_are_measured_apart(phases: PhasesView, index: int, other: int, elapsed: u128)
    requires
        phases.nanos.len() == 9,
        phases.calls.len() == 9,
        0 <= other < 9,
        other != index,
    ensures
        phases.recording(index, elapsed).nanos[other] == phases.nanos[other],
        phases.recording(index, elapsed).calls[other] == phases.calls[other],
{
}

/// A run without any call has nothing to say.
pub proof fn silence_without_calls(count: int)
    requires
        count <= 9,
    ensures
        PhasesView::empty().text(count) == Seq::<char>::empty(),
    decreases count,
{
    if count > 0 {
        silence_without_calls(count - 1);
        assert(PhasesView::empty().text(count) =~= Seq::<char>::empty());
    }
}

/// A rounded number is off by at most half of its unit.
pub proof fn rounding_is_to_the_nearest(value: nat, unit: nat)
    requires
        unit > 0,
    ensures
        -(unit as int) <= 2 * (value - nearest(value, unit) * unit) <= unit,
        -(unit as int) <= 2 * (value - nearest_even(value, unit) * unit) <= unit,
{
    let floor = value as int / unit as int;
    let rest = value as int % unit as int;
    vstd::arithmetic::div_mod::lemma_fundamental_div_mod(value as int, unit as int);
    vstd::arithmetic::div_mod::lemma_mod_bound(value as int, unit as int);
    assert(value == unit * floor + rest);
    assert(unit * floor == floor * unit) by (nonlinear_arith);
    assert((floor + 1) * unit == floor * unit + unit) by (nonlinear_arith);
}

/// A recorded call adds its time and one call to its own phase.
pub proof fn recorded_call_counts_in_its_phase(phases: PhasesView, index: int, elapsed: u128)
    requires
        phases.nanos.len() == 9,
        phases.calls.len() == 9,
        0 <= index < 9,
        phases.nanos[index] + elapsed <= u64::MAX,
        phases.calls[index] < u64::MAX,
    ensures
        phases.recording(index, elapsed).nanos[index] == phases.nanos[index] + elapsed,
        phases.recording(index, elapsed).calls[index] == phases.calls[index] + 1,
{
}

} // verus!
