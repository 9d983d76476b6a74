//! The size classes by which copied files are grouped.

use vstd::prelude::*;
use vstd::string::*;

use crate::model::sat;

verus! {

/// Number of size classes.
pub const SIZE_CLASSES: usize = 5;

/// The largest file of a size class, in bytes.
pub open spec fn class_bound(index: int) -> u64 {
    if index <= 0 {
        0x1_0000
    } else if index == 1 {
        0x10_0000
    } else if index == 2 {
        0x100_0000
    } else if index == 3 {
        0x1000_0000
    } else {
        u64::MAX
    }
}

/// What a size class is called.
pub open spec fn class_label(index: int) -> Seq<char> {
    if index <= 0 {
        "<=64KiB"@
    } else if index == 1 {
        "<=1MiB"@
    } else if index == 2 {
        "<=16MiB"@
    } else if index == 3 {
        "<=256MiB"@
    } else {
        ">256MiB"@
    }
}

/// The size class of a file: the first one whose bound it does not exceed.
pub open spec fn class_of(bytes: u64) -> int {
    if bytes <= class_bound(0) {
        0
    } else if bytes <= class_bound(1) {
        1
    } else if bytes <= class_bound(2) {
        2
    } else if bytes <= class_bound(3) {
        3
    } else {
        4
    }
}

/// Files and bytes per size class with one more file.
pub open spec fn counted_in_class(totals: Seq<(u64, u64)>, bytes: u64) -> Seq<(u64, u64)> {
    let (files, sum) = totals[class_of(bytes)];
    totals.update(class_of(bytes), (sat(files, 1), sat(sum, bytes)))
}

/// The size class of a file: the first one whose bound it does not exceed.
pub fn size_class(bytes: u64) -> (index: usize)
    ensures
        index < SIZE_CLASSES,
        index == class_of(bytes),
        bytes <= class_bound(index as int),
        forall|i: int| 0 <= i < index ==> #[trigger] class_bound(i) < bytes,
{
    if bytes <= 0x1_0000 {
        0
    } else if bytes <= 0x10_0000 {
        1
    } else if bytes <= 0x100_0000 {
        2
    } else if bytes <= 0x1000_0000 {
        3
    } else {
        4
    }
}

/// Counts one file in its size class.
pub fn add_to_class(totals: &mut Vec<(u64, u64)>, bytes: u64)
    requires
        old(totals)@.len() == SIZE_CLASSES,
    ensures
        final(totals)@ == counted_in_class(old(totals)@, bytes),
        final(totals)@.len() == SIZE_CLASSES,
{
    let index: usize = size_class(bytes);
    let (files, sum) = totals[index];
    totals.set(index, (files.saturating_add(1), sum.saturating_add(bytes)));
}

/// What a size class is called.
pub fn size_class_label(index: usize) -> (label: &'static str)
    requires
        index < SIZE_CLASSES,
    ensures
        label@ == class_label(index as int),
{
    if index == 0 {
        "<=64KiB"
    } else if index == 1 {
        "<=1MiB"
    } else if index == 2 {
        "<=16MiB"
    } else if index == 3 {
        "<=256MiB"
    } else {
        ">256MiB"
    }
}

/// Files are grouped up to 64 KiB, 1 MiB, 16 MiB and 256 MiB, and above.
pub proof fn classes_end_at_their_labels(bytes: u64)
    ensures
        class_of(bytes) == 0 <==> bytes <= 64 * 1024,
        class_of(bytes) == 1 <==> 64 * 1024 < bytes <= 1024 * 1024,
        class_of(bytes) == 2 <==> 1024 * 1024 < bytes <= 16 * 1024 * 1024,
        class_of(bytes) == 3 <==> 16 * 1024 * 1024 < bytes <= 256 * 1024 * 1024,
        class_of(bytes) == 4 <==> 256 * 1024 * 1024 < bytes,
{
}

/// A file counts once, with its bytes, in its own class and in no other.
pub proof fn file_counts_in_its_own_class(totals: Seq<(u64, u64)>, bytes: u64, other: int)
    requires
        totals.len() == 5,
        0 <= other < 5,
        forall|i: int| 0 <= i < 5 ==> (#[trigger] totals[i]).0 < u64::MAX && totals[i].1 + bytes
            <= u64::MAX,
    ensures
        ({
            let after = counted_in_class(totals, bytes);
            let mine = class_of(bytes);
            &&& after.len() == 5
            &&& after[mine].0 == totals[mine].0 + 1
            &&& after[mine].1 == totals[mine].1 + bytes
            &&& other != mine ==> after[other] == totals[other]
        }),
{
}

} // verus!
