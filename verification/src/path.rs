//! Windows paths and names as UTF-16 code units.
//!
//! A Windows name may hold any sequence of code units, unpaired surrogates
//! included, so paths are kept as units and turned into text only for display.

use vstd::prelude::*;

verus! {

/// [`char::from_u32`] converts a Unicode scalar value and returns `None` for
/// any other number.
pub assume_specification[ char::from_u32 ](value: u32) -> (c: Option<char>)
    ensures
        is_scalar_value(value) ==> c == Some(value as char),
        !is_scalar_value(value) ==> c is None,
;

/// Whether `value` is a Unicode scalar value.
pub open spec fn is_scalar_value(value: u32) -> bool {
    value <= 0xD7FF || 0xE000 <= value <= 0x10FFFF
}

/// The replacement character that stands for an unpaired surrogate.
pub const REPLACEMENT: char = '\u{FFFD}';

/// Whether a unit is the first half of a surrogate pair.
pub open spec fn is_high_surrogate(unit: u16) -> bool {
    0xD800 <= unit <= 0xDBFF
}

/// Whether a unit is the second half of a surrogate pair.
pub open spec fn is_low_surrogate(unit: u16) -> bool {
    0xDC00 <= unit <= 0xDFFF
}

/// The UTF-16 units of one character.
pub open spec fn utf16_of_char(c: char) -> Seq<u16> {
    let value = c as u32;
    if value < 0x10000 {
        seq![value as u16]
    } else {
        seq![
            (0xD800 + (value - 0x10000) / 0x400) as u16,
            (0xDC00 + (value - 0x10000) % 0x400) as u16,
        ]
    }
}

/// The UTF-16 units of a string.
pub open spec fn utf16_of(text: Seq<char>) -> Seq<u16>
    decreases text.len(),
{
    if text.len() == 0 {
        seq![]
    } else {
        utf16_of(text.drop_last()) + utf16_of_char(text.last())
    }
}

/// Whether the units at `at` are a surrogate pair.
pub open spec fn pair_at(units: Seq<u16>, at: int) -> bool {
    0 <= at && at + 1 < units.len() && is_high_surrogate(units[at]) && is_low_surrogate(
        units[at + 1],
    )
}

/// The character that the units at `at` stand for.
pub open spec fn char_at(units: Seq<u16>, at: int) -> char {
    if pair_at(units, at) {
        (0x10000 + (units[at] - 0xD800) * 0x400 + (units[at + 1] - 0xDC00)) as char
    } else if is_high_surrogate(units[at]) || is_low_surrogate(units[at]) {
        REPLACEMENT
    } else {
        units[at] as char
    }
}

/// The text of the units from `at` on, with the replacement character for
/// each unpaired surrogate.
pub open spec fn lossy_from(units: Seq<u16>, at: int) -> Seq<char>
    decreases units.len() - at,
{
    if at < 0 || at >= units.len() {
        seq![]
    } else if pair_at(units, at) {
        seq![char_at(units, at)] + lossy_from(units, at + 2)
    } else {
        seq![char_at(units, at)] + lossy_from(units, at + 1)
    }
}

/// The text of the units, with the replacement character for each unpaired
/// surrogate.
pub open spec fn lossy_text(units: Seq<u16>) -> Seq<char> {
    lossy_from(units, 0)
}

/// Whether some surrogate at or after `at` is unpaired.
pub open spec fn unpaired_from(units: Seq<u16>, at: int) -> bool
    decreases units.len() - at,
{
    if at < 0 || at >= units.len() {
        false
    } else if pair_at(units, at) {
        unpaired_from(units, at + 2)
    } else if is_high_surrogate(units[at]) || is_low_surrogate(units[at]) {
        true
    } else {
        unpaired_from(units, at + 1)
    }
}

/// Whether a unit separates path components.
pub open spec fn is_separator(unit: u16) -> bool {
    unit == 0x5C || unit == 0x2F
}

/// Whether a unit separates the components of a path. A slash does not in a
/// verbatim path.
pub open spec fn splits(unit: u16, verbatim: bool) -> bool {
    unit == 0x5C || (unit == 0x2F && !verbatim)
}

/// The backslash as a component of its own: the root of a path.
pub open spec fn root_component() -> Seq<u16> {
    seq![0x5Cu16]
}

/// The current-directory component.
pub open spec fn dot_component() -> Seq<u16> {
    seq![0x2Eu16]
}

/// The parent-directory component.
pub open spec fn parent_component() -> Seq<u16> {
    seq![0x2Eu16, 0x2Eu16]
}

/// Position of the first separator at or after `at`, or the length.
pub open spec fn next_separator(units: Seq<u16>, at: int, verbatim: bool) -> int
    decreases units.len() - at,
{
    if at < 0 || at >= units.len() {
        units.len() as int
    } else if splits(units[at], verbatim) {
        at
    } else {
        next_separator(units, at + 1, verbatim)
    }
}

/// The units from `at` to the next separator.
pub open spec fn part_at(units: Seq<u16>, at: int, verbatim: bool) -> Seq<u16> {
    units.subrange(at, next_separator(units, at, verbatim))
}

/// Where the units behind the next separator start.
pub open spec fn behind_part(units: Seq<u16>, at: int, verbatim: bool) -> int {
    let end = next_separator(units, at, verbatim);
    if end < units.len() {
        end + 1
    } else {
        end
    }
}

/// Whether a stretch between separators is a component. An empty one is none,
/// and `.` is one only in a verbatim path.
pub open spec fn is_component(name: Seq<u16>, verbatim: bool) -> bool {
    name.len() > 0 && (verbatim || name != dot_component())
}

/// The components of the units from `at` on.
pub open spec fn names_from(units: Seq<u16>, at: int, verbatim: bool) -> Seq<Seq<u16>>
    decreases units.len() - at,
{
    if at < 0 || at >= units.len() {
        seq![]
    } else {
        let end = next_separator(units, at, verbatim);
        let name = part_at(units, at, verbatim);
        let rest = if at <= end < units.len() {
            names_from(units, end + 1, verbatim)
        } else {
            seq![]
        };
        if is_component(name, verbatim) {
            seq![name] + rest
        } else {
            rest
        }
    }
}

/// The prefix of a Windows path, as values. Drive letters are in upper case.
#[verifier::ext_equal]
pub ghost enum PrefixView {
    /// `\\?\name`
    Verbatim(Seq<u16>),
    /// `\\?\UNC\server\share`
    VerbatimUnc(Seq<u16>, Seq<u16>),
    /// `\\?\C:`
    VerbatimDisk(u16),
    /// `\\.\device`
    Device(Seq<u16>),
    /// `\\server\share`
    Unc(Seq<u16>, Seq<u16>),
    /// `C:`
    Disk(u16),
}

/// Whether a drive letter and a colon stand at `at`.
pub open spec fn drive_at(units: Seq<u16>, at: int) -> bool {
    units.len() >= at + 2 && units[at + 1] == 0x3A && (0x41 <= units[at] <= 0x5A || 0x61
        <= units[at] <= 0x7A)
}

/// A drive letter in upper case.
pub open spec fn upper_letter(unit: u16) -> u16 {
    if unit >= 0x61 {
        (unit - 0x20) as u16
    } else {
        unit
    }
}

/// Whether a path starts with two separators.
pub open spec fn starts_double(units: Seq<u16>) -> bool {
    units.len() >= 2 && is_separator(units[0]) && is_separator(units[1])
}

/// Whether a path starts with `\\?\`, spelled with backslashes.
pub open spec fn starts_verbatim(units: Seq<u16>) -> bool {
    units.len() >= 4 && units[0] == 0x5C && units[1] == 0x5C && units[2] == 0x3F && units[3]
        == 0x5C
}

/// Whether a verbatim path goes on with `UNC` and a separator.
pub open spec fn goes_on_unc(units: Seq<u16>) -> bool {
    units.len() >= 8 && units[4] == 0x55 && units[5] == 0x4E && units[6] == 0x43 && is_separator(
        units[7],
    )
}

/// The prefix of a path, if it has one.
pub open spec fn prefix_of(units: Seq<u16>) -> Option<PrefixView> {
    if starts_double(units) {
        if starts_verbatim(units) {
            if goes_on_unc(units) {
                Some(
                    PrefixView::VerbatimUnc(
                        part_at(units, 8, true),
                        part_at(units, behind_part(units, 8, true), true),
                    ),
                )
            } else if drive_at(units, 4) && (units.len() == 6 || is_separator(units[6])) {
                Some(PrefixView::VerbatimDisk(upper_letter(units[4])))
            } else {
                Some(PrefixView::Verbatim(part_at(units, 4, true)))
            }
        } else if units.len() >= 4 && units[2] == 0x2E && is_separator(units[3]) {
            Some(PrefixView::Device(part_at(units, 4, false)))
        } else {
            let server = part_at(units, 2, false);
            let share = part_at(units, behind_part(units, 2, false), false);
            if server.len() > 0 && share.len() > 0 {
                Some(PrefixView::Unc(server, share))
            } else {
                None
            }
        }
    } else if drive_at(units, 0) {
        Some(PrefixView::Disk(upper_letter(units[0])))
    } else {
        None
    }
}

/// How many units a prefix takes.
pub open spec fn prefix_len(prefix: Option<PrefixView>) -> int {
    match prefix {
        None => 0,
        Some(PrefixView::Verbatim(name)) => 4 + name.len() as int,
        Some(PrefixView::VerbatimUnc(server, share)) => if share.len() > 0 {
            9 + server.len() + share.len() as int
        } else {
            8 + server.len() as int
        },
        Some(PrefixView::VerbatimDisk(_)) => 6,
        Some(PrefixView::Device(name)) => 4 + name.len() as int,
        Some(PrefixView::Unc(server, share)) => 3 + server.len() + share.len() as int,
        Some(PrefixView::Disk(_)) => 2,
    }
}

/// Whether a prefix switches the usual reading of a path off.
pub open spec fn is_verbatim(prefix: Option<PrefixView>) -> bool {
    match prefix {
        Some(PrefixView::Verbatim(_)) => true,
        Some(PrefixView::VerbatimUnc(_, _)) => true,
        Some(PrefixView::VerbatimDisk(_)) => true,
        _ => false,
    }
}

/// Whether a separator stands right behind the prefix.
pub open spec fn has_separator_root(units: Seq<u16>) -> bool {
    let at = prefix_len(prefix_of(units));
    at < units.len() && is_separator(units[at])
}

/// Whether a path has a root component. A share and a device have one even
/// without a separator.
pub open spec fn has_root(units: Seq<u16>) -> bool {
    has_separator_root(units) || match prefix_of(units) {
        Some(PrefixView::Unc(_, _)) => true,
        Some(PrefixView::Device(_)) => true,
        _ => false,
    }
}

/// Whether a path starts with a `.` that counts as a component.
pub open spec fn starts_with_dot(units: Seq<u16>) -> bool {
    &&& prefix_of(units) is None
    &&& units.len() > 0 && units[0] == 0x2E
    &&& units.len() == 1 || is_separator(units[1])
}

/// The components after the prefix and the root.
pub open spec fn names(units: Seq<u16>) -> Seq<Seq<u16>> {
    let prefix = prefix_of(units);
    if starts_with_dot(units) {
        seq![dot_component()] + names_from(units, 1, false)
    } else if has_separator_root(units) {
        names_from(units, prefix_len(prefix) + 1, is_verbatim(prefix))
    } else {
        names_from(units, prefix_len(prefix), is_verbatim(prefix))
    }
}

/// The first component of a path, if it has one.
pub open spec fn first_component(units: Seq<u16>) -> Option<Seq<u16>> {
    if prefix_of(units) is Some {
        Some(units.take(prefix_len(prefix_of(units))))
    } else if has_root(units) {
        Some(root_component())
    } else if names(units).len() > 0 {
        Some(names(units)[0])
    } else {
        None
    }
}

/// Whether `path` names an object directly in `directory`.
pub open spec fn lies_directly_in(path: Seq<u16>, directory: Seq<u16>) -> bool {
    &&& names(path).len() > 0
    &&& prefix_of(path) == prefix_of(directory)
    &&& has_root(path) == has_root(directory)
    &&& names(path).drop_last() == names(directory)
}

/// The components of a verbatim path after one more component: `.` adds
/// nothing, and `..` takes back a name.
pub open spec fn entered(list: Seq<Seq<u16>>, name: Seq<u16>) -> Seq<Seq<u16>> {
    if name == dot_component() {
        list
    } else if name == parent_component() {
        if list.len() > 0 && list.last() != dot_component() && list.last() != parent_component() {
            list.drop_last()
        } else {
            list
        }
    } else {
        list.push(name)
    }
}

/// The components of a verbatim path after the first `count` of more
/// components.
pub open spec fn entered_all(list: Seq<Seq<u16>>, more: Seq<Seq<u16>>, count: int) -> Seq<Seq<u16>>
    decreases count,
{
    if count <= 0 {
        list
    } else {
        entered(entered_all(list, more, count - 1), more[count - 1])
    }
}

/// The first `count` components, each behind a backslash.
pub open spec fn spelled(list: Seq<Seq<u16>>, count: int) -> Seq<u16>
    decreases count,
{
    if count <= 0 {
        seq![]
    } else {
        spelled(list, count - 1).push(0x5C) + list[count - 1]
    }
}

/// A verbatim path with a path behind it. Such a path is taken literally, so
/// `.` and `..` are resolved on the way.
pub open spec fn verbatim_child_of(base: Seq<u16>, name: Seq<u16>) -> Seq<u16> {
    let head = base.take(prefix_len(prefix_of(base)));
    let start = if has_root(name) {
        seq![]
    } else {
        names(base)
    };
    let list = entered_all(start, names(name), names(name).len() as int);
    if list.len() > 0 {
        head + spelled(list, list.len() as int)
    } else if has_root(base) || has_root(name) {
        head.push(0x5C)
    } else {
        head
    }
}

/// Whether a separator goes between a path and a relative path behind it. None
/// goes behind a bare drive.
pub open spec fn wants_separator(base: Seq<u16>) -> bool {
    &&& base.len() > 0
    &&& !is_separator(base.last())
    &&& !(prefix_of(base) is Some && prefix_of(base)->0 is Disk && base.len() == 2)
}

/// The path of `name` below `base`. A name with a prefix stands for itself, and
/// one with a root keeps only the prefix of `base`.
pub open spec fn child_of(base: Seq<u16>, name: Seq<u16>) -> Seq<u16> {
    if prefix_of(name) is Some {
        name
    } else if is_verbatim(prefix_of(base)) && name.len() > 0 {
        verbatim_child_of(base, name)
    } else if has_root(name) {
        base.take(prefix_len(prefix_of(base))) + name
    } else if wants_separator(base) {
        base.push(0x5C) + name
    } else {
        base + name
    }
}

fn separator(unit: u16) -> (r: bool)
    ensures
        r == is_separator(unit),
{
    unit == 0x5C || unit == 0x2F
}

/// A path or a name as UTF-16 units.
#[derive(Clone, Debug, PartialEq, Eq, PartialOrd, Ord, Hash)]
pub struct WidePath {
    /// The units.
    pub units: Vec<u16>,
}

impl View for WidePath {
    type V = Seq<u16>;

    open spec fn view(&self) -> Seq<u16> {
        self.units@
    }
}

/// Whether two unit sequences are the same.
pub fn units_eq(left: &[u16], right: &[u16]) -> (same: bool)
    ensures
        same == (left@ == right@),
{
    if left.len() != right.len() {
        return false;
    }
    for i in 0..left.len()
        invariant
            left.len() == right.len(),
            forall|j: int| 0 <= j < i ==> left[j] == right[j],
    {
        if left[i] != right[i] {
            return false;
        }
    }
    assert(left@ =~= right@);
    true
}

/// A copy of the units from `from` to `to`.
pub fn copy_units(units: &[u16], from: usize, to: usize) -> (out: Vec<u16>)
    requires
        from <= to <= units.len(),
    ensures
        out@ == units@.subrange(from as int, to as int),
{
    let mut out: Vec<u16> = Vec::new();
    for i in from..to
        invariant
            from <= to <= units.len(),
            out@ == units@.subrange(from as int, i as int),
    {
        out.push(units[i]);
        assert(out@ =~= units@.subrange(from as int, i as int + 1));
    }
    out
}

/// Position of the first separator at or after `at`, or the length.
fn find_separator(units: &[u16], at: usize, verbatim: bool) -> (end: usize)
    requires
        at <= units.len(),
    ensures
        end == next_separator(units@, at as int, verbatim),
        at <= end <= units.len(),
{
    let mut end: usize = at;
    while end < units.len() && !(units[end] == 0x5C || (units[end] == 0x2F && !verbatim))
        invariant
            at <= end <= units.len(),
            next_separator(units@, end as int, verbatim) == next_separator(
                units@,
                at as int,
                verbatim,
            ),
        decreases units.len() - end,
    {
        end += 1;
    }
    end
}

/// The views of a list of unit vectors.
pub open spec fn unit_views(list: Seq<Vec<u16>>) -> Seq<Seq<u16>> {
    list.map_values(|v: Vec<u16>| v@)
}

/// Appends the components of the units from `from` on.
fn push_names(units: &[u16], from: usize, verbatim: bool, out: &mut Vec<Vec<u16>>)
    requires
        from <= units.len(),
    ensures
        unit_views(final(out)@) == unit_views(old(out)@) + names_from(
            units@,
            from as int,
            verbatim,
        ),
{
    let ghost all = unit_views(out@) + names_from(units@, from as int, verbatim);
    let mut at: usize = from;
    while at < units.len()
        invariant
            at <= units.len(),
            unit_views(out@) + names_from(units@, at as int, verbatim) == all,
        decreases units.len() - at,
    {
        let end: usize = find_separator(units, at, verbatim);
        let name = copy_units(units, at, end);
        let dot = name.len() == 1 && name[0] == 0x2E;
        assert(dot == (name@ == dot_component())) by {
            if dot {
                assert(name@ =~= dot_component());
            }
        }
        let ghost before = unit_views(out@);
        let ghost rest = names_from(units@, end as int + 1, verbatim);
        if name.len() != 0 && (verbatim || !dot) {
            let ghost kept = name@;
            out.push(name);
            assert(unit_views(out@) =~= before.push(kept));
            assert(before + (seq![kept] + rest) =~= unit_views(out@) + rest);
        }
        assert(unit_views(out@) + rest == all);
        at = if end < units.len() {
            end + 1
        } else {
            end
        };
        assert(names_from(units@, at as int, verbatim) == rest);
    }
    assert(unit_views(out@) =~= all);
}

/// Whether two lists hold the same unit sequences in the same order.
fn unit_lists_eq(left: &Vec<Vec<u16>>, right: &Vec<Vec<u16>>) -> (same: bool)
    ensures
        same == (unit_views(left@) == unit_views(right@)),
{
    if left.len() != right.len() {
        assert(unit_views(left@).len() != unit_views(right@).len());
        return false;
    }
    for i in 0..left.len()
        invariant
            left.len() == right.len(),
            forall|j: int|
                #![trigger unit_views(left@)[j]]
                0 <= j < i ==> unit_views(left@)[j] == unit_views(right@)[j],
    {
        if !units_eq(left[i].as_slice(), right[i].as_slice()) {
            assert(unit_views(left@)[i as int] != unit_views(right@)[i as int]);
            return false;
        }
    }
    assert(unit_views(left@) =~= unit_views(right@));
    true
}

/// The prefix of a Windows path. Drive letters are in upper case.
#[derive(Clone, Debug, PartialEq, Eq)]
enum PathPrefix {
    /// `\\?\name`
    Verbatim(Vec<u16>),
    /// `\\?\UNC\server\share`
    VerbatimUnc(Vec<u16>, Vec<u16>),
    /// `\\?\C:`
    VerbatimDisk(u16),
    /// `\\.\device`
    Device(Vec<u16>),
    /// `\\server\share`
    Unc(Vec<u16>, Vec<u16>),
    /// `C:`
    Disk(u16),
}

impl View for PathPrefix {
    type V = PrefixView;

    closed spec fn view(&self) -> PrefixView {
        match *self {
            PathPrefix::Verbatim(name) => PrefixView::Verbatim(name@),
            PathPrefix::VerbatimUnc(server, share) => PrefixView::VerbatimUnc(server@, share@),
            PathPrefix::VerbatimDisk(letter) => PrefixView::VerbatimDisk(letter),
            PathPrefix::Device(name) => PrefixView::Device(name@),
            PathPrefix::Unc(server, share) => PrefixView::Unc(server@, share@),
            PathPrefix::Disk(letter) => PrefixView::Disk(letter),
        }
    }
}

/// How a path starts: its prefix, where the prefix ends, and whether a
/// separator follows.
struct PathStart {
    prefix: Option<PathPrefix>,
    end: usize,
    rooted: bool,
}

impl PathStart {
    spec fn prefix_view(self) -> Option<PrefixView> {
        match self.prefix {
            Some(prefix) => Some(prefix@),
            None => None,
        }
    }

    spec fn of(self, units: Seq<u16>) -> bool {
        &&& self.prefix_view() == prefix_of(units)
        &&& self.end == prefix_len(prefix_of(units))
        &&& self.end <= units.len()
        &&& self.rooted == has_separator_root(units)
    }

    fn verbatim(&self) -> (r: bool)
        ensures
            r == is_verbatim(self.prefix_view()),
    {
        match &self.prefix {
            Some(PathPrefix::Verbatim(_)) => true,
            Some(PathPrefix::VerbatimUnc(_, _)) => true,
            Some(PathPrefix::VerbatimDisk(_)) => true,
            _ => false,
        }
    }

    fn root(&self) -> (r: bool)
        ensures
            r == (self.rooted || match self.prefix_view() {
                Some(PrefixView::Unc(_, _)) => true,
                Some(PrefixView::Device(_)) => true,
                _ => false,
            }),
    {
        self.rooted || match &self.prefix {
            Some(PathPrefix::Unc(_, _)) => true,
            Some(PathPrefix::Device(_)) => true,
            _ => false,
        }
    }

    fn same_prefix(&self, other: &PathStart) -> (same: bool)
        ensures
            same == (self.prefix_view() == other.prefix_view()),
    {
        match (&self.prefix, &other.prefix) {
            (None, None) => true,
            (Some(PathPrefix::Verbatim(one)), Some(PathPrefix::Verbatim(two))) => units_eq(
                one.as_slice(),
                two.as_slice(),
            ),
            (
                Some(PathPrefix::VerbatimUnc(one, first)),
                Some(PathPrefix::VerbatimUnc(two, second)),
            ) => units_eq(one.as_slice(), two.as_slice()) && units_eq(
                first.as_slice(),
                second.as_slice(),
            ),
            (Some(PathPrefix::VerbatimDisk(one)), Some(PathPrefix::VerbatimDisk(two))) => *one
                == *two,
            (Some(PathPrefix::Device(one)), Some(PathPrefix::Device(two))) => units_eq(
                one.as_slice(),
                two.as_slice(),
            ),
            (Some(PathPrefix::Unc(one, first)), Some(PathPrefix::Unc(two, second))) => units_eq(
                one.as_slice(),
                two.as_slice(),
            ) && units_eq(first.as_slice(), second.as_slice()),
            (Some(PathPrefix::Disk(one)), Some(PathPrefix::Disk(two))) => *one == *two,
            _ => false,
        }
    }
}

fn is_drive(units: &[u16], at: usize) -> (r: bool)
    requires
        at <= 4,
    ensures
        r == drive_at(units@, at as int),
{
    units.len() >= at + 2 && units[at + 1] == 0x3A && (0x41 <= units[at] && units[at] <= 0x5A
        || 0x61 <= units[at] && units[at] <= 0x7A)
}

fn to_upper(unit: u16) -> (upper: u16)
    ensures
        upper == upper_letter(unit),
{
    if unit >= 0x61 {
        unit - 0x20
    } else {
        unit
    }
}

fn behind(units: &[u16], end: usize) -> (next: usize)
    requires
        end <= units.len(),
    ensures
        next == if end < units.len() {
            end + 1
        } else {
            end as int
        },
        next <= units.len(),
{
    if end < units.len() {
        end + 1
    } else {
        end
    }
}

/// The prefix of a path, and where it ends.
fn read_prefix(units: &[u16]) -> (read: (Option<PathPrefix>, usize))
    ensures
        match read.0 {
            Some(prefix) => prefix_of(units@) == Some(prefix@),
            None => prefix_of(units@) is None,
        },
        read.1 == prefix_len(prefix_of(units@)),
        read.1 <= units.len(),
{
    let length: usize = units.len();
    if length >= 2 && separator(units[0]) && separator(units[1]) {
        if length >= 4 && units[0] == 0x5C && units[1] == 0x5C && units[2] == 0x3F && units[3]
            == 0x5C {
            if length >= 8 && units[4] == 0x55 && units[5] == 0x4E && units[6] == 0x43
                && separator(units[7]) {
                let middle: usize = find_separator(units, 8, true);
                let from: usize = behind(units, middle);
                let end: usize = find_separator(units, from, true);
                let server = copy_units(units, 8, middle);
                let share = copy_units(units, from, end);
                let length: usize = if share.len() > 0 {
                    end
                } else {
                    middle
                };
                return (Some(PathPrefix::VerbatimUnc(server, share)), length);
            }
            if is_drive(units, 4) && (length == 6 || separator(units[6])) {
                return (Some(PathPrefix::VerbatimDisk(to_upper(units[4]))), 6);
            }
            let end: usize = find_separator(units, 4, true);
            return (Some(PathPrefix::Verbatim(copy_units(units, 4, end))), end);
        }
        if length >= 4 && units[2] == 0x2E && separator(units[3]) {
            let end: usize = find_separator(units, 4, false);
            return (Some(PathPrefix::Device(copy_units(units, 4, end))), end);
        }
        let middle: usize = find_separator(units, 2, false);
        let from: usize = behind(units, middle);
        let end: usize = find_separator(units, from, false);
        let server = copy_units(units, 2, middle);
        let share = copy_units(units, from, end);
        if server.len() > 0 && share.len() > 0 {
            return (Some(PathPrefix::Unc(server, share)), end);
        }
        return (None, 0);
    }
    if is_drive(units, 0) {
        return (Some(PathPrefix::Disk(to_upper(units[0]))), 2);
    }
    (None, 0)
}

/// Whether a name is made of the given number of dots.
fn is_dots(name: &Vec<u16>, count: usize) -> (r: bool)
    requires
        1 <= count <= 2,
    ensures
        count == 1 ==> r == (name@ == dot_component()),
        count == 2 ==> r == (name@ == parent_component()),
{
    let r = name.len() == count && name[0] == 0x2E && name[count - 1] == 0x2E;
    assert(count == 1 && r ==> name@ =~= dot_component());
    assert(count == 2 && r ==> name@ =~= parent_component());
    r
}

/// Appends units.
fn push_units(out: &mut Vec<u16>, units: &Vec<u16>)
    ensures
        final(out)@ == old(out)@ + units@,
{
    let ghost base = out@;
    for i in 0..units.len()
        invariant
            out@ == base + units@.take(i as int),
    {
        out.push(units[i]);
        assert(out@ =~= base + units@.take(i as int + 1));
    }
    assert(out@ =~= base + units@);
}

impl WidePath {
    /// The empty path.
    pub fn empty() -> (path: WidePath)
        ensures
            path@ == Seq::<u16>::empty(),
    {
        WidePath { units: Vec::new() }
    }

    /// The path spelled by a string.
    pub fn from_text(text: &str) -> (path: WidePath)
        ensures
            path@ == utf16_of(text@),
    {
        let mut units: Vec<u16> = Vec::new();
        for c in iter: text.chars()
            invariant
                units@ == utf16_of(text@.take(iter.index() as int)),
                iter.seq() == text@,
        {
            let ghost at = iter.index() as int;
            let value: u32 = c as u32;
            if value < 0x10000 {
                units.push(value as u16);
            } else {
                units.push((0xD800 + (value - 0x10000) / 0x400) as u16);
                units.push((0xDC00 + (value - 0x10000) % 0x400) as u16);
            }
            assert(text@.take(at + 1).drop_last() =~= text@.take(at));
            assert(units@ =~= utf16_of(text@.take(at + 1)));
        }
        assert(text@.take(text@.len() as int) =~= text@);
        WidePath { units }
    }

    /// An equal path.
    pub fn copied(&self) -> (path: WidePath)
        ensures
            path@ == self@,
    {
        let units = copy_units(self.units.as_slice(), 0, self.units.len());
        assert(units@ =~= self.units@);
        WidePath { units }
    }

    /// Whether both paths hold the same units.
    pub fn same_as(&self, other: &WidePath) -> (same: bool)
        ensures
            same == (self@ == other@),
    {
        units_eq(self.units.as_slice(), other.units.as_slice())
    }

    /// The display text, with the replacement character for each unpaired
    /// surrogate.
    pub fn to_text_lossy(&self) -> (text: String)
        ensures
            text@ == lossy_text(self@),
    {
        let mut out = String::new();
        let mut at: usize = 0;
        while at < self.units.len()
            invariant
                at <= self.units.len(),
                out@ + lossy_from(self@, at as int) == lossy_text(self@),
            decreases self.units.len() - at,
        {
            let unit: u16 = self.units[at];
            let ghost before = out@;
            if unit >= 0xD800 && unit <= 0xDBFF && at + 1 < self.units.len() && self.units[at + 1]
                >= 0xDC00 && self.units[at + 1] <= 0xDFFF {
                let low: u16 = self.units[at + 1];
                let value: u32 = 0x10000 + (unit as u32 - 0xD800) * 0x400 + (low as u32 - 0xDC00);
                assert(pair_at(self@, at as int));
                match char::from_u32(value) {
                    Some(c) => out.push(c),
                    None => {},
                }
                assert(out@ + lossy_from(self@, at as int + 2) =~= before + lossy_from(
                    self@,
                    at as int,
                ));
                at += 2;
            } else {
                if unit >= 0xD800 && unit <= 0xDFFF {
                    out.push(REPLACEMENT);
                } else {
                    match char::from_u32(unit as u32) {
                        Some(c) => out.push(c),
                        None => {},
                    }
                }
                assert(!pair_at(self@, at as int));
                assert(out@ + lossy_from(self@, at as int + 1) =~= before + lossy_from(
                    self@,
                    at as int,
                ));
                at += 1;
            }
        }
        assert(out@ =~= lossy_text(self@));
        out
    }

    /// Whether the display text replaces an unpaired surrogate.
    pub fn is_lossy(&self) -> (lossy: bool)
        ensures
            lossy == unpaired_from(self@, 0),
    {
        let mut at: usize = 0;
        while at < self.units.len()
            invariant
                at <= self.units.len(),
                unpaired_from(self@, at as int) == unpaired_from(self@, 0),
            decreases self.units.len() - at,
        {
            let unit: u16 = self.units[at];
            if unit >= 0xD800 && unit <= 0xDBFF && at + 1 < self.units.len() && self.units[at + 1]
                >= 0xDC00 && self.units[at + 1] <= 0xDFFF {
                assert(pair_at(self@, at as int));
                at += 2;
            } else if unit >= 0xD800 && unit <= 0xDFFF {
                return true;
            } else {
                at += 1;
            }
        }
        false
    }

    fn start(&self) -> (start: PathStart)
        ensures
            start.of(self@),
    {
        let (prefix, end) = read_prefix(self.units.as_slice());
        let rooted = end < self.units.len() && separator(self.units[end]);
        PathStart { prefix, end, rooted }
    }

    /// The components after the prefix and the root.
    fn name_list(&self, start: &PathStart) -> (list: Vec<Vec<u16>>)
        requires
            start.of(self@),
        ensures
            unit_views(list@) == names(self@),
    {
        let units = self.units.as_slice();
        let mut list: Vec<Vec<u16>> = Vec::new();
        assert(unit_views(list@) =~= seq![]);
        let dot = start.prefix.is_none() && units.len() > 0 && units[0] == 0x2E && (units.len()
            == 1 || separator(units[1]));
        if dot {
            let mut name: Vec<u16> = Vec::new();
            name.push(0x2E);
            assert(name@ =~= dot_component());
            list.push(name);
            assert(unit_views(list@) =~= seq![dot_component()]);
            push_names(units, 1, false, &mut list);
        } else {
            let from: usize = if start.rooted {
                start.end + 1
            } else {
                start.end
            };
            push_names(units, from, start.verbatim(), &mut list);
            assert(unit_views(list@) =~= names(self@));
        }
        list
    }

    /// The path with `name` behind it, where this path is verbatim.
    fn verbatim_child(&self, start: &PathStart, name: &WidePath, behind: &PathStart) -> (path:
        WidePath)
        requires
            start.of(self@),
            behind.of(name@),
            is_verbatim(prefix_of(self@)),
            prefix_of(name@) is None,
        ensures
            path@ == verbatim_child_of(self@, name@),
    {
        let mut list: Vec<Vec<u16>> = if behind.rooted {
            Vec::new()
        } else {
            self.name_list(start)
        };
        let ghost first = unit_views(list@);
        assert(behind.rooted ==> first =~= seq![]);
        let more = name.name_list(behind);
        let ghost added = unit_views(more@);
        assert(added.len() == more.len());
        for i in 0..more.len()
            invariant
                added == unit_views(more@),
                added.len() == more.len(),
                unit_views(list@) == entered_all(first, added, i as int),
        {
            let ghost before = unit_views(list@);
            assert(before.len() == list.len());
            assert(added[i as int] == more@[i as int]@);
            if is_dots(&more[i], 2) {
                assert(parent_component() != dot_component()) by {
                    assert(parent_component().len() != dot_component().len());
                }
                if list.len() > 0 {
                    let last = &list[list.len() - 1];
                    assert(before.last() == last@);
                    if !is_dots(last, 1) && !is_dots(last, 2) {
                        let _ = list.pop();
                        assert(unit_views(list@) =~= before.drop_last());
                    }
                }
            } else if !is_dots(&more[i], 1) {
                let copy = copy_units(more[i].as_slice(), 0, more[i].len());
                assert(copy@ =~= added[i as int]);
                list.push(copy);
                assert(unit_views(list@) =~= before.push(added[i as int]));
            }
        }
        let ghost entries = unit_views(list@);
        assert(entries.len() == list.len());
        let mut units = copy_units(self.units.as_slice(), 0, start.end);
        let ghost head = units@;
        assert(head =~= self@.take(start.end as int));
        for i in 0..list.len()
            invariant
                entries == unit_views(list@),
                entries.len() == list.len(),
                units@ == head + spelled(entries, i as int),
        {
            let ghost before = units@;
            units.push(0x5C);
            assert(entries[i as int] == list@[i as int]@);
            push_units(&mut units, &list[i]);
            assert(units@ =~= head + spelled(entries, i as int + 1));
        }
        if list.len() == 0 {
            assert(units@ =~= head);
            if start.rooted || behind.rooted {
                units.push(0x5C);
            }
        }
        WidePath { units }
    }

    /// The path of `name` below this path.
    pub fn child(&self, name: &WidePath) -> (path: WidePath)
        ensures
            path@ == child_of(self@, name@),
    {
        let behind = name.start();
        if behind.prefix.is_some() {
            return name.copied();
        }
        let start = self.start();
        if start.verbatim() && name.units.len() > 0 {
            return self.verbatim_child(&start, name, &behind);
        }
        let length: usize = self.units.len();
        let mut units = if behind.rooted {
            copy_units(self.units.as_slice(), 0, start.end)
        } else {
            copy_units(self.units.as_slice(), 0, length)
        };
        assert(behind.rooted ==> units@ =~= self@.take(start.end as int));
        assert(!behind.rooted ==> units@ =~= self@);
        if !behind.rooted && length > 0 && !separator(self.units[length - 1]) {
            let bare = match &start.prefix {
                Some(PathPrefix::Disk(_)) => length == 2,
                _ => false,
            };
            if !bare {
                units.push(0x5C);
            }
        }
        push_units(&mut units, &name.units);
        assert(units@ =~= child_of(self@, name@));
        WidePath { units }
    }

    /// Whether this path names an object directly in `directory`.
    pub fn is_directly_in(&self, directory: &WidePath) -> (r: bool)
        ensures
            r == lies_directly_in(self@, directory@),
    {
        let start = self.start();
        let above = directory.start();
        if !start.same_prefix(&above) || start.root() != above.root() {
            return false;
        }
        let mut own = self.name_list(&start);
        let other = directory.name_list(&above);
        assert(unit_views(own@).len() == own.len());
        if own.len() == 0 {
            return false;
        }
        let ghost full = unit_views(own@);
        let _ = own.pop();
        assert(unit_views(own@) =~= full.drop_last());
        unit_lists_eq(&own, &other)
    }
}

/// The top-level component used for grouping: `.` for the empty path.
pub open spec fn spec_top_level(units: Seq<u16>) -> Seq<char> {
    match first_component(units) {
        Some(component) => lossy_text(component),
        None => "."@,
    }
}

/// Returns the top-level component used for grouping.
pub fn top_level(path: &WidePath) -> (text: String)
    ensures
        text@ == spec_top_level(path@),
{
    let start = path.start();
    if start.prefix.is_some() {
        let units = copy_units(path.units.as_slice(), 0, start.end);
        assert(units@ =~= path@.take(start.end as int));
        return (WidePath { units }).to_text_lossy();
    }
    if start.rooted {
        let mut units: Vec<u16> = Vec::new();
        units.push(0x5C);
        assert(units@ =~= root_component());
        return (WidePath { units }).to_text_lossy();
    }
    let list = path.name_list(&start);
    let ghost views = unit_views(list@);
    assert(views.len() == list.len());
    if list.len() == 0 {
        ".".to_owned()
    } else {
        let first = WidePath { units: copy_units(list[0].as_slice(), 0, list[0].len()) };
        assert(first@ =~= list@[0]@);
        assert(views[0] == list@[0]@);
        first.to_text_lossy()
    }
}

proof fn lemma_lossy_split(head: Seq<u16>, tail: Seq<u16>, at: int)
    requires
        0 <= at,
        !unpaired_from(head, at),
    ensures
        at <= head.len() ==> lossy_from(head + tail, at) == lossy_from(head, at) + lossy_from(
            head + tail,
            head.len() as int,
        ),
        at <= head.len() ==> unpaired_from(head + tail, at) == unpaired_from(
            head + tail,
            head.len() as int,
        ),
    decreases head.len() - at,
{
    let whole = head + tail;
    if at < head.len() {
        assert(whole[at] == head[at]);
        if pair_at(head, at) {
            assert(whole[at + 1] == head[at + 1]);
            assert(pair_at(whole, at));
            lemma_lossy_split(head, tail, at + 2);
            assert(char_at(whole, at) == char_at(head, at));
            assert(lossy_from(whole, at) =~= lossy_from(head, at) + lossy_from(
                whole,
                head.len() as int,
            ));
        } else {
            assert(!is_high_surrogate(head[at]) && !is_low_surrogate(head[at]));
            lemma_lossy_split(head, tail, at + 1);
            assert(char_at(whole, at) == char_at(head, at));
            assert(lossy_from(whole, at) =~= lossy_from(head, at) + lossy_from(
                whole,
                head.len() as int,
            ));
        }
    } else {
        assert(lossy_from(head, at) =~= seq![]);
        assert(at == head.len() ==> lossy_from(whole, at) =~= lossy_from(head, at) + lossy_from(
            whole,
            head.len() as int,
        ));
    }
}

proof fn lemma_char_round_trip(head: Seq<u16>, c: char)
    ensures
        lossy_from(head + utf16_of_char(c), head.len() as int) == seq![c],
        !unpaired_from(head + utf16_of_char(c), head.len() as int),
{
    let whole = head + utf16_of_char(c);
    let at = head.len() as int;
    let value = c as u32;
    reveal_with_fuel(lossy_from, 3);
    reveal_with_fuel(unpaired_from, 3);
    if value < 0x10000 {
        assert(whole[at] == value as u16);
        assert(is_scalar_value(value));
        assert(lossy_from(whole, at) =~= seq![c]);
    } else {
        assert(value <= 0x10FFFF);
        let high = (0xD800 + (value - 0x10000) / 0x400) as u16;
        let low = (0xDC00 + (value - 0x10000) % 0x400) as u16;
        assert(whole[at] == high && whole[at + 1] == low);
        assert(pair_at(whole, at));
        assert(0x10000 + (high - 0xD800) * 0x400 + (low - 0xDC00) == value);
        assert(lossy_from(whole, at) =~= seq![c]);
    }
}

/// A path spelled by a string displays as that string, with nothing replaced.
pub proof fn text_round_trips(text: Seq<char>)
    ensures
        lossy_text(utf16_of(text)) == text,
        !unpaired_from(utf16_of(text), 0),
    decreases text.len(),
{
    if text.len() == 0 {
        assert(lossy_text(utf16_of(text)) =~= text);
    } else {
        let head = utf16_of(text.drop_last());
        text_round_trips(text.drop_last());
        lemma_lossy_split(head, utf16_of_char(text.last()), 0);
        lemma_char_round_trip(head, text.last());
        assert(lossy_text(utf16_of(text)) =~= text);
    }
}

/// The code point that the units at `at` stand for; an unpaired surrogate
/// stands for itself.
pub open spec fn point_at(units: Seq<u16>, at: int) -> int {
    if pair_at(units, at) {
        0x10000 + (units[at] - 0xD800) * 0x400 + (units[at + 1] - 0xDC00)
    } else {
        units[at] as int
    }
}

/// The code points of the units from `at` on.
pub open spec fn points_from(units: Seq<u16>, at: int) -> Seq<int>
    decreases units.len() - at,
{
    if at < 0 || at >= units.len() {
        seq![]
    } else if pair_at(units, at) {
        seq![point_at(units, at)] + points_from(units, at + 2)
    } else {
        seq![point_at(units, at)] + points_from(units, at + 1)
    }
}

/// Whether a sequence of code points comes strictly before another.
pub open spec fn points_before(left: Seq<int>, right: Seq<int>) -> bool
    decreases left.len(),
{
    if right.len() == 0 {
        false
    } else if left.len() == 0 {
        true
    } else if left[0] == right[0] {
        points_before(left.drop_first(), right.drop_first())
    } else {
        left[0] < right[0]
    }
}

/// Whether a name comes strictly before another, code point by code point.
pub open spec fn name_before(left: Seq<u16>, right: Seq<u16>) -> bool {
    points_before(points_from(left, 0), points_from(right, 0))
}

fn point_of(units: &[u16], at: usize) -> (point: (u32, usize))
    requires
        at < units@.len(),
    ensures
        point.0 == point_at(units@, at as int),
        point.1 == if pair_at(units@, at as int) {
            at + 2
        } else {
            at + 1
        },
        point.1 <= units@.len(),
{
    let unit: u16 = units[at];
    if unit >= 0xD800 && unit <= 0xDBFF && at + 1 < units.len() && units[at + 1] >= 0xDC00
        && units[at + 1] <= 0xDFFF {
        let high: u32 = (unit - 0xD800) as u32;
        let low: u32 = (units[at + 1] - 0xDC00) as u32;
        (0x10000 + high * 0x400 + low, at + 2)
    } else {
        (unit as u32, at + 1)
    }
}

/// Whether a name comes strictly before another, code point by code point.
pub fn name_less(left: &WidePath, right: &WidePath) -> (less: bool)
    ensures
        less == name_before(left@, right@),
{
    let one = left.units.as_slice();
    let two = right.units.as_slice();
    let mut i: usize = 0;
    let mut j: usize = 0;
    while i < one.len() && j < two.len()
        invariant
            one@ == left@,
            two@ == right@,
            i <= one@.len(),
            j <= two@.len(),
            name_before(left@, right@) == points_before(
                points_from(one@, i as int),
                points_from(two@, j as int),
            ),
        decreases one@.len() - i,
    {
        let (here, next_i): (u32, usize) = point_of(one, i);
        let (there, next_j): (u32, usize) = point_of(two, j);
        let ghost rest_one = points_from(one@, i as int);
        let ghost rest_two = points_from(two@, j as int);
        assert(rest_one.drop_first() =~= points_from(one@, next_i as int));
        assert(rest_two.drop_first() =~= points_from(two@, next_j as int));
        assert(rest_one[0] == here && rest_two[0] == there);
        if here != there {
            return here < there;
        }
        i = next_i;
        j = next_j;
    }
    j < two.len()
}

/// No sequence of code points comes before itself, the order is transitive, and
/// of two different sequences one comes before the other.
pub proof fn point_order_is_total(one: Seq<int>, two: Seq<int>, three: Seq<int>)
    ensures
        !points_before(one, one),
        points_before(one, two) && points_before(two, three) ==> points_before(one, three),
        points_before(one, two) || points_before(two, one) || one == two,
    decreases one.len() + two.len() + three.len(),
{
    if one.len() > 0 {
        if two.len() > 0 && three.len() > 0 {
            point_order_is_total(one.drop_first(), two.drop_first(), three.drop_first());
        } else {
            point_order_is_total(one.drop_first(), two, three);
            if two.len() > 0 {
                point_order_is_total(one.drop_first(), two.drop_first(), seq![]);
            }
        }
    }
    if one.len() == 0 && two.len() == 0 {
        assert(one =~= two);
    }
    if one.len() > 0 && two.len() > 0 && one[0] == two[0] && one.drop_first()
        == two.drop_first() {
        assert(one =~= seq![one[0]] + one.drop_first());
        assert(two =~= seq![two[0]] + two.drop_first());
    }
}

/// A name that is one component of a path: not empty, not the current
/// directory, without a separator and without a drive.
pub open spec fn is_plain_name(name: Seq<u16>) -> bool {
    &&& name.len() > 0
    &&& name != dot_component()
    &&& !drive_at(name, 0)
    &&& forall|at: int| 0 <= at < name.len() ==> !is_separator(#[trigger] name[at])
}

proof fn lemma_plain_name_has_no_end(units: Seq<u16>, at: int)
    requires
        0 <= at <= units.len(),
        forall|k: int| at <= k < units.len() ==> !is_separator(#[trigger] units[k]),
    ensures
        next_separator(units, at, false) == units.len(),
    decreases units.len() - at,
{
    if at < units.len() {
        lemma_plain_name_has_no_end(units, at + 1);
    }
}

proof fn lemma_separator_stays(base: Seq<u16>, units: Seq<u16>, at: int)
    requires
        0 <= at <= base.len() <= units.len(),
        base == units.take(base.len() as int),
    ensures
        at <= next_separator(base, at, false) <= base.len(),
        next_separator(base, at, false) < base.len() ==> next_separator(units, at, false)
            == next_separator(base, at, false) && splits(
            base[next_separator(base, at, false)],
            false,
        ),
        next_separator(base, at, false) == base.len() && base.len() < units.len() && splits(
            units[base.len() as int],
            false,
        ) ==> next_separator(units, at, false) == base.len(),
        base.len() > at && is_separator(base.last()) ==> next_separator(base, at, false)
            < base.len(),
    decreases base.len() - at,
{
    if at < base.len() {
        assert(base[at] == units[at]);
        if !splits(base[at], false) {
            lemma_separator_stays(base, units, at + 1);
        }
    }
}

proof fn lemma_names_of_a_child(base: Seq<u16>, separator: Seq<u16>, name: Seq<u16>, at: int)
    requires
        0 <= at <= base.len(),
        is_plain_name(name),
        separator == seq![0x5Cu16] || (separator == Seq::<u16>::empty() && (at == base.len()
            || is_separator(base.last()))),
    ensures
        names_from(base + separator + name, at, false) == names_from(base, at, false).push(name),
    decreases base.len() - at,
{
    let units = base + separator + name;
    let behind = (base.len() + separator.len()) as int;
    assert(base =~= units.take(base.len() as int));
    lemma_separator_stays(base, units, at);
    lemma_plain_name_has_no_end(units, behind);
    assert(units.subrange(behind, units.len() as int) =~= name);
    assert(names_from(units, behind, false) =~= seq![name]) by {
        assert(part_at(units, behind, false) == name);
    }
    let end = next_separator(base, at, false);
    if at == base.len() {
        if separator.len() == 1 {
            assert(units[at] == 0x5C);
            assert(part_at(units, at, false) =~= Seq::<u16>::empty());
            assert(next_separator(units, at, false) == at);
        }
        assert(names_from(units, at, false) =~= seq![name]);
        assert(names_from(base, at, false) =~= Seq::<Seq<u16>>::empty());
    } else if end < base.len() {
        assert(part_at(units, at, false) =~= part_at(base, at, false));
        lemma_names_of_a_child(base, separator, name, end + 1);
        assert(names_from(units, at, false) =~= names_from(base, at, false).push(name));
    } else {
        assert(separator.len() == 1);
        assert(units[base.len() as int] == 0x5C);
        assert(part_at(units, at, false) =~= part_at(base, at, false));
        assert(names_from(units, at, false) =~= names_from(base, at, false).push(name));
    }
}

/// A plain name put behind a path names an entry of that directory: the new
/// path starts as the old one does, and has its components and the name. This
/// holds of relative paths and of paths on a drive.
pub proof fn child_lies_directly_in_its_base(base: Seq<u16>, name: Seq<u16>)
    requires
        !starts_double(base),
        is_plain_name(name),
    ensures
        lies_directly_in(child_of(base, name), base),
        names(child_of(base, name)) == names(base).push(name),
        base.is_prefix_of(child_of(base, name)),
{
    let child = child_of(base, name);
    let separator = if wants_separator(base) {
        seq![0x5Cu16]
    } else {
        Seq::<u16>::empty()
    };
    assert(!is_separator(name[0]));
    assert(prefix_of(name) is None);
    assert(child =~= base + separator + name);
    assert(base =~= child.take(base.len() as int));
    assert(base.is_prefix_of(child));
    if base.len() == 0 {
        assert(child =~= name);
    }
    if base.len() >= 1 {
        assert(child[0] == base[0]);
    }
    if base.len() >= 2 {
        assert(child[1] == base[1]);
    }
    assert(prefix_of(child) == prefix_of(base));
    let at = prefix_len(prefix_of(base));
    if base.len() > at {
        assert(child[at] == base[at]);
    } else {
        assert(child[at] == name[0]);
    }
    assert(has_separator_root(child) == has_separator_root(base));
    let from = if starts_with_dot(base) {
        1
    } else if has_separator_root(base) {
        at + 1
    } else {
        at
    };
    if base.len() == 0 && name.len() == 1 {
        assert(name =~= seq![name[0]]);
    }
    assert(starts_with_dot(child) == starts_with_dot(base));
    lemma_names_of_a_child(base, separator, name, from);
    assert(names(child) =~= names(base).push(name));
    assert(names(child).drop_last() =~= names(base));
}

} // verus!
