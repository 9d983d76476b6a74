//! Values of command-line options: numbers, sizes, device classes and tuning
//! overrides.

use vstd::prelude::*;
use vstd::string::*;

use crate::options::{DeviceClass, TuneOptions};
use crate::text::{ascii_lowered, chars_of, decimal, digit_char, lower_text, str_eq, string_of};

verus! {

/// Why a text is no number.
#[derive(Clone, Copy, Debug, PartialEq, Eq, Structural)]
pub enum NumberFault {
    /// The text is empty.
    Empty,
    /// A character is no digit.
    InvalidDigit,
    /// The number does not fit.
    TooLarge,
}

impl NumberFault {
    /// The fault in words.
    pub open spec fn spec_text(self) -> Seq<char> {
        match self {
            NumberFault::Empty => "cannot parse integer from empty string"@,
            NumberFault::InvalidDigit => "invalid digit found in string"@,
            NumberFault::TooLarge => "number too large to fit in target type"@,
        }
    }

    /// The fault in words.
    pub fn text(self) -> (text: &'static str)
        ensures
            text@ == self.spec_text(),
    {
        match self {
            NumberFault::Empty => "cannot parse integer from empty string",
            NumberFault::InvalidDigit => "invalid digit found in string",
            NumberFault::TooLarge => "number too large to fit in target type",
        }
    }
}

/// Whether a character is a decimal digit.
pub open spec fn is_digit(c: char) -> bool {
    '0' <= c && c <= '9'
}

/// The number that digits stand for, up to a largest one.
pub open spec fn digits_value(digits: Seq<char>, largest: int) -> Result<int, NumberFault>
    decreases digits.len(),
{
    if digits.len() == 0 {
        Ok(0)
    } else {
        match digits_value(digits.drop_last(), largest) {
            Err(fault) => Err(fault),
            Ok(value) => if !is_digit(digits.last()) {
                Err(NumberFault::InvalidDigit)
            } else if 10 * value + (digits.last() as int - '0' as int) > largest {
                Err(NumberFault::TooLarge)
            } else {
                Ok(10 * value + (digits.last() as int - '0' as int))
            },
        }
    }
}

/// The number that a text stands for: digits, with an optional plus sign.
pub open spec fn number_value(text: Seq<char>, largest: int) -> Result<int, NumberFault> {
    if text.len() == 0 {
        Err(NumberFault::Empty)
    } else if text.len() > 1 && text[0] == '+' {
        digits_value(text.skip(1), largest)
    } else {
        digits_value(text, largest)
    }
}

proof fn lemma_fault_stays(digits: Seq<char>, count: int, largest: int)
    requires
        0 <= count <= digits.len(),
        digits_value(digits.take(count), largest) is Err,
    ensures
        digits_value(digits, largest) == digits_value(digits.take(count), largest),
    decreases digits.len() - count,
{
    if count < digits.len() {
        let next = digits.take(count + 1);
        assert(next.drop_last() =~= digits.take(count));
        lemma_fault_stays(digits, count + 1, largest);
    } else {
        assert(digits.take(count) =~= digits);
    }
}

/// The number that characters stand for.
pub fn parse_number(text: &[char], largest: u64) -> (number: Result<u64, NumberFault>)
    ensures
        match number {
            Ok(value) => number_value(text@, largest as int) == Ok::<int, NumberFault>(
                value as int,
            ),
            Err(fault) => number_value(text@, largest as int) == Err::<int, NumberFault>(fault),
        },
{
    if text.len() == 0 {
        return Err(NumberFault::Empty);
    }
    let first: usize = if text.len() > 1 && text[0] == '+' {
        1
    } else {
        0
    };
    let ghost digits = text@.skip(first as int);
    assert(first == 0 ==> digits =~= text@);
    let mut value: u64 = 0;
    assert(digits.take(0) =~= Seq::<char>::empty());
    for at in first..text.len()
        invariant
            first <= at <= text.len(),
            first <= 1,
            digits == text@.skip(first as int),
            value <= largest,
            number_value(text@, largest as int) == digits_value(digits, largest as int),
            digits_value(digits.take(at - first), largest as int) == Ok::<int, NumberFault>(
                value as int,
            ),
    {
        let c = text[at];
        let ghost count = at - first;
        let ghost next = digits.take(count + 1);
        assert(next.drop_last() =~= digits.take(count));
        assert(next.last() == c);
        if c < '0' || c > '9' {
            proof {
                lemma_fault_stays(digits, count + 1, largest as int);
            }
            return Err(NumberFault::InvalidDigit);
        }
        let longer: u128 = 10 * value as u128 + (c as u128 - '0' as u128);
        if longer > largest as u128 {
            proof {
                lemma_fault_stays(digits, count + 1, largest as int);
            }
            return Err(NumberFault::TooLarge);
        }
        value = longer as u64;
    }
    assert(digits.take(text.len() - first) =~= digits);
    Ok(value)
}

/// A text without its last characters, if it ends in a suffix.
pub open spec fn without_suffix(text: Seq<char>, suffix: Seq<char>) -> Option<Seq<char>> {
    if text.len() >= suffix.len() && text.skip(text.len() - suffix.len()) == suffix {
        Some(text.take(text.len() - suffix.len()))
    } else {
        None
    }
}

/// The digits and the unit of a size, from its lowercase text.
pub open spec fn size_parts(lower: Seq<char>) -> (Seq<char>, int) {
    match without_suffix(lower, "kib"@) {
        Some(number) => (number, 1024),
        None => match without_suffix(lower, "mib"@) {
            Some(number) => (number, 1_048_576),
            None => match without_suffix(lower, "gib"@) {
                Some(number) => (number, 1_073_741_824),
                None => (lower, 1),
            },
        },
    }
}

/// The bytes that a text stands for, or what is wrong with it.
pub open spec fn size_value(text: Seq<char>) -> Result<u64, Seq<char>> {
    let (number, unit) = size_parts(ascii_lowered(text));
    match number_value(number, u64::MAX as int) {
        Err(fault) => Err("invalid size: "@ + fault.spec_text()),
        Ok(value) => if 0 < value * unit <= u64::MAX {
            Ok((value * unit) as u64)
        } else {
            Err("size must be positive and fit u64"@)
        },
    }
}

/// Whether a result is this value, or this complaint.
pub open spec fn is_parse<T>(result: Result<T, String>, expected: Result<T, Seq<char>>) -> bool {
    match expected {
        Ok(value) => result == Ok::<T, String>(value),
        Err(text) => result matches Err(found) && found@ == text,
    }
}

fn ends_with(text: &Vec<char>, suffix: &str) -> (number: Option<usize>)
    ensures
        match number {
            Some(count) => count <= text.len() && without_suffix(text@, suffix@) == Some(
                text@.take(count as int),
            ),
            None => without_suffix(text@, suffix@) is None,
        },
{
    let tail = chars_of(suffix);
    if text.len() < tail.len() {
        return None;
    }
    let start: usize = text.len() - tail.len();
    for i in 0..tail.len()
        invariant
            tail@ == suffix@,
            start + tail.len() == text.len(),
            forall|j: int| 0 <= j < i ==> text@[start + j] == #[trigger] tail@[j],
    {
        if text[start + i] != tail[i] {
            assert(text@.skip(start as int)[i as int] != suffix@[i as int]);
            return None;
        }
    }
    assert(text@.skip(start as int) =~= suffix@);
    Some(start)
}

fn complaint(prefix: &str, rest: &str) -> (text: String)
    ensures
        text@ == prefix@ + rest@,
{
    let mut text = prefix.to_owned();
    text.append(rest);
    text
}

/// The bytes that a text stands for: a number, with an optional binary unit
/// in any casing.
pub fn parse_size(value: &str) -> (size: Result<u64, String>)
    ensures
        is_parse(size, size_value(value@)),
{
    let mut lower = lower_text(value);
    let ghost whole = lower@;
    let mut unit: u64 = 1;
    if let Some(count) = ends_with(&lower, "kib") {
        lower.truncate(count);
        unit = 1024;
    } else if let Some(count) = ends_with(&lower, "mib") {
        lower.truncate(count);
        unit = 1_048_576;
    } else if let Some(count) = ends_with(&lower, "gib") {
        lower.truncate(count);
        unit = 1_073_741_824;
    }
    assert(size_parts(whole) == (lower@, unit as int));
    match parse_number(lower.as_slice(), u64::MAX) {
        Err(fault) => Err(complaint("invalid size: ", fault.text())),
        Ok(number) => match number.checked_mul(unit) {
            Some(size) => {
                if size > 0 {
                    Ok(size)
                } else {
                    Err("size must be positive and fit u64".to_owned())
                }
            },
            None => Err("size must be positive and fit u64".to_owned()),
        },
    }
}

/// The bytes in memory that a text stands for.
pub open spec fn memory_size_value(text: Seq<char>) -> Result<usize, Seq<char>> {
    match size_value(text) {
        Err(failure) => Err(failure),
        Ok(size) => if size <= usize::MAX {
            Ok(size as usize)
        } else {
            Err("size exceeds address space"@)
        },
    }
}

/// The bytes in memory that a text stands for.
pub fn parse_size_usize(value: &str) -> (size: Result<usize, String>)
    ensures
        is_parse(size, memory_size_value(value@)),
{
    match parse_size(value) {
        Err(text) => Err(text),
        Ok(size) => {
            if size <= usize::MAX as u64 {
                Ok(size as usize)
            } else {
                Err("size exceeds address space".to_owned())
            }
        },
    }
}

/// The positive count that a text stands for.
pub open spec fn count_value(text: Seq<char>, key: Seq<char>) -> Result<usize, Seq<char>> {
    match number_value(text, usize::MAX as int) {
        Err(fault) => Err("invalid "@ + key + ": "@ + fault.spec_text()),
        Ok(count) => if count == 0 {
            Err(key + " must be positive"@)
        } else {
            Ok(count as usize)
        },
    }
}

/// The positive count that a text stands for.
pub fn parse_positive(value: &str, key: &str) -> (count: Result<usize, String>)
    ensures
        is_parse(count, count_value(value@, key@)),
{
    let digits = chars_of(value);
    match parse_number(digits.as_slice(), usize::MAX as u64) {
        Err(fault) => {
            let mut text = "invalid ".to_owned();
            text.append(key);
            text.append(": ");
            text.append(fault.text());
            Err(text)
        },
        Ok(count) => {
            if count == 0 {
                Err(complaint(key, " must be positive"))
            } else {
                Ok(count as usize)
            }
        },
    }
}

/// The device class of a name, or what is wrong with it.
pub open spec fn class_value(name: Seq<char>) -> Result<DeviceClass, Seq<char>> {
    if name == "auto"@ {
        Ok(DeviceClass::Auto)
    } else if name == "nvme"@ {
        Ok(DeviceClass::Nvme)
    } else if name == "sata-ssd"@ {
        Ok(DeviceClass::SataSsd)
    } else if name == "usb-ssd"@ {
        Ok(DeviceClass::UsbSsd)
    } else if name == "hdd"@ {
        Ok(DeviceClass::Hdd)
    } else if name == "unknown"@ {
        Ok(DeviceClass::Unknown)
    } else {
        Err("unknown device class: "@ + name)
    }
}

/// The device class of a name.
pub fn parse_device_class(value: &str) -> (class: Result<DeviceClass, String>)
    ensures
        is_parse(class, class_value(value@)),
{
    if str_eq(value, "auto") {
        Ok(DeviceClass::Auto)
    } else if str_eq(value, "nvme") {
        Ok(DeviceClass::Nvme)
    } else if str_eq(value, "sata-ssd") {
        Ok(DeviceClass::SataSsd)
    } else if str_eq(value, "usb-ssd") {
        Ok(DeviceClass::UsbSsd)
    } else if str_eq(value, "hdd") {
        Ok(DeviceClass::Hdd)
    } else if str_eq(value, "unknown") {
        Ok(DeviceClass::Unknown)
    } else {
        Err(complaint("unknown device class: ", value))
    }
}

/// The pieces of a text between commas.
pub open spec fn comma_pieces(text: Seq<char>) -> Seq<Seq<char>>
    decreases text.len(),
{
    if text.len() == 0 {
        seq![seq![]]
    } else {
        let front = comma_pieces(text.drop_last());
        if text.last() == ',' {
            front.push(seq![])
        } else {
            front.drop_last().push(front.last().push(text.last()))
        }
    }
}

/// Character lists as values.
pub open spec fn piece_views(pieces: Seq<Vec<char>>) -> Seq<Seq<char>> {
    pieces.map_values(|piece: Vec<char>| piece@)
}

proof fn lemma_pieces(text: Seq<char>)
    ensures
        comma_pieces(text).len() >= 1,
    decreases text.len(),
{
    if text.len() > 0 {
        lemma_pieces(text.drop_last());
    }
}

/// The pieces of a text between commas.
pub fn split_commas(text: &str) -> (pieces: Vec<Vec<char>>)
    ensures
        piece_views(pieces@) == comma_pieces(text@),
{
    let chars = chars_of(text);
    let mut done: Vec<Vec<char>> = Vec::new();
    let mut piece: Vec<char> = Vec::new();
    assert(text@.take(0) =~= Seq::<char>::empty());
    assert(piece_views(done@).push(piece@) =~= comma_pieces(text@.take(0)));
    for i in 0..chars.len()
        invariant
            chars@ == text@,
            piece_views(done@).push(piece@) == comma_pieces(text@.take(i as int)),
    {
        let ghost next = text@.take(i as int + 1);
        let ghost before = comma_pieces(text@.take(i as int));
        let ghost list = piece_views(done@);
        assert(next.drop_last() =~= text@.take(i as int));
        assert(next.last() == chars@[i as int]);
        assert(before.drop_last() =~= list);
        if chars[i] == ',' {
            let ghost old_piece = piece@;
            done.push(piece);
            assert(piece_views(done@) =~= before);
            piece = Vec::new();
            assert(piece_views(done@).push(piece@) =~= comma_pieces(next));
        } else {
            piece.push(chars[i]);
            assert(piece_views(done@).push(piece@) =~= comma_pieces(next));
        }
    }
    assert(text@.take(text@.len() as int) =~= text@);
    let ghost list = piece_views(done@);
    let ghost last = piece@;
    done.push(piece);
    assert(piece_views(done@) =~= list.push(last));
    done
}

/// The classes of both sides, or what is wrong with the text.
pub open spec fn profiles_value(text: Seq<char>) -> Result<(DeviceClass, DeviceClass), Seq<char>> {
    let pieces = comma_pieces(text);
    if pieces.len() == 1 {
        match class_value(pieces[0]) {
            Ok(class) => Ok((class, class)),
            Err(failure) => Err(failure),
        }
    } else if pieces.len() == 2 {
        match (class_value(pieces[0]), class_value(pieces[1])) {
            (Err(failure), _) => Err(failure),
            (_, Err(failure)) => Err(failure),
            (Ok(source), Ok(destination)) => Ok((source, destination)),
        }
    } else {
        Err("profile expects one class or source,destination"@)
    }
}

/// The classes of both sides: one for both, or one for each.
pub fn parse_profiles(value: &str) -> (classes: Result<(DeviceClass, DeviceClass), String>)
    ensures
        is_parse(classes, profiles_value(value@)),
{
    let pieces = split_commas(value);
    assert(piece_views(pieces@).len() == pieces.len());
    if pieces.len() == 1 {
        assert(piece_views(pieces@)[0] == pieces@[0]@);
        match parse_device_class(string_of(pieces[0].as_slice()).as_str()) {
            Ok(class) => Ok((class, class)),
            Err(text) => Err(text),
        }
    } else if pieces.len() == 2 {
        assert(piece_views(pieces@)[0] == pieces@[0]@);
        assert(piece_views(pieces@)[1] == pieces@[1]@);
        match parse_device_class(string_of(pieces[0].as_slice()).as_str()) {
            Err(text) => Err(text),
            Ok(source) => match parse_device_class(string_of(pieces[1].as_slice()).as_str()) {
                Err(text) => Err(text),
                Ok(destination) => Ok((source, destination)),
            },
        }
    } else {
        Err("profile expects one class or source,destination".to_owned())
    }
}

/// The place of the first equals sign from an index on, or the length.
pub open spec fn equals_at(text: Seq<char>, at: int) -> int
    decreases text.len() - at,
{
    if at >= text.len() || text[at] == '=' {
        at
    } else {
        equals_at(text, at + 1)
    }
}

/// The overrides with one more item, or what is wrong with it.
pub open spec fn tuned_item(tune: TuneOptions, item: Seq<char>) -> Result<TuneOptions, Seq<char>> {
    let at = equals_at(item, 0);
    if item.len() == 0 {
        Ok(tune)
    } else if at >= item.len() {
        Err("tune item lacks '=': "@ + item)
    } else {
        let key = item.take(at);
        let raw = item.skip(at + 1);
        if key == "chunk"@ {
            match memory_size_value(raw) {
                Ok(size) => Ok(TuneOptions { chunk_bytes: Some(size), ..tune }),
                Err(failure) => Err(failure),
            }
        } else if key == "threads"@ {
            match count_value(raw, key) {
                Ok(count) => Ok(TuneOptions { threads: Some(count), ..tune }),
                Err(failure) => Err(failure),
            }
        } else if key == "mem"@ {
            match memory_size_value(raw) {
                Ok(size) => Ok(TuneOptions { memory_bytes: Some(size), ..tune }),
                Err(failure) => Err(failure),
            }
        } else if key == "large-threshold"@ {
            match size_value(raw) {
                Ok(size) => Ok(TuneOptions { large_threshold: Some(size), ..tune }),
                Err(failure) => Err(failure),
            }
        } else if key == "checkpoint-threshold"@ {
            match size_value(raw) {
                Ok(size) => Ok(TuneOptions { checkpoint_threshold: Some(size), ..tune }),
                Err(failure) => Err(failure),
            }
        } else if key == "same-spindle-burst"@ {
            match memory_size_value(raw) {
                Ok(size) => Ok(TuneOptions { same_spindle_burst_bytes: Some(size), ..tune }),
                Err(failure) => Err(failure),
            }
        } else {
            Err("unknown tune key: "@ + key)
        }
    }
}

/// The overrides of the first `count` items, or what is wrong with one.
pub open spec fn tuned(items: Seq<Seq<char>>, count: int) -> Result<TuneOptions, Seq<char>>
    decreases count,
{
    if count <= 0 {
        Ok(TuneOptions::none())
    } else {
        match tuned(items, count - 1) {
            Err(failure) => Err(failure),
            Ok(tune) => tuned_item(tune, items[count - 1]),
        }
    }
}

/// The overrides that a text stands for.
pub open spec fn tune_value(text: Seq<char>) -> Result<TuneOptions, Seq<char>> {
    tuned(comma_pieces(text), comma_pieces(text).len() as int)
}

proof fn lemma_tune_failure_stays(items: Seq<Seq<char>>, count: int, more: int)
    requires
        0 <= count <= more,
        tuned(items, count) is Err,
    ensures
        tuned(items, more) == tuned(items, count),
    decreases more - count,
{
    if count < more {
        lemma_tune_failure_stays(items, count, more - 1);
    }
}

fn find_equals(item: &Vec<char>) -> (at: usize)
    ensures
        at == equals_at(item@, 0),
        at <= item.len(),
{
    let mut at: usize = 0;
    while at < item.len() && item[at] != '='
        invariant
            at <= item.len(),
            equals_at(item@, 0) == equals_at(item@, at as int),
        decreases item.len() - at,
    {
        at = at + 1;
    }
    at
}

fn char_range(item: &Vec<char>, from: usize, to: usize) -> (text: String)
    requires
        from <= to <= item.len(),
    ensures
        text@ == item@.subrange(from as int, to as int),
{
    let mut text = String::new();
    assert(text@ =~= item@.subrange(from as int, from as int));
    for i in from..to
        invariant
            from <= i <= to <= item.len(),
            text@ == item@.subrange(from as int, i as int),
    {
        text.push(item[i]);
        assert(text@ =~= item@.subrange(from as int, i as int + 1));
    }
    text
}

fn tune_item(tune: TuneOptions, item: &Vec<char>) -> (next: Result<TuneOptions, String>)
    ensures
        is_parse(next, tuned_item(tune, item@)),
{
    if item.len() == 0 {
        return Ok(tune);
    }
    let at: usize = find_equals(item);
    if at >= item.len() {
        return Err(complaint("tune item lacks '=': ", string_of(item.as_slice()).as_str()));
    }
    let key = char_range(item, 0, at);
    let raw = char_range(item, at + 1, item.len());
    assert(key@ =~= item@.take(at as int));
    assert(raw@ =~= item@.skip(at as int + 1));
    let mut next = tune;
    if str_eq(key.as_str(), "chunk") {
        match parse_size_usize(raw.as_str()) {
            Err(text) => {
                return Err(text);
            },
            Ok(size) => {
                next.chunk_bytes = Some(size);
            },
        }
    } else if str_eq(key.as_str(), "threads") {
        match parse_positive(raw.as_str(), key.as_str()) {
            Err(text) => {
                return Err(text);
            },
            Ok(count) => {
                next.threads = Some(count);
            },
        }
    } else if str_eq(key.as_str(), "mem") {
        match parse_size_usize(raw.as_str()) {
            Err(text) => {
                return Err(text);
            },
            Ok(size) => {
                next.memory_bytes = Some(size);
            },
        }
    } else if str_eq(key.as_str(), "large-threshold") {
        match parse_size(raw.as_str()) {
            Err(text) => {
                return Err(text);
            },
            Ok(size) => {
                next.large_threshold = Some(size);
            },
        }
    } else if str_eq(key.as_str(), "checkpoint-threshold") {
        match parse_size(raw.as_str()) {
            Err(text) => {
                return Err(text);
            },
            Ok(size) => {
                next.checkpoint_threshold = Some(size);
            },
        }
    } else if str_eq(key.as_str(), "same-spindle-burst") {
        match parse_size_usize(raw.as_str()) {
            Err(text) => {
                return Err(text);
            },
            Ok(size) => {
                next.same_spindle_burst_bytes = Some(size);
            },
        }
    } else {
        return Err(complaint("unknown tune key: ", key.as_str()));
    }
    Ok(next)
}

/// The overrides that a text stands for: items of a key, an equals sign and a
/// value, between commas. Empty items say nothing; a later one stands.
pub fn parse_tune(value: &str) -> (tune: Result<TuneOptions, String>)
    ensures
        is_parse(tune, tune_value(value@)),
{
    let items = split_commas(value);
    let ghost views = piece_views(items@);
    assert(views.len() == items.len());
    let mut tune = TuneOptions::default();
    for i in 0..items.len()
        invariant
            views == piece_views(items@),
            views.len() == items.len(),
            views == comma_pieces(value@),
            tuned(views, i as int) == Ok::<TuneOptions, Seq<char>>(tune),
    {
        assert(views[i as int] == items@[i as int]@);
        match tune_item(tune, &items[i]) {
            Err(text) => {
                proof {
                    lemma_tune_failure_stays(views, i as int + 1, views.len() as int);
                }
                return Err(text);
            },
            Ok(next) => {
                tune = next;
            },
        }
    }
    Ok(tune)
}

/// No override is ever zero, and none of them names a stream count: what the
/// text says is held to positive values before anything runs.
pub proof fn parsed_overrides_are_positive(items: Seq<Seq<char>>, count: int)
    ensures
        tuned(items, count) matches Ok(tune) ==> {
            &&& tune.streams is None
            &&& tune.chunk_bytes matches Some(value) ==> value > 0
            &&& tune.threads matches Some(value) ==> value > 0
            &&& tune.memory_bytes matches Some(value) ==> value > 0
            &&& tune.large_threshold matches Some(value) ==> value > 0
            &&& tune.checkpoint_threshold matches Some(value) ==> value > 0
            &&& tune.same_spindle_burst_bytes matches Some(value) ==> value > 0
        },
    decreases count,
{
    if count > 0 {
        parsed_overrides_are_positive(items, count - 1);
        let item = items[count - 1];
        lemma_number_is_natural(item.skip(equals_at(item, 0) + 1), usize::MAX as int);
    }
}

proof fn lemma_digits_are_natural(digits: Seq<char>, largest: int)
    ensures
        digits_value(digits, largest) matches Ok(value) ==> value >= 0 && (value <= largest
            || digits.len() == 0),
    decreases digits.len(),
{
    if digits.len() > 0 {
        lemma_digits_are_natural(digits.drop_last(), largest);
    }
}

proof fn lemma_number_is_natural(text: Seq<char>, largest: int)
    ensures
        number_value(text, largest) matches Ok(value) ==> 0 <= value <= largest,
{
    if text.len() > 0 {
        lemma_digits_are_natural(text, largest);
        if text.len() > 1 {
            lemma_digits_are_natural(text.skip(1), largest);
        }
    }
}

/// The decimal numeral of a number reads back as that number.
pub proof fn numerals_read_back(n: nat, largest: int)
    requires
        n <= largest,
    ensures
        digits_value(crate::text::decimal(n), largest) == Ok::<int, NumberFault>(n as int),
        number_value(crate::text::decimal(n), largest) == Ok::<int, NumberFault>(n as int),
    decreases n,
{
    let text = crate::text::decimal(n);
    if n < 10 {
        assert(text.drop_last() =~= Seq::<char>::empty());
        assert(digits_value(text.drop_last(), largest) == Ok::<int, NumberFault>(0));
        lemma_digit_value(n);
    } else {
        numerals_read_back(n / 10, largest);
        assert(text.drop_last() =~= crate::text::decimal(n / 10));
        assert(digits_value(text.drop_last(), largest) == Ok::<int, NumberFault>(
            (n / 10) as int,
        ));
        lemma_digit_value(n % 10);
        assert(10 * (n / 10) + n % 10 == n);
    }
    lemma_numeral_starts_with_a_digit(n);
}

proof fn lemma_digit_value(d: nat)
    requires
        d < 10,
    ensures
        is_digit(crate::text::digit_char(d)),
        crate::text::digit_char(d) as int - '0' as int == d,
{
}

proof fn lemma_numeral_starts_with_a_digit(n: nat)
    ensures
        crate::text::decimal(n).len() > 0,
        is_digit(crate::text::decimal(n)[0]),
    decreases n,
{
    if n >= 10 {
        lemma_numeral_starts_with_a_digit(n / 10);
        assert(crate::text::decimal(n)[0] == crate::text::decimal(n / 10)[0]);
    }
}

/// A size is told in bytes, or in kibibytes, mebibytes or gibibytes where its
/// unit stands behind the number.
pub proof fn units_are_binary(number: Seq<char>)
    requires
        number.len() > 0 ==> is_digit(number.last()),
    ensures
        size_parts(number + "kib"@) == (number, 1024int),
        size_parts(number + "mib"@) == (number, 1024 * 1024int),
        size_parts(number + "gib"@) == (number, 1024 * 1024 * 1024int),
        size_parts(number) == (number, 1int),
{
    reveal_strlit("kib");
    reveal_strlit("mib");
    reveal_strlit("gib");
    let n = number.len() as int;
    assert((number + "kib"@).skip(n) =~= "kib"@ && (number + "kib"@).take(n) =~= number);
    assert((number + "mib"@).skip(n) =~= "mib"@ && (number + "mib"@).take(n) =~= number);
    assert((number + "gib"@).skip(n) =~= "gib"@ && (number + "gib"@).take(n) =~= number);
    assert("kib"@[0] == 'k' && "mib"@[0] == 'm' && "gib"@[0] == 'g');
    if n >= 3 {
        assert(number.skip(n - 3)[2] == number.last());
        assert("kib"@[2] == 'b' && "mib"@[2] == 'b' && "gib"@[2] == 'b');
    }
}

/// A number is read exactly: its value is that of its decimal digits, and only
/// digits, with one plus sign before them, make one.
pub proof fn number_is_made_of_digits(text: Seq<char>, largest: int, i: int)
    requires
        largest >= 0,
        0 <= i < text.len(),
    ensures
        digits_value(text, largest) is Ok ==> '0' <= text[i] <= '9',
        digits_value(text, largest) matches Ok(value) ==> value <= largest,
    decreases text.len(),
{
    if i < text.len() - 1 {
        number_is_made_of_digits(text.drop_last(), largest, i);
    }
}

/// An item of the tuning list sets the field that its key names, to the value
/// behind the sign, and leaves every other field as it was.
pub proof fn tune_item_sets_its_own_field(tune: TuneOptions, item: Seq<char>)
    ensures
        tuned_item(tune, item) matches Ok(next) ==> {
            let at = equals_at(item, 0);
            let key = item.take(at);
            let raw = item.skip(at + 1);
            &&& item.len() == 0 ==> next == tune
            &&& item.len() > 0 ==> at < item.len() && (key == "chunk"@ || key == "threads"@ || key
                == "mem"@ || key == "large-threshold"@ || key == "checkpoint-threshold"@ || key
                == "same-spindle-burst"@)
            &&& if item.len() > 0 && key == "chunk"@ {
                memory_size_value(raw) matches Ok(size) && next.chunk_bytes == Some(size)
            } else {
                next.chunk_bytes == tune.chunk_bytes
            }
            &&& if item.len() > 0 && key == "threads"@ {
                count_value(raw, key) matches Ok(count) && next.threads == Some(count)
            } else {
                next.threads == tune.threads
            }
            &&& if item.len() > 0 && key == "mem"@ {
                memory_size_value(raw) matches Ok(size) && next.memory_bytes == Some(size)
            } else {
                next.memory_bytes == tune.memory_bytes
            }
            &&& if item.len() > 0 && key == "large-threshold"@ {
                size_value(raw) matches Ok(size) && next.large_threshold == Some(size) && size > 0
            } else {
                next.large_threshold == tune.large_threshold
            }
            &&& if item.len() > 0 && key == "checkpoint-threshold"@ {
                size_value(raw) matches Ok(size) && next.checkpoint_threshold == Some(size) && size
                    > 0
            } else {
                next.checkpoint_threshold == tune.checkpoint_threshold
            }
            &&& if item.len() > 0 && key == "same-spindle-burst"@ {
                memory_size_value(raw) matches Ok(size) && next.same_spindle_burst_bytes == Some(
                    size,
                )
            } else {
                next.same_spindle_burst_bytes == tune.same_spindle_burst_bytes
            }
        },
{
    reveal_strlit("chunk");
    reveal_strlit("threads");
    reveal_strlit("mem");
    reveal_strlit("large-threshold");
    reveal_strlit("checkpoint-threshold");
    reveal_strlit("same-spindle-burst");
    assert("chunk"@.len() == 5);
    assert("threads"@.len() == 7);
    assert("mem"@.len() == 3);
    assert("large-threshold"@.len() == 15);
    assert("checkpoint-threshold"@.len() == 20);
    assert("same-spindle-burst"@.len() == 18);
}

/// Each device class has one name, and no name stands for two classes.
pub proof fn device_class_goes_by_one_name(name: Seq<char>)
    ensures
        class_value(name) == Ok::<DeviceClass, Seq<char>>(DeviceClass::Auto) <==> name == "auto"@,
        class_value(name) == Ok::<DeviceClass, Seq<char>>(DeviceClass::Nvme) <==> name == "nvme"@,
        class_value(name) == Ok::<DeviceClass, Seq<char>>(DeviceClass::SataSsd) <==> name
            == "sata-ssd"@,
        class_value(name) == Ok::<DeviceClass, Seq<char>>(DeviceClass::UsbSsd) <==> name
            == "usb-ssd"@,
        class_value(name) == Ok::<DeviceClass, Seq<char>>(DeviceClass::Hdd) <==> name == "hdd"@,
        class_value(name) == Ok::<DeviceClass, Seq<char>>(DeviceClass::Unknown) <==> name
            == "unknown"@,
{
    reveal_strlit("auto");
    reveal_strlit("nvme");
    reveal_strlit("sata-ssd");
    reveal_strlit("usb-ssd");
    reveal_strlit("hdd");
    reveal_strlit("unknown");
    assert("auto"@.len() == 4 && "auto"@[0] == 'a');
    assert("nvme"@.len() == 4 && "nvme"@[0] == 'n');
    assert("sata-ssd"@.len() == 8);
    assert("usb-ssd"@.len() == 7 && "usb-ssd"@[1] == 's');
    assert("hdd"@.len() == 3);
    assert("unknown"@.len() == 7 && "unknown"@[1] == 'n');
}

/// A number that was written out is read back as the same number, unless it is
/// larger than the largest one asked for.
pub proof fn written_number_is_read_back(number: nat, largest: int)
    requires
        largest >= 0,
    ensures
        number <= largest ==> digits_value(decimal(number), largest) == Ok::<int, NumberFault>(
            number as int,
        ),
        number > largest ==> digits_value(decimal(number), largest) is Err,
        decimal(number).len() > 0,
    decreases number,
{
    let text = decimal(number);
    if number < 10 {
        assert(text =~= seq![digit_char(number)]);
        assert(text.drop_last() =~= Seq::<char>::empty());
        assert(digits_value(text.drop_last(), largest) == Ok::<int, NumberFault>(0));
        assert(text.last() as int - '0' as int == number);
    } else {
        written_number_is_read_back(number / 10, largest);
        assert(text.drop_last() =~= decimal(number / 10));
        assert(text.last() as int - '0' as int == number % 10);
    }
}

} // verus!
