//! Lossless text keys for arbitrary Windows paths and stream names.

use vstd::prelude::*;
use vstd::string::*;

use crate::hashing::{hex_bytes, hex_decode, hex_encode, hex_round_trips, hex_text, is_hex_text};
use crate::path::WidePath;
use crate::text::{chars_of, string_of};

verus! {

/// The little-endian bytes of UTF-16 units.
pub open spec fn le_bytes(units: Seq<u16>) -> Seq<u8> {
    Seq::new(
        2 * units.len(),
        |i: int|
            if i % 2 == 0 {
                (units[i / 2] % 256) as u8
            } else {
                (units[i / 2] / 256) as u8
            },
    )
}

/// The UTF-16 units of little-endian bytes.
pub open spec fn le_units(bytes: Seq<u8>) -> Seq<u16> {
    Seq::new(
        bytes.len() / 2,
        |i: int| (bytes[2 * i] + 256 * bytes[2 * i + 1]) as u16,
    )
}

/// Lossless little-endian UTF-16 hexadecimal text.
pub open spec fn spec_utf16le_hex(units: Seq<u16>) -> Seq<char> {
    hex_text(le_bytes(units))
}

/// The journal key of a path or stream name.
pub open spec fn spec_key(units: Seq<u16>) -> Seq<char> {
    "u16:"@ + spec_utf16le_hex(units)
}

/// Whether a text is a well-formed key.
pub open spec fn is_key(text: Seq<char>) -> bool {
    &&& text.len() >= 4
    &&& text.take(4) == "u16:"@
    &&& is_hex_text(text.skip(4))
    &&& (text.len() - 4) % 4 == 0
}

/// The units that a well-formed key stands for.
pub open spec fn units_of_key(text: Seq<char>) -> Seq<u16> {
    le_units(hex_bytes(text.skip(4)))
}

/// The little-endian bytes of UTF-16 units.
pub fn le_bytes_of(units: &[u16]) -> (bytes: Vec<u8>)
    ensures
        bytes@ == le_bytes(units@),
{
    let mut bytes: Vec<u8> = Vec::new();
    for i in 0..units.len()
        invariant
            bytes@ == le_bytes(units@.take(i as int)),
    {
        let unit: u16 = units[i];
        bytes.push((unit % 256) as u8);
        bytes.push((unit / 256) as u8);
        assert(bytes@ =~= le_bytes(units@.take(i as int + 1)));
    }
    assert(units@.take(units@.len() as int) =~= units@);
    bytes
}

/// Encodes units as lossless little-endian UTF-16 hexadecimal text.
pub fn utf16le_hex(path: &WidePath) -> (text: String)
    ensures
        text@ == spec_utf16le_hex(path@),
{
    hex_encode(le_bytes_of(path.units.as_slice()).as_slice())
}

/// Produces a collision-free journal key for an arbitrary Windows path.
pub fn path_key(path: &WidePath) -> (key: String)
    ensures
        key@ == spec_key(path@),
{
    let mut key = "u16:".to_owned();
    key.append(utf16le_hex(path).as_str());
    key
}

/// Produces a collision-free journal key for an arbitrary stream suffix.
pub fn stream_key(stream: &WidePath) -> (key: String)
    ensures
        key@ == spec_key(stream@),
{
    path_key(stream)
}

/// Decodes a journal key back into the exact path it encoded; `None` for
/// anything that is not a well-formed key.
pub fn key_to_path(key: &str) -> (path: Option<WidePath>)
    ensures
        path is Some <==> is_key(key@),
        path matches Some(path) ==> path@ == units_of_key(key@),
{
    let chars = chars_of(key);
    proof {
        reveal_strlit("u16:");
    }
    if chars.len() < 4 || chars[0] != 'u' || chars[1] != '1' || chars[2] != '6' || chars[3] != ':' {
        assert(key@.len() >= 4 ==> key@.take(4) != "u16:"@) by {
            if key@.len() >= 4 {
                let head = key@.take(4);
                assert(head[0] == key@[0] && head[1] == key@[1] && head[2] == key@[2] && head[3]
                    == key@[3]);
            }
        }
        return None;
    }
    assert(key@.take(4) =~= "u16:"@);
    let tail = string_of(vstd::slice::slice_subrange(chars.as_slice(), 4, chars.len()));
    assert(tail@ =~= key@.skip(4));
    let bytes = match hex_decode(tail.as_str()) {
        Some(bytes) => bytes,
        None => {
            return None;
        },
    };
    if bytes.len() % 2 != 0 {
        return None;
    }
    let mut units: Vec<u16> = Vec::new();
    let mut at: usize = 0;
    while at < bytes.len()
        invariant
            at <= bytes.len(),
            at % 2 == 0,
            bytes.len() % 2 == 0,
            units@ == le_units(bytes@.take(at as int)),
        decreases bytes.len() - at,
    {
        let unit: u16 = bytes[at] as u16 + 256 * (bytes[at + 1] as u16);
        units.push(unit);
        assert(units@ =~= le_units(bytes@.take(at as int + 2)));
        at += 2;
    }
    assert(bytes@.take(bytes@.len() as int) =~= bytes@);
    Some(WidePath { units })
}

proof fn le_round_trips(units: Seq<u16>)
    ensures
        le_units(le_bytes(units)) == units,
{
    let bytes = le_bytes(units);
    assert forall|i: int| 0 <= i < units.len() implies le_units(bytes)[i] == units[i] by {
        assert((2 * i) / 2 == i && (2 * i) % 2 == 0);
        assert((2 * i + 1) / 2 == i && (2 * i + 1) % 2 == 1);
        assert(bytes[2 * i] == (units[i] % 256) as u8);
        assert(bytes[2 * i + 1] == (units[i] / 256) as u8);
    }
    assert(le_units(bytes) =~= units);
}

/// Decoding the key of a path gives back exactly that path.
pub proof fn key_round_trips(units: Seq<u16>)
    ensures
        is_key(spec_key(units)),
        units_of_key(spec_key(units)) == units,
{
    reveal_strlit("u16:");
    let key = spec_key(units);
    assert(key.take(4) =~= "u16:"@);
    assert(key.skip(4) =~= spec_utf16le_hex(units));
    hex_round_trips(le_bytes(units));
    le_round_trips(units);
}

/// Different paths have different keys.
pub proof fn keys_never_collide(left: Seq<u16>, right: Seq<u16>)
    requires
        left != right,
    ensures
        spec_key(left) != spec_key(right),
{
    key_round_trips(left);
    key_round_trips(right);
}

} // verus!
