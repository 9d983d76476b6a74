//! Checksums, digests and hexadecimal text of byte sequences.

use sha2::Digest;
use vstd::prelude::*;
use vstd::string::*;
use xxhash_rust::xxh3::Xxh3;

use crate::text::{fixed_hex, hex_char, push_fixed_hex};

verus! {

/// Two lowercase hexadecimal digits for each byte.
pub open spec fn hex_text(bytes: Seq<u8>) -> Seq<char> {
    Seq::new(
        2 * bytes.len(),
        |i: int|
            if i % 2 == 0 {
                hex_char((bytes[i / 2] / 16) as nat)
            } else {
                hex_char((bytes[i / 2] % 16) as nat)
            },
    )
}

/// Whether a character is a hexadecimal digit of either case.
pub open spec fn is_hex_digit(c: char) -> bool {
    '0' <= c <= '9' || 'a' <= c <= 'f' || 'A' <= c <= 'F'
}

/// The value of a hexadecimal digit.
pub open spec fn hex_value(c: char) -> int {
    if '0' <= c <= '9' {
        c as int - '0' as int
    } else if 'a' <= c <= 'f' {
        c as int - 'a' as int + 10
    } else {
        c as int - 'A' as int + 10
    }
}

/// Whether a text is made of pairs of hexadecimal digits.
pub open spec fn is_hex_text(text: Seq<char>) -> bool {
    text.len() % 2 == 0 && forall|i: int| 0 <= i < text.len() ==> is_hex_digit(#[trigger] text[i])
}

/// The bytes that pairs of hexadecimal digits stand for.
pub open spec fn hex_bytes(text: Seq<char>) -> Seq<u8> {
    Seq::new(
        text.len() / 2,
        |i: int| (16 * hex_value(text[2 * i]) + hex_value(text[2 * i + 1])) as u8,
    )
}

/// [`hex::encode`] writes two lowercase hexadecimal digits for each byte, the
/// high half first.
#[verifier::external_body]
pub(crate) fn hex_encode(bytes: &[u8]) -> (text: String)
    ensures
        text@ == hex_text(bytes@),
{
    hex::encode(bytes)
}

/// [`hex::decode`] reads pairs of hexadecimal digits of either case and fails
/// on an odd length or any other character.
#[verifier::external_body]
pub(crate) fn hex_decode(text: &str) -> (bytes: Option<Vec<u8>>)
    ensures
        bytes is Some <==> is_hex_text(text@),
        bytes matches Some(list) ==> list@ == hex_bytes(text@),
{
    hex::decode(text).ok()
}

/// What [`crc32c::crc32c`] returns: the CRC-32C of the bytes.
pub uninterp spec fn crc32c_of(bytes: Seq<u8>) -> u32;

/// [`crc32c::crc32c`] depends on the bytes alone.
#[verifier::external_body]
pub(crate) fn crc32c_checksum(bytes: &[u8]) -> (crc: u32)
    ensures
        crc == crc32c_of(bytes@),
{
    crc32c::crc32c(bytes)
}

/// What `sha2::Sha256::digest` returns: the SHA-256 of the bytes.
pub uninterp spec fn sha256_of(bytes: Seq<u8>) -> Seq<u8>;

/// `sha2::Sha256::digest` depends on the bytes alone and returns 32 bytes.
#[verifier::external_body]
pub(crate) fn sha256(bytes: &[u8]) -> (digest: Vec<u8>)
    ensures
        digest@ == sha256_of(bytes@),
        digest@.len() == 32,
{
    sha2::Sha256::digest(bytes).to_vec()
}

/// What [`xxhash_rust::xxh3::xxh3_128`] returns: the 128-bit XXH3 of the bytes.
pub uninterp spec fn xxh3_128_of(bytes: Seq<u8>) -> u128;

/// [`xxhash_rust::xxh3::xxh3_128`] depends on the bytes alone.
#[verifier::external_body]
fn xxh3_128(bytes: &[u8]) -> (hash: u128)
    ensures
        hash == xxh3_128_of(bytes@),
{
    xxhash_rust::xxh3::xxh3_128(bytes)
}

/// The streaming XXH3 state of the outside crate.
#[verifier::external_type_specification]
#[verifier::external_body]
pub struct ExXxh3(Xxh3);

/// The bytes that a streaming XXH3 state holds: every chunk that it was given,
/// in order.
pub uninterp spec fn absorbed(state: Xxh3) -> Seq<u8>;

/// [`Xxh3::new`] starts with nothing absorbed.
#[verifier::external_body]
fn xxh3_start() -> (state: Xxh3)
    ensures
        absorbed(state) == Seq::<u8>::empty(),
{
    Xxh3::new()
}

/// [`Xxh3::update`] absorbs one more chunk.
#[verifier::external_body]
fn xxh3_update(state: &mut Xxh3, bytes: &[u8])
    ensures
        absorbed(*final(state)) == absorbed(*old(state)) + bytes@,
{
    state.update(bytes)
}

/// [`Xxh3::digest128`] is the one-shot 128-bit hash of everything absorbed.
#[verifier::external_body]
fn xxh3_digest(state: &Xxh3) -> (hash: u128)
    ensures
        hash == xxh3_128_of(absorbed(*state)),
{
    state.digest128()
}

/// The textual digest of a byte sequence: `xxh3:` and 32 hexadecimal digits.
pub open spec fn digest_text(bytes: Seq<u8>) -> Seq<char> {
    "xxh3:"@ + fixed_hex(xxh3_128_of(bytes) as nat, 32)
}

/// The textual form of a 128-bit hash.
pub open spec fn hash_text(hash: u128) -> Seq<char> {
    "xxh3:"@ + fixed_hex(hash as nat, 32)
}

/// The textual form of a 128-bit hash.
pub fn format_digest(hash: u128) -> (text: String)
    ensures
        text@ == hash_text(hash),
{
    let mut out = "xxh3:".to_owned();
    push_fixed_hex(&mut out, hash, 32);
    out
}

/// The textual digest of bytes at hand.
pub fn digest_bytes(bytes: &[u8]) -> (text: String)
    ensures
        text@ == digest_text(bytes@),
{
    format_digest(xxh3_128(bytes))
}

/// A running digest over the chunks of one stream.
pub struct StreamDigest {
    state: Xxh3,
}

impl View for StreamDigest {
    type V = Seq<u8>;

    closed spec fn view(&self) -> Seq<u8> {
        absorbed(self.state)
    }
}

impl StreamDigest {
    /// A digest of nothing yet.
    pub fn new() -> (digest: StreamDigest)
        ensures
            digest@ == Seq::<u8>::empty(),
    {
        StreamDigest { state: xxh3_start() }
    }

    /// Feeds the next chunk of the stream.
    pub fn update(&mut self, bytes: &[u8])
        ensures
            final(self)@ == old(self)@ + bytes@,
    {
        xxh3_update(&mut self.state, bytes);
    }

    /// Feeds `length` zero bytes: the content of a hole in a sparse file.
    pub fn update_zeros(&mut self, length: u64)
        ensures
            final(self)@ == old(self)@ + Seq::new(length as nat, |i: int| 0u8),
    {
        let mut page: Vec<u8> = Vec::new();
        page.resize(ZERO_PAGE_BYTES, 0u8);
        let ghost start = self@;
        let mut remaining: u64 = length;
        while remaining > 0
            invariant
                remaining <= length,
                page@.len() == ZERO_PAGE_BYTES,
                forall|i: int| 0 <= i < page@.len() ==> page@[i] == 0u8,
                self@ == start + Seq::new((length - remaining) as nat, |i: int| 0u8),
            decreases remaining,
        {
            let count: usize = if remaining < ZERO_PAGE_BYTES as u64 {
                remaining as usize
            } else {
                ZERO_PAGE_BYTES
            };
            let chunk = vstd::slice::slice_subrange(page.as_slice(), 0, count);
            self.update(chunk);
            remaining = remaining - count as u64;
            assert(self@ =~= start + Seq::new((length - remaining) as nat, |i: int| 0u8));
        }
        assert(self@ =~= start + Seq::new(length as nat, |i: int| 0u8));
    }

    /// The textual digest of everything fed so far.
    pub fn finish(&self) -> (text: String)
        ensures
            text@ == digest_text(self@),
    {
        format_digest(xxh3_digest(&self.state))
    }
}

/// Bytes of zeros that are hashed at a time.
pub const ZERO_PAGE_BYTES: usize = 65536;

/// Hexadecimal text gives back the bytes that it was made from.
pub proof fn hex_round_trips(bytes: Seq<u8>)
    ensures
        is_hex_text(hex_text(bytes)),
        hex_bytes(hex_text(bytes)) == bytes,
{
    let text = hex_text(bytes);
    assert forall|i: int| 0 <= i < text.len() implies is_hex_digit(#[trigger] text[i]) by {
        assert(bytes[i / 2] / 16 < 16 && bytes[i / 2] % 16 < 16);
    }
    assert forall|i: int| 0 <= i < bytes.len() implies hex_bytes(text)[i] == bytes[i] by {
        assert((2 * i) / 2 == i && (2 * i) % 2 == 0);
        assert((2 * i + 1) / 2 == i && (2 * i + 1) % 2 == 1);
        assert(text[2 * i] == hex_char((bytes[i] / 16) as nat));
        assert(text[2 * i + 1] == hex_char((bytes[i] % 16) as nat));
    }
    assert(hex_bytes(text) =~= bytes);
}

/// Different byte sequences have different hexadecimal texts.
pub proof fn hex_is_injective(left: Seq<u8>, right: Seq<u8>)
    requires
        hex_text(left) == hex_text(right),
    ensures
        left == right,
{
    hex_round_trips(left);
    hex_round_trips(right);
}

} // verus!
