//! Little-endian integers as instruction payloads carry them.

use vstd::prelude::*;
use vstd::arithmetic::div_mod::lemma_div_denominator;
use vstd::slice::slice_subrange;
use vstd::string::*;
use vstd::utf8::{decode_utf8, valid_utf8};
use crate::sdk;

verus! {

/// The number that eight bytes spell, least significant byte first.
pub open spec fn le_u64(b: Seq<u8>) -> int
    recommends
        b.len() == 8,
{
    b[0] + 0x100 * b[1] + 0x1_0000 * b[2] + 0x100_0000 * b[3] + 0x1_0000_0000 * b[4]
        + 0x100_0000_0000 * b[5] + 0x1_0000_0000_0000 * b[6] + 0x100_0000_0000_0000 * b[7]
}

/// The eight bytes that spell `x`, least significant byte first.
pub open spec fn u64_le_bytes(x: u64) -> Seq<u8> {
    seq![
        (x % 0x100) as u8,
        (x / 0x100 % 0x100) as u8,
        (x / 0x1_0000 % 0x100) as u8,
        (x / 0x100_0000 % 0x100) as u8,
        (x / 0x1_0000_0000 % 0x100) as u8,
        (x / 0x100_0000_0000 % 0x100) as u8,
        (x / 0x1_0000_0000_0000 % 0x100) as u8,
        (x / 0x100_0000_0000_0000 % 0x100) as u8,
    ]
}

/// The four bytes that spell `x`, least significant byte first.
pub open spec fn u32_le_bytes(x: u32) -> Seq<u8> {
    seq![
        (x % 0x100) as u8,
        (x / 0x100 % 0x100) as u8,
        (x / 0x1_0000 % 0x100) as u8,
        (x / 0x100_0000 % 0x100) as u8,
    ]
}

/// Reading back the bytes of a number gives the number.
pub proof fn lemma_u64_round_trip(x: u64)
    ensures
        u64_le_bytes(x).len() == 8,
        le_u64(u64_le_bytes(x)) == x,
{
    lemma_shifts(x as int);
    let q1 = x / 0x100;
    let q2 = q1 / 0x100;
    let q3 = q2 / 0x100;
    let q4 = q3 / 0x100;
    let q5 = q4 / 0x100;
    let q6 = q5 / 0x100;
    let q7 = q6 / 0x100;
    assert(x == x % 0x100 + 0x100 * q1);
    assert(q1 == q1 % 0x100 + 0x100 * q2);
    assert(q2 == q2 % 0x100 + 0x100 * q3);
    assert(q3 == q3 % 0x100 + 0x100 * q4);
    assert(q4 == q4 % 0x100 + 0x100 * q5);
    assert(q5 == q5 % 0x100 + 0x100 * q6);
    assert(q6 == q6 % 0x100 + 0x100 * q7);
    assert(q7 == q7 % 0x100);
}

/// Dividing by a power of 256 is dividing by 256 that many times.
proof fn lemma_shifts(x: int)
    requires
        0 <= x,
    ensures
        x / 0x1_0000 == x / 0x100 / 0x100,
        x / 0x100_0000 == x / 0x100 / 0x100 / 0x100,
        x / 0x1_0000_0000 == x / 0x100 / 0x100 / 0x100 / 0x100,
        x / 0x100_0000_0000 == x / 0x100 / 0x100 / 0x100 / 0x100 / 0x100,
        x / 0x1_0000_0000_0000 == x / 0x100 / 0x100 / 0x100 / 0x100 / 0x100 / 0x100,
        x / 0x100_0000_0000_0000 == x / 0x100 / 0x100 / 0x100 / 0x100 / 0x100 / 0x100 / 0x100,
{
    lemma_div_denominator(x, 0x100, 0x100);
    lemma_div_denominator(x, 0x1_0000, 0x100);
    lemma_div_denominator(x, 0x100_0000, 0x100);
    lemma_div_denominator(x, 0x1_0000_0000, 0x100);
    lemma_div_denominator(x, 0x100_0000_0000, 0x100);
    lemma_div_denominator(x, 0x1_0000_0000_0000, 0x100);
}

/// The number spelt by the eight bytes of `data` that start at `at`, if
/// `data` has that many.
pub fn read_u64(data: &[u8], at: usize) -> (r: Option<u64>)
    ensures
        match r {
            Some(x) => at + 8 <= data@.len() && x == le_u64(data@.subrange(at as int, at + 8)),
            None => at + 8 > data@.len(),
        },
{
    if data.len() < 8 || at > data.len() - 8 {
        return None;
    }
    let ghost b = data@.subrange(at as int, at + 8);
    let b0 = data[at] as u64;
    let b1 = data[at + 1] as u64;
    let b2 = data[at + 2] as u64;
    let b3 = data[at + 3] as u64;
    let b4 = data[at + 4] as u64;
    let b5 = data[at + 5] as u64;
    let b6 = data[at + 6] as u64;
    let b7 = data[at + 7] as u64;
    assert(b0 == b[0] && b1 == b[1] && b2 == b[2] && b3 == b[3]);
    assert(b4 == b[4] && b5 == b[5] && b6 == b[6] && b7 == b[7]);
    let low: u64 = b0 + 0x100 * b1 + 0x1_0000 * b2 + 0x100_0000 * b3;
    let high: u64 = b4 + 0x100 * b5 + 0x1_0000 * b6 + 0x100_0000 * b7;
    Some(low + 0x1_0000_0000 * high)
}

/// Appends the eight bytes of `x` to `out`, least significant byte first.
pub fn write_u64(out: &mut Vec<u8>, x: u64)
    ensures
        final(out)@ == old(out)@ + u64_le_bytes(x),
{
    out.push((x % 0x100) as u8);
    out.push((x / 0x100 % 0x100) as u8);
    out.push((x / 0x1_0000 % 0x100) as u8);
    out.push((x / 0x100_0000 % 0x100) as u8);
    out.push((x / 0x1_0000_0000 % 0x100) as u8);
    out.push((x / 0x100_0000_0000 % 0x100) as u8);
    out.push((x / 0x1_0000_0000_0000 % 0x100) as u8);
    out.push((x / 0x100_0000_0000_0000 % 0x100) as u8);
    assert(out@ =~= old(out)@ + u64_le_bytes(x));
}

/// The number that four bytes spell, least significant byte first.
pub open spec fn le_u32(b: Seq<u8>) -> int
    recommends
        b.len() == 4,
{
    b[0] + 0x100 * b[1] + 0x1_0000 * b[2] + 0x100_0000 * b[3]
}

/// The number spelt by the four bytes of `data` that start at `at`, if
/// `data` has that many.
pub fn read_u32(data: &[u8], at: usize) -> (r: Option<u32>)
    ensures
        match r {
            Some(x) => at + 4 <= data@.len() && x == le_u32(data@.subrange(at as int, at + 4)),
            None => at + 4 > data@.len(),
        },
{
    if data.len() < 4 || at > data.len() - 4 {
        return None;
    }
    let ghost b = data@.subrange(at as int, at + 4);
    let b0 = data[at] as u32;
    let b1 = data[at + 1] as u32;
    let b2 = data[at + 2] as u32;
    let b3 = data[at + 3] as u32;
    assert(b0 == b[0] && b1 == b[1] && b2 == b[2] && b3 == b[3]);
    Some(b0 + 0x100 * b1 + 0x1_0000 * b2 + 0x100_0000 * b3)
}

/// How many bytes the text at the start of `b` takes: the four bytes of its
/// length and as many bytes as they say, if `b` has them.
pub open spec fn text_size(b: Seq<u8>) -> Option<int> {
    if b.len() >= 4 && b.len() >= 4 + le_u32(b.subrange(0, 4)) {
        Some(4 + le_u32(b.subrange(0, 4)))
    } else {
        None
    }
}

/// The text at the start of `b`: a length as four little-endian bytes, then
/// that many bytes of UTF-8.
pub open spec fn text_at(b: Seq<u8>) -> Option<Seq<char>> {
    match text_size(b) {
        Some(size) if valid_utf8(b.subrange(4, size)) => Some(decode_utf8(b.subrange(4, size))),
        _ => None,
    }
}

/// Reads the text that starts at `at`, and says where the bytes after it
/// start.
pub fn read_text(data: &[u8], at: usize) -> (r: Option<(String, usize)>)
    ensures
        match r {
            Some((text, next)) => {
                &&& at <= data@.len()
                &&& text_at(data@.skip(at as int)) == Some(text@)
                &&& text_size(data@.skip(at as int)) == Some(next - at)
                &&& next <= data@.len()
            },
            None => at > data@.len() || text_at(data@.skip(at as int)) is None,
        },
{
    let len = match read_u32(data, at) {
        Some(len) => len as usize,
        None => {
            return None;
        },
    };
    let ghost rest = data@.skip(at as int);
    assert(rest.subrange(0, 4) =~= data@.subrange(at as int, at + 4));
    if data.len() - at - 4 < len {
        return None;
    }
    let bytes = slice_subrange(data, at + 4, at + 4 + len);
    assert(bytes@ =~= rest.subrange(4, 4 + len));
    match sdk::from_utf8(bytes) {
        Some(text) => Some((String::from_str(text), at + 4 + len)),
        None => None,
    }
}

} // verus!
