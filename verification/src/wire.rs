//! The scalar layouts of the payload: unsigned integers in little-endian
//! order at their full width, and strings as their UTF-8 bytes behind a
//! four-byte length.

use vstd::prelude::*;
use vstd::slice::slice_subrange;
use vstd::utf8::{decode_utf8, encode_utf8, encode_utf8_decode_utf8, valid_utf8};

verus! {

/// The two bytes of a `u16`, low byte first.
pub open spec fn u16_le(value: u16) -> Seq<u8> {
    seq![(value % 0x100) as u8, (value / 0x100) as u8]
}

/// The four bytes of a `u32`, low byte first: its low half, then its high
/// half.
pub open spec fn u32_le(value: u32) -> Seq<u8> {
    u16_le((value % 0x1_0000) as u16) + u16_le((value / 0x1_0000) as u16)
}

/// The eight bytes of a `u64`, low byte first: its low half, then its high
/// half.
pub open spec fn u64_le(value: u64) -> Seq<u8> {
    u32_le((value % 0x1_0000_0000) as u32) + u32_le((value / 0x1_0000_0000) as u32)
}

/// The number that two bytes at `at` spell, low byte first.
pub open spec fn u16_at(bytes: Seq<u8>, at: int) -> u16
    recommends
        0 <= at,
        at + 2 <= bytes.len(),
{
    (bytes[at] + bytes[at + 1] * 0x100) as u16
}

/// The number that four bytes at `at` spell, low byte first.
pub open spec fn u32_at(bytes: Seq<u8>, at: int) -> u32
    recommends
        0 <= at,
        at + 4 <= bytes.len(),
{
    (u16_at(bytes, at) + u16_at(bytes, at + 2) * 0x1_0000) as u32
}

/// The number that eight bytes at `at` spell, low byte first.
pub open spec fn u64_at(bytes: Seq<u8>, at: int) -> u64
    recommends
        0 <= at,
        at + 8 <= bytes.len(),
{
    (u32_at(bytes, at) + u32_at(bytes, at + 4) * 0x1_0000_0000) as u64
}

/// Whether a string has a length prefix: its UTF-8 form is at most
/// `u32::MAX` bytes long.
pub open spec fn text_fits(text: Seq<char>) -> bool {
    encode_utf8(text).len() <= u32::MAX
}

/// A string on the wire: the length of its UTF-8 form as a `u32`, then that
/// form.
pub open spec fn text_le(text: Seq<char>) -> Seq<u8>
    recommends
        text_fits(text),
{
    u32_le(encode_utf8(text).len() as u32) + encode_utf8(text)
}

/// A `u16` takes two bytes.
pub broadcast proof fn lemma_u16_le_len(value: u16)
    ensures
        #[trigger] u16_le(value).len() == 2,
{
}

/// A `u32` takes four bytes.
pub broadcast proof fn lemma_u32_le_len(value: u32)
    ensures
        #[trigger] u32_le(value).len() == 4,
{
    lemma_u16_le_len((value % 0x1_0000) as u16);
    lemma_u16_le_len((value / 0x1_0000) as u16);
}

/// A `u64` takes eight bytes.
pub broadcast proof fn lemma_u64_le_len(value: u64)
    ensures
        #[trigger] u64_le(value).len() == 8,
{
    lemma_u32_le_len((value % 0x1_0000_0000) as u32);
    lemma_u32_le_len((value / 0x1_0000_0000) as u32);
}

/// The widths of the three integer layouts.
pub broadcast group group_le_len {
    lemma_u16_le_len,
    lemma_u32_le_len,
    lemma_u64_le_len,
}

/// Reading back the bytes of a `u16` gives the number, wherever they stand.
pub proof fn lemma_u16_round_trip(before: Seq<u8>, value: u16, after: Seq<u8>)
    ensures
        u16_at(before + u16_le(value) + after, before.len() as int) == value,
{
    let all = before + u16_le(value) + after;
    let at = before.len() as int;
    assert(all[at] == u16_le(value)[0]);
    assert(all[at + 1] == u16_le(value)[1]);
}

/// Reading back the bytes of a `u32` gives the number, wherever they stand.
pub proof fn lemma_u32_round_trip(before: Seq<u8>, value: u32, after: Seq<u8>)
    ensures
        u32_at(before + u32_le(value) + after, before.len() as int) == value,
{
    let low = (value % 0x1_0000) as u16;
    let high = (value / 0x1_0000) as u16;
    let all = before + u32_le(value) + after;
    lemma_u16_le_len(low);
    assert(all =~= before + u16_le(low) + (u16_le(high) + after));
    lemma_u16_round_trip(before, low, u16_le(high) + after);
    assert(all =~= (before + u16_le(low)) + u16_le(high) + after);
    lemma_u16_round_trip(before + u16_le(low), high, after);
}

/// Reading back the bytes of a `u64` gives the number, wherever they stand.
pub proof fn lemma_u64_round_trip(before: Seq<u8>, value: u64, after: Seq<u8>)
    ensures
        u64_at(before + u64_le(value) + after, before.len() as int) == value,
{
    let low = (value % 0x1_0000_0000) as u32;
    let high = (value / 0x1_0000_0000) as u32;
    let all = before + u64_le(value) + after;
    lemma_u32_le_len(low);
    assert(all =~= before + u32_le(low) + (u32_le(high) + after));
    lemma_u32_round_trip(before, low, u32_le(high) + after);
    assert(all =~= (before + u32_le(low)) + u32_le(high) + after);
    lemma_u32_round_trip(before + u32_le(low), high, after);
}

/// Calls `borsh::to_vec` on a `u8`. The impl of `BorshSerialize` for `u8`
/// writes the byte itself, and writing into a `Vec` does not fail, so the
/// contract claims `Some` of that one byte.
#[verifier::external_body]
fn borsh_u8(value: u8) -> (bytes: Option<Vec<u8>>)
    ensures
        bytes is Some,
        bytes matches Some(b) ==> b@ == seq![value],
{
    borsh::to_vec(&value).ok()
}

/// Calls `borsh::to_vec` on a `u16`. The impl writes `to_le_bytes()`, and
/// writing into a `Vec` does not fail, so the contract claims `Some` of the
/// two bytes, low byte first.
#[verifier::external_body]
fn borsh_u16(value: u16) -> (bytes: Option<Vec<u8>>)
    ensures
        bytes is Some,
        bytes matches Some(b) ==> b@ == u16_le(value),
{
    borsh::to_vec(&value).ok()
}

/// Calls `borsh::to_vec` on a `u64`. The impl writes `to_le_bytes()`, and
/// writing into a `Vec` does not fail, so the contract claims `Some` of the
/// eight bytes, low byte first.
#[verifier::external_body]
fn borsh_u64(value: u64) -> (bytes: Option<Vec<u8>>)
    ensures
        bytes is Some,
        bytes matches Some(b) ==> b@ == u64_le(value),
{
    borsh::to_vec(&value).ok()
}

/// Calls `borsh::to_vec` on a `str`. The impl turns the length of
/// `as_bytes()` into a `u32`, which is the one step that can fail, writes it
/// with `to_le_bytes()` and then writes the bytes. The contract claims `None`
/// exactly for a string of more than `u32::MAX` bytes, and otherwise the
/// prefix and the bytes.
#[verifier::external_body]
fn borsh_str(text: &str) -> (bytes: Option<Vec<u8>>)
    ensures
        bytes is Some <==> text_fits(text@),
        bytes matches Some(b) ==> b@ == text_le(text@),
{
    borsh::to_vec(text).ok()
}

/// Calls `core::str::from_utf8`, which std documents to succeed exactly on
/// well-formed UTF-8 and then to give the bytes themselves as a string
/// slice: the string whose UTF-8 form they are.
#[verifier::external_body]
fn str_from_utf8(bytes: &[u8]) -> (text: Option<&str>)
    ensures
        text is Some <==> valid_utf8(bytes@),
        text matches Some(s) ==> encode_utf8(s@) == bytes@,
{
    core::str::from_utf8(bytes).ok()
}

/// Appends one byte.
pub fn put_u8(out: &mut Vec<u8>, value: u8)
    ensures
        final(out)@ == old(out)@ + seq![value],
{
    if let Some(mut bytes) = borsh_u8(value) {
        out.append(&mut bytes);
    }
}

/// Appends a `u16`, low byte first.
pub fn put_u16(out: &mut Vec<u8>, value: u16)
    ensures
        final(out)@ == old(out)@ + u16_le(value),
{
    if let Some(mut bytes) = borsh_u16(value) {
        out.append(&mut bytes);
    }
}

/// Appends a `u64`, low byte first.
pub fn put_u64(out: &mut Vec<u8>, value: u64)
    ensures
        final(out)@ == old(out)@ + u64_le(value),
{
    if let Some(mut bytes) = borsh_u64(value) {
        out.append(&mut bytes);
    }
}

/// Appends a string behind its length, or leaves `out` as it is and says
/// `false` where the string is too long to have one.
pub fn put_text(out: &mut Vec<u8>, text: &str) -> (fits: bool)
    ensures
        fits == text_fits(text@),
        fits ==> final(out)@ == old(out)@ + text_le(text@),
        !fits ==> final(out)@ == old(out)@,
{
    match borsh_str(text) {
        Some(mut bytes) => {
            out.append(&mut bytes);
            true
        },
        None => false,
    }
}

/// Reads the `u16` that stands at `at`.
pub fn get_u16(data: &[u8], at: usize) -> (value: u16)
    requires
        at + 2 <= data.len(),
    ensures
        value == u16_at(data@, at as int),
{
    proof {
        }
    let low: u16 = data[at] as u16;
    let high: u16 = data[at + 1] as u16;
    low + high * 0x100
}

/// Reads the `u32` that stands at `at`.
pub fn get_u32(data: &[u8], at: usize) -> (value: u32)
    requires
        at + 4 <= data.len(),
    ensures
        value == u32_at(data@, at as int),
{
    proof {
        }
    let low: u32 = get_u16(data, at) as u32;
    let high: u32 = get_u16(data, at + 2) as u32;
    low + high * 0x1_0000
}

/// Reads the `u64` that stands at `at`.
pub fn get_u64(data: &[u8], at: usize) -> (value: u64)
    requires
        at + 8 <= data.len(),
    ensures
        value == u64_at(data@, at as int),
{
    proof {
        }
    let low: u64 = get_u32(data, at) as u64;
    let high: u64 = get_u32(data, at + 4) as u64;
    low + high * 0x1_0000_0000
}

/// Reads the string whose UTF-8 form is `data[from..to]`, or `None` where
/// those bytes are not well-formed UTF-8.
pub fn get_text(data: &[u8], from: usize, to: usize) -> (text: Option<String>)
    requires
        from <= to <= data.len(),
    ensures
        text is Some <==> valid_utf8(data@.subrange(from as int, to as int)),
        text matches Some(s) ==> s@ == decode_utf8(data@.subrange(from as int, to as int)),
{
    match str_from_utf8(slice_subrange(data, from, to)) {
        Some(s) => {
            proof {
                encode_utf8_decode_utf8(s@);
            }
            Some(s.to_owned())
        },
        None => None,
    }
}

} // verus!
