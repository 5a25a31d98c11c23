//! Bounded-length decoding primitives shared by every higher layer:
//! little-endian fixed-width integers, length-prefixed strings, and the
//! specification-level readers the decode contracts are stated over.
//!
//! A specification reader `sp_*` takes the byte sequence and a cursor
//! position and returns either the decoded value with the position after
//! it, or the error the decode fails with at that position.

use vstd::prelude::*;
use vstd::bytes::{
    spec_u128_from_le_bytes, spec_u16_from_le_bytes, spec_u32_from_le_bytes,
    spec_u64_from_le_bytes,
};
use vstd::utf8::{decode_utf8, valid_utf8};
use crate::errors::ParseError;

verus! {

/// The signed 32-bit value carried by the same bits as `u` (two's
/// complement reading of an unsigned value).
pub open spec fn as_i32(u: u32) -> i32 {
    if u < 0x8000_0000 {
        u as i32
    } else {
        (u - 0x1_0000_0000) as i32
    }
}

/// The signed 64-bit value carried by the same bits as `u`.
pub open spec fn as_i64(u: u64) -> i64 {
    if u < 0x8000_0000_0000_0000 {
        u as i64
    } else {
        (u - 0x1_0000_0000_0000_0000) as i64
    }
}

/// Reinterprets an unsigned 32-bit value as signed, two's complement.
pub fn u32_to_i32(u: u32) -> (r: i32)
    ensures
        r == as_i32(u),
{
    if u < 0x8000_0000 {
        u as i32
    } else {
        ((u - 0x8000_0000) as i32) - 0x7FFF_FFFF - 1
    }
}

/// Reinterprets an unsigned 64-bit value as signed, two's complement.
pub fn u64_to_i64(u: u64) -> (r: i64)
    ensures
        r == as_i64(u),
{
    if u < 0x8000_0000_0000_0000 {
        u as i64
    } else {
        ((u - 0x8000_0000_0000_0000) as i64) - 0x7FFF_FFFF_FFFF_FFFF - 1
    }
}

/// Relies on byteorder's `LittleEndian::read_u16`: the little-endian
/// unsigned value of two bytes.
#[verifier::external_body]
pub(crate) fn le_read_u16(data: &Vec<u8>, pos: usize) -> (r: u16)
    requires
        pos + 2 <= data.len(),
    ensures
        r == spec_u16_from_le_bytes(data@.subrange(pos as int, pos as int + 2)),
{
    <byteorder::LittleEndian as byteorder::ByteOrder>::read_u16(&data[pos..pos + 2])
}

/// Relies on byteorder's `LittleEndian::read_u32`: the little-endian
/// unsigned value of four bytes.
#[verifier::external_body]
pub(crate) fn le_read_u32(data: &Vec<u8>, pos: usize) -> (r: u32)
    requires
        pos + 4 <= data.len(),
    ensures
        r == spec_u32_from_le_bytes(data@.subrange(pos as int, pos as int + 4)),
{
    <byteorder::LittleEndian as byteorder::ByteOrder>::read_u32(&data[pos..pos + 4])
}

/// Relies on byteorder's `LittleEndian::read_u64`: the little-endian
/// unsigned value of eight bytes.
#[verifier::external_body]
pub(crate) fn le_read_u64(data: &Vec<u8>, pos: usize) -> (r: u64)
    requires
        pos + 8 <= data.len(),
    ensures
        r == spec_u64_from_le_bytes(data@.subrange(pos as int, pos as int + 8)),
{
    <byteorder::LittleEndian as byteorder::ByteOrder>::read_u64(&data[pos..pos + 8])
}

/// Relies on byteorder's `LittleEndian::read_u128`: the little-endian
/// unsigned value of sixteen bytes.
#[verifier::external_body]
pub(crate) fn le_read_u128(data: &Vec<u8>, pos: usize) -> (r: u128)
    requires
        pos + 16 <= data.len(),
    ensures
        r == spec_u128_from_le_bytes(data@.subrange(pos as int, pos as int + 16)),
{
    <byteorder::LittleEndian as byteorder::ByteOrder>::read_u128(&data[pos..pos + 16])
}

/// True when the given code units form well-formed UTF-16: every unit in
/// the surrogate range opens or closes a complete surrogate pair.
pub open spec fn utf16_valid(units: Seq<u16>) -> bool
    decreases units.len(),
{
    if units.len() == 0 {
        true
    } else if units[0] < 0xD800 || units[0] >= 0xE000 {
        utf16_valid(units.drop_first())
    } else if units[0] < 0xDC00 && units.len() >= 2 && 0xDC00 <= units[1] < 0xE000 {
        utf16_valid(units.skip(2))
    } else {
        false
    }
}

/// The characters encoded by well-formed UTF-16 code units: a unit outside
/// the surrogate range stands for itself, and a surrogate pair combines
/// into one supplementary-plane scalar.
pub open spec fn utf16_decode(units: Seq<u16>) -> Seq<char>
    recommends
        utf16_valid(units),
    decreases units.len(),
    when utf16_valid(units)
{
    if units.len() == 0 {
        Seq::empty()
    } else if units[0] < 0xD800 || units[0] >= 0xE000 {
        seq![(units[0] as u32) as char] + utf16_decode(units.drop_first())
    } else {
        seq![
            ((0x10000 + (units[0] - 0xD800) * 0x400 + (units[1] - 0xDC00)) as u32) as char
        ] + utf16_decode(units.skip(2))
    }
}

/// The code units read pairwise little-endian from a byte sequence.
pub open spec fn le_u16_seq(s: Seq<u8>) -> Seq<u16> {
    Seq::new((s.len() / 2) as nat, |i: int| spec_u16_from_le_bytes(s.subrange(2 * i, 2 * i + 2)))
}

/// Relies on `String::from_utf8`: succeeds exactly on valid UTF-8 and
/// yields the characters those bytes encode.
#[verifier::external_body]
pub(crate) fn string_from_utf8(bytes: Vec<u8>) -> (r: Option<String>)
    ensures
        match r {
            Some(s) => valid_utf8(bytes@) && s@ == decode_utf8(bytes@),
            None => !valid_utf8(bytes@),
        },
{
    String::from_utf8(bytes).ok()
}

/// Relies on `String::from_utf16`: succeeds exactly on well-formed UTF-16
/// (no unpaired surrogates) and yields the characters those units encode.
#[verifier::external_body]
pub(crate) fn string_from_utf16(units: &Vec<u16>) -> (r: Option<String>)
    ensures
        match r {
            Some(s) => utf16_valid(units@) && s@ == utf16_decode(units@),
            None => !utf16_valid(units@),
        },
{
    String::from_utf16(units.as_slice()).ok()
}

/// Reads one byte.
pub open spec fn sp_u8(s: Seq<u8>, pos: int) -> Result<(u8, int), ParseError> {
    if 0 <= pos && pos + 1 <= s.len() {
        Ok((s[pos], pos + 1))
    } else {
        Err(ParseError::Eof)
    }
}

/// Reads a little-endian unsigned 16-bit integer.
pub open spec fn sp_u16(s: Seq<u8>, pos: int) -> Result<(u16, int), ParseError> {
    if 0 <= pos && pos + 2 <= s.len() {
        Ok((spec_u16_from_le_bytes(s.subrange(pos, pos + 2)), pos + 2))
    } else {
        Err(ParseError::Eof)
    }
}

/// Reads a little-endian unsigned 32-bit integer.
pub open spec fn sp_u32(s: Seq<u8>, pos: int) -> Result<(u32, int), ParseError> {
    if 0 <= pos && pos + 4 <= s.len() {
        Ok((spec_u32_from_le_bytes(s.subrange(pos, pos + 4)), pos + 4))
    } else {
        Err(ParseError::Eof)
    }
}

/// Reads a little-endian signed 32-bit integer.
pub open spec fn sp_i32(s: Seq<u8>, pos: int) -> Result<(i32, int), ParseError> {
    match sp_u32(s, pos) {
        Ok((u, p)) => Ok((as_i32(u), p)),
        Err(e) => Err(e),
    }
}

/// Reads a little-endian unsigned 64-bit integer.
pub open spec fn sp_u64(s: Seq<u8>, pos: int) -> Result<(u64, int), ParseError> {
    if 0 <= pos && pos + 8 <= s.len() {
        Ok((spec_u64_from_le_bytes(s.subrange(pos, pos + 8)), pos + 8))
    } else {
        Err(ParseError::Eof)
    }
}

/// Reads a little-endian signed 64-bit integer.
pub open spec fn sp_i64(s: Seq<u8>, pos: int) -> Result<(i64, int), ParseError> {
    match sp_u64(s, pos) {
        Ok((u, p)) => Ok((as_i64(u), p)),
        Err(e) => Err(e),
    }
}

/// Reads a little-endian unsigned 128-bit integer.
pub open spec fn sp_u128(s: Seq<u8>, pos: int) -> Result<(u128, int), ParseError> {
    if 0 <= pos && pos + 16 <= s.len() {
        Ok((spec_u128_from_le_bytes(s.subrange(pos, pos + 16)), pos + 16))
    } else {
        Err(ParseError::Eof)
    }
}

/// Reads `n` raw bytes.
pub open spec fn sp_bytes(s: Seq<u8>, pos: int, n: int) -> Result<(Seq<u8>, int), ParseError> {
    if 0 <= pos && 0 <= n && pos + n <= s.len() {
        Ok((s.subrange(pos, pos + n), pos + n))
    } else {
        Err(ParseError::Eof)
    }
}

/// Advances the cursor by a signed byte delta without reading; moving
/// outside the byte source fails.
pub open spec fn sp_skip(s: Seq<u8>, pos: int, delta: int) -> Result<int, ParseError> {
    if 0 <= pos + delta && pos + delta <= s.len() {
        Ok(pos + delta)
    } else {
        Err(ParseError::Eof)
    }
}

/// The little-endian unsigned 32-bit value at a byte position.
pub open spec fn le_u32_at(s: Seq<u8>, pos: int) -> u32 {
    spec_u32_from_le_bytes(s.subrange(pos, pos + 4))
}

/// The little-endian signed 32-bit value at a byte position.
pub open spec fn le_i32_at(s: Seq<u8>, pos: int) -> i32 {
    as_i32(le_u32_at(s, pos))
}

/// The little-endian signed 64-bit value at a byte position.
pub open spec fn le_i64_at(s: Seq<u8>, pos: int) -> i64 {
    as_i64(spec_u64_from_le_bytes(s.subrange(pos, pos + 8)))
}

/// The byte sequences held by a vector of byte vectors.
pub open spec fn deep_bytes(v: Vec<Vec<u8>>) -> Seq<Seq<u8>> {
    v@.map_values(|x: Vec<u8>| x@)
}

/// The character sequences held by a vector of strings.
pub open spec fn deep_strings(v: Vec<String>) -> Seq<Seq<char>> {
    v@.map_values(|x: String| x@)
}

/// The byte sequence held by an optional byte vector.
pub open spec fn opt_bytes(v: Option<Vec<u8>>) -> Option<Seq<u8>> {
    match v {
        Some(b) => Some(b@),
        None => None,
    }
}

/// Reads a length-prefixed string. A positive length denotes
/// byte-per-character UTF-8 text with a trailing null byte (the length
/// counts the null, which is stripped); a negative length denotes UTF-16LE
/// text whose magnitude counts the code units including a trailing null
/// unit; a zero length is the empty string.
pub open spec fn sp_fstring(s: Seq<u8>, pos: int) -> Result<(Seq<char>, int), ParseError> {
    match sp_i32(s, pos) {
        Err(e) => Err(e),
        Ok((size, p)) => {
            if size == 0 {
                Ok((Seq::empty(), p))
            } else if size > 0 {
                if p + size <= s.len() {
                    let bytes = s.subrange(p, p + size - 1);
                    if valid_utf8(bytes) {
                        Ok((decode_utf8(bytes), p + size))
                    } else {
                        Err(ParseError::InvalidUtf8)
                    }
                } else {
                    Err(ParseError::Eof)
                }
            } else {
                let n = -(size as int);
                if p + 2 * n <= s.len() {
                    let units = le_u16_seq(s.subrange(p, p + 2 * n - 2));
                    if utf16_valid(units) {
                        Ok((utf16_decode(units), p + 2 * n))
                    } else {
                        Err(ParseError::InvalidUtf16)
                    }
                } else {
                    Err(ParseError::Eof)
                }
            }
        },
    }
}

/// The narrow on-disk encoding of a string: a positive little-endian
/// 32-bit length counting the UTF-8 bytes plus the trailing null, the
/// UTF-8 bytes themselves, then the null byte.
pub open spec fn sp_fstring_narrow_bytes(chars: Seq<char>) -> Seq<u8> {
    vstd::bytes::spec_u32_to_le_bytes((vstd::utf8::encode_utf8(chars).len() + 1) as u32)
        + vstd::utf8::encode_utf8(chars) + seq![0u8]
}

/// String round trip, narrow case: decoding the narrow encoding of any
/// string (whose length field fits the signed 32-bit prefix) yields that
/// string back and consumes exactly the encoding.
pub proof fn lemma_fstring_narrow_roundtrip(chars: Seq<char>)
    requires
        vstd::utf8::encode_utf8(chars).len() + 1 <= 0x7FFF_FFFF,
    ensures
        sp_fstring(sp_fstring_narrow_bytes(chars), 0) == Ok::<(Seq<char>, int), ParseError>(
            (chars, sp_fstring_narrow_bytes(chars).len() as int),
        ),
{
    broadcast use vstd::utf8::encode_utf8_valid_utf8;
    broadcast use vstd::utf8::encode_utf8_decode_utf8;

    let s = sp_fstring_narrow_bytes(chars);
    let n = vstd::utf8::encode_utf8(chars).len() as int;
    vstd::bytes::lemma_auto_spec_u32_to_from_le_bytes();
    assert(s.subrange(0, 4) =~= vstd::bytes::spec_u32_to_le_bytes((n + 1) as u32));
    assert(spec_u32_from_le_bytes(s.subrange(0, 4)) == (n + 1) as u32);
    assert(s.subrange(4, 4 + n) =~= vstd::utf8::encode_utf8(chars));
}

/// The UTF-16 encoding of one character: one code unit for a
/// basic-multilingual-plane scalar, a surrogate pair otherwise.
pub open spec fn utf16_encode_char(c: char) -> Seq<u16> {
    if (c as u32) < 0x10000 {
        seq![(c as u32) as u16]
    } else {
        seq![
            (0xD800 + (((c as u32) - 0x10000) / 0x400)) as u16,
            (0xDC00 + (((c as u32) - 0x10000) % 0x400)) as u16,
        ]
    }
}

/// The UTF-16 encoding of a character sequence.
pub open spec fn utf16_encode(chars: Seq<char>) -> Seq<u16>
    decreases chars.len(),
{
    if chars.len() == 0 {
        Seq::empty()
    } else {
        utf16_encode_char(chars[0]) + utf16_encode(chars.drop_first())
    }
}

/// UTF-16 round trip at the code-unit level: encoding any character
/// sequence yields well-formed UTF-16 that decodes back to the same
/// characters.
pub proof fn lemma_utf16_encode_decode(chars: Seq<char>)
    ensures
        utf16_valid(utf16_encode(chars)),
        utf16_decode(utf16_encode(chars)) == chars,
    decreases chars.len(),
{
    if chars.len() == 0 {
        assert(utf16_decode(utf16_encode(chars)) =~= chars);
    } else {
        let c = chars[0];
        let u = c as u32;
        let units = utf16_encode(chars);
        lemma_utf16_encode_decode(chars.drop_first());
        vstd::utf8::char_is_scalar(c);
        assert(vstd::utf8::is_scalar(u));
        if u < 0x10000 {
            vstd::utf8::char_u32_cast(c, (units[0] as u32));
            assert(units.drop_first() =~= utf16_encode(chars.drop_first()));
            assert(units[0] == (u as u16));
            assert(utf16_valid(units));
            assert(((units[0] as u32) as char) == c);
            assert(utf16_decode(units) =~= seq![c] + utf16_decode(units.drop_first()));
            assert(utf16_decode(units) =~= chars);
        } else {
            let q = (u - 0x10000) / 0x400;
            let rm = (u - 0x10000) % 0x400;
            assert(0 <= q <= 0x3FF);
            assert(0 <= rm < 0x400);
            let hi = (0xD800 + q) as u16;
            let lo = (0xDC00 + rm) as u16;
            assert(units[0] == hi && units[1] == lo);
            assert(units.skip(2) =~= utf16_encode(chars.drop_first()));
            assert(utf16_valid(units));
            assert(0x10000 + (hi - 0xD800) * 0x400 + (lo - 0xDC00) == u);
            vstd::utf8::char_u32_cast(c, ((0x10000 + (hi - 0xD800) * 0x400 + (lo - 0xDC00)) as u32));
            assert((((0x10000 + (hi - 0xD800) * 0x400 + (lo - 0xDC00)) as u32) as char) == c);
            assert(utf16_decode(units) =~= seq![c] + utf16_decode(units.skip(2)));
            assert(utf16_decode(units) =~= chars);
        }
    }
}

/// The little-endian byte serialization of UTF-16 code units.
pub open spec fn utf16le_bytes(units: Seq<u16>) -> Seq<u8>
    decreases units.len(),
{
    if units.len() == 0 {
        Seq::empty()
    } else {
        vstd::bytes::spec_u16_to_le_bytes(units[0]) + utf16le_bytes(units.drop_first())
    }
}

proof fn lemma_utf16le_bytes_len(units: Seq<u16>)
    ensures
        utf16le_bytes(units).len() == 2 * units.len(),
    decreases units.len(),
{
    vstd::bytes::lemma_auto_spec_u16_to_from_le_bytes();
    if units.len() > 0 {
        lemma_utf16le_bytes_len(units.drop_first());
    }
}

proof fn lemma_le_u16_seq_of_bytes(units: Seq<u16>)
    ensures
        le_u16_seq(utf16le_bytes(units)) == units,
    decreases units.len(),
{
    vstd::bytes::lemma_auto_spec_u16_to_from_le_bytes();
    lemma_utf16le_bytes_len(units);
    if units.len() == 0 {
        assert(le_u16_seq(utf16le_bytes(units)) =~= units);
    } else {
        let bytes = utf16le_bytes(units);
        let rest = utf16le_bytes(units.drop_first());
        lemma_le_u16_seq_of_bytes(units.drop_first());
        lemma_utf16le_bytes_len(units.drop_first());
        assert(bytes.subrange(0, 2) =~= vstd::bytes::spec_u16_to_le_bytes(units[0]));
        assert forall|k: int| 1 <= k < units.len() implies le_u16_seq(bytes)[k] == units[k] by {
            assert(bytes.subrange(2 * k, 2 * k + 2) =~= rest.subrange(2 * (k - 1), 2 * (k - 1) + 2));
            assert(le_u16_seq(rest)[k - 1] == units.drop_first()[k - 1]);
        }
        assert(le_u16_seq(bytes) =~= units);
    }
}

/// The wide on-disk encoding of a string: a negative little-endian
/// 32-bit length whose magnitude counts the UTF-16 code units plus the
/// trailing null unit, the units little-endian, then the null unit.
pub open spec fn sp_fstring_wide_bytes(chars: Seq<char>) -> Seq<u8> {
    let units = utf16_encode(chars);
    vstd::bytes::spec_u32_to_le_bytes((0x1_0000_0000 - (units.len() + 1)) as u32) + utf16le_bytes(
        units,
    ) + seq![0u8, 0u8]
}

/// String round trip, wide case: decoding the wide encoding of any
/// string (whose unit count fits the signed 32-bit prefix) yields that
/// string back and consumes exactly the encoding.
pub proof fn lemma_fstring_wide_roundtrip(chars: Seq<char>)
    requires
        utf16_encode(chars).len() + 1 <= 0x7FFF_FFFF,
    ensures
        sp_fstring(sp_fstring_wide_bytes(chars), 0) == Ok::<(Seq<char>, int), ParseError>(
            (chars, sp_fstring_wide_bytes(chars).len() as int),
        ),
{
    let units = utf16_encode(chars);
    let m = units.len() + 1;
    let s = sp_fstring_wide_bytes(chars);
    vstd::bytes::lemma_auto_spec_u32_to_from_le_bytes();
    lemma_utf16le_bytes_len(units);
    assert(s.subrange(0, 4) =~= vstd::bytes::spec_u32_to_le_bytes((0x1_0000_0000 - m) as u32));
    assert(spec_u32_from_le_bytes(s.subrange(0, 4)) == (0x1_0000_0000 - m) as u32);
    assert(s.len() == 4 + 2 * (m as int));
    assert(s.subrange(4, 4 + 2 * (m as int) - 2) =~= utf16le_bytes(units));
    lemma_le_u16_seq_of_bytes(units);
    lemma_utf16_encode_decode(chars);
}

/// String round trip, empty case: a zero length field alone decodes to
/// the empty string.
pub proof fn lemma_fstring_empty_roundtrip()
    ensures
        sp_fstring(vstd::bytes::spec_u32_to_le_bytes(0u32), 0) == Ok::<
            (Seq<char>, int),
            ParseError,
        >((Seq::empty(), 4)),
{
    vstd::bytes::lemma_auto_spec_u32_to_from_le_bytes();
    let s = vstd::bytes::spec_u32_to_le_bytes(0u32);
    assert(s.subrange(0, 4) =~= s);
    assert(spec_u32_from_le_bytes(s.subrange(0, 4)) == 0u32);
}

/// Reads `count` raw-byte elements of `elem_size` bytes each.
pub open spec fn sp_bytes_elems(s: Seq<u8>, pos: int, elem_size: int, count: int) -> Result<
    (Seq<Seq<u8>>, int),
    ParseError,
>
    decreases count,
{
    if count <= 0 {
        Ok((Seq::empty(), pos))
    } else {
        match sp_bytes(s, pos, elem_size) {
            Err(e) => Err(e),
            Ok((b, p)) => match sp_bytes_elems(s, p, elem_size, count - 1) {
                Err(e) => Err(e),
                Ok((rest, p2)) => Ok((seq![b] + rest, p2)),
            },
        }
    }
}

/// Reads a bounded array of raw-byte elements: a signed 32-bit count that
/// must be in `0 ..= max_elements`, then that many elements. A count
/// outside the bound fails before any element is read.
pub open spec fn sp_tarray_bytes(
    s: Seq<u8>,
    pos: int,
    elem_size: int,
    max_elements: int,
) -> Result<(Seq<Seq<u8>>, int), ParseError> {
    match sp_i32(s, pos) {
        Err(e) => Err(e),
        Ok((n, p)) => if n < 0 || n > max_elements {
            Err(ParseError::InvalidArraySize(n))
        } else {
            sp_bytes_elems(s, p, elem_size, n as int)
        },
    }
}

/// Reads `count` length-prefixed strings.
pub open spec fn sp_fstring_elems(s: Seq<u8>, pos: int, count: int) -> Result<
    (Seq<Seq<char>>, int),
    ParseError,
>
    decreases count,
{
    if count <= 0 {
        Ok((Seq::empty(), pos))
    } else {
        match sp_fstring(s, pos) {
            Err(e) => Err(e),
            Ok((v, p)) => match sp_fstring_elems(s, p, count - 1) {
                Err(e) => Err(e),
                Ok((rest, p2)) => Ok((seq![v] + rest, p2)),
            },
        }
    }
}

/// Reads a bounded array of length-prefixed strings, as
/// [`sp_tarray_bytes`] does for raw-byte elements.
pub open spec fn sp_tarray_fstrings(s: Seq<u8>, pos: int, max_elements: int) -> Result<
    (Seq<Seq<char>>, int),
    ParseError,
> {
    match sp_i32(s, pos) {
        Err(e) => Err(e),
        Ok((n, p)) => if n < 0 || n > max_elements {
            Err(ParseError::InvalidArraySize(n))
        } else {
            sp_fstring_elems(s, p, n as int)
        },
    }
}

} // verus!
