//! The parsing session: one in-memory byte source, a sequential cursor,
//! and the state shared by every decode layer (name table, export
//! directory, decoded summary). All decoding is strictly sequential: a
//! mis-sized read would silently desynchronize everything after it, so
//! every reader's contract pins the exact cursor movement.

use vstd::prelude::*;
use crate::errors::ParseError;
use crate::export_entry::{deep_entries, sp_export_entry, ExportEntry, SpExportEntry};
use crate::uasset_summary::{sp_package_summary, SpSummary};
use crate::primitives::{
    deep_bytes, deep_strings, le_read_u128, le_read_u16, le_read_u32, le_read_u64, sp_bytes,
    sp_bytes_elems, sp_fstring, sp_fstring_elems, sp_i32, sp_i64, sp_skip, sp_tarray_bytes,
    sp_tarray_fstrings, sp_u128, sp_u16, sp_u32, sp_u64, sp_u8, string_from_utf16,
    string_from_utf8, u32_to_i32, u64_to_i64,
};
use crate::uasset_summary::UassetSummary;
use vstd::bytes::spec_u16_from_le_bytes;

verus! {

/// Offsets read from a summary must lie inside this sane bound (64 MiB)
/// before they are trusted.
pub const MAX_SANE_FILE_OFFSET: i64 = 67108864;

/// Oldest engine release whose packages are supported: major version.
pub const MIN_SUPPORTED_ENGINE_MAJOR: u16 = 4;

/// Oldest engine release whose packages are supported: minor version
/// within [`MIN_SUPPORTED_ENGINE_MAJOR`].
pub const MIN_SUPPORTED_ENGINE_MINOR: u16 = 27;

/// A decoding session over one complete package held in memory.
pub struct UassetParser {
    /// The package bytes.
    pub data: Vec<u8>,
    /// The cursor: index of the next byte to read.
    pub pos: usize,
    /// The decoded summary, once parsed.
    pub summary: Option<UassetSummary>,
    /// Whether an engine version of zero ("unversioned asset") is
    /// accepted.
    pub allow_unversioned: bool,
    /// The decoded name table, in file order.
    pub names: Vec<String>,
    /// The decoded export directory, in file order.
    pub entries: Vec<ExportEntry>,
}

/// A value of type `T` can be decoded at the session's cursor.
///
/// The trait method carries no contract of its own: each implementation
/// forwards to a named `parse_*` method on [`UassetParser`], and those
/// methods carry the verified contracts. Callers that need the
/// guarantees call the named methods directly.
pub trait Parsable<T> {
    /// Decodes one `T` at the cursor, advancing past it.
    fn parse(&mut self) -> Result<T, ParseError>;
}

/// True when two session states differ at most in the cursor: the byte
/// source and all decoded state are identical.
pub open spec fn same_except_cursor(a: UassetParser, b: UassetParser) -> bool {
    a.data == b.data && a.spec_summary() == b.spec_summary() && a.allow_unversioned
        == b.allow_unversioned && a.names == b.names && a.entries == b.entries
}

/// Validates an offset field read from the summary.
pub open spec fn sp_check_file_offset(offset: i64) -> Result<(), ParseError> {
    if 0 <= offset && offset <= MAX_SANE_FILE_OFFSET {
        Ok(())
    } else {
        Err(ParseError::InvalidFileOffset(offset))
    }
}

/// Validates the summary's compression flags against the known mask.
pub open spec fn sp_check_compression_flags(flags: u32) -> Result<(), ParseError> {
    if flags & 0xFF == flags {
        Ok(())
    } else {
        Err(ParseError::InvalidCompressionFlags)
    }
}

/// Validates the saving engine release: zero is "unversioned" and is
/// accepted only when the session allows it; anything else must be at
/// least the minimum supported release.
pub open spec fn sp_check_asset_version(
    allow_unversioned: bool,
    major: u16,
    minor: u16,
) -> Result<(), ParseError> {
    if major == 0 {
        if !allow_unversioned {
            Err(ParseError::UnversionedAssetNotAllowed)
        } else {
            Ok(())
        }
    } else if major < MIN_SUPPORTED_ENGINE_MAJOR || (major == MIN_SUPPORTED_ENGINE_MAJOR
        && minor < MIN_SUPPORTED_ENGINE_MINOR) {
        Err(ParseError::AssetVersionTooOld { major, minor })
    } else {
        Ok(())
    }
}

/// Reads `count` name-table entries: each a length-prefixed string
/// followed by a four-byte precalculated hash that is read and discarded.
pub open spec fn sp_name_entries(s: Seq<u8>, pos: int, count: int) -> Result<
    (Seq<Seq<char>>, int),
    ParseError,
>
    decreases count,
{
    if count <= 0 {
        Ok((Seq::empty(), pos))
    } else {
        match sp_fstring(s, pos) {
            Err(e) => Err(e),
            Ok((name, p1)) => match sp_skip(s, p1, 4) {
                Err(e) => Err(e),
                Ok(p2) => match sp_name_entries(s, p2, count - 1) {
                    Err(e) => Err(e),
                    Ok((rest, p3)) => Ok((seq![name] + rest, p3)),
                },
            },
        }
    }
}

/// Seeks to the summary's name-table offset and reads exactly
/// `name_count` entries. The declared count is untrusted: a negative
/// value is rejected rather than decoded as an empty table.
pub open spec fn sp_names(s: Seq<u8>, name_offset: i32, name_count: i32) -> Result<
    (Seq<Seq<char>>, int),
    ParseError,
> {
    if name_count < 0 {
        Err(ParseError::InvalidArraySize(name_count))
    } else if 0 <= name_offset && name_offset <= s.len() {
        sp_name_entries(s, name_offset as int, name_count as int)
    } else {
        Err(ParseError::Eof)
    }
}

/// Reads `count` export records in file order.
pub open spec fn sp_entries(
    s: Seq<u8>,
    names: Seq<Seq<char>>,
    ue5: i32,
    pos: int,
    count: int,
) -> Result<(Seq<SpExportEntry>, int), ParseError>
    decreases count,
{
    if count <= 0 {
        Ok((Seq::empty(), pos))
    } else {
        match sp_export_entry(s, names, ue5, pos) {
            Err(e) => Err(e),
            Ok((en, p1)) => match sp_entries(s, names, ue5, p1, count - 1) {
                Err(e) => Err(e),
                Ok((rest, p2)) => Ok((seq![en] + rest, p2)),
            },
        }
    }
}

/// Seeks to the summary's export-directory offset and reads exactly
/// `export_count` records. The declared count is untrusted: a negative
/// value is rejected rather than decoded as an empty directory.
pub open spec fn sp_export_table(
    s: Seq<u8>,
    names: Seq<Seq<char>>,
    ue5: i32,
    export_offset: i32,
    export_count: i32,
) -> Result<(Seq<SpExportEntry>, int), ParseError> {
    if export_count < 0 {
        Err(ParseError::InvalidArraySize(export_count))
    } else if 0 <= export_offset && export_offset <= s.len() {
        sp_entries(s, names, ue5, export_offset as int, export_count as int)
    } else {
        Err(ParseError::Eof)
    }
}

/// Decodes a whole asset: the summary from the file start, then the name
/// table at the summary's name offset, then the export directory at the
/// summary's export offset.
pub open spec fn sp_parse_asset(s: Seq<u8>, allow_unversioned: bool) -> Result<
    (SpSummary, Seq<Seq<char>>, Seq<SpExportEntry>),
    ParseError,
> {
    match sp_package_summary(s, allow_unversioned) {
        Err(e) => Err(e),
        Ok((sum, _p)) => match sp_names(s, sum.name_offset, sum.name_count) {
            Err(e) => Err(e),
            Ok((names, _pn)) => match sp_export_table(
                s,
                names,
                sum.file_version_ue5,
                sum.export_offset,
                sum.export_count,
            ) {
                Err(e) => Err(e),
                Ok((entries, _pe)) => Ok((sum, names, entries)),
            },
        },
    }
}

impl UassetParser {
    /// The decoded summary, if the summary has been parsed.
    pub open spec fn spec_summary(&self) -> Option<UassetSummary> {
        self.summary
    }

    /// The name table as a sequence of character sequences.
    pub open spec fn names_view(&self) -> Seq<Seq<char>> {
        deep_strings(self.names)
    }

    /// Starts a session over the given package bytes, with the cursor at
    /// the start, nothing decoded yet, and unversioned assets allowed.
    pub fn new(data: Vec<u8>) -> (r: Self)
        ensures
            r.data == data,
            r.pos == 0,
            r.spec_summary() is None,
            r.allow_unversioned,
            r.names@ == Seq::<String>::empty(),
            r.entries@ == Seq::<ExportEntry>::empty(),
    {
        UassetParser {
            data,
            pos: 0,
            summary: None,
            allow_unversioned: true,
            names: Vec::new(),
            entries: Vec::new(),
        }
    }

    /// Decodes one value of the requested type at the cursor.
    ///
    /// This generic entry point is uncontracted convenience; the named
    /// `parse_*` methods it dispatches to state what is decoded.
    pub fn read<T>(&mut self) -> Result<T, ParseError> where Self: Parsable<T> {
        self.parse()
    }

    /// The decoded summary; the summary must have been parsed.
    pub fn get_summary(&self) -> (r: &UassetSummary)
        requires
            self.spec_summary() is Some,
        ensures
            Some(*r) == self.spec_summary(),
    {
        self.summary.as_ref().unwrap()
    }

    /// Moves the cursor to an absolute position inside the byte source.
    pub fn seek(&mut self, to: usize) -> (r: Result<(), ParseError>)
        ensures
            same_except_cursor(*old(self), *final(self)),
            match r {
                Ok(_) => to <= old(self).data@.len() && final(self).pos == to,
                Err(e) => to > old(self).data@.len() && e == ParseError::Eof && final(self).pos
                    == old(self).pos,
            },
    {
        if to <= self.data.len() {
            self.pos = to;
            Ok(())
        } else {
            Err(ParseError::Eof)
        }
    }

    /// Advances the cursor by a signed byte delta without reading.
    pub fn skip_bytes(&mut self, n: i64) -> (r: Result<(), ParseError>)
        ensures
            same_except_cursor(*old(self), *final(self)),
            match r {
                Ok(_) => sp_skip(old(self).data@, old(self).pos as int, n as int)
                    == Ok::<int, ParseError>(final(self).pos as int),
                Err(e) => sp_skip(old(self).data@, old(self).pos as int, n as int)
                    == Err::<int, ParseError>(e) && final(self).pos == old(self).pos,
            },
    {
        let np: i128 = self.pos as i128 + n as i128;
        if 0 <= np && np <= self.data.len() as i128 {
            self.pos = np as usize;
            Ok(())
        } else {
            Err(ParseError::Eof)
        }
    }

    /// Reads one byte.
    pub fn read_u8(&mut self) -> (r: Result<u8, ParseError>)
        ensures
            same_except_cursor(*old(self), *final(self)),
            match r {
                Ok(v) => sp_u8(old(self).data@, old(self).pos as int) == Ok::<
                    (u8, int),
                    ParseError,
                >((v, final(self).pos as int)),
                Err(e) => sp_u8(old(self).data@, old(self).pos as int) == Err::<
                    (u8, int),
                    ParseError,
                >(e) && final(self).pos == old(self).pos,
            },
    {
        if self.pos < self.data.len() {
            let b = self.data[self.pos];
            self.pos = self.pos + 1;
            Ok(b)
        } else {
            Err(ParseError::Eof)
        }
    }

    /// Reads a little-endian unsigned 16-bit integer.
    pub fn read_u16(&mut self) -> (r: Result<u16, ParseError>)
        ensures
            same_except_cursor(*old(self), *final(self)),
            match r {
                Ok(v) => sp_u16(old(self).data@, old(self).pos as int) == Ok::<
                    (u16, int),
                    ParseError,
                >((v, final(self).pos as int)),
                Err(e) => sp_u16(old(self).data@, old(self).pos as int) == Err::<
                    (u16, int),
                    ParseError,
                >(e) && final(self).pos == old(self).pos,
            },
    {
        if self.data.len() >= 2 && self.pos <= self.data.len() - 2 {
            let v = le_read_u16(&self.data, self.pos);
            self.pos = self.pos + 2;
            Ok(v)
        } else {
            Err(ParseError::Eof)
        }
    }

    /// Reads a little-endian unsigned 32-bit integer.
    pub fn read_u32(&mut self) -> (r: Result<u32, ParseError>)
        ensures
            same_except_cursor(*old(self), *final(self)),
            match r {
                Ok(v) => sp_u32(old(self).data@, old(self).pos as int) == Ok::<
                    (u32, int),
                    ParseError,
                >((v, final(self).pos as int)),
                Err(e) => sp_u32(old(self).data@, old(self).pos as int) == Err::<
                    (u32, int),
                    ParseError,
                >(e) && final(self).pos == old(self).pos,
            },
    {
        if self.data.len() >= 4 && self.pos <= self.data.len() - 4 {
            let v = le_read_u32(&self.data, self.pos);
            self.pos = self.pos + 4;
            Ok(v)
        } else {
            Err(ParseError::Eof)
        }
    }

    /// Reads a little-endian signed 32-bit integer.
    pub fn read_i32(&mut self) -> (r: Result<i32, ParseError>)
        ensures
            same_except_cursor(*old(self), *final(self)),
            match r {
                Ok(v) => sp_i32(old(self).data@, old(self).pos as int) == Ok::<
                    (i32, int),
                    ParseError,
                >((v, final(self).pos as int)),
                Err(e) => sp_i32(old(self).data@, old(self).pos as int) == Err::<
                    (i32, int),
                    ParseError,
                >(e) && final(self).pos == old(self).pos,
            },
    {
        match self.read_u32() {
            Ok(u) => Ok(u32_to_i32(u)),
            Err(e) => Err(e),
        }
    }

    /// Reads a little-endian unsigned 64-bit integer.
    pub fn read_u64(&mut self) -> (r: Result<u64, ParseError>)
        ensures
            same_except_cursor(*old(self), *final(self)),
            match r {
                Ok(v) => sp_u64(old(self).data@, old(self).pos as int) == Ok::<
                    (u64, int),
                    ParseError,
                >((v, final(self).pos as int)),
                Err(e) => sp_u64(old(self).data@, old(self).pos as int) == Err::<
                    (u64, int),
                    ParseError,
                >(e) && final(self).pos == old(self).pos,
            },
    {
        if self.data.len() >= 8 && self.pos <= self.data.len() - 8 {
            let v = le_read_u64(&self.data, self.pos);
            self.pos = self.pos + 8;
            Ok(v)
        } else {
            Err(ParseError::Eof)
        }
    }

    /// Reads a little-endian signed 64-bit integer.
    pub fn read_i64(&mut self) -> (r: Result<i64, ParseError>)
        ensures
            same_except_cursor(*old(self), *final(self)),
            match r {
                Ok(v) => sp_i64(old(self).data@, old(self).pos as int) == Ok::<
                    (i64, int),
                    ParseError,
                >((v, final(self).pos as int)),
                Err(e) => sp_i64(old(self).data@, old(self).pos as int) == Err::<
                    (i64, int),
                    ParseError,
                >(e) && final(self).pos == old(self).pos,
            },
    {
        match self.read_u64() {
            Ok(u) => Ok(u64_to_i64(u)),
            Err(e) => Err(e),
        }
    }

    /// Reads a little-endian unsigned 128-bit integer.
    pub fn read_u128(&mut self) -> (r: Result<u128, ParseError>)
        ensures
            same_except_cursor(*old(self), *final(self)),
            match r {
                Ok(v) => sp_u128(old(self).data@, old(self).pos as int) == Ok::<
                    (u128, int),
                    ParseError,
                >((v, final(self).pos as int)),
                Err(e) => sp_u128(old(self).data@, old(self).pos as int) == Err::<
                    (u128, int),
                    ParseError,
                >(e) && final(self).pos == old(self).pos,
            },
    {
        if self.data.len() >= 16 && self.pos <= self.data.len() - 16 {
            let v = le_read_u128(&self.data, self.pos);
            self.pos = self.pos + 16;
            Ok(v)
        } else {
            Err(ParseError::Eof)
        }
    }

    /// Reads `n` raw bytes.
    pub fn read_bytes(&mut self, n: usize) -> (r: Result<Vec<u8>, ParseError>)
        ensures
            same_except_cursor(*old(self), *final(self)),
            match r {
                Ok(v) => sp_bytes(old(self).data@, old(self).pos as int, n as int) == Ok::<
                    (Seq<u8>, int),
                    ParseError,
                >((v@, final(self).pos as int)),
                Err(e) => sp_bytes(old(self).data@, old(self).pos as int, n as int) == Err::<
                    (Seq<u8>, int),
                    ParseError,
                >(e) && final(self).pos == old(self).pos,
            },
    {
        if self.data.len() >= n && self.pos <= self.data.len() - n {
            let mut out: Vec<u8> = Vec::new();
            let mut i: usize = 0;
            while i < n
                invariant
                    i <= n,
                    self.pos + n <= self.data.len(),
                    out@ =~= self.data@.subrange(self.pos as int, self.pos as int + i as int),
                decreases n - i,
            {
                out.push(self.data[self.pos + i]);
                i = i + 1;
            }
            proof {
                assert(out@ =~= self.data@.subrange(self.pos as int, self.pos as int + n as int));
            }
            self.pos = self.pos + n;
            Ok(out)
        } else {
            Err(ParseError::Eof)
        }
    }

    /// Validates an offset field read from the summary against the sane
    /// bound.
    pub fn check_file_offset(&self, offset: i64) -> (r: Result<(), ParseError>)
        ensures
            r == sp_check_file_offset(offset),
    {
        if offset < 0 || offset > MAX_SANE_FILE_OFFSET {
            Err(ParseError::InvalidFileOffset(offset))
        } else {
            Ok(())
        }
    }

    /// Validates compression flags against the known flag mask.
    pub fn check_compression_flags(&self, flags: u32) -> (r: Result<(), ParseError>)
        ensures
            r == sp_check_compression_flags(flags),
    {
        if flags & 0xFF == flags {
            Ok(())
        } else {
            Err(ParseError::InvalidCompressionFlags)
        }
    }

    /// Validates the saving engine release against the session's version
    /// policy.
    pub fn check_asset_version(&self, major: u16, minor: u16, _patch: u16) -> (r: Result<
        (),
        ParseError,
    >)
        ensures
            r == sp_check_asset_version(self.allow_unversioned, major, minor),
    {
        if major == 0 {
            if !self.allow_unversioned {
                return Err(ParseError::UnversionedAssetNotAllowed);
            }
        } else if major < MIN_SUPPORTED_ENGINE_MAJOR || (major == MIN_SUPPORTED_ENGINE_MAJOR
            && minor < MIN_SUPPORTED_ENGINE_MINOR) {
            return Err(ParseError::AssetVersionTooOld { major, minor });
        }
        Ok(())
    }

    /// Reads a length-prefixed string: positive length means UTF-8 bytes
    /// with a trailing null, negative means UTF-16LE code units with a
    /// trailing null unit, zero means the empty string.
    #[verifier::loop_isolation(false)]
    pub fn read_fstring(&mut self) -> (r: Result<String, ParseError>)
        ensures
            same_except_cursor(*old(self), *final(self)),
            match r {
                Ok(v) => sp_fstring(old(self).data@, old(self).pos as int) == Ok::<
                    (Seq<char>, int),
                    ParseError,
                >((v@, final(self).pos as int)),
                Err(e) => sp_fstring(old(self).data@, old(self).pos as int) == Err::<
                    (Seq<char>, int),
                    ParseError,
                >(e),
            },
    {
        let ghost s = self.data@;
        let size = match self.read_i32() {
            Ok(v) => v,
            Err(e) => return Err(e),
        };
        let ghost p = self.pos as int;
        if size == 0 {
            return Ok(String::new());
        }
        if size > 0 {
            let body = match self.read_bytes((size - 1) as usize) {
                Ok(b) => b,
                Err(e) => return Err(e),
            };
            match self.skip_bytes(1) {
                Ok(_) => (),
                Err(e) => return Err(e),
            }
            proof {
                assert(body@ =~= s.subrange(p, p + size - 1));
            }
            match string_from_utf8(body) {
                Some(text) => Ok(text),
                None => Err(ParseError::InvalidUtf8),
            }
        } else {
            let m: i64 = -(size as i64);
            let mut units: Vec<u16> = Vec::new();
            let unit_count: usize = (m - 1) as usize;
            let mut i: usize = 0;
            let ghost before_units = *self;
            while i < unit_count
                invariant
                    i <= unit_count,
                    same_except_cursor(before_units, *self),
                    self.data@ == s,
                    self.pos as int == p + 2 * (i as int),
                    p + 2 * (unit_count as int) + 2 <= p + 2 * (m as int),
                    units@ =~= Seq::new(
                        i as nat,
                        |k: int| spec_u16_from_le_bytes(s.subrange(p + 2 * k, p + 2 * k + 2)),
                    ),
                decreases unit_count - i,
            {
                let u = match self.read_u16() {
                    Ok(u) => u,
                    Err(e) => {
                        proof {
                            assert(p + 2 * (m as int) > s.len());
                        }
                        return Err(e);
                    },
                };
                units.push(u);
                i = i + 1;
                proof {
                    assert(units@ =~= Seq::new(
                        i as nat,
                        |k: int| spec_u16_from_le_bytes(s.subrange(p + 2 * k, p + 2 * k + 2)),
                    ));
                }
            }
            match self.skip_bytes(2) {
                Ok(_) => (),
                Err(e) => {
                    proof {
                        assert(p + 2 * (m as int) > s.len());
                    }
                    return Err(e);
                },
            }
            proof {
                let subb = s.subrange(p, p + 2 * (m as int) - 2);
                assert forall|k: int| 0 <= k < (m as int) - 1 implies crate::primitives::le_u16_seq(
                    subb,
                )[k] == units@[k] by {
                    assert(subb.subrange(2 * k, 2 * k + 2) =~= s.subrange(p + 2 * k, p + 2 * k + 2));
                }
                assert(crate::primitives::le_u16_seq(subb) =~= units@);
            }
            match string_from_utf16(&units) {
                Some(text) => Ok(text),
                None => Err(ParseError::InvalidUtf16),
            }
        }
    }

    /// Reads a bounded array of fixed-size raw-byte records: a signed
    /// 32-bit count validated against `max_elements` before anything is
    /// allocated or read, then exactly that many records.
    #[verifier::loop_isolation(false)]
    pub fn read_tarray_bytes(&mut self, elem_size: usize, max_elements: u64) -> (r: Result<
        Vec<Vec<u8>>,
        ParseError,
    >)
        ensures
            same_except_cursor(*old(self), *final(self)),
            match r {
                Ok(v) => sp_tarray_bytes(
                    old(self).data@,
                    old(self).pos as int,
                    elem_size as int,
                    max_elements as int,
                ) == Ok::<(Seq<Seq<u8>>, int), ParseError>((deep_bytes(v), final(self).pos as int)),
                Err(e) => sp_tarray_bytes(
                    old(self).data@,
                    old(self).pos as int,
                    elem_size as int,
                    max_elements as int,
                ) == Err::<(Seq<Seq<u8>>, int), ParseError>(e),
            },
            (r matches Err(ParseError::InvalidArraySize(k))) ==> final(self).pos == old(self).pos
                + 4,
    {
        let ghost s = self.data@;
        let n = match self.read_i32() {
            Ok(v) => v,
            Err(e) => return Err(e),
        };
        if n < 0 || (n as u64) > max_elements {
            return Err(ParseError::InvalidArraySize(n));
        }
        let count = n as usize;
        let ghost p_start = self.pos as int;
        let ghost after_count = *self;
        let mut out: Vec<Vec<u8>> = Vec::new();
        let mut i: usize = 0;
        while i < count
            invariant
                i <= count,
                same_except_cursor(after_count, *self),
                self.data@ == s,
                out@.len() == i,
                (match sp_bytes_elems(
                    s,
                    self.pos as int,
                    elem_size as int,
                    count as int - i as int,
                ) {
                    Ok((rest, pf)) => sp_bytes_elems(s, p_start, elem_size as int, count as int)
                        == Ok::<(Seq<Seq<u8>>, int), ParseError>((deep_bytes(out) + rest, pf)),
                    Err(e) => sp_bytes_elems(s, p_start, elem_size as int, count as int) == Err::<
                        (Seq<Seq<u8>>, int),
                        ParseError,
                    >(e),
                }),
            decreases count - i,
        {
            let ghost out_before = out;
            let b = match self.read_bytes(elem_size) {
                Ok(b) => b,
                Err(e) => return Err(e),
            };
            out.push(b);
            i = i + 1;
            proof {
                assert(deep_bytes(out) =~= deep_bytes(out_before).push(out@[i as int - 1]@));
                if let Ok((rest, pf)) = sp_bytes_elems(
                    s,
                    self.pos as int,
                    elem_size as int,
                    count as int - i as int,
                ) {
                    assert(deep_bytes(out) + rest =~= deep_bytes(out_before) + (seq![
                        out@[i as int - 1]@,
                    ] + rest));
                }
            }
        }
        proof {
            assert(deep_bytes(out) + Seq::<Seq<u8>>::empty() =~= deep_bytes(out));
        }
        Ok(out)
    }

    /// Reads a bounded array of length-prefixed strings, validating the
    /// count as [`Self::read_tarray_bytes`] does.
    #[verifier::loop_isolation(false)]
    pub fn read_tarray_fstrings(&mut self, max_elements: u64) -> (r: Result<
        Vec<String>,
        ParseError,
    >)
        ensures
            same_except_cursor(*old(self), *final(self)),
            match r {
                Ok(v) => sp_tarray_fstrings(
                    old(self).data@,
                    old(self).pos as int,
                    max_elements as int,
                ) == Ok::<(Seq<Seq<char>>, int), ParseError>(
                    (deep_strings(v), final(self).pos as int),
                ),
                Err(e) => sp_tarray_fstrings(
                    old(self).data@,
                    old(self).pos as int,
                    max_elements as int,
                ) == Err::<(Seq<Seq<char>>, int), ParseError>(e),
            },
            (r matches Err(ParseError::InvalidArraySize(k))) ==> final(self).pos == old(self).pos
                + 4,
    {
        let ghost s = self.data@;
        let n = match self.read_i32() {
            Ok(v) => v,
            Err(e) => return Err(e),
        };
        if n < 0 || (n as u64) > max_elements {
            return Err(ParseError::InvalidArraySize(n));
        }
        let count = n as usize;
        let ghost p_start = self.pos as int;
        let ghost after_count = *self;
        let mut out: Vec<String> = Vec::new();
        let mut i: usize = 0;
        while i < count
            invariant
                i <= count,
                same_except_cursor(after_count, *self),
                self.data@ == s,
                out@.len() == i,
                (match sp_fstring_elems(s, self.pos as int, count as int - i as int) {
                    Ok((rest, pf)) => sp_fstring_elems(s, p_start, count as int) == Ok::<
                        (Seq<Seq<char>>, int),
                        ParseError,
                    >((deep_strings(out) + rest, pf)),
                    Err(e) => sp_fstring_elems(s, p_start, count as int) == Err::<
                        (Seq<Seq<char>>, int),
                        ParseError,
                    >(e),
                }),
            decreases count - i,
        {
            let ghost out_before = out;
            let v = match self.read_fstring() {
                Ok(v) => v,
                Err(e) => return Err(e),
            };
            out.push(v);
            i = i + 1;
            proof {
                assert(deep_strings(out) =~= deep_strings(out_before).push(out@[i as int - 1]@));
                if let Ok((rest, pf)) = sp_fstring_elems(
                    s,
                    self.pos as int,
                    count as int - i as int,
                ) {
                    assert(deep_strings(out) + rest =~= deep_strings(out_before) + (seq![
                        out@[i as int - 1]@,
                    ] + rest));
                }
            }
        }
        proof {
            assert(deep_strings(out) + Seq::<Seq<char>>::empty() =~= deep_strings(out));
        }
        Ok(out)
    }

    /// Decodes the name table: seeks to the summary's name offset and
    /// reads exactly its name count of entries.
    #[verifier::loop_isolation(false)]
    fn parse_names(&mut self) -> (r: Result<Vec<String>, ParseError>)
        requires
            old(self).spec_summary() is Some,
        ensures
            same_except_cursor(*old(self), *final(self)),
            match (r, old(self).spec_summary()) {
                (Ok(v), Some(sum)) => sp_names(old(self).data@, sum.name_offset, sum.name_count)
                    == Ok::<(Seq<Seq<char>>, int), ParseError>(
                    (deep_strings(v), final(self).pos as int),
                ),
                (Err(e), Some(sum)) => sp_names(old(self).data@, sum.name_offset, sum.name_count)
                    == Err::<(Seq<Seq<char>>, int), ParseError>(e),
                _ => false,
            },
    {
        let ghost s = self.data@;
        let offset = self.get_summary().name_offset;
        let count = self.get_summary().name_count;
        if count < 0 {
            return Err(ParseError::InvalidArraySize(count));
        }
        if offset < 0 {
            return Err(ParseError::Eof);
        }
        match self.seek(offset as usize) {
            Ok(_) => (),
            Err(e) => return Err(e),
        }
        let ghost p_start = self.pos as int;
        let mut names: Vec<String> = Vec::new();
        let mut remaining = count;
        while remaining > 0
            invariant
                same_except_cursor(*old(self), *self),
                remaining <= count,
                (match sp_name_entries(s, self.pos as int, remaining as int) {
                    Ok((rest, p)) => sp_name_entries(s, p_start, count as int) == Ok::<
                        (Seq<Seq<char>>, int),
                        ParseError,
                    >((deep_strings(names) + rest, p)),
                    Err(e) => sp_name_entries(s, p_start, count as int) == Err::<
                        (Seq<Seq<char>>, int),
                        ParseError,
                    >(e),
                }),
            decreases remaining,
        {
            let ghost names_before = names;
            let name = match self.read_fstring() {
                Ok(v) => v,
                Err(e) => return Err(e),
            };
            match self.skip_bytes(4) {
                Ok(_) => (),
                Err(e) => return Err(e),
            }
            names.push(name);
            remaining = remaining - 1;
            proof {
                assert(deep_strings(names) =~= deep_strings(names_before).push(
                    names@[names@.len() - 1]@,
                ));
                if let Ok((rest, p)) = sp_name_entries(s, self.pos as int, remaining as int) {
                    assert(deep_strings(names) + rest =~= deep_strings(names_before) + (seq![
                        names@[names@.len() - 1]@,
                    ] + rest));
                }
            }
        }
        proof {
            assert(deep_strings(names) + Seq::<Seq<char>>::empty() =~= deep_strings(names));
        }
        Ok(names)
    }

    /// Decodes the export directory: seeks to the summary's export
    /// offset and reads exactly its export count of records.
    #[verifier::loop_isolation(false)]
    fn parse_entries(&mut self) -> (r: Result<Vec<ExportEntry>, ParseError>)
        requires
            old(self).spec_summary() is Some,
        ensures
            same_except_cursor(*old(self), *final(self)),
            match (r, old(self).spec_summary()) {
                (Ok(v), Some(sum)) => sp_export_table(
                    old(self).data@,
                    old(self).names_view(),
                    sum.file_version_ue5,
                    sum.export_offset,
                    sum.export_count,
                ) == Ok::<(Seq<SpExportEntry>, int), ParseError>(
                    (deep_entries(v), final(self).pos as int),
                ),
                (Err(e), Some(sum)) => sp_export_table(
                    old(self).data@,
                    old(self).names_view(),
                    sum.file_version_ue5,
                    sum.export_offset,
                    sum.export_count,
                ) == Err::<(Seq<SpExportEntry>, int), ParseError>(e),
                _ => false,
            },
    {
        let ghost s = self.data@;
        let ghost names = self.names_view();
        let ue5 = self.get_summary().file_version_ue5;
        let offset = self.get_summary().export_offset;
        let count = self.get_summary().export_count;
        if count < 0 {
            return Err(ParseError::InvalidArraySize(count));
        }
        if offset < 0 {
            return Err(ParseError::Eof);
        }
        match self.seek(offset as usize) {
            Ok(_) => (),
            Err(e) => return Err(e),
        }
        let ghost p_start = self.pos as int;
        let mut entries: Vec<ExportEntry> = Vec::new();
        let mut remaining = count;
        while remaining > 0
            invariant
                same_except_cursor(*old(self), *self),
                remaining <= count,
                (match sp_entries(s, names, ue5, self.pos as int, remaining as int) {
                    Ok((rest, p)) => sp_entries(s, names, ue5, p_start, count as int) == Ok::<
                        (Seq<SpExportEntry>, int),
                        ParseError,
                    >((deep_entries(entries) + rest, p)),
                    Err(e) => sp_entries(s, names, ue5, p_start, count as int) == Err::<
                        (Seq<SpExportEntry>, int),
                        ParseError,
                    >(e),
                }),
            decreases remaining,
        {
            let ghost entries_before = entries;
            let entry = match self.parse_export_entry() {
                Ok(v) => v,
                Err(e) => return Err(e),
            };
            entries.push(entry);
            remaining = remaining - 1;
            proof {
                assert(deep_entries(entries) =~= deep_entries(entries_before).push(
                    entries@[entries@.len() - 1]@,
                ));
                if let Ok((rest, p)) = sp_entries(s, names, ue5, self.pos as int, remaining as int) {
                    assert(deep_entries(entries) + rest =~= deep_entries(entries_before) + (seq![
                        entries@[entries@.len() - 1]@,
                    ] + rest));
                }
            }
        }
        proof {
            assert(deep_entries(entries) + Seq::<SpExportEntry>::empty() =~= deep_entries(entries));
        }
        Ok(entries)
    }

    /// Decodes a whole asset in order: summary, name table, export
    /// directory. On success the session holds all three; the first
    /// failure aborts the decode and is returned unchanged, and the
    /// session then holds no decoded state at all — no partial summary
    /// is usable.
    pub fn parse_asset(&mut self) -> (r: Result<(), ParseError>)
        ensures
            final(self).data == old(self).data,
            final(self).allow_unversioned == old(self).allow_unversioned,
            match r {
                Ok(_) => (match sp_parse_asset(old(self).data@, old(self).allow_unversioned) {
                    Ok((sum, names, entries)) => (match final(self).spec_summary() {
                        Some(fs) => fs@ == sum,
                        None => false,
                    }) && final(self).names_view() == names && deep_entries(final(self).entries)
                        == entries,
                    Err(_) => false,
                }),
                Err(e) => sp_parse_asset(old(self).data@, old(self).allow_unversioned) == Err::<
                    (SpSummary, Seq<Seq<char>>, Seq<SpExportEntry>),
                    ParseError,
                >(e) && final(self).spec_summary() is None && final(self).names@ == Seq::<
                    String,
                >::empty() && final(self).entries@ == Seq::<ExportEntry>::empty(),
            },
    {
        let summary = match self.parse_summary() {
            Ok(s) => s,
            Err(e) => {
                self.clear_decoded_state();
                return Err(e);
            },
        };
        self.summary = Some(summary);
        let names = match self.parse_names() {
            Ok(n) => n,
            Err(e) => {
                self.clear_decoded_state();
                return Err(e);
            },
        };
        self.names = names;
        let entries = match self.parse_entries() {
            Ok(v) => v,
            Err(e) => {
                self.clear_decoded_state();
                return Err(e);
            },
        };
        self.entries = entries;
        Ok(())
    }

    /// Drops every decoded table so a failed decode leaves nothing
    /// partial behind.
    fn clear_decoded_state(&mut self)
        ensures
            final(self).data == old(self).data,
            final(self).pos == old(self).pos,
            final(self).allow_unversioned == old(self).allow_unversioned,
            final(self).spec_summary() is None,
            final(self).names@ == Seq::<String>::empty(),
            final(self).entries@ == Seq::<ExportEntry>::empty(),
    {
        self.summary = None;
        self.names = Vec::new();
        self.entries = Vec::new();
    }
}

} // verus!
