//! Name references: an index into the deduplicated name table plus a
//! numeric disambiguating suffix, resolved against the table when the
//! reference is decoded. An out-of-range index resolves to the sentinel
//! string `"None"` rather than failing; property-list consumers rely on
//! that sentinel to detect terminator tags.

use vstd::prelude::*;
use crate::errors::ParseError;
use crate::primitives::sp_i32;
use crate::uasset_parser::{same_except_cursor, Parsable, UassetParser};

verus! {

/// A decoded name reference: table index, numeric suffix, and the string
/// the index resolved to at decode time.
pub struct FName {
    pub index: i32,
    pub number: i32,
    value: String,
}

/// Mathematical model of an [`FName`].
pub struct SpFName {
    pub index: i32,
    pub number: i32,
    pub value: Seq<char>,
}

impl View for FName {
    type V = SpFName;

    closed spec fn view(&self) -> SpFName {
        SpFName { index: self.index, number: self.number, value: self.value@ }
    }
}

/// The string a name-table index resolves to: the table entry when the
/// index is in range, the sentinel `"None"` otherwise.
pub open spec fn resolve_name(names: Seq<Seq<char>>, index: i32) -> Seq<char> {
    if 0 <= index && (index as int) < names.len() {
        names[index as int]
    } else {
        "None"@
    }
}

/// True exactly when a resolved name is the terminator sentinel.
pub open spec fn is_none_name(value: Seq<char>) -> bool {
    value == "None"@
}

/// Reads a name reference: two little-endian signed 32-bit integers
/// (index, then suffix); the index is resolved against the name table.
pub open spec fn sp_fname(s: Seq<u8>, names: Seq<Seq<char>>, pos: int) -> Result<
    (SpFName, int),
    ParseError,
> {
    match sp_i32(s, pos) {
        Err(e) => Err(e),
        Ok((index, p1)) => match sp_i32(s, p1) {
            Err(e) => Err(e),
            Ok((number, p2)) => Ok(
                (SpFName { index, number, value: resolve_name(names, index) }, p2),
            ),
        },
    }
}

impl FName {
    /// The string this reference resolved to.
    pub fn as_string(&self) -> (r: String)
        ensures
            r@ == self@.value,
    {
        self.value.clone()
    }

    /// True exactly when this reference resolved to the sentinel `"None"`,
    /// which marks a terminator tag.
    pub fn is_none(&self) -> (r: bool)
        ensures
            r == is_none_name(self@.value),
    {
        self.value == "None".to_owned()
    }
}

/// Round-trip name resolution: a reference built from an in-range index
/// resolves to exactly the table entry at that index, and any other index
/// resolves to the sentinel `"None"`, which terminator checks accept.
pub proof fn lemma_name_resolution(names: Seq<Seq<char>>, index: i32)
    ensures
        0 <= index && (index as int) < names.len() ==> resolve_name(names, index) == names[index as int],
        !(0 <= index && (index as int) < names.len()) ==> resolve_name(names, index) == "None"@,
        !(0 <= index && (index as int) < names.len()) ==> is_none_name(resolve_name(names, index)),
{
}

impl UassetParser {
    /// Decodes one name reference at the cursor, resolving its index
    /// against the current name table.
    pub fn parse_fname(&mut self) -> (r: Result<FName, ParseError>)
        ensures
            same_except_cursor(*old(self), *final(self)),
            match r {
                Ok(f) => sp_fname(
                    old(self).data@,
                    old(self).names_view(),
                    old(self).pos as int,
                ) == Ok::<(SpFName, int), ParseError>((f@, final(self).pos as int)),
                Err(e) => sp_fname(
                    old(self).data@,
                    old(self).names_view(),
                    old(self).pos as int,
                ) == Err::<(SpFName, int), ParseError>(e),
            },
    {
        let index = match self.read_i32() {
            Ok(v) => v,
            Err(e) => return Err(e),
        };
        let number = match self.read_i32() {
            Ok(v) => v,
            Err(e) => return Err(e),
        };
        let value: String = if 0 <= index && (index as usize) < self.names.len() {
            self.names[index as usize].clone()
        } else {
            "None".to_owned()
        };
        Ok(FName { index, number, value })
    }
}

impl Parsable<FName> for UassetParser {
    fn parse(&mut self) -> Result<FName, ParseError> {
        self.parse_fname()
    }
}

} // verus!
