//! Property tags: the self-describing header before each property's
//! payload. A tag whose name resolves to the sentinel `"None"` is a
//! terminator: it carries no further fields and ends a property list.

use vstd::prelude::*;
use crate::errors::ParseError;
use crate::fname::{is_none_name, sp_fname, FName, SpFName};
use crate::primitives::{sp_i32, sp_u128, sp_u8};
use crate::property_type_name::{join_underscore, sp_type_name_segs, PropertyTypeName};
use crate::uasset_parser::{same_except_cursor, Parsable, UassetParser};

verus! {

/// The bits of a property tag's flag byte.
pub enum EPropertyTagFlags {
    NoFlags,
    HasArrayIndex,
    HasPropertyGuid,
    HasPropertyExtensions,
    HasBinaryOrNativeSerialize,
    BoolTrue,
    SkippedSerialize,
}

impl EPropertyTagFlags {
    /// The bit this flag occupies in the tag's flag byte.
    pub open spec fn spec_mask(self) -> u8 {
        match self {
            EPropertyTagFlags::NoFlags => 0x00,
            EPropertyTagFlags::HasArrayIndex => 0x01,
            EPropertyTagFlags::HasPropertyGuid => 0x02,
            EPropertyTagFlags::HasPropertyExtensions => 0x04,
            EPropertyTagFlags::HasBinaryOrNativeSerialize => 0x08,
            EPropertyTagFlags::BoolTrue => 0x10,
            EPropertyTagFlags::SkippedSerialize => 0x20,
        }
    }

    /// The bit this flag occupies in the tag's flag byte.
    pub fn mask(&self) -> (r: u8)
        ensures
            r == self.spec_mask(),
    {
        match self {
            EPropertyTagFlags::NoFlags => 0x00,
            EPropertyTagFlags::HasArrayIndex => 0x01,
            EPropertyTagFlags::HasPropertyGuid => 0x02,
            EPropertyTagFlags::HasPropertyExtensions => 0x04,
            EPropertyTagFlags::HasBinaryOrNativeSerialize => 0x08,
            EPropertyTagFlags::BoolTrue => 0x10,
            EPropertyTagFlags::SkippedSerialize => 0x20,
        }
    }
}

/// A decoded property tag. For a terminator (name resolved to `"None"`)
/// every other field holds its default.
pub struct PropertyTag {
    pub name: FName,
    pub ty_name: PropertyTypeName,
    pub size: i32,
    pub flags: u8,
    pub array_index: i32,
    pub guid: u128,
}

/// Mathematical model of a [`PropertyTag`].
pub struct SpPropertyTag {
    pub name: SpFName,
    pub ty_name: Seq<char>,
    pub size: i32,
    pub flags: u8,
    pub array_index: i32,
    pub guid: u128,
}

impl View for PropertyTag {
    type V = SpPropertyTag;

    open spec fn view(&self) -> SpPropertyTag {
        SpPropertyTag {
            name: self.name@,
            ty_name: self.ty_name@,
            size: self.size,
            flags: self.flags,
            array_index: self.array_index,
            guid: self.guid,
        }
    }
}

/// The terminator tag for the given name: no type name, zero size and
/// flags, no array index, no GUID.
pub open spec fn sp_terminator_tag(name: SpFName) -> SpPropertyTag {
    SpPropertyTag {
        name,
        ty_name: Seq::empty(),
        size: 0,
        flags: 0,
        array_index: -1i32,
        guid: 0,
    }
}

impl PropertyTag {
    /// The tag a terminator name yields: it carries no further fields.
    pub fn new(name: FName) -> (r: Self)
        ensures
            r@ == sp_terminator_tag(name@),
    {
        PropertyTag {
            name,
            ty_name: PropertyTypeName { name: String::new() },
            size: 0,
            flags: 0,
            array_index: -1,
            guid: 0,
        }
    }
}

/// Reads one property tag: a name reference first; if it resolves to the
/// sentinel the tag is a terminator and nothing further is read.
/// Otherwise: the type name, a signed 32-bit declared payload size, one
/// flag byte, then an array index (only with the array-index flag) and a
/// 128-bit GUID (only with the GUID flag). The extensions flag is not
/// modeled and is rejected outright.
pub open spec fn sp_property_tag(s: Seq<u8>, names: Seq<Seq<char>>, pos: int) -> Result<
    (SpPropertyTag, int),
    ParseError,
> {
    match sp_fname(s, names, pos) {
        Err(e) => Err(e),
        Ok((f, p1)) => if is_none_name(f.value) {
            Ok((sp_terminator_tag(f), p1))
        } else {
            match sp_type_name_segs(s, names, p1, 1) {
                Err(e) => Err(e),
                Ok((segs, p2)) => match sp_i32(s, p2) {
                    Err(e) => Err(e),
                    Ok((size, p3)) => match sp_u8(s, p3) {
                        Err(e) => Err(e),
                        Ok((flags, p4)) => match (if flags & 0x01 != 0 {
                            sp_i32(s, p4)
                        } else {
                            Ok((0i32, p4))
                        }) {
                            Err(e) => Err(e),
                            Ok((array_index, p5)) => match (if flags & 0x02 != 0 {
                                sp_u128(s, p5)
                            } else {
                                Ok((0u128, p5))
                            }) {
                                Err(e) => Err(e),
                                Ok((guid, p6)) => if flags & 0x04 != 0 {
                                    Err(ParseError::PropertyExtensionsNotSupported)
                                } else {
                                    Ok(
                                        (
                                            SpPropertyTag {
                                                name: f,
                                                ty_name: join_underscore(segs),
                                                size,
                                                flags,
                                                array_index,
                                                guid,
                                            },
                                            p6,
                                        ),
                                    )
                                },
                            },
                        },
                    },
                },
            }
        },
    }
}

/// Terminator invariant, tag half: a tag whose name resolves to the
/// sentinel carries no type name, size, flags, array index or GUID, and
/// consumes exactly the eight bytes of its name reference.
pub proof fn lemma_terminator_tag(s: Seq<u8>, names: Seq<Seq<char>>, pos: int)
    requires
        match sp_fname(s, names, pos) {
            Ok((f, p1)) => is_none_name(f.value),
            Err(_) => false,
        },
    ensures
        match (sp_fname(s, names, pos), sp_property_tag(s, names, pos)) {
            (Ok((f, p1)), Ok((t, p2))) => t == sp_terminator_tag(f) && p2 == p1 && p1 == pos + 8
                && t.ty_name.len() == 0 && t.size == 0 && t.flags == 0 && t.array_index == -1
                && t.guid == 0,
            _ => false,
        },
{
}

impl UassetParser {
    /// Decodes one property tag at the cursor.
    pub fn parse_property_tag(&mut self) -> (r: Result<PropertyTag, ParseError>)
        ensures
            same_except_cursor(*old(self), *final(self)),
            match r {
                Ok(t) => sp_property_tag(
                    old(self).data@,
                    old(self).names_view(),
                    old(self).pos as int,
                ) == Ok::<(SpPropertyTag, int), ParseError>((t@, final(self).pos as int)),
                Err(e) => sp_property_tag(
                    old(self).data@,
                    old(self).names_view(),
                    old(self).pos as int,
                ) == Err::<(SpPropertyTag, int), ParseError>(e),
            },
    {
        let name = match self.parse_fname() {
            Ok(f) => f,
            Err(e) => return Err(e),
        };
        if name.is_none() {
            return Ok(PropertyTag::new(name));
        }
        let ty_name = match self.parse_type_name() {
            Ok(t) => t,
            Err(e) => return Err(e),
        };
        let size = match self.read_i32() {
            Ok(v) => v,
            Err(e) => return Err(e),
        };
        let flags = match self.read_u8() {
            Ok(v) => v,
            Err(e) => return Err(e),
        };
        let array_index: i32 = if flags & 0x01 != 0 {
            match self.read_i32() {
                Ok(v) => v,
                Err(e) => return Err(e),
            }
        } else {
            0
        };
        let guid: u128 = if flags & 0x02 != 0 {
            match self.read_u128() {
                Ok(v) => v,
                Err(e) => return Err(e),
            }
        } else {
            0
        };
        if flags & 0x04 != 0 {
            return Err(ParseError::PropertyExtensionsNotSupported);
        }
        Ok(PropertyTag { name, ty_name, size, flags, array_index, guid })
    }
}

impl Parsable<PropertyTag> for UassetParser {
    fn parse(&mut self) -> Result<PropertyTag, ParseError> {
        self.parse_property_tag()
    }
}

} // verus!
