//! Decoded property payloads. Only string-like values are interpreted: a
//! `StrProperty` payload is one length-prefixed string and a
//! `NameProperty` payload is one name reference. Every other type is
//! skipped by exactly the tag's declared size, which keeps the cursor
//! aligned without understanding the payload.

use vstd::prelude::*;
use crate::errors::ParseError;
use crate::fname::{is_none_name, sp_fname};
use crate::primitives::{sp_fstring, sp_skip};
use crate::property_tag::{sp_property_tag, PropertyTag, SpPropertyTag};
use crate::property_type_name::lemma_type_name_segs_bounds;
use crate::uasset_parser::{same_except_cursor, Parsable, UassetParser};

verus! {

/// A decoded property value: a string-like value, or the marker for a
/// payload that was skipped rather than interpreted.
pub enum PropertyValue {
    StrProperty(String),
    Undefined,
}

/// Mathematical model of a [`PropertyValue`].
pub enum SpPropertyValue {
    StrProperty(Seq<char>),
    Undefined,
}

impl View for PropertyValue {
    type V = SpPropertyValue;

    open spec fn view(&self) -> SpPropertyValue {
        match self {
            PropertyValue::StrProperty(s) => SpPropertyValue::StrProperty(s@),
            PropertyValue::Undefined => SpPropertyValue::Undefined,
        }
    }
}

/// One decoded property: its tag and its (possibly skipped) value.
pub struct PropertyData {
    pub tag: PropertyTag,
    pub value: PropertyValue,
}

/// Mathematical model of a [`PropertyData`].
pub struct SpPropertyData {
    pub tag: SpPropertyTag,
    pub value: SpPropertyValue,
}

impl View for PropertyData {
    type V = SpPropertyData;

    open spec fn view(&self) -> SpPropertyData {
        SpPropertyData { tag: self.tag@, value: self.value@ }
    }
}

/// The properties held by a vector of decoded properties.
pub open spec fn deep_properties(v: Vec<PropertyData>) -> Seq<SpPropertyData> {
    v@.map_values(|p: PropertyData| p@)
}

/// Reads one property: its tag, then a value decode dispatched on the
/// tag's logical type name. Unrecognized types are not interpreted; the
/// cursor advances by exactly the declared payload size instead. A
/// declared negative payload size is rejected.
pub open spec fn sp_property_data(s: Seq<u8>, names: Seq<Seq<char>>, pos: int) -> Result<
    (SpPropertyData, int),
    ParseError,
> {
    match sp_property_tag(s, names, pos) {
        Err(e) => Err(e),
        Ok((tag, p1)) => if tag.ty_name == "StrProperty"@ {
            match sp_fstring(s, p1) {
                Err(e) => Err(e),
                Ok((v, p2)) => Ok(
                    (SpPropertyData { tag, value: SpPropertyValue::StrProperty(v) }, p2),
                ),
            }
        } else if tag.ty_name == "NameProperty"@ {
            match sp_fname(s, names, p1) {
                Err(e) => Err(e),
                Ok((f, p2)) => Ok(
                    (SpPropertyData { tag, value: SpPropertyValue::StrProperty(f.value) }, p2),
                ),
            }
        } else if tag.size < 0 {
            Err(ParseError::NegativePropertySize(tag.size))
        } else {
            match sp_skip(s, p1, tag.size as int) {
                Err(e) => Err(e),
                Ok(p2) => Ok((SpPropertyData { tag, value: SpPropertyValue::Undefined }, p2)),
            }
        },
    }
}

/// A successfully decoded tag ends inside the byte source, at least eight
/// bytes past where it began.
pub proof fn lemma_property_tag_bounds(s: Seq<u8>, names: Seq<Seq<char>>, pos: int)
    requires
        sp_property_tag(s, names, pos) is Ok,
    ensures
        match sp_property_tag(s, names, pos) {
            Ok((t, p1)) => pos + 8 <= p1 <= s.len(),
            Err(_) => false,
        },
{
    match sp_fname(s, names, pos) {
        Ok((f, pf)) => {
            if !is_none_name(f.value) {
                lemma_type_name_segs_bounds(s, names, pf, 1);
            }
        },
        Err(_) => {
            assert(false);
        },
    }
}

/// A successfully decoded property always advances the cursor and leaves
/// it inside the byte source; a terminator consumes exactly the eight
/// bytes of its name reference.
pub proof fn lemma_property_data_advances(s: Seq<u8>, names: Seq<Seq<char>>, pos: int)
    requires
        sp_property_data(s, names, pos) is Ok,
    ensures
        match sp_property_data(s, names, pos) {
            Ok((pd, p2)) => pos < p2 <= s.len() && (is_none_name(pd.tag.name.value) ==> p2 == pos
                + 8),
            Err(_) => false,
        },
{
    reveal_strlit("StrProperty");
    reveal_strlit("NameProperty");
    assert("StrProperty"@.len() == 11);
    assert("NameProperty"@.len() == 12);
    lemma_property_tag_bounds(s, names, pos);
}

/// Cursor alignment under skip: when a property's type name is not
/// recognized, decoding moves the cursor to exactly the position after
/// the tag fields plus the declared payload size, whatever bytes the
/// payload holds.
pub proof fn lemma_skip_preserves_alignment(s: Seq<u8>, names: Seq<Seq<char>>, pos: int)
    requires
        match sp_property_tag(s, names, pos) {
            Ok((tag, p1)) => tag.ty_name != "StrProperty"@ && tag.ty_name != "NameProperty"@
                && 0 <= tag.size && p1 + tag.size <= s.len(),
            Err(_) => false,
        },
    ensures
        match (sp_property_tag(s, names, pos), sp_property_data(s, names, pos)) {
            (Ok((tag, p1)), Ok((pd, p2))) => pd.tag == tag && pd.value is Undefined && p2 == p1
                + tag.size,
            _ => false,
        },
{
    lemma_property_tag_bounds(s, names, pos);
}

impl UassetParser {
    /// Decodes one property (tag and value) at the cursor.
    pub fn parse_property_data(&mut self) -> (r: Result<PropertyData, ParseError>)
        ensures
            same_except_cursor(*old(self), *final(self)),
            match r {
                Ok(pd) => sp_property_data(
                    old(self).data@,
                    old(self).names_view(),
                    old(self).pos as int,
                ) == Ok::<(SpPropertyData, int), ParseError>((pd@, final(self).pos as int)),
                Err(e) => sp_property_data(
                    old(self).data@,
                    old(self).names_view(),
                    old(self).pos as int,
                ) == Err::<(SpPropertyData, int), ParseError>(e),
            },
    {
        let tag = match self.parse_property_tag() {
            Ok(t) => t,
            Err(e) => return Err(e),
        };
        let value: PropertyValue = if tag.ty_name.name == "StrProperty".to_owned() {
            match self.read_fstring() {
                Ok(v) => PropertyValue::StrProperty(v),
                Err(e) => return Err(e),
            }
        } else if tag.ty_name.name == "NameProperty".to_owned() {
            match self.parse_fname() {
                Ok(f) => PropertyValue::StrProperty(f.as_string()),
                Err(e) => return Err(e),
            }
        } else if tag.size < 0 {
            return Err(ParseError::NegativePropertySize(tag.size));
        } else {
            match self.skip_bytes(tag.size as i64) {
                Ok(_) => PropertyValue::Undefined,
                Err(e) => return Err(e),
            }
        };
        Ok(PropertyData { tag, value })
    }
}

impl Parsable<PropertyData> for UassetParser {
    fn parse(&mut self) -> Result<PropertyData, ParseError> {
        self.parse_property_data()
    }
}

} // verus!
