//! Object records: an object's flat property list, decoded by reading
//! properties until a terminator tag (name resolved to `"None"`) is seen,
//! followed by a fixed four-byte skip that the on-disk format carries
//! after every property list (its meaning is undocumented; the skip is
//! reproduced for compatibility).

use vstd::prelude::*;
use crate::errors::ParseError;
use crate::fname::is_none_name;
use crate::primitives::sp_skip;
use crate::property_data::{
    deep_properties, lemma_property_data_advances, sp_property_data, PropertyData, SpPropertyData,
};
use crate::uasset_parser::{same_except_cursor, Parsable, UassetParser};

verus! {

/// An object's decoded property list, in file order, without the
/// terminator.
pub struct UClassData {
    pub properties: Vec<PropertyData>,
}

impl View for UClassData {
    type V = Seq<SpPropertyData>;

    open spec fn view(&self) -> Seq<SpPropertyData> {
        deep_properties(self.properties)
    }
}

/// Reads properties until a terminator tag: the result holds every
/// non-terminator property in order, and the position after the
/// terminator. A list whose decoding stops advancing before a terminator
/// is malformed and fails.
pub open spec fn sp_property_list(s: Seq<u8>, names: Seq<Seq<char>>, pos: int) -> Result<
    (Seq<SpPropertyData>, int),
    ParseError,
>
    decreases s.len() - pos,
{
    match sp_property_data(s, names, pos) {
        Err(e) => Err(e),
        Ok((pd, p1)) => if is_none_name(pd.tag.name.value) {
            Ok((Seq::empty(), p1))
        } else if pos < p1 && p1 <= s.len() {
            match sp_property_list(s, names, p1) {
                Err(e) => Err(e),
                Ok((rest, p2)) => Ok((seq![pd] + rest, p2)),
            }
        } else {
            Err(ParseError::Eof)
        },
    }
}

/// Terminator invariant, list half: a well-formed property list decodes
/// to non-terminator properties only, and ends on exactly one terminator
/// — the final eight bytes consumed are one property decode whose name
/// resolves to the sentinel.
pub proof fn lemma_property_list_terminates_once(s: Seq<u8>, names: Seq<Seq<char>>, pos: int)
    requires
        sp_property_list(s, names, pos) is Ok,
    ensures
        match sp_property_list(s, names, pos) {
            Ok((props, p)) => (forall|i: int|
                0 <= i < props.len() ==> !is_none_name(#[trigger] props[i].tag.name.value)) && pos
                + 8 <= p <= s.len() && (match sp_property_data(s, names, p - 8) {
                Ok((pd, pe)) => is_none_name(pd.tag.name.value) && pe == p,
                Err(_) => false,
            }),
            Err(_) => false,
        },
    decreases s.len() - pos,
{
    lemma_property_data_advances(s, names, pos);
    match sp_property_data(s, names, pos) {
        Ok((pd, p1)) => {
            if !is_none_name(pd.tag.name.value) {
                lemma_property_list_terminates_once(s, names, p1);
            }
        },
        Err(_) => {
            assert(false);
        },
    }
}

/// Reads one object record: a property list and the trailing four-byte
/// skip.
pub open spec fn sp_uclass(s: Seq<u8>, names: Seq<Seq<char>>, pos: int) -> Result<
    (Seq<SpPropertyData>, int),
    ParseError,
> {
    match sp_property_list(s, names, pos) {
        Err(e) => Err(e),
        Ok((props, p1)) => match sp_skip(s, p1, 4) {
            Err(e) => Err(e),
            Ok(p2) => Ok((props, p2)),
        },
    }
}

/// Terminator invariant at the object-record level: a decoded record
/// holds only non-terminator properties, its list ended on exactly one
/// terminator (the eight bytes just before the trailing skip), and the
/// record consumed exactly four bytes beyond that terminator.
pub proof fn lemma_uclass_terminates_once(s: Seq<u8>, names: Seq<Seq<char>>, pos: int)
    requires
        sp_uclass(s, names, pos) is Ok,
    ensures
        match (sp_property_list(s, names, pos), sp_uclass(s, names, pos)) {
            (Ok((props, p1)), Ok((record, p2))) => record == props && (forall|i: int|
                0 <= i < props.len() ==> !is_none_name(
                    #[trigger] props[i].tag.name.value,
                )) && (match sp_property_data(s, names, p1 - 8) {
                Ok((pd, pe)) => is_none_name(pd.tag.name.value) && pe == p1,
                Err(_) => false,
            }) && p2 == p1 + 4,
            _ => false,
        },
{
    lemma_property_list_terminates_once(s, names, pos);
}

impl UassetParser {
    /// Decodes one object record at the cursor: properties up to and
    /// including their terminator, then the fixed four-byte skip.
    #[verifier::loop_isolation(false)]
    pub fn parse_uclass(&mut self) -> (r: Result<UClassData, ParseError>)
        ensures
            same_except_cursor(*old(self), *final(self)),
            match r {
                Ok(u) => sp_uclass(old(self).data@, old(self).names_view(), old(self).pos as int)
                    == Ok::<(Seq<SpPropertyData>, int), ParseError>((u@, final(self).pos as int)),
                Err(e) => sp_uclass(old(self).data@, old(self).names_view(), old(self).pos as int)
                    == Err::<(Seq<SpPropertyData>, int), ParseError>(e),
            },
    {
        let ghost s = self.data@;
        let ghost names = self.names_view();
        let ghost pos0 = self.pos as int;
        let mut properties: Vec<PropertyData> = Vec::new();
        let mut terminated = false;
        while !terminated
            invariant
                same_except_cursor(*old(self), *self),
                !terminated ==> (match sp_property_list(s, names, self.pos as int) {
                    Ok((rest, p)) => sp_property_list(s, names, pos0) == Ok::<
                        (Seq<SpPropertyData>, int),
                        ParseError,
                    >((deep_properties(properties) + rest, p)),
                    Err(e) => sp_property_list(s, names, pos0) == Err::<
                        (Seq<SpPropertyData>, int),
                        ParseError,
                    >(e),
                }),
                terminated ==> sp_property_list(s, names, pos0) == Ok::<
                    (Seq<SpPropertyData>, int),
                    ParseError,
                >((deep_properties(properties), self.pos as int)),
            decreases s.len() - self.pos as int,
        {
            let ghost props_before = properties;
            let ghost ppos = self.pos as int;
            let pd = match self.parse_property_data() {
                Ok(pd) => pd,
                Err(e) => return Err(e),
            };
            proof {
                lemma_property_data_advances(s, names, ppos);
            }
            if pd.tag.name.is_none() {
                terminated = true;
                proof {
                    assert(deep_properties(properties) + Seq::<SpPropertyData>::empty()
                        =~= deep_properties(properties));
                }
            } else {
                properties.push(pd);
                proof {
                    assert(deep_properties(properties) =~= deep_properties(props_before).push(
                        properties@[properties@.len() - 1]@,
                    ));
                    if let Ok((rest, p)) = sp_property_list(s, names, self.pos as int) {
                        assert(deep_properties(properties) + rest =~= deep_properties(props_before)
                            + (seq![properties@[properties@.len() - 1]@] + rest));
                    }
                }
            }
        }
        match self.skip_bytes(4) {
            Ok(_) => (),
            Err(e) => return Err(e),
        }
        Ok(UClassData { properties })
    }
}

impl Parsable<UClassData> for UassetParser {
    fn parse(&mut self) -> Result<UClassData, ParseError> {
        self.parse_uclass()
    }
}

} // verus!
