//! Possibly-generic property type names. A type name is a sequence of
//! name/inner-count pairs: an outstanding-segment counter starts at one,
//! each pair appends its resolved name and adds `inner_count - 1` to the
//! counter, and reading stops once the counter reaches zero or below.
//! The collected segments joined with underscores form the logical type
//! name used for value dispatch (for example `Array_StrProperty`).

use vstd::prelude::*;
use vstd::string::StringExecFns;
use crate::errors::ParseError;
use crate::fname::sp_fname;
use crate::primitives::{deep_strings, sp_i32};
use crate::uasset_parser::{same_except_cursor, Parsable, UassetParser};

verus! {

/// A decoded (possibly generic) type name, in its joined logical form.
pub struct PropertyTypeName {
    pub name: String,
}

impl View for PropertyTypeName {
    type V = Seq<char>;

    open spec fn view(&self) -> Seq<char> {
        self.name@
    }
}

/// The tail of an underscore join: each further segment is preceded by an
/// underscore.
pub open spec fn join_tail(segs: Seq<Seq<char>>) -> Seq<char>
    decreases segs.len(),
{
    if segs.len() == 0 {
        Seq::empty()
    } else {
        "_"@ + segs[0] + join_tail(segs.drop_first())
    }
}

/// The segments joined with single underscores.
pub open spec fn join_underscore(segs: Seq<Seq<char>>) -> Seq<char> {
    if segs.len() == 0 {
        Seq::empty()
    } else {
        segs[0] + join_tail(segs.drop_first())
    }
}

/// Reads type-name segments while `remaining` (the outstanding-segment
/// counter) is positive: each step reads one name reference and one
/// signed 32-bit inner count, which adjusts the counter by
/// `inner_count - 1`. The byte source bounds the recursion: a stream that
/// never drives the counter to zero runs out of bytes and fails.
pub open spec fn sp_type_name_segs(
    s: Seq<u8>,
    names: Seq<Seq<char>>,
    pos: int,
    remaining: int,
) -> Result<(Seq<Seq<char>>, int), ParseError>
    decreases s.len() - pos,
{
    if remaining <= 0 {
        Ok((Seq::empty(), pos))
    } else if pos < 0 || pos + 12 > s.len() {
        Err(ParseError::Eof)
    } else {
        match sp_fname(s, names, pos) {
            Err(e) => Err(e),
            Ok((f, p1)) => match sp_i32(s, p1) {
                Err(e) => Err(e),
                Ok((inner, p2)) => match sp_type_name_segs(
                    s,
                    names,
                    p2,
                    remaining + inner - 1,
                ) {
                    Err(e) => Err(e),
                    Ok((rest, p3)) => Ok((seq![f.value] + rest, p3)),
                },
            },
        }
    }
}

/// Successful segment reading that began with a positive counter consumed
/// at least one pair and left the cursor inside the byte source.
pub proof fn lemma_type_name_segs_bounds(
    s: Seq<u8>,
    names: Seq<Seq<char>>,
    pos: int,
    remaining: int,
)
    requires
        remaining >= 1,
        sp_type_name_segs(s, names, pos, remaining) is Ok,
    ensures
        ({
            let (segs, p) = sp_type_name_segs(s, names, pos, remaining)->Ok_0;
            pos + 12 <= p <= s.len()
        }),
    decreases s.len() - pos,
{
    assert(0 <= pos && pos + 12 <= s.len());
    match sp_i32(s, pos + 8) {
        Ok((inner, p2)) => {
            let rem2 = remaining + inner - 1;
            assert(sp_type_name_segs(s, names, p2, rem2) is Ok);
            if rem2 >= 1 {
                lemma_type_name_segs_bounds(s, names, p2, rem2);
            } else {
                assert(sp_type_name_segs(s, names, p2, rem2) == Ok::<
                    (Seq<Seq<char>>, int),
                    ParseError,
                >((Seq::empty(), p2)));
            }
        },
        Err(_) => {
            assert(false);
        },
    }
}

/// Joins collected segments with underscores.
fn join_with_underscore(parts: &Vec<String>) -> (r: String)
    ensures
        r@ == join_underscore(deep_strings(*parts)),
{
    let ghost segs = deep_strings(*parts);
    if parts.len() == 0 {
        return String::new();
    }
    let mut out: String = parts[0].clone();
    let mut i: usize = 1;
    proof {
        assert(segs.drop_first() =~= segs.skip(1));
    }
    while i < parts.len()
        invariant
            1 <= i <= parts.len(),
            segs == deep_strings(*parts),
            out@ + join_tail(segs.skip(i as int)) == join_underscore(segs),
        decreases parts.len() - i,
    {
        out.append("_");
        out.append(parts[i].as_str());
        i = i + 1;
        proof {
            assert(segs.skip(i as int - 1).drop_first() =~= segs.skip(i as int));
            assert(out@ + join_tail(segs.skip(i as int)) == join_underscore(segs));
        }
    }
    proof {
        assert(segs.skip(parts.len() as int) =~= Seq::<Seq<char>>::empty());
        assert(out@ =~= out@ + join_tail(segs.skip(parts.len() as int)));
    }
    out
}

impl UassetParser {
    /// Decodes one type name at the cursor: name/inner-count pairs until
    /// the outstanding-segment counter reaches zero, joined with
    /// underscores.
    #[verifier::loop_isolation(false)]
    pub fn parse_type_name(&mut self) -> (r: Result<PropertyTypeName, ParseError>)
        ensures
            same_except_cursor(*old(self), *final(self)),
            match r {
                Ok(t) => (match sp_type_name_segs(
                    old(self).data@,
                    old(self).names_view(),
                    old(self).pos as int,
                    1,
                ) {
                    Ok((segs, p)) => t@ == join_underscore(segs) && final(self).pos as int == p,
                    Err(_) => false,
                }),
                Err(e) => sp_type_name_segs(
                    old(self).data@,
                    old(self).names_view(),
                    old(self).pos as int,
                    1,
                ) == Err::<(Seq<Seq<char>>, int), ParseError>(e),
            },
    {
        let ghost s = self.data@;
        let ghost names = self.names_view();
        let ghost pos0 = self.pos as int;
        let mut parts: Vec<String> = Vec::new();
        let mut remaining: i128 = 1;
        while remaining > 0
            invariant
                same_except_cursor(*old(self), *self),
                -(0x8000_0000i128 as int) * (1 + self.pos as int) <= remaining as int <= 0x8000_0000i128
                    as int * (1 + self.pos as int),
                (match sp_type_name_segs(s, names, self.pos as int, remaining as int) {
                    Ok((rest, p)) => sp_type_name_segs(s, names, pos0, 1) == Ok::<
                        (Seq<Seq<char>>, int),
                        ParseError,
                    >((deep_strings(parts) + rest, p)),
                    Err(e) => sp_type_name_segs(s, names, pos0, 1) == Err::<
                        (Seq<Seq<char>>, int),
                        ParseError,
                    >(e),
                }),
            decreases self.data@.len() - self.pos as int,
        {
            let ghost parts_before = parts;
            let f = match self.parse_fname() {
                Ok(f) => f,
                Err(e) => return Err(e),
            };
            let inner = match self.read_i32() {
                Ok(v) => v,
                Err(e) => return Err(e),
            };
            parts.push(f.as_string());
            remaining = remaining + (inner as i128) - 1;
            proof {
                assert(deep_strings(parts) =~= deep_strings(parts_before).push(
                    parts@[parts@.len() - 1]@,
                ));
                if let Ok((rest, p)) = sp_type_name_segs(
                    s,
                    names,
                    self.pos as int,
                    remaining as int,
                ) {
                    assert(deep_strings(parts) + rest =~= deep_strings(parts_before) + (seq![
                        parts@[parts@.len() - 1]@,
                    ] + rest));
                }
            }
        }
        proof {
            assert(deep_strings(parts) + Seq::<Seq<char>>::empty() =~= deep_strings(parts));
        }
        let name = join_with_underscore(&parts);
        Ok(PropertyTypeName { name })
    }
}

impl Parsable<PropertyTypeName> for UassetParser {
    fn parse(&mut self) -> Result<PropertyTypeName, ParseError> {
        self.parse_type_name()
    }
}

} // verus!
