//! Data tables: an export whose body is a schema record followed by a
//! declared number of named rows. Each row is a mapping from property
//! name to string value, seeded with a synthetic `"Name"` key holding the
//! row's own resolved name; rows keep their file order.

use vstd::prelude::*;
use crate::errors::ParseError;
use crate::fname::{is_none_name, sp_fname};
use crate::primitives::{sp_i32, sp_u8};
use crate::property_data::{
    lemma_property_data_advances, sp_property_data, PropertyData, PropertyValue, SpPropertyData,
    SpPropertyValue,
};
use crate::uasset_parser::{same_except_cursor, Parsable, UassetParser};
use crate::uclass::{sp_uclass, UClassData};

verus! {

/// One decoded row: ordered key/value pairs with distinct keys, inserted
/// by property name (a repeated name replaces the earlier value).
pub type Row = Vec<(String, String)>;

/// Mathematical model of a [`Row`].
pub type RowModel = Seq<(Seq<char>, Seq<char>)>;

/// A decoded data-table export: the table's class-level property list and
/// its rows in file order.
pub struct DataTable {
    pub class_data: UClassData,
    pub rows: Vec<Row>,
}

/// Mathematical model of a [`DataTable`].
pub struct SpDataTable {
    pub class_data: Seq<SpPropertyData>,
    pub rows: Seq<RowModel>,
}

/// The key/value pairs held by a row.
pub open spec fn row_view(r: Seq<(String, String)>) -> RowModel {
    r.map_values(|p: (String, String)| (p.0@, p.1@))
}

/// The rows held by a vector of rows.
pub open spec fn rows_view(rows: Vec<Row>) -> Seq<RowModel> {
    rows@.map_values(|r: Row| row_view(r@))
}

impl View for DataTable {
    type V = SpDataTable;

    open spec fn view(&self) -> SpDataTable {
        SpDataTable { class_data: self.class_data@, rows: rows_view(self.rows) }
    }
}

/// The index of the first entry with the given key, or -1 when absent.
pub open spec fn row_key_index(m: RowModel, k: Seq<char>) -> int
    decreases m.len(),
{
    if m.len() == 0 {
        -1
    } else if m[0].0 == k {
        0
    } else {
        let sub = row_key_index(m.drop_first(), k);
        if sub == -1 {
            -1
        } else {
            sub + 1
        }
    }
}

/// Mapping insertion: replaces the value of an existing key in place, or
/// appends a new entry.
pub open spec fn row_insert(m: RowModel, k: Seq<char>, v: Seq<char>) -> RowModel {
    let i = row_key_index(m, k);
    if i == -1 {
        m.push((k, v))
    } else {
        m.update(i, (k, v))
    }
}

/// The string a property value contributes to a row: the decoded string
/// for a string-like value, the empty string for a skipped one.
pub open spec fn sp_value_string(v: SpPropertyValue) -> Seq<char> {
    match v {
        SpPropertyValue::StrProperty(text) => text,
        SpPropertyValue::Undefined => Seq::empty(),
    }
}

proof fn lemma_row_key_index_at(m: RowModel, k: Seq<char>, i: int)
    requires
        0 <= i < m.len(),
        m[i].0 == k,
        forall|j: int| 0 <= j < i ==> (#[trigger] m[j]).0 != k,
    ensures
        row_key_index(m, k) == i,
    decreases i,
{
    if i > 0 {
        assert(m[0].0 != k);
        let sub = m.drop_first();
        assert(sub[i - 1].0 == k);
        assert forall|j: int| 0 <= j < i - 1 implies (#[trigger] sub[j]).0 != k by {
            assert(sub[j] == m[j + 1]);
        }
        lemma_row_key_index_at(sub, k, i - 1);
    }
}

proof fn lemma_row_key_index_missing(m: RowModel, k: Seq<char>)
    requires
        forall|j: int| 0 <= j < m.len() ==> (#[trigger] m[j]).0 != k,
    ensures
        row_key_index(m, k) == -1,
    decreases m.len(),
{
    if m.len() > 0 {
        lemma_row_key_index_missing(m.drop_first(), k);
    }
}

/// Inserts a key/value pair into a row, replacing the value of an
/// existing equal key in place.
#[verifier::loop_isolation(false)]
fn row_set(row: &mut Row, key: String, value: String)
    ensures
        row_view(final(row)@) == row_insert(row_view(old(row)@), key@, value@),
{
    let ghost m = row_view(row@);
    let mut i: usize = 0;
    while i < row.len()
        invariant
            i <= row@.len(),
            m == row_view(row@),
            forall|j: int| 0 <= j < i ==> (#[trigger] m[j]).0 != key@,
        decreases row@.len() - i,
    {
        if row[i].0 == key {
            proof {
                assert(m[i as int] == (row@[i as int].0@, row@[i as int].1@));
                assert(m[i as int].0 == key@);
                lemma_row_key_index_at(m, key@, i as int);
                assert(row_key_index(m, key@) == i as int);
            }
            row.remove(i);
            row.insert(i, (key, value));
            proof {
                assert(row_view(row@) =~= m.update(i as int, (key@, value@)));
            }
            return;
        }
        i = i + 1;
    }
    proof {
        lemma_row_key_index_missing(m, key@);
    }
    row.push((key, value));
    proof {
        assert(row_view(row@) =~= m.push((key@, value@)));
    }
}

/// Reads row properties until a terminator tag, inserting each decoded
/// property into the accumulated row mapping under its resolved tag
/// name. Every property read before the terminator is inserted — a
/// skipped (uninterpreted) one contributes the empty string as its
/// value, so a row always carries one entry per property encountered.
pub open spec fn sp_row_props(s: Seq<u8>, names: Seq<Seq<char>>, pos: int, acc: RowModel) -> Result<
    (RowModel, int),
    ParseError,
>
    decreases s.len() - pos,
{
    match sp_property_data(s, names, pos) {
        Err(e) => Err(e),
        Ok((pd, p1)) => if is_none_name(pd.tag.name.value) {
            Ok((acc, p1))
        } else if pos < p1 && p1 <= s.len() {
            sp_row_props(s, names, p1, row_insert(acc, pd.tag.name.value, sp_value_string(pd.value)))
        } else {
            Err(ParseError::Eof)
        },
    }
}

/// Reads one row: its name reference, then properties until a terminator;
/// the mapping starts with the synthetic `"Name"` key bound to the row
/// name's resolved string.
pub open spec fn sp_row(s: Seq<u8>, names: Seq<Seq<char>>, pos: int) -> Result<
    (RowModel, int),
    ParseError,
> {
    match sp_fname(s, names, pos) {
        Err(e) => Err(e),
        Ok((rn, p1)) => sp_row_props(s, names, p1, seq![("Name"@, rn.value)]),
    }
}

/// Reads `count` rows in file order.
pub open spec fn sp_rows(s: Seq<u8>, names: Seq<Seq<char>>, pos: int, count: int) -> Result<
    (Seq<RowModel>, int),
    ParseError,
>
    decreases count,
{
    if count <= 0 {
        Ok((Seq::empty(), pos))
    } else {
        match sp_row(s, names, pos) {
            Err(e) => Err(e),
            Ok((row, p1)) => match sp_rows(s, names, p1, count - 1) {
                Err(e) => Err(e),
                Ok((rest, p2)) => Ok((seq![row] + rest, p2)),
            },
        }
    }
}

/// Reads a data-table export body: one row-struct flag byte (consumed,
/// not interpreted), the table's class-level property list, a signed
/// 32-bit row count, then that many rows. The declared row count is
/// untrusted: a negative value is rejected rather than decoded as an
/// empty table.
pub open spec fn sp_data_table(s: Seq<u8>, names: Seq<Seq<char>>, pos: int) -> Result<
    (SpDataTable, int),
    ParseError,
> {
    match sp_u8(s, pos) {
        Err(e) => Err(e),
        Ok((_flags, p1)) => match sp_uclass(s, names, p1) {
            Err(e) => Err(e),
            Ok((cls, p2)) => match sp_i32(s, p2) {
                Err(e) => Err(e),
                Ok((rows_count, p3)) => if rows_count < 0 {
                    Err(ParseError::InvalidArraySize(rows_count))
                } else {
                    match sp_rows(s, names, p3, rows_count as int) {
                        Err(e) => Err(e),
                        Ok((rows, p4)) => Ok((SpDataTable { class_data: cls, rows }, p4)),
                    }
                },
            },
        },
    }
}

impl UassetParser {
    /// Decodes one row at the cursor.
    #[verifier::loop_isolation(false)]
    fn parse_row(&mut self) -> (r: Result<Row, ParseError>)
        ensures
            same_except_cursor(*old(self), *final(self)),
            match r {
                Ok(row) => sp_row(old(self).data@, old(self).names_view(), old(self).pos as int)
                    == Ok::<(RowModel, int), ParseError>((row_view(row@), final(self).pos as int)),
                Err(e) => sp_row(old(self).data@, old(self).names_view(), old(self).pos as int)
                    == Err::<(RowModel, int), ParseError>(e),
            },
    {
        let ghost s = self.data@;
        let ghost names = self.names_view();
        let row_name = match self.parse_fname() {
            Ok(f) => f,
            Err(e) => return Err(e),
        };
        let ghost init_acc: RowModel = seq![("Name"@, row_name@.value)];
        let ghost p1 = self.pos as int;
        let mut row: Row = Vec::new();
        row.push(("Name".to_owned(), row_name.as_string()));
        proof {
            assert(row_view(row@) =~= init_acc);
        }
        let mut terminated = false;
        while !terminated
            invariant
                same_except_cursor(*old(self), *self),
                !terminated ==> sp_row_props(s, names, self.pos as int, row_view(row@))
                    == sp_row_props(s, names, p1, init_acc),
                terminated ==> sp_row_props(s, names, p1, init_acc) == Ok::<
                    (RowModel, int),
                    ParseError,
                >((row_view(row@), self.pos as int)),
            decreases s.len() - self.pos as int,
        {
            let ghost ppos = self.pos as int;
            let pd = match self.parse_property_data() {
                Ok(pd) => pd,
                Err(e) => return Err(e),
            };
            proof {
                lemma_property_data_advances(s, names, ppos);
            }
            let PropertyData { tag, value } = pd;
            if tag.name.is_none() {
                terminated = true;
            } else {
                let value_text: String = match value {
                    PropertyValue::StrProperty(text) => text,
                    PropertyValue::Undefined => String::new(),
                };
                row_set(&mut row, tag.name.as_string(), value_text);
            }
        }
        Ok(row)
    }

    /// Decodes one data-table export body at the cursor.
    #[verifier::loop_isolation(false)]
    pub fn parse_data_table(&mut self) -> (r: Result<DataTable, ParseError>)
        ensures
            same_except_cursor(*old(self), *final(self)),
            match r {
                Ok(t) => sp_data_table(
                    old(self).data@,
                    old(self).names_view(),
                    old(self).pos as int,
                ) == Ok::<(SpDataTable, int), ParseError>((t@, final(self).pos as int)),
                Err(e) => sp_data_table(
                    old(self).data@,
                    old(self).names_view(),
                    old(self).pos as int,
                ) == Err::<(SpDataTable, int), ParseError>(e),
            },
    {
        let ghost s = self.data@;
        let ghost names = self.names_view();
        let _flags = match self.read_u8() {
            Ok(v) => v,
            Err(e) => return Err(e),
        };
        let class_data = match self.parse_uclass() {
            Ok(c) => c,
            Err(e) => return Err(e),
        };
        let rows_count = match self.read_i32() {
            Ok(v) => v,
            Err(e) => return Err(e),
        };
        if rows_count < 0 {
            return Err(ParseError::InvalidArraySize(rows_count));
        }
        let ghost p3 = self.pos as int;
        let mut rows: Vec<Row> = Vec::new();
        let mut remaining = rows_count;
        while remaining > 0
            invariant
                same_except_cursor(*old(self), *self),
                remaining <= rows_count,
                (match sp_rows(s, names, self.pos as int, remaining as int) {
                    Ok((rest, p)) => sp_rows(s, names, p3, rows_count as int) == Ok::<
                        (Seq<RowModel>, int),
                        ParseError,
                    >((rows_view(rows) + rest, p)),
                    Err(e) => sp_rows(s, names, p3, rows_count as int) == Err::<
                        (Seq<RowModel>, int),
                        ParseError,
                    >(e),
                }),
            decreases remaining,
        {
            let ghost rows_before = rows;
            let row = match self.parse_row() {
                Ok(row) => row,
                Err(e) => return Err(e),
            };
            rows.push(row);
            remaining = remaining - 1;
            proof {
                assert(rows_view(rows) =~= rows_view(rows_before).push(
                    row_view(rows@[rows@.len() - 1]@),
                ));
                if let Ok((rest, p)) = sp_rows(s, names, self.pos as int, remaining as int) {
                    assert(rows_view(rows) + rest =~= rows_view(rows_before) + (seq![
                        row_view(rows@[rows@.len() - 1]@),
                    ] + rest));
                }
            }
        }
        proof {
            assert(rows_view(rows) + Seq::<RowModel>::empty() =~= rows_view(rows));
        }
        Ok(DataTable { class_data, rows })
    }
}

impl Parsable<DataTable> for UassetParser {
    fn parse(&mut self) -> Result<DataTable, ParseError> {
        self.parse_data_table()
    }
}

} // verus!
