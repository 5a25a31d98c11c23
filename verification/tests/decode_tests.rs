use rust_uasset::data_table::DataTable;
use rust_uasset::errors::ParseError;
use rust_uasset::property_data::{PropertyData, PropertyValue};
use rust_uasset::property_tag::{EPropertyTagFlags, PropertyTag};
use rust_uasset::property_type_name::PropertyTypeName;
use rust_uasset::uasset_parser::UassetParser;
use rust_uasset::uclass::UClassData;

fn emit_i32(out: &mut Vec<u8>, v: i32) {
    out.extend_from_slice(&v.to_le_bytes());
}

fn emit_fname(out: &mut Vec<u8>, index: i32, number: i32) {
    emit_i32(out, index);
    emit_i32(out, number);
}

/// A narrow (UTF-8) length-prefixed string: positive length counts the
/// trailing null.
fn emit_fstring_narrow(out: &mut Vec<u8>, s: &str) {
    emit_i32(out, s.len() as i32 + 1);
    out.extend_from_slice(s.as_bytes());
    out.push(0);
}

/// A wide (UTF-16LE) length-prefixed string: negative length whose
/// magnitude counts the code units including the trailing null unit.
fn emit_fstring_wide(out: &mut Vec<u8>, s: &str) {
    let units: Vec<u16> = s.encode_utf16().collect();
    emit_i32(out, -(units.len() as i32 + 1));
    for u in &units {
        out.extend_from_slice(&u.to_le_bytes());
    }
    out.extend_from_slice(&0u16.to_le_bytes());
}

/// A plain (single-segment) type name: one name reference plus a zero
/// inner count.
fn emit_type_name_plain(out: &mut Vec<u8>, name_index: i32) {
    emit_fname(out, name_index, 0);
    emit_i32(out, 0);
}

#[test]
fn test_fstring_narrow_round_trip() {
    let mut data = vec![];
    emit_fstring_narrow(&mut data, "Hello");
    let expected_len = data.len();
    let mut parser = UassetParser::new(data);
    let s = parser.read_fstring().expect("narrow string decodes");
    assert_eq!(s, "Hello");
    assert_eq!(parser.pos, expected_len);
}

#[test]
fn test_fstring_narrow_multibyte_round_trip() {
    let original = "gr\u{fc}n \u{2603}";
    let mut data = vec![];
    emit_fstring_narrow_bytes(&mut data, original.as_bytes());
    let mut parser = UassetParser::new(data);
    let s = parser.read_fstring().expect("narrow UTF-8 string decodes");
    assert_eq!(s, original);
}

fn emit_fstring_narrow_bytes(out: &mut Vec<u8>, bytes: &[u8]) {
    emit_i32(out, bytes.len() as i32 + 1);
    out.extend_from_slice(bytes);
    out.push(0);
}

#[test]
fn test_fstring_wide_round_trip() {
    let original = "Sn\u{f6} \u{2603} \u{1f600}";
    let mut data = vec![];
    emit_fstring_wide(&mut data, original);
    let expected_len = data.len();
    let mut parser = UassetParser::new(data);
    let s = parser.read_fstring().expect("wide string decodes");
    assert_eq!(s, original);
    assert_eq!(parser.pos, expected_len);
}

#[test]
fn test_fstring_empty_round_trip() {
    let mut data = vec![];
    emit_i32(&mut data, 0);
    let mut parser = UassetParser::new(data);
    let s = parser.read_fstring().expect("zero length is the empty string");
    assert_eq!(s, "");
    assert_eq!(parser.pos, 4);
}

#[test]
fn test_fstring_invalid_utf8_rejected() {
    let mut data = vec![];
    emit_fstring_narrow_bytes(&mut data, &[0xFF, 0xFE, 0x41]);
    let mut parser = UassetParser::new(data);
    assert_eq!(parser.read_fstring(), Err(ParseError::InvalidUtf8));
}

#[test]
fn test_fstring_invalid_utf16_rejected() {
    let mut data = vec![];
    emit_i32(&mut data, -2);
    data.extend_from_slice(&0xD800u16.to_le_bytes());
    data.extend_from_slice(&0u16.to_le_bytes());
    let mut parser = UassetParser::new(data);
    assert_eq!(parser.read_fstring(), Err(ParseError::InvalidUtf16));
}

#[test]
fn test_bounded_array_rejects_oversized_count() {
    let mut data = vec![];
    emit_i32(&mut data, 5);
    data.extend_from_slice(&[0u8; 64]);
    let mut parser = UassetParser::new(data);
    let r = parser.read_tarray_bytes(1, 4);
    assert_eq!(r, Err(ParseError::InvalidArraySize(5)));
    // The count was rejected before any element read: the cursor sits
    // just past the four count bytes.
    assert_eq!(parser.pos, 4);
}

#[test]
fn test_bounded_array_rejects_negative_count() {
    let mut data = vec![];
    emit_i32(&mut data, -1);
    data.extend_from_slice(&[0u8; 64]);
    let mut parser = UassetParser::new(data);
    let r = parser.read_tarray_bytes(4, 1000);
    assert_eq!(r, Err(ParseError::InvalidArraySize(-1)));
    assert_eq!(parser.pos, 4);
}

#[test]
fn test_bounded_array_reads_elements_in_order() {
    let mut data = vec![];
    emit_i32(&mut data, 2);
    data.extend_from_slice(&[1, 2, 3, 4]);
    let mut parser = UassetParser::new(data);
    let r = parser.read_tarray_bytes(2, 10).expect("array decodes");
    assert_eq!(r, vec![vec![1u8, 2], vec![3u8, 4]]);
    assert_eq!(parser.pos, 8);
}

#[test]
fn test_generic_type_name_joins_segments() {
    let mut data = vec![];
    // Outer segment declaring two inner segments, then two plain ones.
    emit_fname(&mut data, 0, 0);
    emit_i32(&mut data, 2);
    emit_fname(&mut data, 1, 0);
    emit_i32(&mut data, 0);
    emit_fname(&mut data, 2, 0);
    emit_i32(&mut data, 0);
    let mut parser = UassetParser::new(data);
    parser.names = vec![
        "Map".to_string(),
        "NameProperty".to_string(),
        "StrProperty".to_string(),
    ];
    let t: PropertyTypeName = parser.read().expect("type name decodes");
    assert_eq!(t.name, "Map_NameProperty_StrProperty");
    // Exactly the bytes of the three name/count pairs were consumed.
    assert_eq!(parser.pos, 36);
}

#[test]
fn test_plain_type_name_single_segment() {
    let mut data = vec![];
    emit_type_name_plain(&mut data, 0);
    let mut parser = UassetParser::new(data);
    parser.names = vec!["StrProperty".to_string()];
    let t: PropertyTypeName = parser.read().expect("type name decodes");
    assert_eq!(t.name, "StrProperty");
    assert_eq!(parser.pos, 12);
}

#[test]
fn test_terminator_tag_carries_no_fields() {
    let mut data = vec![];
    // Index out of range resolves to the "None" sentinel.
    emit_fname(&mut data, 99, 0);
    let mut parser = UassetParser::new(data);
    parser.names = vec!["Something".to_string()];
    let tag: PropertyTag = parser.read().expect("terminator tag decodes");
    assert!(tag.name.is_none());
    assert_eq!(tag.ty_name.name, "");
    assert_eq!(tag.size, 0);
    assert_eq!(tag.flags, 0);
    assert_eq!(tag.array_index, -1);
    assert_eq!(tag.guid, 0);
    // Only the eight bytes of the name reference were consumed.
    assert_eq!(parser.pos, 8);
}

#[test]
fn test_unknown_property_skips_exactly_declared_size() {
    let mut data = vec![];
    emit_fname(&mut data, 0, 0); // property name "Weight"
    emit_type_name_plain(&mut data, 1); // unrecognized "FloatProperty"
    emit_i32(&mut data, 7); // declared payload size
    data.push(0); // flag byte
    data.extend_from_slice(&[0xAB; 7]); // opaque payload
    data.extend_from_slice(&[0x55; 3]); // trailing bytes, must stay unread
    let mut parser = UassetParser::new(data);
    parser.names = vec!["Weight".to_string(), "FloatProperty".to_string()];
    let pd: PropertyData = parser.read().expect("unknown property decodes");
    assert!(matches!(pd.value, PropertyValue::Undefined));
    // Tag fields: name (8) + type name (12) + size (4) + flags (1) = 25
    // bytes, then exactly tag.size payload bytes.
    assert_eq!(parser.pos, 25 + 7);
}

#[test]
fn test_negative_property_size_rejected() {
    let mut data = vec![];
    emit_fname(&mut data, 0, 0);
    emit_type_name_plain(&mut data, 1);
    emit_i32(&mut data, -5);
    data.push(0);
    let mut parser = UassetParser::new(data);
    parser.names = vec!["Weight".to_string(), "FloatProperty".to_string()];
    let r: Result<PropertyData, ParseError> = parser.read();
    assert!(matches!(r, Err(ParseError::NegativePropertySize(-5))));
}

#[test]
fn test_property_extensions_flag_rejected() {
    let mut data = vec![];
    emit_fname(&mut data, 0, 0);
    emit_type_name_plain(&mut data, 1);
    emit_i32(&mut data, 0);
    data.push(0x04); // has-extensions flag bit
    let mut parser = UassetParser::new(data);
    parser.names = vec!["Weight".to_string(), "FloatProperty".to_string()];
    let r: Result<PropertyTag, ParseError> = parser.read();
    assert!(matches!(r, Err(ParseError::PropertyExtensionsNotSupported)));
}

#[test]
fn test_tag_array_index_and_guid_flags() {
    let mut data = vec![];
    emit_fname(&mut data, 0, 0);
    emit_type_name_plain(&mut data, 1);
    emit_i32(&mut data, 0); // declared size
    let flags = EPropertyTagFlags::HasArrayIndex.mask() | EPropertyTagFlags::HasPropertyGuid.mask();
    data.push(flags); // has-array-index and has-GUID flags
    emit_i32(&mut data, 9); // array index
    data.extend_from_slice(&0x0102_0304_0506_0708_090A_0B0C_0D0E_0F10u128.to_le_bytes());
    let mut parser = UassetParser::new(data);
    parser.names = vec!["Weight".to_string(), "FloatProperty".to_string()];
    let tag: PropertyTag = parser.read().expect("tag with optional fields decodes");
    assert_eq!(tag.array_index, 9);
    assert_eq!(tag.guid, 0x0102_0304_0506_0708_090A_0B0C_0D0E_0F10u128);
    assert_eq!(tag.flags, 0x03);
    assert_eq!(tag.ty_name.name, "FloatProperty");
}

#[test]
fn test_str_property_value_decodes() {
    let mut data = vec![];
    emit_fname(&mut data, 0, 0);
    emit_type_name_plain(&mut data, 1); // "StrProperty"
    emit_i32(&mut data, 8); // declared size (4 + 3 + 1)
    data.push(0);
    emit_fstring_narrow(&mut data, "abc");
    let mut parser = UassetParser::new(data);
    parser.names = vec!["Label".to_string(), "StrProperty".to_string()];
    let pd: PropertyData = parser.read().expect("string property decodes");
    match pd.value {
        PropertyValue::StrProperty(s) => assert_eq!(s, "abc"),
        PropertyValue::Undefined => panic!("expected a decoded string value"),
    }
    assert_eq!(pd.tag.name.as_string(), "Label");
}

#[test]
fn test_name_property_value_resolves() {
    let mut data = vec![];
    emit_fname(&mut data, 0, 0);
    emit_type_name_plain(&mut data, 1); // "NameProperty"
    emit_i32(&mut data, 8);
    data.push(0);
    emit_fname(&mut data, 2, 0); // payload: reference to "Rowdy"
    let mut parser = UassetParser::new(data);
    parser.names = vec![
        "Target".to_string(),
        "NameProperty".to_string(),
        "Rowdy".to_string(),
    ];
    let pd: PropertyData = parser.read().expect("name property decodes");
    match pd.value {
        PropertyValue::StrProperty(s) => assert_eq!(s, "Rowdy"),
        PropertyValue::Undefined => panic!("expected a resolved name value"),
    }
}

/// One string property under the given name index, with an "abc"-style
/// payload.
fn emit_str_property(out: &mut Vec<u8>, name_index: i32, str_index: i32, value: &str) {
    emit_fname(out, name_index, 0);
    emit_type_name_plain(out, str_index);
    emit_i32(out, value.len() as i32 + 5);
    out.push(0);
    emit_fstring_narrow(out, value);
}

#[test]
fn test_uclass_reads_properties_until_terminator() {
    let mut data = vec![];
    emit_str_property(&mut data, 0, 1, "one");
    emit_str_property(&mut data, 2, 1, "two");
    emit_fname(&mut data, 99, 0); // terminator (out of range -> "None")
    emit_i32(&mut data, 0); // the trailing four-byte pad
    let mut parser = UassetParser::new(data);
    parser.names = vec![
        "First".to_string(),
        "StrProperty".to_string(),
        "Second".to_string(),
    ];
    let expected_len = parser.data.len();
    let uclass: UClassData = parser.read().expect("object record decodes");
    assert_eq!(uclass.properties.len(), 2);
    assert_eq!(uclass.properties[0].tag.name.as_string(), "First");
    assert_eq!(uclass.properties[1].tag.name.as_string(), "Second");
    assert_eq!(parser.pos, expected_len);
}

#[test]
fn test_data_table_two_rows() {
    // Names: 0 Row schema field, 1 StrProperty, 2 Value, 3 FloatProperty,
    // 4/5 row names, 6 "None" terminator name.
    let names = vec![
        "SchemaField".to_string(),
        "StrProperty".to_string(),
        "Value".to_string(),
        "FloatProperty".to_string(),
        "RowA".to_string(),
        "RowB".to_string(),
        "None".to_string(),
    ];
    let mut data = vec![];
    data.push(0); // row-struct flags byte
    // Schema: three properties, then terminator and the four-byte pad.
    emit_str_property(&mut data, 0, 1, "s1");
    emit_str_property(&mut data, 2, 1, "s2");
    emit_str_property(&mut data, 0, 1, "s3");
    emit_fname(&mut data, 6, 0);
    emit_i32(&mut data, 0);
    // Two rows.
    emit_i32(&mut data, 2);
    // Row A: one string property and one skipped float property.
    emit_fname(&mut data, 4, 0);
    emit_str_property(&mut data, 2, 1, "hello");
    emit_fname(&mut data, 0, 0); // unknown-typed property, skipped
    emit_type_name_plain(&mut data, 3);
    emit_i32(&mut data, 4);
    data.push(0);
    data.extend_from_slice(&[0; 4]);
    emit_fname(&mut data, 6, 0); // row terminator
    // Row B: just the terminator.
    emit_fname(&mut data, 5, 0);
    emit_fname(&mut data, 6, 0);
    let mut parser = UassetParser::new(data);
    parser.names = names;
    let table: DataTable = parser.read().expect("data table decodes");
    assert_eq!(table.class_data.properties.len(), 3);
    assert_eq!(table.rows.len(), 2);
    let row_a = &table.rows[0];
    assert_eq!(row_a.len(), 3);
    assert_eq!(row_a[0], ("Name".to_string(), "RowA".to_string()));
    assert_eq!(row_a[1], ("Value".to_string(), "hello".to_string()));
    assert_eq!(row_a[2], ("SchemaField".to_string(), "".to_string()));
    let row_b = &table.rows[1];
    assert_eq!(row_b.len(), 1);
    assert_eq!(row_b[0], ("Name".to_string(), "RowB".to_string()));
}

#[test]
fn test_negative_row_count_rejected() {
    let mut data = vec![];
    data.push(0); // row-struct flags byte
    emit_fname(&mut data, 0, 0); // empty schema: terminator only
    emit_i32(&mut data, 0); // trailing four-byte pad
    emit_i32(&mut data, -1); // negative declared row count
    let mut parser = UassetParser::new(data);
    parser.names = vec!["None".to_string()];
    let r: Result<DataTable, ParseError> = parser.read();
    assert!(matches!(r, Err(ParseError::InvalidArraySize(-1))));
}

#[test]
fn test_row_repeated_key_replaces_value() {
    let names = vec![
        "Field".to_string(),
        "StrProperty".to_string(),
        "None".to_string(),
        "Row".to_string(),
    ];
    let mut data = vec![];
    data.push(0);
    emit_fname(&mut data, 2, 0); // empty schema
    emit_i32(&mut data, 0);
    emit_i32(&mut data, 1); // one row
    emit_fname(&mut data, 3, 0);
    emit_str_property(&mut data, 0, 1, "first");
    emit_str_property(&mut data, 0, 1, "second");
    emit_fname(&mut data, 2, 0);
    let mut parser = UassetParser::new(data);
    parser.names = names;
    let table: DataTable = parser.read().expect("data table decodes");
    assert_eq!(table.rows.len(), 1);
    let row = &table.rows[0];
    assert_eq!(row.len(), 2);
    assert_eq!(row[1], ("Field".to_string(), "second".to_string()));
}
