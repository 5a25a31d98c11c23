use rust_uasset::data_table::DataTable;
use rust_uasset::errors::ParseError;
use rust_uasset::uasset_parser::UassetParser;

fn emit_i32(out: &mut Vec<u8>, v: i32) {
    out.extend_from_slice(&v.to_le_bytes());
}

fn emit_u32(out: &mut Vec<u8>, v: u32) {
    out.extend_from_slice(&v.to_le_bytes());
}

fn emit_u16(out: &mut Vec<u8>, v: u16) {
    out.extend_from_slice(&v.to_le_bytes());
}

fn emit_i64(out: &mut Vec<u8>, v: i64) {
    out.extend_from_slice(&v.to_le_bytes());
}

fn emit_fstring_narrow(out: &mut Vec<u8>, s: &str) {
    emit_i32(out, s.len() as i32 + 1);
    out.extend_from_slice(s.as_bytes());
    out.push(0);
}

struct SummaryParams {
    tag: u32,
    legacy: i32,
    engine_major: u16,
    engine_minor: u16,
    compression_flags: u32,
    compressed_chunks: i32,
    custom_versions: i32,
    export_offset: i32,
}

impl SummaryParams {
    fn plausible() -> Self {
        SummaryParams {
            tag: 0x9E2A83C1,
            legacy: -8,
            engine_major: 5,
            engine_minor: 4,
            compression_flags: 0,
            compressed_chunks: 0,
            custom_versions: 0,
            export_offset: 0,
        }
    }
}

/// Emits a summary for a legacy version of -8 with a UE5 object version
/// of zero (every later version gate off). Returns the byte positions of
/// the name-count, name-offset, export-count and export-offset fields so
/// callers can patch them once the tables are laid out.
fn emit_summary(out: &mut Vec<u8>, p: &SummaryParams) -> (usize, usize, usize, usize) {
    emit_u32(out, p.tag);
    emit_i32(out, p.legacy);
    emit_i32(out, 0); // legacy UE3 version
    emit_i32(out, 0); // UE4 object version
    emit_i32(out, 0); // UE5 object version (read because legacy <= -8)
    emit_u32(out, 0); // licensee version
    emit_i32(out, p.custom_versions); // custom-version records
    for _ in 0..p.custom_versions {
        out.extend_from_slice(&[0u8; 20]);
    }
    emit_i32(out, 4096); // total header size
    emit_fstring_narrow(out, "/Game/Test");
    emit_u32(out, 0); // package flags
    let name_count_pos = out.len();
    emit_i32(out, 0); // name count (patched)
    let name_offset_pos = out.len();
    emit_i32(out, 0); // name offset (patched)
    emit_fstring_narrow(out, ""); // localization id
    emit_i32(out, 0); // gatherable text count
    emit_i32(out, 0); // gatherable text offset
    let export_count_pos = out.len();
    emit_i32(out, 0); // export count (patched)
    let export_offset_pos = out.len();
    emit_i32(out, p.export_offset); // export offset (patched on success paths)
    emit_i32(out, 0); // import count
    emit_i32(out, 0); // import offset
    emit_i32(out, 0); // depends offset
    emit_i32(out, 0); // soft package references count
    emit_i32(out, 0); // soft package references offset
    emit_i32(out, 0); // searchable names offset
    emit_i32(out, 0); // thumbnail table offset
    out.extend_from_slice(&[0u8; 16]); // legacy GUID (version gate on)
    out.extend_from_slice(&[0u8; 16]); // persistent GUID
    emit_i32(out, 0); // generations: empty
    emit_u16(out, p.engine_major);
    emit_u16(out, p.engine_minor);
    emit_u16(out, 0);
    emit_u32(out, 0);
    emit_fstring_narrow(out, "");
    emit_u16(out, p.engine_major);
    emit_u16(out, p.engine_minor);
    emit_u16(out, 0);
    emit_u32(out, 0);
    emit_fstring_narrow(out, "");
    emit_u32(out, p.compression_flags);
    emit_i32(out, p.compressed_chunks);
    for _ in 0..p.compressed_chunks {
        out.extend_from_slice(&[0u8; 16]);
    }
    emit_u32(out, 0); // package source
    emit_i32(out, 0); // additional packages to cook: empty
    emit_i32(out, 0); // asset registry data offset
    emit_i64(out, 0); // bulk data start offset
    (name_count_pos, name_offset_pos, export_count_pos, export_offset_pos)
}

fn patch_i32(out: &mut [u8], pos: usize, v: i32) {
    out[pos..pos + 4].copy_from_slice(&v.to_le_bytes());
}

/// Emits one export record under a UE5 object version of zero: the
/// legacy GUID block is present, the inherited-instance and public-hash
/// words are not.
fn emit_export_entry(out: &mut Vec<u8>, name_index: i32, serial_offset: i64) {
    emit_i32(out, 1); // class index
    emit_i32(out, 0); // super index
    emit_i32(out, 0); // template index
    emit_i32(out, 0); // outer index
    emit_i32(out, name_index); // object name reference
    emit_i32(out, 0);
    emit_i32(out, 0); // object flags
    emit_i64(out, 64); // serial size
    emit_i64(out, serial_offset);
    emit_u32(out, 0); // force export
    emit_u32(out, 1); // not for client
    emit_u32(out, 0); // not for server
    out.extend_from_slice(&[0u8; 16]); // discarded legacy GUID
    emit_u32(out, 0); // package flags
    emit_u32(out, 0); // not always loaded for editor game
    emit_u32(out, 1); // is asset
    emit_i32(out, 0);
    emit_i32(out, 0);
    emit_i32(out, 0);
    emit_i32(out, 0);
    emit_i32(out, 0);
    emit_i64(out, 0);
    emit_i64(out, 0);
}

/// A complete synthetic package: summary, a name table of `name_count`
/// entries, and `export_count` export records.
fn build_asset(name_count: usize, export_count: usize) -> Vec<u8> {
    let mut data = vec![];
    let (ncp, nop, ecp, eop) = emit_summary(&mut data, &SummaryParams::plausible());
    let name_offset = data.len();
    for i in 0..name_count {
        emit_fstring_narrow(&mut data, &format!("Name_{}", i));
        emit_u32(&mut data, 0); // precalculated hash, read and discarded
    }
    let export_offset = data.len();
    for i in 0..export_count {
        emit_export_entry(&mut data, i as i32, 0x1000 + 0x40 * i as i64);
    }
    patch_i32(&mut data, ncp, name_count as i32);
    patch_i32(&mut data, nop, name_offset as i32);
    patch_i32(&mut data, ecp, export_count as i32);
    patch_i32(&mut data, eop, export_offset as i32);
    data
}

#[test]
fn test_uasset_summary_parser() {
    let mut parser = UassetParser::new(build_asset(30, 3));
    parser.parse_asset().expect("managed to parse the asset");
    let summary = parser.get_summary();

    assert_eq!(summary.export_count, 3);
    assert_eq!(summary.name_count, 30);

    assert_eq!(parser.names.len(), summary.name_count as usize);
    assert!(!parser.names.last().unwrap().is_empty());
    assert_eq!(parser.entries.len(), summary.export_count as usize);
}

#[test]
fn test_parse_asset_resolves_export_names() {
    let mut parser = UassetParser::new(build_asset(30, 3));
    parser.parse_asset().expect("managed to parse the asset");
    assert_eq!(parser.get_summary().tag, 0x9E2A83C1);
    assert_eq!(parser.get_summary().legacy_file_version, -8);
    assert_eq!(parser.get_summary().saved_by_engine_version_major, 5);
    assert_eq!(parser.get_summary().saved_by_engine_version_minor, 4);
    assert_eq!(parser.get_summary().package_name, "/Game/Test");
    assert_eq!(parser.entries[0].object_name.as_string(), "Name_0");
    assert_eq!(parser.entries[2].object_name.as_string(), "Name_2");
    assert_eq!(parser.entries[1].serial_offset, 0x1040);
    assert!(parser.entries[1].not_for_client);
    assert!(!parser.entries[1].not_for_server);
}

fn emit_type_name_plain(out: &mut Vec<u8>, name_index: i32) {
    emit_i32(out, name_index);
    emit_i32(out, 0);
    emit_i32(out, 0);
}

fn emit_str_property(out: &mut Vec<u8>, name_index: i32, str_index: i32, value: &str) {
    emit_i32(out, name_index);
    emit_i32(out, 0);
    emit_type_name_plain(out, str_index);
    emit_i32(out, value.len() as i32 + 5);
    out.push(0);
    emit_fstring_narrow(out, value);
}

/// A package whose second export is a data table: a three-property
/// schema and two rows.
fn build_table_asset() -> Vec<u8> {
    let names = [
        "DT_Table",
        "RowStruct",
        "Desc",
        "StrProperty",
        "RowA",
        "RowB",
        "None",
        "FloatProperty",
        "Weight",
    ];
    let mut data = vec![];
    let (ncp, nop, ecp, eop) = emit_summary(&mut data, &SummaryParams::plausible());
    let name_offset = data.len();
    for name in &names {
        emit_fstring_narrow(&mut data, name);
        emit_u32(&mut data, 0);
    }
    let export_offset = data.len();
    emit_export_entry(&mut data, 0, 0);
    emit_export_entry(&mut data, 1, 0);
    let body_offset = data.len();
    // The table body: row-struct flags, schema, row count, rows.
    data.push(0);
    emit_str_property(&mut data, 2, 3, "a");
    emit_str_property(&mut data, 2, 3, "b");
    emit_str_property(&mut data, 2, 3, "c");
    emit_i32(&mut data, 6); // schema terminator ("None")
    emit_i32(&mut data, 0);
    emit_i32(&mut data, 0); // the trailing four-byte pad
    emit_i32(&mut data, 2); // two rows
    // Row A: a string property and a skipped float property.
    emit_i32(&mut data, 4);
    emit_i32(&mut data, 0);
    emit_str_property(&mut data, 2, 3, "hello");
    emit_i32(&mut data, 8); // property named "Weight"
    emit_i32(&mut data, 0);
    emit_type_name_plain(&mut data, 7); // "FloatProperty", skipped
    emit_i32(&mut data, 4);
    data.push(0);
    data.extend_from_slice(&[0; 4]);
    emit_i32(&mut data, 6); // row terminator
    emit_i32(&mut data, 0);
    // Row B: only the terminator.
    emit_i32(&mut data, 5);
    emit_i32(&mut data, 0);
    emit_i32(&mut data, 6);
    emit_i32(&mut data, 0);
    patch_i32(&mut data, ncp, names.len() as i32);
    patch_i32(&mut data, nop, name_offset as i32);
    patch_i32(&mut data, ecp, 2);
    patch_i32(&mut data, eop, export_offset as i32);
    // Point the second export's serial offset at the table body. The
    // serial-offset field sits 36 bytes into the 120-byte record.
    let so_pos = export_offset + 120 + 36;
    data[so_pos..so_pos + 8].copy_from_slice(&(body_offset as i64).to_le_bytes());
    data
}

#[test]
fn test_export_data_parser() {
    let mut parser = UassetParser::new(build_table_asset());
    parser.parse_asset().expect("managed to parse the asset");
    assert_eq!(parser.entries.len(), 2);
    assert_eq!(parser.entries[1].object_name.as_string(), "RowStruct");

    let serial_offset = parser.entries[1].serial_offset;
    parser.seek(serial_offset as usize).expect("failed to seek");

    let table: DataTable = parser.read().expect("Failed to parse data table");
    assert_eq!(table.class_data.properties.len(), 3);
    assert_eq!(table.rows.len(), 2);
    assert_eq!(table.rows[0][0], ("Name".to_string(), "RowA".to_string()));
    assert_eq!(table.rows[0][1], ("Desc".to_string(), "hello".to_string()));
    assert_eq!(table.rows[0][2], ("Weight".to_string(), "".to_string()));
    assert_eq!(table.rows[1].len(), 1);
    assert_eq!(table.rows[1][0], ("Name".to_string(), "RowB".to_string()));
}

#[test]
fn test_error_descriptions_are_nonempty() {
    assert!(!ParseError::InvalidTag.describe().is_empty());
    assert!(!ParseError::Eof.describe().is_empty());
    assert!(!ParseError::CompressedChunksNotSupported.describe().is_empty());
}

#[test]
fn test_wrong_magic_tag_rejected() {
    let mut p = SummaryParams::plausible();
    p.tag = 0xDEADBEEF;
    let mut data = vec![];
    emit_summary(&mut data, &p);
    let mut parser = UassetParser::new(data);
    assert_eq!(parser.parse_asset(), Err(ParseError::InvalidTag));
}

#[test]
fn test_unsupported_legacy_version_rejected() {
    let mut p = SummaryParams::plausible();
    p.legacy = -6;
    let mut data = vec![];
    emit_summary(&mut data, &p);
    let mut parser = UassetParser::new(data);
    assert_eq!(
        parser.parse_asset(),
        Err(ParseError::UnsupportedLegacyVersion(-6))
    );
}

#[test]
fn test_engine_version_too_old_rejected() {
    let mut p = SummaryParams::plausible();
    p.engine_major = 4;
    p.engine_minor = 26;
    let mut data = vec![];
    emit_summary(&mut data, &p);
    let mut parser = UassetParser::new(data);
    assert_eq!(
        parser.parse_asset(),
        Err(ParseError::AssetVersionTooOld { major: 4, minor: 26 })
    );
}

#[test]
fn test_unversioned_asset_policy() {
    let mut p = SummaryParams::plausible();
    p.engine_major = 0;
    p.engine_minor = 0;
    let mut data = vec![];
    emit_summary(&mut data, &p);

    // Allowed by default: an engine version of zero is accepted.
    let mut parser = UassetParser::new(data.clone());
    parser
        .parse_asset()
        .expect("unversioned asset accepted by default");

    // Rejected when the session disallows unversioned assets.
    let mut strict = UassetParser::new(data);
    strict.allow_unversioned = false;
    assert_eq!(
        strict.parse_asset(),
        Err(ParseError::UnversionedAssetNotAllowed)
    );
}

#[test]
fn test_unknown_compression_flags_rejected() {
    let mut p = SummaryParams::plausible();
    p.compression_flags = 0x100;
    let mut data = vec![];
    emit_summary(&mut data, &p);
    let mut parser = UassetParser::new(data);
    assert_eq!(
        parser.parse_asset(),
        Err(ParseError::InvalidCompressionFlags)
    );
}

#[test]
fn test_compressed_chunks_rejected() {
    let mut p = SummaryParams::plausible();
    p.compressed_chunks = 1;
    let mut data = vec![];
    emit_summary(&mut data, &p);
    let mut parser = UassetParser::new(data);
    assert_eq!(
        parser.parse_asset(),
        Err(ParseError::CompressedChunksNotSupported)
    );
}

#[test]
fn test_out_of_bounds_offset_rejected() {
    let mut p = SummaryParams::plausible();
    p.export_offset = 0x7F00_0000; // past the sane 64 MiB bound
    let mut data = vec![];
    emit_summary(&mut data, &p);
    let mut parser = UassetParser::new(data);
    assert_eq!(
        parser.parse_asset(),
        Err(ParseError::InvalidFileOffset(0x7F00_0000))
    );
}

#[test]
fn test_old_layout_custom_versions_accepted() {
    // In the pre-saved-hash layout the header size follows the
    // custom-version array, so the array is bounded by the fixed large
    // ceiling; a non-empty table must still decode.
    let mut p = SummaryParams::plausible();
    p.custom_versions = 3;
    let mut data = vec![];
    emit_summary(&mut data, &p);
    let mut parser = UassetParser::new(data);
    parser.parse_asset().expect("custom versions accepted in the old layout");
    assert_eq!(parser.get_summary().custom_versions.len(), 3);
}

#[test]
fn test_failed_decode_leaves_no_partial_state() {
    // Decode a good package, then re-decode after swapping in a bad one:
    // the failure must clear every decoded table, not leave the new
    // summary beside the old names.
    let mut parser = UassetParser::new(build_asset(4, 1));
    parser.parse_asset().expect("managed to parse the asset");
    assert_eq!(parser.names.len(), 4);

    let mut bad = build_asset(4, 1);
    bad.truncate(40);
    parser.data = bad;
    assert_eq!(parser.parse_asset(), Err(ParseError::Eof));
    assert!(parser.summary.is_none());
    assert!(parser.names.is_empty());
    assert!(parser.entries.is_empty());
}

#[test]
fn test_negative_name_count_rejected() {
    let mut data = vec![];
    let (ncp, nop, _ecp, _eop) = emit_summary(&mut data, &SummaryParams::plausible());
    let end = data.len() as i32;
    patch_i32(&mut data, ncp, -5);
    patch_i32(&mut data, nop, end);
    let mut parser = UassetParser::new(data);
    assert_eq!(parser.parse_asset(), Err(ParseError::InvalidArraySize(-5)));
}

#[test]
fn test_negative_export_count_rejected() {
    let mut data = vec![];
    let (_ncp, _nop, ecp, _eop) = emit_summary(&mut data, &SummaryParams::plausible());
    patch_i32(&mut data, ecp, -2);
    let mut parser = UassetParser::new(data);
    assert_eq!(parser.parse_asset(), Err(ParseError::InvalidArraySize(-2)));
}

#[test]
fn test_truncated_summary_rejected() {
    let data = build_asset(2, 1);
    let mut parser = UassetParser::new(data[..40].to_vec());
    assert_eq!(parser.parse_asset(), Err(ParseError::Eof));
}
