//! The package summary: the file-level header describing table offsets,
//! counts and version metadata. Its layout evolves across engine versions;
//! many fields are present only when the file's object version passes a
//! named checkpoint, so they are optional here.

use vstd::prelude::*;
use crate::errors::ParseError;
use crate::primitives::{
    deep_bytes, deep_strings, le_i32_at, opt_bytes, sp_bytes, sp_fstring, sp_i32, sp_i64,
    sp_tarray_bytes, sp_tarray_fstrings, sp_u16, sp_u32,
};
use crate::uasset_parser::{
    same_except_cursor, sp_check_asset_version, sp_check_compression_flags, sp_check_file_offset,
    Parsable, UassetParser,
};
use crate::versions::{
    UE5_ADD_SOFT_OBJECT_PATH_LIST, UE5_METADATA_SERIALIZATION_OFFSET, UE5_PACKAGE_SAVED_HASH,
    UE5_VERSE_CELLS,
};
use crate::PACKAGE_FILE_TAG;

verus! {

/// The decoded package summary. Byte-array fields of the on-disk layout
/// (hashes, GUIDs, opaque records) are held as byte vectors of the
/// corresponding fixed length.
pub struct UassetSummary {
    pub tag: u32,
    pub legacy_file_version: i32,
    pub legacy_ue3_version: i32,
    pub file_version_ue4: i32,
    pub file_version_ue5: i32,
    pub file_version_licensee_ue4: u32,
    pub saved_hash: Option<Vec<u8>>,
    pub total_header_size: i32,
    pub custom_versions: Vec<Vec<u8>>,
    pub package_name: String,
    pub package_flags: u32,
    pub name_count: i32,
    pub name_offset: i32,
    pub soft_object_paths_count: Option<i32>,
    pub soft_object_paths_offset: Option<i32>,
    pub localization_id: String,
    pub gatherable_text_data_count: i32,
    pub gatherable_text_data_offset: i32,
    pub export_count: i32,
    pub export_offset: i32,
    pub import_count: i32,
    pub import_offset: i32,
    pub cell_export_count: Option<i32>,
    pub cell_export_offset: Option<i32>,
    pub cell_import_count: Option<i32>,
    pub cell_import_offset: Option<i32>,
    pub metadata_offset: Option<i32>,
    pub depends_offset: i32,
    pub soft_package_references_count: i32,
    pub soft_package_references_offset: i32,
    pub searchable_names_offset: i32,
    pub thumbnail_table_offset: i32,
    pub guid: Option<Vec<u8>>,
    pub persistent_guid: Vec<u8>,
    pub generations: Vec<Vec<u8>>,
    pub saved_by_engine_version_major: u16,
    pub saved_by_engine_version_minor: u16,
    pub saved_by_engine_version_patch: u16,
    pub saved_by_engine_version_changelist: u32,
    pub saved_by_engine_version_name: String,
    pub compatible_engine_version_major: u16,
    pub compatible_engine_version_minor: u16,
    pub compatible_engine_version_patch: u16,
    pub compatible_engine_version_changelist: u32,
    pub compatible_engine_version_name: String,
    pub compression_flags: u32,
    pub compressed_chunks: Vec<Vec<u8>>,
    pub package_source: u32,
    pub additional_packages_to_cook: Vec<String>,
    pub asset_registry_data_offset: i32,
    pub bulk_data_start_offset: i64,
}

/// Mathematical model of a [`UassetSummary`].
pub struct SpSummary {
    pub tag: u32,
    pub legacy_file_version: i32,
    pub legacy_ue3_version: i32,
    pub file_version_ue4: i32,
    pub file_version_ue5: i32,
    pub file_version_licensee_ue4: u32,
    pub saved_hash: Option<Seq<u8>>,
    pub total_header_size: i32,
    pub custom_versions: Seq<Seq<u8>>,
    pub package_name: Seq<char>,
    pub package_flags: u32,
    pub name_count: i32,
    pub name_offset: i32,
    pub soft_object_paths_count: Option<i32>,
    pub soft_object_paths_offset: Option<i32>,
    pub localization_id: Seq<char>,
    pub gatherable_text_data_count: i32,
    pub gatherable_text_data_offset: i32,
    pub export_count: i32,
    pub export_offset: i32,
    pub import_count: i32,
    pub import_offset: i32,
    pub cell_export_count: Option<i32>,
    pub cell_export_offset: Option<i32>,
    pub cell_import_count: Option<i32>,
    pub cell_import_offset: Option<i32>,
    pub metadata_offset: Option<i32>,
    pub depends_offset: i32,
    pub soft_package_references_count: i32,
    pub soft_package_references_offset: i32,
    pub searchable_names_offset: i32,
    pub thumbnail_table_offset: i32,
    pub guid: Option<Seq<u8>>,
    pub persistent_guid: Seq<u8>,
    pub generations: Seq<Seq<u8>>,
    pub saved_by_engine_version_major: u16,
    pub saved_by_engine_version_minor: u16,
    pub saved_by_engine_version_patch: u16,
    pub saved_by_engine_version_changelist: u32,
    pub saved_by_engine_version_name: Seq<char>,
    pub compatible_engine_version_major: u16,
    pub compatible_engine_version_minor: u16,
    pub compatible_engine_version_patch: u16,
    pub compatible_engine_version_changelist: u32,
    pub compatible_engine_version_name: Seq<char>,
    pub compression_flags: u32,
    pub compressed_chunks: Seq<Seq<u8>>,
    pub package_source: u32,
    pub additional_packages_to_cook: Seq<Seq<char>>,
    pub asset_registry_data_offset: i32,
    pub bulk_data_start_offset: i64,
}

impl View for UassetSummary {
    type V = SpSummary;

    open spec fn view(&self) -> SpSummary {
        SpSummary {
            tag: self.tag,
            legacy_file_version: self.legacy_file_version,
            legacy_ue3_version: self.legacy_ue3_version,
            file_version_ue4: self.file_version_ue4,
            file_version_ue5: self.file_version_ue5,
            file_version_licensee_ue4: self.file_version_licensee_ue4,
            saved_hash: opt_bytes(self.saved_hash),
            total_header_size: self.total_header_size,
            custom_versions: deep_bytes(self.custom_versions),
            package_name: self.package_name@,
            package_flags: self.package_flags,
            name_count: self.name_count,
            name_offset: self.name_offset,
            soft_object_paths_count: self.soft_object_paths_count,
            soft_object_paths_offset: self.soft_object_paths_offset,
            localization_id: self.localization_id@,
            gatherable_text_data_count: self.gatherable_text_data_count,
            gatherable_text_data_offset: self.gatherable_text_data_offset,
            export_count: self.export_count,
            export_offset: self.export_offset,
            import_count: self.import_count,
            import_offset: self.import_offset,
            cell_export_count: self.cell_export_count,
            cell_export_offset: self.cell_export_offset,
            cell_import_count: self.cell_import_count,
            cell_import_offset: self.cell_import_offset,
            metadata_offset: self.metadata_offset,
            depends_offset: self.depends_offset,
            soft_package_references_count: self.soft_package_references_count,
            soft_package_references_offset: self.soft_package_references_offset,
            searchable_names_offset: self.searchable_names_offset,
            thumbnail_table_offset: self.thumbnail_table_offset,
            guid: opt_bytes(self.guid),
            persistent_guid: self.persistent_guid@,
            generations: deep_bytes(self.generations),
            saved_by_engine_version_major: self.saved_by_engine_version_major,
            saved_by_engine_version_minor: self.saved_by_engine_version_minor,
            saved_by_engine_version_patch: self.saved_by_engine_version_patch,
            saved_by_engine_version_changelist: self.saved_by_engine_version_changelist,
            saved_by_engine_version_name: self.saved_by_engine_version_name@,
            compatible_engine_version_major: self.compatible_engine_version_major,
            compatible_engine_version_minor: self.compatible_engine_version_minor,
            compatible_engine_version_patch: self.compatible_engine_version_patch,
            compatible_engine_version_changelist: self.compatible_engine_version_changelist,
            compatible_engine_version_name: self.compatible_engine_version_name@,
            compression_flags: self.compression_flags,
            compressed_chunks: deep_bytes(self.compressed_chunks),
            package_source: self.package_source,
            additional_packages_to_cook: deep_strings(self.additional_packages_to_cook),
            asset_registry_data_offset: self.asset_registry_data_offset,
            bulk_data_start_offset: self.bulk_data_start_offset,
        }
    }
}

/// The all-zero, all-empty summary every decode starts from; fields are
/// then filled in strict on-disk order.
pub open spec fn sp_summary_init() -> SpSummary {
    SpSummary {
        tag: 0,
        legacy_file_version: 0,
        legacy_ue3_version: 0,
        file_version_ue4: 0,
        file_version_ue5: 0,
        file_version_licensee_ue4: 0,
        saved_hash: None,
        total_header_size: 0,
        custom_versions: Seq::empty(),
        package_name: Seq::empty(),
        package_flags: 0,
        name_count: 0,
        name_offset: 0,
        soft_object_paths_count: None,
        soft_object_paths_offset: None,
        localization_id: Seq::empty(),
        gatherable_text_data_count: 0,
        gatherable_text_data_offset: 0,
        export_count: 0,
        export_offset: 0,
        import_count: 0,
        import_offset: 0,
        cell_export_count: None,
        cell_export_offset: None,
        cell_import_count: None,
        cell_import_offset: None,
        metadata_offset: None,
        depends_offset: 0,
        soft_package_references_count: 0,
        soft_package_references_offset: 0,
        searchable_names_offset: 0,
        thumbnail_table_offset: 0,
        guid: None,
        persistent_guid: Seq::empty(),
        generations: Seq::empty(),
        saved_by_engine_version_major: 0,
        saved_by_engine_version_minor: 0,
        saved_by_engine_version_patch: 0,
        saved_by_engine_version_changelist: 0,
        saved_by_engine_version_name: Seq::empty(),
        compatible_engine_version_major: 0,
        compatible_engine_version_minor: 0,
        compatible_engine_version_patch: 0,
        compatible_engine_version_changelist: 0,
        compatible_engine_version_name: Seq::empty(),
        compression_flags: 0,
        compressed_chunks: Seq::empty(),
        package_source: 0,
        additional_packages_to_cook: Seq::empty(),
        asset_registry_data_offset: 0,
        bulk_data_start_offset: 0,
    }
}

impl Default for UassetSummary {
    /// The summary a decode starts from, with every field zero or empty.
    fn default() -> (s: Self)
        ensures
            s@ == sp_summary_init(),
    {
        let s = UassetSummary {
            tag: 0,
            legacy_file_version: 0,
            legacy_ue3_version: 0,
            file_version_ue4: 0,
            file_version_ue5: 0,
            file_version_licensee_ue4: 0,
            saved_hash: None,
            total_header_size: 0,
            custom_versions: Vec::new(),
            package_name: String::new(),
            package_flags: 0,
            name_count: 0,
            name_offset: 0,
            soft_object_paths_count: None,
            soft_object_paths_offset: None,
            localization_id: String::new(),
            gatherable_text_data_count: 0,
            gatherable_text_data_offset: 0,
            export_count: 0,
            export_offset: 0,
            import_count: 0,
            import_offset: 0,
            cell_export_count: None,
            cell_export_offset: None,
            cell_import_count: None,
            cell_import_offset: None,
            metadata_offset: None,
            depends_offset: 0,
            soft_package_references_count: 0,
            soft_package_references_offset: 0,
            searchable_names_offset: 0,
            thumbnail_table_offset: 0,
            guid: None,
            persistent_guid: Vec::new(),
            generations: Vec::new(),
            saved_by_engine_version_major: 0,
            saved_by_engine_version_minor: 0,
            saved_by_engine_version_patch: 0,
            saved_by_engine_version_changelist: 0,
            saved_by_engine_version_name: String::new(),
            compatible_engine_version_major: 0,
            compatible_engine_version_minor: 0,
            compatible_engine_version_patch: 0,
            compatible_engine_version_changelist: 0,
            compatible_engine_version_name: String::new(),
            compression_flags: 0,
            compressed_chunks: Vec::new(),
            package_source: 0,
            additional_packages_to_cook: Vec::new(),
            asset_registry_data_offset: 0,
            bulk_data_start_offset: 0,
        };
        proof {
            assert(deep_bytes(s.custom_versions) =~= Seq::<Seq<u8>>::empty());
            assert(deep_bytes(s.generations) =~= Seq::<Seq<u8>>::empty());
            assert(deep_bytes(s.compressed_chunks) =~= Seq::<Seq<u8>>::empty());
            assert(deep_strings(s.additional_packages_to_cook) =~= Seq::<Seq<char>>::empty());
        }
        s
    }
}

/// Reads the version block that opens every summary: the magic tag, the
/// legacy file version (one of the known negative codes), the retired
/// UE3 version, the UE4 object version, the UE5 object version (present
/// only for new-enough legacy versions, zero otherwise), and the licensee
/// version.
pub open spec fn sp_sum_versions(s: Seq<u8>, pos: int, cur: SpSummary) -> Result<
    (SpSummary, int),
    ParseError,
> {
    match sp_u32(s, pos) {
        Err(e) => Err(e),
        Ok((tag, p1)) => if tag != PACKAGE_FILE_TAG {
            Err(ParseError::InvalidTag)
        } else {
            match sp_i32(s, p1) {
                Err(e) => Err(e),
                Ok((legacy, p2)) => if legacy != -7i32 && legacy != -8i32 && legacy != -9i32 {
                    Err(ParseError::UnsupportedLegacyVersion(legacy))
                } else {
                    match sp_i32(s, p2) {
                        Err(e) => Err(e),
                        Ok((ue3, p3)) => match sp_i32(s, p3) {
                            Err(e) => Err(e),
                            Ok((ue4, p4)) => match (if legacy <= -8i32 {
                                sp_i32(s, p4)
                            } else {
                                Ok((0i32, p4))
                            }) {
                                Err(e) => Err(e),
                                Ok((ue5, p5)) => match sp_u32(s, p5) {
                                    Err(e) => Err(e),
                                    Ok((licensee, p6)) => Ok(
                                        (
                                            SpSummary {
                                                tag,
                                                legacy_file_version: legacy,
                                                legacy_ue3_version: ue3,
                                                file_version_ue4: ue4,
                                                file_version_ue5: ue5,
                                                file_version_licensee_ue4: licensee,
                                                ..cur
                                            },
                                            p6,
                                        ),
                                    ),
                                },
                            },
                        },
                    }
                },
            }
        },
    }
}

/// Reads the saved hash and header size (in their version-dependent
/// place around the custom-version array): from the hash-introducing
/// version onward the 20-byte hash and the header size come first, then
/// the custom versions; before it the custom versions come first and the
/// header size follows.
///
/// The custom-version array's element ceiling depends on what is known
/// when the array is reached: from the hash-introducing version onward
/// the header size has just been read, so the ceiling is byte-budget
/// derived (remaining header bytes divided by the 20-byte element
/// size); in the older layout the header-size field follows the array
/// and no budget exists yet, so the array is bounded by a fixed large
/// ceiling instead.
pub open spec fn sp_sum_hash_customs(s: Seq<u8>, pos: int, cur: SpSummary) -> Result<
    (SpSummary, int),
    ParseError,
> {
    match (if cur.file_version_ue5 >= UE5_PACKAGE_SAVED_HASH {
        match sp_bytes(s, pos, 20) {
            Err(e) => Err(e),
            Ok((hash, p1)) => match sp_i32(s, p1) {
                Err(e) => Err(e),
                Ok((ths, p2)) => Ok(
                    (SpSummary { saved_hash: Some(hash), total_header_size: ths, ..cur }, p2),
                ),
            },
        }
    } else {
        Ok((cur, pos))
    }) {
        Err(e) => Err(e),
        Ok((cur1, p2)) => match sp_tarray_bytes(
            s,
            p2,
            20,
            if cur1.file_version_ue5 >= UE5_PACKAGE_SAVED_HASH {
                sp_budget(cur1.total_header_size, p2, 20)
            } else {
                100000
            },
        ) {
            Err(e) => Err(e),
            Ok((cv, p3)) => if cur1.file_version_ue5 < UE5_PACKAGE_SAVED_HASH {
                match sp_i32(s, p3) {
                    Err(e) => Err(e),
                    Ok((ths, p4)) => Ok(
                        (
                            SpSummary {
                                custom_versions: cv,
                                total_header_size: ths,
                                ..cur1
                            },
                            p4,
                        ),
                    ),
                }
            } else {
                Ok((SpSummary { custom_versions: cv, ..cur1 }, p3))
            },
        },
    }
}

/// Reads the package name, package flags, name table count and offset,
/// the soft-object-path count and offset (present only from their
/// introducing version), and the localization identifier.
pub open spec fn sp_sum_names(s: Seq<u8>, pos: int, cur: SpSummary) -> Result<
    (SpSummary, int),
    ParseError,
> {
    match sp_fstring(s, pos) {
        Err(e) => Err(e),
        Ok((package_name, p1)) => match sp_u32(s, p1) {
            Err(e) => Err(e),
            Ok((package_flags, p2)) => match sp_i32(s, p2) {
                Err(e) => Err(e),
                Ok((name_count, p3)) => match sp_i32(s, p3) {
                    Err(e) => Err(e),
                    Ok((name_offset, p4)) => match (if cur.file_version_ue5
                        >= UE5_ADD_SOFT_OBJECT_PATH_LIST {
                        match sp_i32(s, p4) {
                            Err(e) => Err(e),
                            Ok((sc, p5)) => match sp_i32(s, p5) {
                                Err(e) => Err(e),
                                Ok((so, p6)) => Ok(((Some(sc), Some(so)), p6)),
                            },
                        }
                    } else {
                        Ok(((cur.soft_object_paths_count, cur.soft_object_paths_offset), p4))
                    }) {
                        Err(e) => Err(e),
                        Ok((soft, p6)) => match sp_fstring(s, p6) {
                            Err(e) => Err(e),
                            Ok((localization_id, p7)) => Ok(
                                (
                                    SpSummary {
                                        package_name,
                                        package_flags,
                                        name_count,
                                        name_offset,
                                        soft_object_paths_count: soft.0,
                                        soft_object_paths_offset: soft.1,
                                        localization_id,
                                        ..cur
                                    },
                                    p7,
                                ),
                            ),
                        },
                    },
                },
            },
        },
    }
}

/// The byte length of the fixed-width block of table counts, offsets and
/// GUIDs, under the given object version.
pub open spec fn sp_sum_counts_len(ue5: i32) -> int {
    60 + (if ue5 >= UE5_VERSE_CELLS {
        16int
    } else {
        0int
    }) + (if ue5 >= UE5_METADATA_SERIALIZATION_OFFSET {
        4int
    } else {
        0int
    }) + (if ue5 < UE5_PACKAGE_SAVED_HASH {
        16int
    } else {
        0int
    })
}

/// Reads the fixed-width block of table counts and offsets: gatherable
/// text data, exports, imports, the cell tables (from their introducing
/// version), the metadata offset (likewise), dependency and
/// soft-package-reference tables, searchable names, thumbnails, the
/// legacy per-file GUID (only before the saved-hash version), and the
/// persistent GUID.
pub open spec fn sp_sum_counts(s: Seq<u8>, pos: int, cur: SpSummary) -> Result<
    (SpSummary, int),
    ParseError,
> {
    let gc = cur.file_version_ue5 >= UE5_VERSE_CELLS;
    let gm = cur.file_version_ue5 >= UE5_METADATA_SERIALIZATION_OFFSET;
    let gg = cur.file_version_ue5 < UE5_PACKAGE_SAVED_HASH;
    let total = sp_sum_counts_len(cur.file_version_ue5);
    if pos < 0 || pos + total > s.len() {
        Err(ParseError::Eof)
    } else {
        let p_cells = pos + 24;
        let p_meta = p_cells + (if gc {
            16int
        } else {
            0int
        });
        let p_dep = p_meta + (if gm {
            4int
        } else {
            0int
        });
        let p_guid = p_dep + 20;
        let p_pg = p_guid + (if gg {
            16int
        } else {
            0int
        });
        Ok(
            (
                SpSummary {
                    gatherable_text_data_count: le_i32_at(s, pos),
                    gatherable_text_data_offset: le_i32_at(s, pos + 4),
                    export_count: le_i32_at(s, pos + 8),
                    export_offset: le_i32_at(s, pos + 12),
                    import_count: le_i32_at(s, pos + 16),
                    import_offset: le_i32_at(s, pos + 20),
                    cell_export_count: if gc {
                        Some(le_i32_at(s, p_cells))
                    } else {
                        cur.cell_export_count
                    },
                    cell_export_offset: if gc {
                        Some(le_i32_at(s, p_cells + 4))
                    } else {
                        cur.cell_export_offset
                    },
                    cell_import_count: if gc {
                        Some(le_i32_at(s, p_cells + 8))
                    } else {
                        cur.cell_import_count
                    },
                    cell_import_offset: if gc {
                        Some(le_i32_at(s, p_cells + 12))
                    } else {
                        cur.cell_import_offset
                    },
                    metadata_offset: if gm {
                        Some(le_i32_at(s, p_meta))
                    } else {
                        cur.metadata_offset
                    },
                    depends_offset: le_i32_at(s, p_dep),
                    soft_package_references_count: le_i32_at(s, p_dep + 4),
                    soft_package_references_offset: le_i32_at(s, p_dep + 8),
                    searchable_names_offset: le_i32_at(s, p_dep + 12),
                    thumbnail_table_offset: le_i32_at(s, p_dep + 16),
                    guid: if gg {
                        Some(s.subrange(p_guid, p_guid + 16))
                    } else {
                        cur.guid
                    },
                    persistent_guid: s.subrange(p_pg, p_pg + 16),
                    ..cur
                },
                pos + total,
            ),
        )
    }
}

/// Validates every offset field read so far against the sane bound, in
/// the order the fields were read.
pub open spec fn sp_sum_offset_checks(cur: SpSummary) -> Result<(), ParseError> {
    match sp_check_file_offset(cur.gatherable_text_data_offset as i64) {
        Err(e) => Err(e),
        Ok(_) => match sp_check_file_offset(cur.export_offset as i64) {
            Err(e) => Err(e),
            Ok(_) => match sp_check_file_offset(cur.import_offset as i64) {
                Err(e) => Err(e),
                Ok(_) => match sp_check_file_offset(cur.depends_offset as i64) {
                    Err(e) => Err(e),
                    Ok(_) => match sp_check_file_offset(
                        cur.soft_package_references_offset as i64,
                    ) {
                        Err(e) => Err(e),
                        Ok(_) => match sp_check_file_offset(cur.searchable_names_offset as i64) {
                            Err(e) => Err(e),
                            Ok(_) => sp_check_file_offset(cur.thumbnail_table_offset as i64),
                        },
                    },
                },
            },
        },
    }
}

/// The element ceiling for a header-embedded variable array: the header
/// bytes remaining past the cursor (per the declared total header size,
/// reinterpreted unsigned as the decoder does), divided by the element
/// size.
pub open spec fn sp_budget(total_header_size: i32, pos: int, elem: int) -> int {
    let ths = if total_header_size >= 0 {
        total_header_size as int
    } else {
        total_header_size + 0x1_0000_0000_0000_0000
    };
    let rem = if ths >= pos + 1 {
        ths - (pos + 1)
    } else {
        0
    };
    rem / elem
}

/// Reads the generations array (with a byte-budget-derived element
/// ceiling) and the two engine-version blocks (saved-by and compatible),
/// then validates the saving engine release against the version policy.
pub open spec fn sp_sum_engine(
    s: Seq<u8>,
    pos: int,
    cur: SpSummary,
    allow_unversioned: bool,
) -> Result<(SpSummary, int), ParseError> {
    match sp_tarray_bytes(s, pos, 8, sp_budget(cur.total_header_size, pos, 8)) {
        Err(e) => Err(e),
        Ok((generations, p1)) => match sp_u16(s, p1) {
            Err(e) => Err(e),
            Ok((s_major, p2)) => match sp_u16(s, p2) {
                Err(e) => Err(e),
                Ok((s_minor, p3)) => match sp_u16(s, p3) {
                    Err(e) => Err(e),
                    Ok((s_patch, p4)) => match sp_u32(s, p4) {
                        Err(e) => Err(e),
                        Ok((s_cl, p5)) => match sp_fstring(s, p5) {
                            Err(e) => Err(e),
                            Ok((s_name, p6)) => match sp_u16(s, p6) {
                                Err(e) => Err(e),
                                Ok((c_major, p7)) => match sp_u16(s, p7) {
                                    Err(e) => Err(e),
                                    Ok((c_minor, p8)) => match sp_u16(s, p8) {
                                        Err(e) => Err(e),
                                        Ok((c_patch, p9)) => match sp_u32(s, p9) {
                                            Err(e) => Err(e),
                                            Ok((c_cl, p10)) => match sp_fstring(s, p10) {
                                                Err(e) => Err(e),
                                                Ok((c_name, p11)) => match sp_check_asset_version(
                                                    allow_unversioned,
                                                    s_major,
                                                    s_minor,
                                                ) {
                                                    Err(e) => Err(e),
                                                    Ok(_) => Ok(
                                                        (
                                                            SpSummary {
                                                                generations,
                                                                saved_by_engine_version_major: s_major,
                                                                saved_by_engine_version_minor: s_minor,
                                                                saved_by_engine_version_patch: s_patch,
                                                                saved_by_engine_version_changelist: s_cl,
                                                                saved_by_engine_version_name: s_name,
                                                                compatible_engine_version_major: c_major,
                                                                compatible_engine_version_minor: c_minor,
                                                                compatible_engine_version_patch: c_patch,
                                                                compatible_engine_version_changelist: c_cl,
                                                                compatible_engine_version_name: c_name,
                                                                ..cur
                                                            },
                                                            p11,
                                                        ),
                                                    ),
                                                },
                                            },
                                        },
                                    },
                                },
                            },
                        },
                    },
                },
            },
        },
    }
}

/// Reads and validates the compression flags, reads the compressed-chunk
/// table (budget-bounded) and rejects a non-empty one, then the package
/// source, the additional-packages-to-cook list (budget-bounded), the
/// asset-registry offset and the bulk-data offset, validating both.
pub open spec fn sp_sum_tail(s: Seq<u8>, pos: int, cur: SpSummary) -> Result<
    (SpSummary, int),
    ParseError,
> {
    match sp_u32(s, pos) {
        Err(e) => Err(e),
        Ok((compression_flags, p1)) => match sp_check_compression_flags(compression_flags) {
            Err(e) => Err(e),
            Ok(_) => match sp_tarray_bytes(s, p1, 16, sp_budget(cur.total_header_size, p1, 16)) {
                Err(e) => Err(e),
                Ok((chunks, p2)) => if chunks.len() != 0 {
                    Err(ParseError::CompressedChunksNotSupported)
                } else {
                    match sp_u32(s, p2) {
                        Err(e) => Err(e),
                        Ok((package_source, p3)) => match sp_tarray_fstrings(
                            s,
                            p3,
                            sp_budget(cur.total_header_size, p3, 1),
                        ) {
                            Err(e) => Err(e),
                            Ok((packages, p4)) => match sp_i32(s, p4) {
                                Err(e) => Err(e),
                                Ok((ar_off, p5)) => match sp_i64(s, p5) {
                                    Err(e) => Err(e),
                                    Ok((bulk_off, p6)) => match sp_check_file_offset(
                                        ar_off as i64,
                                    ) {
                                        Err(e) => Err(e),
                                        Ok(_) => match sp_check_file_offset(bulk_off) {
                                            Err(e) => Err(e),
                                            Ok(_) => Ok(
                                                (
                                                    SpSummary {
                                                        compression_flags,
                                                        compressed_chunks: chunks,
                                                        package_source,
                                                        additional_packages_to_cook: packages,
                                                        asset_registry_data_offset: ar_off,
                                                        bulk_data_start_offset: bulk_off,
                                                        ..cur
                                                    },
                                                    p6,
                                                ),
                                            ),
                                        },
                                    },
                                },
                            },
                        },
                    }
                },
            },
        },
    }
}

/// Reads a whole package summary from the start of the byte source:
/// every field in strict on-disk order, with presence gated by the
/// version fields read first, and every validation applied where the
/// decoder reaches it. No partial summary is usable: the first failure
/// is the result.
pub open spec fn sp_package_summary(s: Seq<u8>, allow_unversioned: bool) -> Result<
    (SpSummary, int),
    ParseError,
> {
    match sp_sum_versions(s, 0, sp_summary_init()) {
        Err(e) => Err(e),
        Ok((c1, p1)) => match sp_sum_hash_customs(s, p1, c1) {
            Err(e) => Err(e),
            Ok((c2, p2)) => match sp_sum_names(s, p2, c2) {
                Err(e) => Err(e),
                Ok((c3, p3)) => match sp_sum_counts(s, p3, c3) {
                    Err(e) => Err(e),
                    Ok((c4, p4)) => match sp_sum_offset_checks(c4) {
                        Err(e) => Err(e),
                        Ok(_) => match sp_sum_engine(s, p4, c4, allow_unversioned) {
                            Err(e) => Err(e),
                            Ok((c5, p5)) => sp_sum_tail(s, p5, c5),
                        },
                    },
                },
            },
        },
    }
}

impl UassetParser {
    /// The element ceiling for a header-embedded variable array: header
    /// bytes remaining past the cursor divided by the element size.
    fn header_budget(&self, total_header_size: i32, elem: u64) -> (r: u64)
        requires
            elem >= 1,
        ensures
            r as int == sp_budget(total_header_size, self.pos as int, elem as int),
    {
        let ths: u64 = if total_header_size >= 0 {
            total_header_size as u64
        } else {
            0xFFFF_FFFF_FFFF_FFFFu64 - ((-(total_header_size as i64)) as u64) + 1
        };
        if ths > self.pos as u64 {
            (ths - self.pos as u64 - 1) / elem
        } else {
            0
        }
    }

    fn parse_sum_versions(&mut self, sum: &mut UassetSummary) -> (r: Result<(), ParseError>)
        ensures
            same_except_cursor(*old(self), *final(self)),
            match r {
                Ok(_) => sp_sum_versions(old(self).data@, old(self).pos as int, old(sum)@)
                    == Ok::<(SpSummary, int), ParseError>((final(sum)@, final(self).pos as int)),
                Err(e) => sp_sum_versions(old(self).data@, old(self).pos as int, old(sum)@)
                    == Err::<(SpSummary, int), ParseError>(e),
            },
    {
        let tag = match self.read_u32() {
            Ok(v) => v,
            Err(e) => return Err(e),
        };
        if tag != PACKAGE_FILE_TAG {
            return Err(ParseError::InvalidTag);
        }
        sum.tag = tag;
        let legacy = match self.read_i32() {
            Ok(v) => v,
            Err(e) => return Err(e),
        };
        if legacy != -7 && legacy != -8 && legacy != -9 {
            return Err(ParseError::UnsupportedLegacyVersion(legacy));
        }
        sum.legacy_file_version = legacy;
        sum.legacy_ue3_version = match self.read_i32() {
            Ok(v) => v,
            Err(e) => return Err(e),
        };
        sum.file_version_ue4 = match self.read_i32() {
            Ok(v) => v,
            Err(e) => return Err(e),
        };
        sum.file_version_ue5 = if legacy <= -8 {
            match self.read_i32() {
                Ok(v) => v,
                Err(e) => return Err(e),
            }
        } else {
            0
        };
        sum.file_version_licensee_ue4 = match self.read_u32() {
            Ok(v) => v,
            Err(e) => return Err(e),
        };
        Ok(())
    }

    fn parse_sum_hash_customs(&mut self, sum: &mut UassetSummary) -> (r: Result<(), ParseError>)
        ensures
            same_except_cursor(*old(self), *final(self)),
            match r {
                Ok(_) => sp_sum_hash_customs(old(self).data@, old(self).pos as int, old(sum)@)
                    == Ok::<(SpSummary, int), ParseError>((final(sum)@, final(self).pos as int)),
                Err(e) => sp_sum_hash_customs(old(self).data@, old(self).pos as int, old(sum)@)
                    == Err::<(SpSummary, int), ParseError>(e),
            },
    {
        if sum.file_version_ue5 >= UE5_PACKAGE_SAVED_HASH {
            let hash = match self.read_bytes(20) {
                Ok(v) => v,
                Err(e) => return Err(e),
            };
            sum.saved_hash = Some(hash);
            sum.total_header_size = match self.read_i32() {
                Ok(v) => v,
                Err(e) => return Err(e),
            };
        }
        let budget: u64 = if sum.file_version_ue5 >= UE5_PACKAGE_SAVED_HASH {
            self.header_budget(sum.total_header_size, 20)
        } else {
            100000
        };
        sum.custom_versions = match self.read_tarray_bytes(20, budget) {
            Ok(v) => v,
            Err(e) => return Err(e),
        };
        if sum.file_version_ue5 < UE5_PACKAGE_SAVED_HASH {
            sum.total_header_size = match self.read_i32() {
                Ok(v) => v,
                Err(e) => return Err(e),
            };
        }
        Ok(())
    }

    fn parse_sum_names(&mut self, sum: &mut UassetSummary) -> (r: Result<(), ParseError>)
        ensures
            same_except_cursor(*old(self), *final(self)),
            match r {
                Ok(_) => sp_sum_names(old(self).data@, old(self).pos as int, old(sum)@) == Ok::<
                    (SpSummary, int),
                    ParseError,
                >((final(sum)@, final(self).pos as int)),
                Err(e) => sp_sum_names(old(self).data@, old(self).pos as int, old(sum)@) == Err::<
                    (SpSummary, int),
                    ParseError,
                >(e),
            },
    {
        sum.package_name = match self.read_fstring() {
            Ok(v) => v,
            Err(e) => return Err(e),
        };
        sum.package_flags = match self.read_u32() {
            Ok(v) => v,
            Err(e) => return Err(e),
        };
        sum.name_count = match self.read_i32() {
            Ok(v) => v,
            Err(e) => return Err(e),
        };
        sum.name_offset = match self.read_i32() {
            Ok(v) => v,
            Err(e) => return Err(e),
        };
        if sum.file_version_ue5 >= UE5_ADD_SOFT_OBJECT_PATH_LIST {
            sum.soft_object_paths_count = match self.read_i32() {
                Ok(v) => Some(v),
                Err(e) => return Err(e),
            };
            sum.soft_object_paths_offset = match self.read_i32() {
                Ok(v) => Some(v),
                Err(e) => return Err(e),
            };
        }
        sum.localization_id = match self.read_fstring() {
            Ok(v) => v,
            Err(e) => return Err(e),
        };
        Ok(())
    }

    #[verifier::rlimit(100)]
    fn parse_sum_counts(&mut self, sum: &mut UassetSummary) -> (r: Result<(), ParseError>)
        ensures
            same_except_cursor(*old(self), *final(self)),
            match r {
                Ok(_) => sp_sum_counts(old(self).data@, old(self).pos as int, old(sum)@) == Ok::<
                    (SpSummary, int),
                    ParseError,
                >((final(sum)@, final(self).pos as int)),
                Err(e) => sp_sum_counts(old(self).data@, old(self).pos as int, old(sum)@) == Err::<
                    (SpSummary, int),
                    ParseError,
                >(e),
            },
    {
        let gc = sum.file_version_ue5 >= UE5_VERSE_CELLS;
        let gm = sum.file_version_ue5 >= UE5_METADATA_SERIALIZATION_OFFSET;
        let gg = sum.file_version_ue5 < UE5_PACKAGE_SAVED_HASH;
        let total: u64 = 60 + (if gc {
            16u64
        } else {
            0u64
        }) + (if gm {
            4u64
        } else {
            0u64
        }) + (if gg {
            16u64
        } else {
            0u64
        });
        if total > self.data.len() as u64 || self.pos as u64 > self.data.len() as u64 - total {
            return Err(ParseError::Eof);
        }
        sum.gatherable_text_data_count = match self.read_i32() {
            Ok(v) => v,
            Err(_) => return Err(ParseError::Eof),
        };
        sum.gatherable_text_data_offset = match self.read_i32() {
            Ok(v) => v,
            Err(_) => return Err(ParseError::Eof),
        };
        sum.export_count = match self.read_i32() {
            Ok(v) => v,
            Err(_) => return Err(ParseError::Eof),
        };
        sum.export_offset = match self.read_i32() {
            Ok(v) => v,
            Err(_) => return Err(ParseError::Eof),
        };
        sum.import_count = match self.read_i32() {
            Ok(v) => v,
            Err(_) => return Err(ParseError::Eof),
        };
        sum.import_offset = match self.read_i32() {
            Ok(v) => v,
            Err(_) => return Err(ParseError::Eof),
        };
        if gc {
            sum.cell_export_count = match self.read_i32() {
                Ok(v) => Some(v),
                Err(_) => return Err(ParseError::Eof),
            };
            sum.cell_export_offset = match self.read_i32() {
                Ok(v) => Some(v),
                Err(_) => return Err(ParseError::Eof),
            };
            sum.cell_import_count = match self.read_i32() {
                Ok(v) => Some(v),
                Err(_) => return Err(ParseError::Eof),
            };
            sum.cell_import_offset = match self.read_i32() {
                Ok(v) => Some(v),
                Err(_) => return Err(ParseError::Eof),
            };
        }
        if gm {
            sum.metadata_offset = match self.read_i32() {
                Ok(v) => Some(v),
                Err(_) => return Err(ParseError::Eof),
            };
        }
        sum.depends_offset = match self.read_i32() {
            Ok(v) => v,
            Err(_) => return Err(ParseError::Eof),
        };
        sum.soft_package_references_count = match self.read_i32() {
            Ok(v) => v,
            Err(_) => return Err(ParseError::Eof),
        };
        sum.soft_package_references_offset = match self.read_i32() {
            Ok(v) => v,
            Err(_) => return Err(ParseError::Eof),
        };
        sum.searchable_names_offset = match self.read_i32() {
            Ok(v) => v,
            Err(_) => return Err(ParseError::Eof),
        };
        sum.thumbnail_table_offset = match self.read_i32() {
            Ok(v) => v,
            Err(_) => return Err(ParseError::Eof),
        };
        if gg {
            sum.guid = match self.read_bytes(16) {
                Ok(v) => Some(v),
                Err(_) => return Err(ParseError::Eof),
            };
        }
        sum.persistent_guid = match self.read_bytes(16) {
            Ok(v) => v,
            Err(_) => return Err(ParseError::Eof),
        };
        Ok(())
    }

    /// Validates every offset field of the summary read so far.
    fn check_summary_offsets(&self, sum: &UassetSummary) -> (r: Result<(), ParseError>)
        ensures
            r == sp_sum_offset_checks(sum@),
    {
        match self.check_file_offset(sum.gatherable_text_data_offset as i64) {
            Ok(_) => (),
            Err(e) => return Err(e),
        }
        match self.check_file_offset(sum.export_offset as i64) {
            Ok(_) => (),
            Err(e) => return Err(e),
        }
        match self.check_file_offset(sum.import_offset as i64) {
            Ok(_) => (),
            Err(e) => return Err(e),
        }
        match self.check_file_offset(sum.depends_offset as i64) {
            Ok(_) => (),
            Err(e) => return Err(e),
        }
        match self.check_file_offset(sum.soft_package_references_offset as i64) {
            Ok(_) => (),
            Err(e) => return Err(e),
        }
        match self.check_file_offset(sum.searchable_names_offset as i64) {
            Ok(_) => (),
            Err(e) => return Err(e),
        }
        self.check_file_offset(sum.thumbnail_table_offset as i64)
    }

    fn parse_sum_engine(&mut self, sum: &mut UassetSummary) -> (r: Result<(), ParseError>)
        ensures
            same_except_cursor(*old(self), *final(self)),
            match r {
                Ok(_) => sp_sum_engine(
                    old(self).data@,
                    old(self).pos as int,
                    old(sum)@,
                    old(self).allow_unversioned,
                ) == Ok::<(SpSummary, int), ParseError>((final(sum)@, final(self).pos as int)),
                Err(e) => sp_sum_engine(
                    old(self).data@,
                    old(self).pos as int,
                    old(sum)@,
                    old(self).allow_unversioned,
                ) == Err::<(SpSummary, int), ParseError>(e),
            },
    {
        let budget = self.header_budget(sum.total_header_size, 8);
        sum.generations = match self.read_tarray_bytes(8, budget) {
            Ok(v) => v,
            Err(e) => return Err(e),
        };
        sum.saved_by_engine_version_major = match self.read_u16() {
            Ok(v) => v,
            Err(e) => return Err(e),
        };
        sum.saved_by_engine_version_minor = match self.read_u16() {
            Ok(v) => v,
            Err(e) => return Err(e),
        };
        sum.saved_by_engine_version_patch = match self.read_u16() {
            Ok(v) => v,
            Err(e) => return Err(e),
        };
        sum.saved_by_engine_version_changelist = match self.read_u32() {
            Ok(v) => v,
            Err(e) => return Err(e),
        };
        sum.saved_by_engine_version_name = match self.read_fstring() {
            Ok(v) => v,
            Err(e) => return Err(e),
        };
        sum.compatible_engine_version_major = match self.read_u16() {
            Ok(v) => v,
            Err(e) => return Err(e),
        };
        sum.compatible_engine_version_minor = match self.read_u16() {
            Ok(v) => v,
            Err(e) => return Err(e),
        };
        sum.compatible_engine_version_patch = match self.read_u16() {
            Ok(v) => v,
            Err(e) => return Err(e),
        };
        sum.compatible_engine_version_changelist = match self.read_u32() {
            Ok(v) => v,
            Err(e) => return Err(e),
        };
        sum.compatible_engine_version_name = match self.read_fstring() {
            Ok(v) => v,
            Err(e) => return Err(e),
        };
        match self.check_asset_version(
            sum.saved_by_engine_version_major,
            sum.saved_by_engine_version_minor,
            sum.saved_by_engine_version_patch,
        ) {
            Ok(_) => (),
            Err(e) => return Err(e),
        }
        Ok(())
    }

    fn parse_sum_tail(&mut self, sum: &mut UassetSummary) -> (r: Result<(), ParseError>)
        ensures
            same_except_cursor(*old(self), *final(self)),
            match r {
                Ok(_) => sp_sum_tail(old(self).data@, old(self).pos as int, old(sum)@) == Ok::<
                    (SpSummary, int),
                    ParseError,
                >((final(sum)@, final(self).pos as int)),
                Err(e) => sp_sum_tail(old(self).data@, old(self).pos as int, old(sum)@) == Err::<
                    (SpSummary, int),
                    ParseError,
                >(e),
            },
    {
        sum.compression_flags = match self.read_u32() {
            Ok(v) => v,
            Err(e) => return Err(e),
        };
        match self.check_compression_flags(sum.compression_flags) {
            Ok(_) => (),
            Err(e) => return Err(e),
        }
        let budget = self.header_budget(sum.total_header_size, 16);
        sum.compressed_chunks = match self.read_tarray_bytes(16, budget) {
            Ok(v) => v,
            Err(e) => return Err(e),
        };
        if sum.compressed_chunks.len() != 0 {
            return Err(ParseError::CompressedChunksNotSupported);
        }
        sum.package_source = match self.read_u32() {
            Ok(v) => v,
            Err(e) => return Err(e),
        };
        let budget = self.header_budget(sum.total_header_size, 1);
        sum.additional_packages_to_cook = match self.read_tarray_fstrings(budget) {
            Ok(v) => v,
            Err(e) => return Err(e),
        };
        sum.asset_registry_data_offset = match self.read_i32() {
            Ok(v) => v,
            Err(e) => return Err(e),
        };
        sum.bulk_data_start_offset = match self.read_i64() {
            Ok(v) => v,
            Err(e) => return Err(e),
        };
        match self.check_file_offset(sum.asset_registry_data_offset as i64) {
            Ok(_) => (),
            Err(e) => return Err(e),
        }
        match self.check_file_offset(sum.bulk_data_start_offset) {
            Ok(_) => (),
            Err(e) => return Err(e),
        }
        Ok(())
    }

    /// Decodes the package summary from the start of the byte source.
    pub fn parse_summary(&mut self) -> (r: Result<UassetSummary, ParseError>)
        ensures
            same_except_cursor(*old(self), *final(self)),
            match r {
                Ok(sum) => sp_package_summary(old(self).data@, old(self).allow_unversioned)
                    == Ok::<(SpSummary, int), ParseError>((sum@, final(self).pos as int)),
                Err(e) => sp_package_summary(old(self).data@, old(self).allow_unversioned)
                    == Err::<(SpSummary, int), ParseError>(e),
            },
    {
        self.pos = 0;
        let mut sum = UassetSummary::default();
        match self.parse_sum_versions(&mut sum) {
            Ok(_) => (),
            Err(e) => return Err(e),
        }
        match self.parse_sum_hash_customs(&mut sum) {
            Ok(_) => (),
            Err(e) => return Err(e),
        }
        match self.parse_sum_names(&mut sum) {
            Ok(_) => (),
            Err(e) => return Err(e),
        }
        match self.parse_sum_counts(&mut sum) {
            Ok(_) => (),
            Err(e) => return Err(e),
        }
        match self.check_summary_offsets(&sum) {
            Ok(_) => (),
            Err(e) => return Err(e),
        }
        match self.parse_sum_engine(&mut sum) {
            Ok(_) => (),
            Err(e) => return Err(e),
        }
        match self.parse_sum_tail(&mut sum) {
            Ok(_) => (),
            Err(e) => return Err(e),
        }
        Ok(sum)
    }
}

impl Parsable<UassetSummary> for UassetParser {
    fn parse(&mut self) -> Result<UassetSummary, ParseError> {
        self.parse_summary()
    }
}

} // verus!
