//! Export directory entries: fixed-layout per-object metadata records.
//! `serial_offset` and `serial_size` are the handle a caller uses to seek
//! to and bound-read the export's serialized body.

use vstd::prelude::*;
use crate::errors::ParseError;
use crate::fname::{resolve_name, FName, SpFName};
use crate::primitives::{le_i32_at, le_i64_at, le_u32_at};
use crate::uasset_parser::{same_except_cursor, Parsable, UassetParser};
use crate::versions::{
    UE5_OPTIONAL_RESOURCES, UE5_REMOVE_OBJECT_EXPORT_PACKAGE_GUID,
    UE5_TRACK_OBJECT_EXPORT_IS_INHERITED,
};

verus! {

/// One exported object's metadata. The four relationship indices are
/// signed: the sign selects between the export and import tables, and the
/// interpretation is left to callers. Every on-disk boolean is a 32-bit
/// word that is true exactly when nonzero.
pub struct ExportEntry {
    pub class_index: i32,
    pub super_index: i32,
    pub template_index: i32,
    pub outer_index: i32,
    pub object_name: FName,
    pub object_flags: i32,
    pub serial_size: i64,
    pub serial_offset: i64,
    pub force_export: bool,
    pub not_for_client: bool,
    pub not_for_server: bool,
    pub is_inherited_instance: bool,
    pub package_flags: u32,
    pub not_always_loaded_for_editor_game: bool,
    pub is_asset: bool,
    pub generate_public_hash: bool,
    pub first_export_dependency: i32,
    pub serialization_before_serialization_dependencies: i32,
    pub create_before_serialization_dependencies: i32,
    pub serialization_before_create_dependencies: i32,
    pub create_before_create_dependencies: i32,
    pub script_serialization_start_offset: i64,
    pub script_serialization_end_offset: i64,
}

/// Mathematical model of an [`ExportEntry`].
pub struct SpExportEntry {
    pub class_index: i32,
    pub super_index: i32,
    pub template_index: i32,
    pub outer_index: i32,
    pub object_name: SpFName,
    pub object_flags: i32,
    pub serial_size: i64,
    pub serial_offset: i64,
    pub force_export: bool,
    pub not_for_client: bool,
    pub not_for_server: bool,
    pub is_inherited_instance: bool,
    pub package_flags: u32,
    pub not_always_loaded_for_editor_game: bool,
    pub is_asset: bool,
    pub generate_public_hash: bool,
    pub first_export_dependency: i32,
    pub serialization_before_serialization_dependencies: i32,
    pub create_before_serialization_dependencies: i32,
    pub serialization_before_create_dependencies: i32,
    pub create_before_create_dependencies: i32,
    pub script_serialization_start_offset: i64,
    pub script_serialization_end_offset: i64,
}

impl View for ExportEntry {
    type V = SpExportEntry;

    open spec fn view(&self) -> SpExportEntry {
        SpExportEntry {
            class_index: self.class_index,
            super_index: self.super_index,
            template_index: self.template_index,
            outer_index: self.outer_index,
            object_name: self.object_name@,
            object_flags: self.object_flags,
            serial_size: self.serial_size,
            serial_offset: self.serial_offset,
            force_export: self.force_export,
            not_for_client: self.not_for_client,
            not_for_server: self.not_for_server,
            is_inherited_instance: self.is_inherited_instance,
            package_flags: self.package_flags,
            not_always_loaded_for_editor_game: self.not_always_loaded_for_editor_game,
            is_asset: self.is_asset,
            generate_public_hash: self.generate_public_hash,
            first_export_dependency: self.first_export_dependency,
            serialization_before_serialization_dependencies: self
                .serialization_before_serialization_dependencies,
            create_before_serialization_dependencies: self
                .create_before_serialization_dependencies,
            serialization_before_create_dependencies: self
                .serialization_before_create_dependencies,
            create_before_create_dependencies: self.create_before_create_dependencies,
            script_serialization_start_offset: self.script_serialization_start_offset,
            script_serialization_end_offset: self.script_serialization_end_offset,
        }
    }
}

/// The entries held by a vector of export entries.
pub open spec fn deep_entries(v: Vec<ExportEntry>) -> Seq<SpExportEntry> {
    v@.map_values(|e: ExportEntry| e@)
}

/// The byte length of one export record under the given object version:
/// the fixed fields plus the version-gated ones (a discarded 16-byte
/// legacy GUID, the inherited-instance word, the public-hash word).
pub open spec fn sp_export_entry_len(ue5: i32) -> int {
    104 + (if ue5 < UE5_REMOVE_OBJECT_EXPORT_PACKAGE_GUID {
        16int
    } else {
        0int
    }) + (if ue5 > UE5_TRACK_OBJECT_EXPORT_IS_INHERITED {
        4int
    } else {
        0int
    }) + (if ue5 >= UE5_OPTIONAL_RESOURCES {
        4int
    } else {
        0int
    })
}

/// Reads one fixed-layout export record. Field presence is gated by the
/// file's object version; every on-disk boolean is a 32-bit word, true
/// exactly when nonzero.
pub open spec fn sp_export_entry(s: Seq<u8>, names: Seq<Seq<char>>, ue5: i32, pos: int) -> Result<
    (SpExportEntry, int),
    ParseError,
> {
    let g1 = ue5 < UE5_REMOVE_OBJECT_EXPORT_PACKAGE_GUID;
    let g2 = ue5 > UE5_TRACK_OBJECT_EXPORT_IS_INHERITED;
    let g3 = ue5 >= UE5_OPTIONAL_RESOURCES;
    let total = sp_export_entry_len(ue5);
    if pos < 0 || pos + total > s.len() {
        Err(ParseError::Eof)
    } else {
        let p_inh = pos + 56 + (if g1 {
            16int
        } else {
            0int
        });
        let p_pkg = p_inh + (if g2 {
            4int
        } else {
            0int
        });
        let p_deps = p_pkg + 12 + (if g3 {
            4int
        } else {
            0int
        });
        Ok(
            (
                SpExportEntry {
                    class_index: le_i32_at(s, pos),
                    super_index: le_i32_at(s, pos + 4),
                    template_index: le_i32_at(s, pos + 8),
                    outer_index: le_i32_at(s, pos + 12),
                    object_name: SpFName {
                        index: le_i32_at(s, pos + 16),
                        number: le_i32_at(s, pos + 20),
                        value: resolve_name(names, le_i32_at(s, pos + 16)),
                    },
                    object_flags: le_i32_at(s, pos + 24),
                    serial_size: le_i64_at(s, pos + 28),
                    serial_offset: le_i64_at(s, pos + 36),
                    force_export: le_u32_at(s, pos + 44) != 0,
                    not_for_client: le_u32_at(s, pos + 48) != 0,
                    not_for_server: le_u32_at(s, pos + 52) != 0,
                    is_inherited_instance: g2 && le_u32_at(s, p_inh) != 0,
                    package_flags: le_u32_at(s, p_pkg),
                    not_always_loaded_for_editor_game: le_u32_at(s, p_pkg + 4) != 0,
                    is_asset: le_u32_at(s, p_pkg + 8) != 0,
                    generate_public_hash: g3 && le_u32_at(s, p_pkg + 12) != 0,
                    first_export_dependency: le_i32_at(s, p_deps),
                    serialization_before_serialization_dependencies: le_i32_at(s, p_deps + 4),
                    create_before_serialization_dependencies: le_i32_at(s, p_deps + 8),
                    serialization_before_create_dependencies: le_i32_at(s, p_deps + 12),
                    create_before_create_dependencies: le_i32_at(s, p_deps + 16),
                    script_serialization_start_offset: le_i64_at(s, p_deps + 20),
                    script_serialization_end_offset: le_i64_at(s, p_deps + 28),
                },
                pos + total,
            ),
        )
    }
}

impl UassetParser {
    /// Decodes one export directory record at the cursor, under the
    /// decoded summary's object version.
    #[verifier::rlimit(100)]
    pub fn parse_export_entry(&mut self) -> (r: Result<ExportEntry, ParseError>)
        requires
            old(self).spec_summary() is Some,
        ensures
            same_except_cursor(*old(self), *final(self)),
            match (r, old(self).spec_summary()) {
                (Ok(en), Some(sum)) => sp_export_entry(
                    old(self).data@,
                    old(self).names_view(),
                    sum.file_version_ue5,
                    old(self).pos as int,
                ) == Ok::<(SpExportEntry, int), ParseError>((en@, final(self).pos as int)),
                (Err(e), Some(sum)) => sp_export_entry(
                    old(self).data@,
                    old(self).names_view(),
                    sum.file_version_ue5,
                    old(self).pos as int,
                ) == Err::<(SpExportEntry, int), ParseError>(e),
                _ => false,
            },
    {
        let ue5 = self.get_summary().file_version_ue5;
        let g1 = ue5 < UE5_REMOVE_OBJECT_EXPORT_PACKAGE_GUID;
        let g2 = ue5 > UE5_TRACK_OBJECT_EXPORT_IS_INHERITED;
        let g3 = ue5 >= UE5_OPTIONAL_RESOURCES;
        let total: u64 = 104 + (if g1 {
            16u64
        } else {
            0u64
        }) + (if g2 {
            4u64
        } else {
            0u64
        }) + (if g3 {
            4u64
        } else {
            0u64
        });
        if total > self.data.len() as u64 || self.pos as u64 > self.data.len() as u64 - total {
            return Err(ParseError::Eof);
        }
        let class_index = match self.read_i32() {
            Ok(v) => v,
            Err(_) => return Err(ParseError::Eof),
        };
        let super_index = match self.read_i32() {
            Ok(v) => v,
            Err(_) => return Err(ParseError::Eof),
        };
        let template_index = match self.read_i32() {
            Ok(v) => v,
            Err(_) => return Err(ParseError::Eof),
        };
        let outer_index = match self.read_i32() {
            Ok(v) => v,
            Err(_) => return Err(ParseError::Eof),
        };
        let object_name = match self.parse_fname() {
            Ok(f) => f,
            Err(_) => return Err(ParseError::Eof),
        };
        let object_flags = match self.read_i32() {
            Ok(v) => v,
            Err(_) => return Err(ParseError::Eof),
        };
        let serial_size = match self.read_i64() {
            Ok(v) => v,
            Err(_) => return Err(ParseError::Eof),
        };
        let serial_offset = match self.read_i64() {
            Ok(v) => v,
            Err(_) => return Err(ParseError::Eof),
        };
        let force_export = match self.read_u32() {
            Ok(v) => v != 0,
            Err(_) => return Err(ParseError::Eof),
        };
        let not_for_client = match self.read_u32() {
            Ok(v) => v != 0,
            Err(_) => return Err(ParseError::Eof),
        };
        let not_for_server = match self.read_u32() {
            Ok(v) => v != 0,
            Err(_) => return Err(ParseError::Eof),
        };
        if g1 {
            match self.skip_bytes(16) {
                Ok(_) => (),
                Err(_) => return Err(ParseError::Eof),
            }
        }
        let is_inherited_instance = if g2 {
            match self.read_u32() {
                Ok(v) => v != 0,
                Err(_) => return Err(ParseError::Eof),
            }
        } else {
            false
        };
        let package_flags = match self.read_u32() {
            Ok(v) => v,
            Err(_) => return Err(ParseError::Eof),
        };
        let not_always_loaded_for_editor_game = match self.read_u32() {
            Ok(v) => v != 0,
            Err(_) => return Err(ParseError::Eof),
        };
        let is_asset = match self.read_u32() {
            Ok(v) => v != 0,
            Err(_) => return Err(ParseError::Eof),
        };
        let generate_public_hash = if g3 {
            match self.read_u32() {
                Ok(v) => v != 0,
                Err(_) => return Err(ParseError::Eof),
            }
        } else {
            false
        };
        let first_export_dependency = match self.read_i32() {
            Ok(v) => v,
            Err(_) => return Err(ParseError::Eof),
        };
        let serialization_before_serialization_dependencies = match self.read_i32() {
            Ok(v) => v,
            Err(_) => return Err(ParseError::Eof),
        };
        let create_before_serialization_dependencies = match self.read_i32() {
            Ok(v) => v,
            Err(_) => return Err(ParseError::Eof),
        };
        let serialization_before_create_dependencies = match self.read_i32() {
            Ok(v) => v,
            Err(_) => return Err(ParseError::Eof),
        };
        let create_before_create_dependencies = match self.read_i32() {
            Ok(v) => v,
            Err(_) => return Err(ParseError::Eof),
        };
        let script_serialization_start_offset = match self.read_i64() {
            Ok(v) => v,
            Err(_) => return Err(ParseError::Eof),
        };
        let script_serialization_end_offset = match self.read_i64() {
            Ok(v) => v,
            Err(_) => return Err(ParseError::Eof),
        };
        Ok(
            ExportEntry {
                class_index,
                super_index,
                template_index,
                outer_index,
                object_name,
                object_flags,
                serial_size,
                serial_offset,
                force_export,
                not_for_client,
                not_for_server,
                is_inherited_instance,
                package_flags,
                not_always_loaded_for_editor_game,
                is_asset,
                generate_public_hash,
                first_export_dependency,
                serialization_before_serialization_dependencies,
                create_before_serialization_dependencies,
                serialization_before_create_dependencies,
                create_before_create_dependencies,
                script_serialization_start_offset,
                script_serialization_end_offset,
            },
        )
    }
}

impl Parsable<ExportEntry> for UassetParser {
    fn parse(&mut self) -> Result<ExportEntry, ParseError> {
        if self.summary.is_some() {
            self.parse_export_entry()
        } else {
            // An export record cannot be framed without the summary's
            // object version; decoding out of order fails.
            Err(ParseError::Eof)
        }
    }
}

} // verus!
