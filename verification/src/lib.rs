//! Decoder for the binary package format used by a game engine's compiled
//! asset files: a versioned summary header, a deduplicated name table, an
//! export directory, and a self-describing tagged-property encoding from
//! which data-table rows are reconstructed.
//!
//! The decoder works over an in-memory byte buffer with a sequential cursor;
//! callers read the file and hand the bytes in.

pub mod data_table;
pub mod errors;
pub mod export_entry;
pub mod fname;
pub mod primitives;
pub mod property_data;
pub mod property_tag;
pub mod property_type_name;
pub mod uasset_parser;
pub mod uclass;
pub mod uasset_summary;
pub mod versions;

use vstd::prelude::*;

verus! {

/// The little-endian 32-bit magic constant that opens every package file.
pub const PACKAGE_FILE_TAG: u32 = 0x9E2A83C1;

} // verus!
