//! Named engine object-version checkpoints. Fields of the package summary
//! and of export entries are present only when the file's object version
//! meets the checkpoint that introduced (or retired) them; the comparisons
//! are plain numeric comparisons against these constants.

use vstd::prelude::*;

verus! {

/// Version that introduced the optional-resources export fields.
pub const UE5_OPTIONAL_RESOURCES: i32 = 1003;

/// Version that removed the per-export package GUID.
pub const UE5_REMOVE_OBJECT_EXPORT_PACKAGE_GUID: i32 = 1005;

/// Version that started tracking whether an export is an inherited
/// instance.
pub const UE5_TRACK_OBJECT_EXPORT_IS_INHERITED: i32 = 1006;

/// Version that added the soft-object-path list to the summary.
pub const UE5_ADD_SOFT_OBJECT_PATH_LIST: i32 = 1008;

/// Version that added the metadata serialization offset to the summary.
pub const UE5_METADATA_SERIALIZATION_OFFSET: i32 = 1014;

/// Version that added the cell export/import tables to the summary.
pub const UE5_VERSE_CELLS: i32 = 1015;

/// Version that replaced the legacy summary GUID with a saved hash and
/// moved the total-header-size field before the custom-version array.
pub const UE5_PACKAGE_SAVED_HASH: i32 = 1016;

} // verus!
