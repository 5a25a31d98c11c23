//! Error kinds for package decoding. Every decode step surfaces the first
//! failure verbatim; no partial result is usable.

use vstd::prelude::*;

verus! {

/// The reasons a package decode can fail. All are fatal to the current
/// decode; none are retried internally.
#[derive(Debug, Clone, Copy, PartialEq, Eq, Structural)]
pub enum ParseError {
    /// A read or seek went past the end of the byte source.
    Eof,
    /// The first four bytes were not the package magic constant.
    InvalidTag,
    /// The legacy file version is not one of the known negative codes.
    UnsupportedLegacyVersion(i32),
    /// A declared file offset lies outside the sane bound.
    InvalidFileOffset(i64),
    /// A declared array count is negative or exceeds its ceiling.
    InvalidArraySize(i32),
    /// Compression flags have bits outside the known mask.
    InvalidCompressionFlags,
    /// An unversioned asset was met while the session disallows them.
    UnversionedAssetNotAllowed,
    /// The saving engine release predates the minimum supported one.
    AssetVersionTooOld { major: u16, minor: u16 },
    /// The compressed-chunk table is non-empty; compressed bodies are
    /// unsupported and rejected rather than mis-read.
    CompressedChunksNotSupported,
    /// Narrow string bytes were not valid UTF-8.
    InvalidUtf8,
    /// Wide string code units were not valid UTF-16.
    InvalidUtf16,
    /// A property tag declared the extensions flag, which is not modeled.
    PropertyExtensionsNotSupported,
    /// A property tag declared a negative payload size.
    NegativePropertySize(i32),
}

impl ParseError {
    /// A short human-readable description of the error.
    pub fn describe(&self) -> String {
        match self {
            ParseError::Eof => "unexpected end of data".to_owned(),
            ParseError::InvalidTag => "not a package file (bad magic tag)".to_owned(),
            ParseError::UnsupportedLegacyVersion(_) => "unsupported legacy file version".to_owned(),
            ParseError::InvalidFileOffset(_) => "file offset out of bounds".to_owned(),
            ParseError::InvalidArraySize(_) => "array count negative or too large".to_owned(),
            ParseError::InvalidCompressionFlags => "unknown compression flags".to_owned(),
            ParseError::UnversionedAssetNotAllowed => "unversioned asset not allowed".to_owned(),
            ParseError::AssetVersionTooOld { major: _, minor: _ } => "asset engine version too old".to_owned(),
            ParseError::CompressedChunksNotSupported => "compressed packages are not supported".to_owned(),
            ParseError::InvalidUtf8 => "string is not valid UTF-8".to_owned(),
            ParseError::InvalidUtf16 => "string is not valid UTF-16".to_owned(),
            ParseError::PropertyExtensionsNotSupported => "property tag extensions are not supported".to_owned(),
            ParseError::NegativePropertySize(_) => "property payload size is negative".to_owned(),
        }
    }
}

} // verus!
