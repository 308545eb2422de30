use vstd::prelude::*;

verus! {

/// Errors of the archive store.
///
/// `NotFound` is the recoverable outcome of probing a path that has no entry;
/// callers scanning a dense identifier space skip it and continue. `IoError`
/// and `DecompressionError` signal container-level corruption and are fatal
/// for the archive as a whole.
#[derive(Debug, Clone, Copy, PartialEq, Eq, Structural)]
pub enum ArchiveError {
    /// No directory entry hashes to the probed path.
    NotFound,
    /// The container bytes are truncated or the directory is corrupt.
    IoError,
    /// A compressed entry's payload does not decompress.
    DecompressionError,
}

/// Errors detected while building a registry from declarations.
///
/// All of these are defects in the declarations themselves, reported eagerly
/// at construction time; they are never produced by object data.
#[derive(Debug, Clone, Copy, PartialEq, Eq, Structural)]
pub enum RegistryError {
    /// Two declarations carry the same type hash.
    DuplicateType(u32),
    /// An enumeration arm has its bounds reversed; the payload holds
    /// (enumeration index, arm index).
    InvalidArm(usize, usize),
    /// Two arms of one enumeration overlap; the payload holds
    /// (enumeration index, first arm index, second arm index).
    OverlappingArms(usize, usize, usize),
    /// A field names an enumeration table that does not exist; the payload
    /// holds (type index, field index).
    UnknownEnumTable(usize, usize),
}

/// Errors of one decoding pass.
///
/// `UnknownType` signals a registry gap (the data may well be sound); the
/// other variants signal malformed data within a recognized type and carry
/// the byte offset of the offending read, so a caller can report where a
/// decode went wrong without the library needing any logging of its own.
#[derive(Debug, Clone, Copy, PartialEq, Eq, Structural)]
pub enum DecodeError {
    /// The stream carries a type hash with no registered declaration.
    UnknownType(u32),
    /// A read beginning at the offset ran past the end of the bytes.
    Truncated(usize),
    /// The raw value at the offset fails its declared domain check.
    InvalidField(usize),
    /// No arm of the enumeration contains the raw value read at the
    /// offset.
    UnknownEnumValue(u64, usize),
}

} // verus!
