//! Reflection-style decoding of a game engine's packaged asset data.
//!
//! The engine stores its runtime objects in a schemaless binary serialization
//! format: each object is identified by a structural type hash and a version
//! tag, and its field layout varies with that version. This crate supplies
//! the three subsystems that reconstruct typed data from such streams:
//!
//! - an archive store ([`archive`]) that resolves hashed logical paths to
//!   byte ranges inside a packed container and extracts (and, when marked,
//!   decompresses) them;
//! - a type registry ([`registry`]) built once from declarative
//!   registrations, mapping each type hash to its declared field layout and
//!   holding the disjoint-range tables of hash-coded enumerations;
//! - an object deserializer ([`decode`]) that walks a byte range under the
//!   registry, producing a typed value tree, honoring per-field version
//!   thresholds, and resolving polymorphic attachments by hash-based
//!   downcast.
//!
//! Decoded values are pure data ([`value`]); they hold no references into the
//! source bytes. A representative set of record and enumeration declarations
//! is provided in [`records`].
//!
//! Beyond each function's own contract, the crate states and proves:
//!
//! - decoding is deterministic: one byte range under one registry always
//!   yields the identical value tree ([`decode::lemma_decode_deterministic`]);
//! - a field introduced above the stream's version tag is never populated
//!   from stream data — it holds exactly its declared default
//!   ([`decode::lemma_version_monotonic`]);
//! - enumeration arms are validated pairwise disjoint when the registry is
//!   built, and a raw value lies in at most one arm
//!   ([`registry::Registry::build`], [`registry::lemma_arm_unique`]);
//! - at most one downcast probe of an attachment yields a value
//!   ([`decode::lemma_downcast_exclusive`]);
//! - on a consistent container, a path that `find` resolves is always
//!   extracted by `read`; only absent paths report `NotFound`
//!   ([`archive::lemma_find_then_read`]);
//! - every decoded object accounts exactly for the bytes between its start
//!   and end positions ([`decode::lemma_object_advances`]).

use vstd::prelude::*;

pub mod archive;
pub mod armor_id;
pub mod bytes;
pub mod decode;
pub mod error;
pub mod hash;
pub mod paths;
pub mod records;
pub mod registry;
pub mod value;

verus! {

/// Why a selection has no sole element.
#[derive(Debug, Clone, Copy, PartialEq, Eq, Structural)]
pub enum SelectError {
    /// The selection is empty.
    Empty,
    /// The selection holds more than one element.
    Ambiguous,
}

/// The sole element of a selection: its one element if it has exactly one,
/// and otherwise which of the two ways it failed.
pub fn exactly_one<T>(mut v: Vec<T>) -> (r: Result<T, SelectError>)
    ensures
        match r {
            Ok(t) => v@.len() == 1 && t == v@[0],
            Err(SelectError::Empty) => v@.len() == 0,
            Err(SelectError::Ambiguous) => v@.len() > 1,
        },
{
    if v.len() == 0 {
        Err(SelectError::Empty)
    } else if v.len() > 1 {
        Err(SelectError::Ambiguous)
    } else {
        match v.pop() {
            Some(t) => Ok(t),
            None => Err(SelectError::Empty),
        }
    }
}

} // verus!
