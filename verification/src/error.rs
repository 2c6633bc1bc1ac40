//! The failure taxonomy shared by every loader in this crate.
use vstd::prelude::*;

use crate::level_specification::Category;

verus! {

/// Why a document could not be loaded.
///
/// A whole document fails atomically on the first error met; no partial
/// structure is ever handed back.
#[derive(Clone, Copy, Debug, PartialEq, Eq, Structural)]
pub enum LoadError {
    /// The file could not be opened or read (raised by callers that do I/O).
    Io,
    /// The byte stream is not valid zlib-compressed data.
    Decompress,
    /// A required attribute or element is absent, or an attribute value is
    /// not well-formed for its type (malformed boolean or position token,
    /// malformed XML included).
    Schema,
    /// An object-id is outside the valid range of the enumeration named by
    /// its category tag; the error names that tag and the offending id.
    Resolve { category: Category, object_id: u8 },
}

} // verus!
