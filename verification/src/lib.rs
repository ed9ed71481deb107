//! Decoder for Microsoft Outlook `.msg` files: a Compound File Binary (CFB)
//! container whose streams carry a MAPI property set.

pub mod bytes;
pub mod cfb;
pub mod dir;
pub mod fat;
pub mod laws;
pub mod oxcdata;
pub mod oxcmsg;
pub mod oxmsg;
pub mod oxcprpt;
pub mod oxnspi;
pub mod oxomsg;
pub mod strings;

use vstd::prelude::*;

verus! {

/// Errors that end a parse. All errors are fatal; there are no partial results.
#[derive(Debug, Clone, Copy, PartialEq, Eq, Structural)]
pub enum MsgError {
    /// The header magic does not match the CFB signature.
    BadSignature,
    /// The major version is not 3 or 4, or the sector shift disagrees with it.
    UnsupportedVersion,
    /// A parser ran out of bytes.
    TruncatedInput,
    /// A directory entry's child pointer is out of range.
    InvalidChildId,
    /// Two children of one storage carry the same name.
    DuplicateName,
    /// The sibling or child links of the directory revisit an entry.
    DirectoryCycle,
    /// The directory has no entries, so there is no root storage.
    NoRootEntry,
    /// A sector chain's length disagrees with the recorded stream size.
    ChainLengthMismatch,
    /// The sibling stream holding a variable-length value is missing.
    MissingValueStream,
    /// A value stream's length disagrees with the declared value size.
    ValueSizeMismatch,
    /// The property table's length is not a multiple of the entry size.
    PropertyTableAlignment,
    /// A name or string value is not well-formed UTF-16LE.
    InvalidString,
    /// A FILETIME value lies outside the representable range of dates.
    TimeOverflow,
    /// A non-stream directory entry was asked for stream bytes.
    UnexpectedObjectType,
    /// The root storage carries no property stream.
    NoPropertyStream,
}

} // verus!
