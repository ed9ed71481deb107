//! Address book display types.

use vstd::prelude::*;

verus! {

/// The display types the catalog recognises.
#[derive(Debug, Clone, Copy, PartialEq, Eq, Structural)]
pub enum KnownDisplayType {
    MailUser,
    DistList,
    Forum,
    Agent,
    Organization,
    PrivateDistList,
    RemoteMailUser,
    Container,
    Template,
    AddressTemplate,
    Search,
}

/// A display type: a recognised one, or the raw value preserved.
#[derive(Debug, Clone, Copy, PartialEq, Eq, Structural)]
pub enum DisplayType {
    Unknown(i32),
    Known(KnownDisplayType),
}

/// The display type decoded from its raw value.
pub open spec fn spec_display_type(input: i32) -> DisplayType {
    match input {
        0x00000000 => DisplayType::Known(KnownDisplayType::MailUser),
        0x00000001 => DisplayType::Known(KnownDisplayType::DistList),
        0x00000002 => DisplayType::Known(KnownDisplayType::Forum),
        0x00000003 => DisplayType::Known(KnownDisplayType::Agent),
        0x00000004 => DisplayType::Known(KnownDisplayType::Organization),
        0x00000005 => DisplayType::Known(KnownDisplayType::PrivateDistList),
        0x00000006 => DisplayType::Known(KnownDisplayType::RemoteMailUser),
        0x00000100 => DisplayType::Known(KnownDisplayType::Container),
        0x00000101 => DisplayType::Known(KnownDisplayType::Template),
        0x00000102 => DisplayType::Known(KnownDisplayType::AddressTemplate),
        0x00000200 => DisplayType::Known(KnownDisplayType::Search),
        _ => DisplayType::Unknown(input),
    }
}

impl DisplayType {
    /// Decodes a display type, preserving unrecognised values.
    pub fn from_i32(input: i32) -> (r: Self)
        ensures
            r == spec_display_type(input),
    {
        match input {
            0x00000000 => Self::Known(KnownDisplayType::MailUser),
            0x00000001 => Self::Known(KnownDisplayType::DistList),
            0x00000002 => Self::Known(KnownDisplayType::Forum),
            0x00000003 => Self::Known(KnownDisplayType::Agent),
            0x00000004 => Self::Known(KnownDisplayType::Organization),
            0x00000005 => Self::Known(KnownDisplayType::PrivateDistList),
            0x00000006 => Self::Known(KnownDisplayType::RemoteMailUser),
            0x00000100 => Self::Known(KnownDisplayType::Container),
            0x00000101 => Self::Known(KnownDisplayType::Template),
            0x00000102 => Self::Known(KnownDisplayType::AddressTemplate),
            0x00000200 => Self::Known(KnownDisplayType::Search),
            _ => Self::Unknown(input),
        }
    }
}

/// Enum closure: every raw value decodes to a recognised display type or to
/// `Unknown` carrying that very value.
pub proof fn lemma_display_type_closure(input: i32)
    ensures
        spec_display_type(input) matches DisplayType::Unknown(v) ==> v == input,
        (spec_display_type(input) is Known) || spec_display_type(input) == DisplayType::Unknown(
            input,
        ),
{
}

} // verus!
