//! MAPI object types.

use vstd::prelude::*;

verus! {

/// The object types the catalog recognises.
#[derive(Debug, Clone, Copy, PartialEq, Eq, Structural)]
pub enum KnownObjectType {
    StoreObject,
    AddressBookObject,
    AddressBookContainer,
    MessageObject,
    MailUser,
    AttachmentObject,
    DistributionList,
}

/// An object type: a recognised one, or the raw value preserved.
#[derive(Debug, Clone, Copy, PartialEq, Eq, Structural)]
pub enum ObjectType {
    Unknown(i32),
    Known(KnownObjectType),
}

/// The object type decoded from its raw value.
pub open spec fn spec_object_type(input: i32) -> ObjectType {
    match input {
        0x00000001 => ObjectType::Known(KnownObjectType::StoreObject),
        0x00000002 => ObjectType::Known(KnownObjectType::AddressBookObject),
        0x00000004 => ObjectType::Known(KnownObjectType::AddressBookContainer),
        0x00000005 => ObjectType::Known(KnownObjectType::MessageObject),
        0x00000006 => ObjectType::Known(KnownObjectType::MailUser),
        0x00000007 => ObjectType::Known(KnownObjectType::AttachmentObject),
        0x00000008 => ObjectType::Known(KnownObjectType::DistributionList),
        _ => ObjectType::Unknown(input),
    }
}

impl ObjectType {
    /// Decodes an object type, preserving unrecognised values.
    pub fn from_i32(input: i32) -> (r: Self)
        ensures
            r == spec_object_type(input),
    {
        match input {
            0x00000001 => Self::Known(KnownObjectType::StoreObject),
            0x00000002 => Self::Known(KnownObjectType::AddressBookObject),
            0x00000004 => Self::Known(KnownObjectType::AddressBookContainer),
            0x00000005 => Self::Known(KnownObjectType::MessageObject),
            0x00000006 => Self::Known(KnownObjectType::MailUser),
            0x00000007 => Self::Known(KnownObjectType::AttachmentObject),
            0x00000008 => Self::Known(KnownObjectType::DistributionList),
            _ => Self::Unknown(input),
        }
    }
}

/// Enum closure: every raw value decodes to a recognised object type or to
/// `Unknown` carrying that very value.
pub proof fn lemma_object_type_closure(input: i32)
    ensures
        spec_object_type(input) matches ObjectType::Unknown(v) ==> v == input,
        (spec_object_type(input) is Known) || spec_object_type(input) == ObjectType::Unknown(
            input,
        ),
{
}

} // verus!
