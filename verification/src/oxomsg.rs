//! Recipient types.

use vstd::prelude::*;

verus! {

/// The recipient types the catalog recognises.
#[derive(Debug, Clone, Copy, PartialEq, Eq, Structural)]
pub enum KnownRecipientType {
    MessageOriginator,
    PrimaryRecipient,
    CcRecipient,
    BccRecipient,
}

/// A recipient type: a recognised one, or the raw value preserved.
#[derive(Debug, Clone, Copy, PartialEq, Eq, Structural)]
pub enum RecipientType {
    Unknown(i32),
    Known(KnownRecipientType),
}

/// The recipient type decoded from its raw value.
pub open spec fn spec_recipient_type(input: i32) -> RecipientType {
    match input {
        0x00000000 => RecipientType::Known(KnownRecipientType::MessageOriginator),
        0x00000001 => RecipientType::Known(KnownRecipientType::PrimaryRecipient),
        0x00000002 => RecipientType::Known(KnownRecipientType::CcRecipient),
        0x00000003 => RecipientType::Known(KnownRecipientType::BccRecipient),
        _ => RecipientType::Unknown(input),
    }
}

impl RecipientType {
    /// Decodes a recipient type, preserving unrecognised values.
    pub fn from_i32(input: i32) -> (r: Self)
        ensures
            r == spec_recipient_type(input),
    {
        match input {
            0x00000000 => Self::Known(KnownRecipientType::MessageOriginator),
            0x00000001 => Self::Known(KnownRecipientType::PrimaryRecipient),
            0x00000002 => Self::Known(KnownRecipientType::CcRecipient),
            0x00000003 => Self::Known(KnownRecipientType::BccRecipient),
            _ => Self::Unknown(input),
        }
    }
}

/// Enum closure: every raw value decodes to a recognised recipient type or
/// to `Unknown` carrying that very value.
pub proof fn lemma_recipient_type_closure(input: i32)
    ensures
        spec_recipient_type(input) matches RecipientType::Unknown(v) ==> v == input,
        (spec_recipient_type(input) is Known) || spec_recipient_type(input)
            == RecipientType::Unknown(input),
{
}

} // verus!
