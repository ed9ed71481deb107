//! Message-level catalogs and projections: property ids, attachment
//! methods, message flags and status, and the owned views of a message,
//! its recipients and its attachments.

use vstd::prelude::*;
use crate::oxcdata::{PropertyEntry, PropertyEntryModel, PropertyValue, PropertyValueModel};
use crate::oxmsg::{PropertyStream, spec_lookup, opt_entry_view};

verus! {

/// The property ids the catalog recognises.
#[derive(Debug, Clone, Copy, PartialEq, Eq, Structural)]
pub enum KnownPropertyId {
    Unspecified,
    Importance,
    MessageClassW,
    Sensitivity,
    SubjectW,
    ClientSubmitTime,
    SentRepresentingNameW,
    MessageToMe,
    MessageCcMe,
    ConversationTopicW,
    ConversationIndex,
    OriginalDisplayTo,
    TransportMessageHeaders,
    RecipientType,
    SenderName,
    DisplayCcW,
    DisplayToW,
    MessageDeliveryTime,
    MessageFlags,
    MessageSize,
    Responsibility,
    MessageStatus,
    HasAttachments,
    AttachmentSize,
    ReplItemid,
    ReplChangenum,
    ReplVersionHistory,
    ReplFlags,
    ReplCopiedfromVersionhistory,
    ReplCopiedfromItemid,
    Read,
    RecordKey,
    ObjectType,
    EntryID,
    Body,
    RtfCompressed,
    ItemTemporaryFlags,
    DisplayName,
    AddressType,
    EmailAddress,
    CreationTime,
    LastModificationTime,
    SearchKey,
    IpmSubTreeEntryId,
    IpmWastebasketEntryId,
    FinderEntryId,
    ContentCount,
    ContentUnreadCount,
    Subfolders,
    ContainerClass,
    AttachData,
    AttachExtension,
    AttachFilename,
    AttachMethod,
    AttachLongFilename,
    RenderingPosition,
    AttachMimeTag,
    DisplayType,
    SevenBitDisplayName,
    SendRichInfo,
    SenderSmtpAddress,
    SentRepresentingSmtpAddress,
    SecureSubmitFlags,
    PstBestBodyProptag,
    PstHiddenCount,
    PstHiddenUnread,
    PstIpmsubTreeDescendant,
    PstSubTreeContainer,
    LtpParentNid,
    LtpRowId,
    LtpRowVer,
    PstPassword,
    OfflineAddressBookName,
    SendOutlookRecallReport,
    OfflineAddressBookTruncatedProperties,
    MapiFormComposeCommand,
    ViewDescriptorFlags,
    ViewDescriptorLinkTo,
    ViewDescriptorViewFolder,
    ViewDescriptorName,
    ViewDescriptorVersion,
}

/// A property id: a recognised one, or the raw value preserved.
#[derive(Debug, Clone, Copy, PartialEq, Eq, Structural)]
pub enum PropertyId {
    Unknown(u16),
    Known(KnownPropertyId),
}

/// The property id decoded from its raw value.
pub open spec fn spec_property_id(input: u16) -> PropertyId {
    match input {
        0x0000 => PropertyId::Known(KnownPropertyId::Unspecified),
        0x0017 => PropertyId::Known(KnownPropertyId::Importance),
        0x001A => PropertyId::Known(KnownPropertyId::MessageClassW),
        0x0036 => PropertyId::Known(KnownPropertyId::Sensitivity),
        0x0037 => PropertyId::Known(KnownPropertyId::SubjectW),
        0x0039 => PropertyId::Known(KnownPropertyId::ClientSubmitTime),
        0x0042 => PropertyId::Known(KnownPropertyId::SentRepresentingNameW),
        0x0057 => PropertyId::Known(KnownPropertyId::MessageToMe),
        0x0058 => PropertyId::Known(KnownPropertyId::MessageCcMe),
        0x0070 => PropertyId::Known(KnownPropertyId::ConversationTopicW),
        0x0071 => PropertyId::Known(KnownPropertyId::ConversationIndex),
        0x0074 => PropertyId::Known(KnownPropertyId::OriginalDisplayTo),
        0x007D => PropertyId::Known(KnownPropertyId::TransportMessageHeaders),
        0x0C15 => PropertyId::Known(KnownPropertyId::RecipientType),
        0x0C1A => PropertyId::Known(KnownPropertyId::SenderName),
        0x0E03 => PropertyId::Known(KnownPropertyId::DisplayCcW),
        0x0E04 => PropertyId::Known(KnownPropertyId::DisplayToW),
        0x0E06 => PropertyId::Known(KnownPropertyId::MessageDeliveryTime),
        0x0E07 => PropertyId::Known(KnownPropertyId::MessageFlags),
        0x0E08 => PropertyId::Known(KnownPropertyId::MessageSize),
        0x0E0F => PropertyId::Known(KnownPropertyId::Responsibility),
        0x0E17 => PropertyId::Known(KnownPropertyId::MessageStatus),
        0x0E1B => PropertyId::Known(KnownPropertyId::HasAttachments),
        0x0E20 => PropertyId::Known(KnownPropertyId::AttachmentSize),
        0x0E30 => PropertyId::Known(KnownPropertyId::ReplItemid),
        0x0E33 => PropertyId::Known(KnownPropertyId::ReplChangenum),
        0x0E34 => PropertyId::Known(KnownPropertyId::ReplVersionHistory),
        0x0E38 => PropertyId::Known(KnownPropertyId::ReplFlags),
        0x0E3C => PropertyId::Known(KnownPropertyId::ReplCopiedfromVersionhistory),
        0x0E3D => PropertyId::Known(KnownPropertyId::ReplCopiedfromItemid),
        0x0E69 => PropertyId::Known(KnownPropertyId::Read),
        0x0FF9 => PropertyId::Known(KnownPropertyId::RecordKey),
        0x0FFE => PropertyId::Known(KnownPropertyId::ObjectType),
        0x0FFF => PropertyId::Known(KnownPropertyId::EntryID),
        0x1000 => PropertyId::Known(KnownPropertyId::Body),
        0x1009 => PropertyId::Known(KnownPropertyId::RtfCompressed),
        0x1097 => PropertyId::Known(KnownPropertyId::ItemTemporaryFlags),
        0x3001 => PropertyId::Known(KnownPropertyId::DisplayName),
        0x3002 => PropertyId::Known(KnownPropertyId::AddressType),
        0x3003 => PropertyId::Known(KnownPropertyId::EmailAddress),
        0x3007 => PropertyId::Known(KnownPropertyId::CreationTime),
        0x3008 => PropertyId::Known(KnownPropertyId::LastModificationTime),
        0x300B => PropertyId::Known(KnownPropertyId::SearchKey),
        0x35E0 => PropertyId::Known(KnownPropertyId::IpmSubTreeEntryId),
        0x35E3 => PropertyId::Known(KnownPropertyId::IpmWastebasketEntryId),
        0x35E7 => PropertyId::Known(KnownPropertyId::FinderEntryId),
        0x3602 => PropertyId::Known(KnownPropertyId::ContentCount),
        0x3603 => PropertyId::Known(KnownPropertyId::ContentUnreadCount),
        0x360A => PropertyId::Known(KnownPropertyId::Subfolders),
        0x3613 => PropertyId::Known(KnownPropertyId::ContainerClass),
        0x3701 => PropertyId::Known(KnownPropertyId::AttachData),
        0x3703 => PropertyId::Known(KnownPropertyId::AttachExtension),
        0x3704 => PropertyId::Known(KnownPropertyId::AttachFilename),
        0x3705 => PropertyId::Known(KnownPropertyId::AttachMethod),
        0x3707 => PropertyId::Known(KnownPropertyId::AttachLongFilename),
        0x370B => PropertyId::Known(KnownPropertyId::RenderingPosition),
        0x370E => PropertyId::Known(KnownPropertyId::AttachMimeTag),
        0x3900 => PropertyId::Known(KnownPropertyId::DisplayType),
        0x39FF => PropertyId::Known(KnownPropertyId::SevenBitDisplayName),
        0x3A40 => PropertyId::Known(KnownPropertyId::SendRichInfo),
        0x5D01 => PropertyId::Known(KnownPropertyId::SenderSmtpAddress),
        0x5D02 => PropertyId::Known(KnownPropertyId::SentRepresentingSmtpAddress),
        0x65C6 => PropertyId::Known(KnownPropertyId::SecureSubmitFlags),
        0x661D => PropertyId::Known(KnownPropertyId::PstBestBodyProptag),
        0x6635 => PropertyId::Known(KnownPropertyId::PstHiddenCount),
        0x6636 => PropertyId::Known(KnownPropertyId::PstHiddenUnread),
        0x6705 => PropertyId::Known(KnownPropertyId::PstIpmsubTreeDescendant),
        0x6772 => PropertyId::Known(KnownPropertyId::PstSubTreeContainer),
        0x67F1 => PropertyId::Known(KnownPropertyId::LtpParentNid),
        0x67F2 => PropertyId::Known(KnownPropertyId::LtpRowId),
        0x67F3 => PropertyId::Known(KnownPropertyId::LtpRowVer),
        0x67FF => PropertyId::Known(KnownPropertyId::PstPassword),
        0x6800 => PropertyId::Known(KnownPropertyId::OfflineAddressBookName),
        0x6803 => PropertyId::Known(KnownPropertyId::SendOutlookRecallReport),
        0x6805 => PropertyId::Known(KnownPropertyId::OfflineAddressBookTruncatedProperties),
        0x682F => PropertyId::Known(KnownPropertyId::MapiFormComposeCommand),
        0x7003 => PropertyId::Known(KnownPropertyId::ViewDescriptorFlags),
        0x7004 => PropertyId::Known(KnownPropertyId::ViewDescriptorLinkTo),
        0x7005 => PropertyId::Known(KnownPropertyId::ViewDescriptorViewFolder),
        0x7006 => PropertyId::Known(KnownPropertyId::ViewDescriptorName),
        0x7007 => PropertyId::Known(KnownPropertyId::ViewDescriptorVersion),
        _ => PropertyId::Unknown(input),
    }
}

/// The wire value of a recognised property id.
pub open spec fn spec_id_code(id: KnownPropertyId) -> u16 {
    match id {
        KnownPropertyId::Unspecified => 0x0000,
        KnownPropertyId::Importance => 0x0017,
        KnownPropertyId::MessageClassW => 0x001A,
        KnownPropertyId::Sensitivity => 0x0036,
        KnownPropertyId::SubjectW => 0x0037,
        KnownPropertyId::ClientSubmitTime => 0x0039,
        KnownPropertyId::SentRepresentingNameW => 0x0042,
        KnownPropertyId::MessageToMe => 0x0057,
        KnownPropertyId::MessageCcMe => 0x0058,
        KnownPropertyId::ConversationTopicW => 0x0070,
        KnownPropertyId::ConversationIndex => 0x0071,
        KnownPropertyId::OriginalDisplayTo => 0x0074,
        KnownPropertyId::TransportMessageHeaders => 0x007D,
        KnownPropertyId::RecipientType => 0x0C15,
        KnownPropertyId::SenderName => 0x0C1A,
        KnownPropertyId::DisplayCcW => 0x0E03,
        KnownPropertyId::DisplayToW => 0x0E04,
        KnownPropertyId::MessageDeliveryTime => 0x0E06,
        KnownPropertyId::MessageFlags => 0x0E07,
        KnownPropertyId::MessageSize => 0x0E08,
        KnownPropertyId::Responsibility => 0x0E0F,
        KnownPropertyId::MessageStatus => 0x0E17,
        KnownPropertyId::HasAttachments => 0x0E1B,
        KnownPropertyId::AttachmentSize => 0x0E20,
        KnownPropertyId::ReplItemid => 0x0E30,
        KnownPropertyId::ReplChangenum => 0x0E33,
        KnownPropertyId::ReplVersionHistory => 0x0E34,
        KnownPropertyId::ReplFlags => 0x0E38,
        KnownPropertyId::ReplCopiedfromVersionhistory => 0x0E3C,
        KnownPropertyId::ReplCopiedfromItemid => 0x0E3D,
        KnownPropertyId::Read => 0x0E69,
        KnownPropertyId::RecordKey => 0x0FF9,
        KnownPropertyId::ObjectType => 0x0FFE,
        KnownPropertyId::EntryID => 0x0FFF,
        KnownPropertyId::Body => 0x1000,
        KnownPropertyId::RtfCompressed => 0x1009,
        KnownPropertyId::ItemTemporaryFlags => 0x1097,
        KnownPropertyId::DisplayName => 0x3001,
        KnownPropertyId::AddressType => 0x3002,
        KnownPropertyId::EmailAddress => 0x3003,
        KnownPropertyId::CreationTime => 0x3007,
        KnownPropertyId::LastModificationTime => 0x3008,
        KnownPropertyId::SearchKey => 0x300B,
        KnownPropertyId::IpmSubTreeEntryId => 0x35E0,
        KnownPropertyId::IpmWastebasketEntryId => 0x35E3,
        KnownPropertyId::FinderEntryId => 0x35E7,
        KnownPropertyId::ContentCount => 0x3602,
        KnownPropertyId::ContentUnreadCount => 0x3603,
        KnownPropertyId::Subfolders => 0x360A,
        KnownPropertyId::ContainerClass => 0x3613,
        KnownPropertyId::AttachData => 0x3701,
        KnownPropertyId::AttachExtension => 0x3703,
        KnownPropertyId::AttachFilename => 0x3704,
        KnownPropertyId::AttachMethod => 0x3705,
        KnownPropertyId::AttachLongFilename => 0x3707,
        KnownPropertyId::RenderingPosition => 0x370B,
        KnownPropertyId::AttachMimeTag => 0x370E,
        KnownPropertyId::DisplayType => 0x3900,
        KnownPropertyId::SevenBitDisplayName => 0x39FF,
        KnownPropertyId::SendRichInfo => 0x3A40,
        KnownPropertyId::SenderSmtpAddress => 0x5D01,
        KnownPropertyId::SentRepresentingSmtpAddress => 0x5D02,
        KnownPropertyId::SecureSubmitFlags => 0x65C6,
        KnownPropertyId::PstBestBodyProptag => 0x661D,
        KnownPropertyId::PstHiddenCount => 0x6635,
        KnownPropertyId::PstHiddenUnread => 0x6636,
        KnownPropertyId::PstIpmsubTreeDescendant => 0x6705,
        KnownPropertyId::PstSubTreeContainer => 0x6772,
        KnownPropertyId::LtpParentNid => 0x67F1,
        KnownPropertyId::LtpRowId => 0x67F2,
        KnownPropertyId::LtpRowVer => 0x67F3,
        KnownPropertyId::PstPassword => 0x67FF,
        KnownPropertyId::OfflineAddressBookName => 0x6800,
        KnownPropertyId::SendOutlookRecallReport => 0x6803,
        KnownPropertyId::OfflineAddressBookTruncatedProperties => 0x6805,
        KnownPropertyId::MapiFormComposeCommand => 0x682F,
        KnownPropertyId::ViewDescriptorFlags => 0x7003,
        KnownPropertyId::ViewDescriptorLinkTo => 0x7004,
        KnownPropertyId::ViewDescriptorViewFolder => 0x7005,
        KnownPropertyId::ViewDescriptorName => 0x7006,
        KnownPropertyId::ViewDescriptorVersion => 0x7007,
    }
}

impl PropertyId {
    /// Decodes a property id, preserving unrecognised values.
    pub fn from_u16(input: u16) -> (r: Self)
        ensures
            r == spec_property_id(input),
    {
        match input {
            0x0000 => Self::Known(KnownPropertyId::Unspecified),
            0x0017 => Self::Known(KnownPropertyId::Importance),
            0x001A => Self::Known(KnownPropertyId::MessageClassW),
            0x0036 => Self::Known(KnownPropertyId::Sensitivity),
            0x0037 => Self::Known(KnownPropertyId::SubjectW),
            0x0039 => Self::Known(KnownPropertyId::ClientSubmitTime),
            0x0042 => Self::Known(KnownPropertyId::SentRepresentingNameW),
            0x0057 => Self::Known(KnownPropertyId::MessageToMe),
            0x0058 => Self::Known(KnownPropertyId::MessageCcMe),
            0x0070 => Self::Known(KnownPropertyId::ConversationTopicW),
            0x0071 => Self::Known(KnownPropertyId::ConversationIndex),
            0x0074 => Self::Known(KnownPropertyId::OriginalDisplayTo),
            0x007D => Self::Known(KnownPropertyId::TransportMessageHeaders),
            0x0C15 => Self::Known(KnownPropertyId::RecipientType),
            0x0C1A => Self::Known(KnownPropertyId::SenderName),
            0x0E03 => Self::Known(KnownPropertyId::DisplayCcW),
            0x0E04 => Self::Known(KnownPropertyId::DisplayToW),
            0x0E06 => Self::Known(KnownPropertyId::MessageDeliveryTime),
            0x0E07 => Self::Known(KnownPropertyId::MessageFlags),
            0x0E08 => Self::Known(KnownPropertyId::MessageSize),
            0x0E0F => Self::Known(KnownPropertyId::Responsibility),
            0x0E17 => Self::Known(KnownPropertyId::MessageStatus),
            0x0E1B => Self::Known(KnownPropertyId::HasAttachments),
            0x0E20 => Self::Known(KnownPropertyId::AttachmentSize),
            0x0E30 => Self::Known(KnownPropertyId::ReplItemid),
            0x0E33 => Self::Known(KnownPropertyId::ReplChangenum),
            0x0E34 => Self::Known(KnownPropertyId::ReplVersionHistory),
            0x0E38 => Self::Known(KnownPropertyId::ReplFlags),
            0x0E3C => Self::Known(KnownPropertyId::ReplCopiedfromVersionhistory),
            0x0E3D => Self::Known(KnownPropertyId::ReplCopiedfromItemid),
            0x0E69 => Self::Known(KnownPropertyId::Read),
            0x0FF9 => Self::Known(KnownPropertyId::RecordKey),
            0x0FFE => Self::Known(KnownPropertyId::ObjectType),
            0x0FFF => Self::Known(KnownPropertyId::EntryID),
            0x1000 => Self::Known(KnownPropertyId::Body),
            0x1009 => Self::Known(KnownPropertyId::RtfCompressed),
            0x1097 => Self::Known(KnownPropertyId::ItemTemporaryFlags),
            0x3001 => Self::Known(KnownPropertyId::DisplayName),
            0x3002 => Self::Known(KnownPropertyId::AddressType),
            0x3003 => Self::Known(KnownPropertyId::EmailAddress),
            0x3007 => Self::Known(KnownPropertyId::CreationTime),
            0x3008 => Self::Known(KnownPropertyId::LastModificationTime),
            0x300B => Self::Known(KnownPropertyId::SearchKey),
            0x35E0 => Self::Known(KnownPropertyId::IpmSubTreeEntryId),
            0x35E3 => Self::Known(KnownPropertyId::IpmWastebasketEntryId),
            0x35E7 => Self::Known(KnownPropertyId::FinderEntryId),
            0x3602 => Self::Known(KnownPropertyId::ContentCount),
            0x3603 => Self::Known(KnownPropertyId::ContentUnreadCount),
            0x360A => Self::Known(KnownPropertyId::Subfolders),
            0x3613 => Self::Known(KnownPropertyId::ContainerClass),
            0x3701 => Self::Known(KnownPropertyId::AttachData),
            0x3703 => Self::Known(KnownPropertyId::AttachExtension),
            0x3704 => Self::Known(KnownPropertyId::AttachFilename),
            0x3705 => Self::Known(KnownPropertyId::AttachMethod),
            0x3707 => Self::Known(KnownPropertyId::AttachLongFilename),
            0x370B => Self::Known(KnownPropertyId::RenderingPosition),
            0x370E => Self::Known(KnownPropertyId::AttachMimeTag),
            0x3900 => Self::Known(KnownPropertyId::DisplayType),
            0x39FF => Self::Known(KnownPropertyId::SevenBitDisplayName),
            0x3A40 => Self::Known(KnownPropertyId::SendRichInfo),
            0x5D01 => Self::Known(KnownPropertyId::SenderSmtpAddress),
            0x5D02 => Self::Known(KnownPropertyId::SentRepresentingSmtpAddress),
            0x65C6 => Self::Known(KnownPropertyId::SecureSubmitFlags),
            0x661D => Self::Known(KnownPropertyId::PstBestBodyProptag),
            0x6635 => Self::Known(KnownPropertyId::PstHiddenCount),
            0x6636 => Self::Known(KnownPropertyId::PstHiddenUnread),
            0x6705 => Self::Known(KnownPropertyId::PstIpmsubTreeDescendant),
            0x6772 => Self::Known(KnownPropertyId::PstSubTreeContainer),
            0x67F1 => Self::Known(KnownPropertyId::LtpParentNid),
            0x67F2 => Self::Known(KnownPropertyId::LtpRowId),
            0x67F3 => Self::Known(KnownPropertyId::LtpRowVer),
            0x67FF => Self::Known(KnownPropertyId::PstPassword),
            0x6800 => Self::Known(KnownPropertyId::OfflineAddressBookName),
            0x6803 => Self::Known(KnownPropertyId::SendOutlookRecallReport),
            0x6805 => Self::Known(KnownPropertyId::OfflineAddressBookTruncatedProperties),
            0x682F => Self::Known(KnownPropertyId::MapiFormComposeCommand),
            0x7003 => Self::Known(KnownPropertyId::ViewDescriptorFlags),
            0x7004 => Self::Known(KnownPropertyId::ViewDescriptorLinkTo),
            0x7005 => Self::Known(KnownPropertyId::ViewDescriptorViewFolder),
            0x7006 => Self::Known(KnownPropertyId::ViewDescriptorName),
            0x7007 => Self::Known(KnownPropertyId::ViewDescriptorVersion),
            _ => Self::Unknown(input),
        }
    }

    /// The wire value of a recognised property id.
    pub fn id_code(id: KnownPropertyId) -> (r: u16)
        ensures
            r == spec_id_code(id),
    {
        match id {
            KnownPropertyId::Unspecified => 0x0000,
            KnownPropertyId::Importance => 0x0017,
            KnownPropertyId::MessageClassW => 0x001A,
            KnownPropertyId::Sensitivity => 0x0036,
            KnownPropertyId::SubjectW => 0x0037,
            KnownPropertyId::ClientSubmitTime => 0x0039,
            KnownPropertyId::SentRepresentingNameW => 0x0042,
            KnownPropertyId::MessageToMe => 0x0057,
            KnownPropertyId::MessageCcMe => 0x0058,
            KnownPropertyId::ConversationTopicW => 0x0070,
            KnownPropertyId::ConversationIndex => 0x0071,
            KnownPropertyId::OriginalDisplayTo => 0x0074,
            KnownPropertyId::TransportMessageHeaders => 0x007D,
            KnownPropertyId::RecipientType => 0x0C15,
            KnownPropertyId::SenderName => 0x0C1A,
            KnownPropertyId::DisplayCcW => 0x0E03,
            KnownPropertyId::DisplayToW => 0x0E04,
            KnownPropertyId::MessageDeliveryTime => 0x0E06,
            KnownPropertyId::MessageFlags => 0x0E07,
            KnownPropertyId::MessageSize => 0x0E08,
            KnownPropertyId::Responsibility => 0x0E0F,
            KnownPropertyId::MessageStatus => 0x0E17,
            KnownPropertyId::HasAttachments => 0x0E1B,
            KnownPropertyId::AttachmentSize => 0x0E20,
            KnownPropertyId::ReplItemid => 0x0E30,
            KnownPropertyId::ReplChangenum => 0x0E33,
            KnownPropertyId::ReplVersionHistory => 0x0E34,
            KnownPropertyId::ReplFlags => 0x0E38,
            KnownPropertyId::ReplCopiedfromVersionhistory => 0x0E3C,
            KnownPropertyId::ReplCopiedfromItemid => 0x0E3D,
            KnownPropertyId::Read => 0x0E69,
            KnownPropertyId::RecordKey => 0x0FF9,
            KnownPropertyId::ObjectType => 0x0FFE,
            KnownPropertyId::EntryID => 0x0FFF,
            KnownPropertyId::Body => 0x1000,
            KnownPropertyId::RtfCompressed => 0x1009,
            KnownPropertyId::ItemTemporaryFlags => 0x1097,
            KnownPropertyId::DisplayName => 0x3001,
            KnownPropertyId::AddressType => 0x3002,
            KnownPropertyId::EmailAddress => 0x3003,
            KnownPropertyId::CreationTime => 0x3007,
            KnownPropertyId::LastModificationTime => 0x3008,
            KnownPropertyId::SearchKey => 0x300B,
            KnownPropertyId::IpmSubTreeEntryId => 0x35E0,
            KnownPropertyId::IpmWastebasketEntryId => 0x35E3,
            KnownPropertyId::FinderEntryId => 0x35E7,
            KnownPropertyId::ContentCount => 0x3602,
            KnownPropertyId::ContentUnreadCount => 0x3603,
            KnownPropertyId::Subfolders => 0x360A,
            KnownPropertyId::ContainerClass => 0x3613,
            KnownPropertyId::AttachData => 0x3701,
            KnownPropertyId::AttachExtension => 0x3703,
            KnownPropertyId::AttachFilename => 0x3704,
            KnownPropertyId::AttachMethod => 0x3705,
            KnownPropertyId::AttachLongFilename => 0x3707,
            KnownPropertyId::RenderingPosition => 0x370B,
            KnownPropertyId::AttachMimeTag => 0x370E,
            KnownPropertyId::DisplayType => 0x3900,
            KnownPropertyId::SevenBitDisplayName => 0x39FF,
            KnownPropertyId::SendRichInfo => 0x3A40,
            KnownPropertyId::SenderSmtpAddress => 0x5D01,
            KnownPropertyId::SentRepresentingSmtpAddress => 0x5D02,
            KnownPropertyId::SecureSubmitFlags => 0x65C6,
            KnownPropertyId::PstBestBodyProptag => 0x661D,
            KnownPropertyId::PstHiddenCount => 0x6635,
            KnownPropertyId::PstHiddenUnread => 0x6636,
            KnownPropertyId::PstIpmsubTreeDescendant => 0x6705,
            KnownPropertyId::PstSubTreeContainer => 0x6772,
            KnownPropertyId::LtpParentNid => 0x67F1,
            KnownPropertyId::LtpRowId => 0x67F2,
            KnownPropertyId::LtpRowVer => 0x67F3,
            KnownPropertyId::PstPassword => 0x67FF,
            KnownPropertyId::OfflineAddressBookName => 0x6800,
            KnownPropertyId::SendOutlookRecallReport => 0x6803,
            KnownPropertyId::OfflineAddressBookTruncatedProperties => 0x6805,
            KnownPropertyId::MapiFormComposeCommand => 0x682F,
            KnownPropertyId::ViewDescriptorFlags => 0x7003,
            KnownPropertyId::ViewDescriptorLinkTo => 0x7004,
            KnownPropertyId::ViewDescriptorViewFolder => 0x7005,
            KnownPropertyId::ViewDescriptorName => 0x7006,
            KnownPropertyId::ViewDescriptorVersion => 0x7007,
        }
    }
}

/// Id round-trip: the wire value of every recognised property id decodes
/// back to that very id.
pub proof fn lemma_id_code_round_trip(id: KnownPropertyId)
    ensures
        spec_property_id(spec_id_code(id)) == PropertyId::Known(id),
{
}

/// Enum closure: every raw value decodes to a recognised property id or to
/// `Unknown` carrying that very value.
pub proof fn lemma_property_id_closure(input: u16)
    ensures
        spec_property_id(input) matches PropertyId::Unknown(v) ==> v == input,
        (spec_property_id(input) is Known) || spec_property_id(input) == PropertyId::Unknown(
            input,
        ),
{
}

/// The attachment methods the catalog recognises.
#[derive(Debug, Clone, Copy, PartialEq, Eq, Structural)]
pub enum KnownAttachMethod {
    NoAttachment,
    ByValue,
    ByReference,
    ByReferenceOnly,
    EmbeddedMessage,
    Storage,
    ByWebReference,
}

/// An attachment method: a recognised one, or the raw value preserved.
#[derive(Debug, Clone, Copy, PartialEq, Eq, Structural)]
pub enum AttachMethod {
    Unknown(i32),
    Known(KnownAttachMethod),
}

/// The attachment method decoded from its raw value.
pub open spec fn spec_attach_method(input: i32) -> AttachMethod {
    match input {
        0x00000000 => AttachMethod::Known(KnownAttachMethod::NoAttachment),
        0x00000001 => AttachMethod::Known(KnownAttachMethod::ByValue),
        0x00000002 => AttachMethod::Known(KnownAttachMethod::ByReference),
        0x00000004 => AttachMethod::Known(KnownAttachMethod::ByReferenceOnly),
        0x00000005 => AttachMethod::Known(KnownAttachMethod::EmbeddedMessage),
        0x00000006 => AttachMethod::Known(KnownAttachMethod::Storage),
        0x00000007 => AttachMethod::Known(KnownAttachMethod::ByWebReference),
        _ => AttachMethod::Unknown(input),
    }
}

impl AttachMethod {
    /// Decodes an attachment method, preserving unrecognised values.
    pub fn from_i32(input: i32) -> (r: Self)
        ensures
            r == spec_attach_method(input),
    {
        match input {
            0x00000000 => Self::Known(KnownAttachMethod::NoAttachment),
            0x00000001 => Self::Known(KnownAttachMethod::ByValue),
            0x00000002 => Self::Known(KnownAttachMethod::ByReference),
            0x00000004 => Self::Known(KnownAttachMethod::ByReferenceOnly),
            0x00000005 => Self::Known(KnownAttachMethod::EmbeddedMessage),
            0x00000006 => Self::Known(KnownAttachMethod::Storage),
            0x00000007 => Self::Known(KnownAttachMethod::ByWebReference),
            _ => Self::Unknown(input),
        }
    }
}

/// Enum closure: every raw value decodes to a recognised attachment method
/// or to `Unknown` carrying that very value.
pub proof fn lemma_attach_method_closure(input: i32)
    ensures
        spec_attach_method(input) matches AttachMethod::Unknown(v) ==> v == input,
        (spec_attach_method(input) is Known) || spec_attach_method(input) == AttachMethod::Unknown(
            input,
        ),
{
}

/// The two message flags the catalog recognises.
#[derive(Debug, Clone, Copy, PartialEq, Eq, Structural)]
pub enum MessageFlags {
    Read,
    Unsent,
}

/// The message flag named by a raw value, if any.
pub open spec fn spec_message_flags(input: i32) -> Option<MessageFlags> {
    match input {
        0x00000001 => Some(MessageFlags::Read),
        0x00000008 => Some(MessageFlags::Unsent),
        _ => None,
    }
}

impl MessageFlags {
    /// Decodes a message flag; unrecognised values yield nothing.
    pub fn from_i32(input: i32) -> (r: Option<Self>)
        ensures
            r == spec_message_flags(input),
    {
        match input {
            0x00000001 => Some(Self::Read),
            0x00000008 => Some(Self::Unsent),
            _ => None,
        }
    }
}

/// The message statuses the catalog recognises.
#[derive(Debug, Clone, Copy, PartialEq, Eq, Structural)]
pub enum KnownMessageStatus {
    RemoteDownload,
    InConflict,
    RemoteDelete,
}

/// A message status: a recognised one, or the raw value preserved.
#[derive(Debug, Clone, Copy, PartialEq, Eq, Structural)]
pub enum MessageStatus {
    Unknown(i32),
    Known(KnownMessageStatus),
}

/// The message status decoded from its raw value.
pub open spec fn spec_message_status(input: i32) -> MessageStatus {
    match input {
        0x00001000 => MessageStatus::Known(KnownMessageStatus::RemoteDownload),
        0x00000800 => MessageStatus::Known(KnownMessageStatus::InConflict),
        0x00002000 => MessageStatus::Known(KnownMessageStatus::RemoteDelete),
        _ => MessageStatus::Unknown(input),
    }
}

impl MessageStatus {
    /// Decodes a message status, preserving unrecognised values.
    pub fn from_i32(input: i32) -> (r: Self)
        ensures
            r == spec_message_status(input),
    {
        match input {
            0x00001000 => Self::Known(KnownMessageStatus::RemoteDownload),
            0x00000800 => Self::Known(KnownMessageStatus::InConflict),
            0x00002000 => Self::Known(KnownMessageStatus::RemoteDelete),
            _ => Self::Unknown(input),
        }
    }
}

/// Enum closure: every raw value decodes to a recognised message status or
/// to `Unknown` carrying that very value.
pub proof fn lemma_message_status_closure(input: i32)
    ensures
        spec_message_status(input) matches MessageStatus::Unknown(v) ==> v == input,
        (spec_message_status(input) is Known) || spec_message_status(input)
            == MessageStatus::Unknown(input),
{
}

/// A borrowed view of the recipient-related entries of a property stream.
pub struct Recipient<'a> {
    pub recipient_type: Option<&'a PropertyEntry>,
    pub display_name: Option<&'a PropertyEntry>,
    pub object_type: Option<&'a PropertyEntry>,
    pub address_type: Option<&'a PropertyEntry>,
    pub email_address: Option<&'a PropertyEntry>,
    pub display_type: Option<&'a PropertyEntry>,
}

/// The string carried by an entry of UTF-16 string type, if any.
pub open spec fn owned_string(o: Option<PropertyEntryModel>) -> Option<Seq<char>> {
    match o {
        Some(p) => match p.value {
            PropertyValueModel::String(s) => Some(s),
            _ => None,
        },
        None => None,
    }
}

/// The integer carried by an entry of 32-bit integer type, if any.
pub open spec fn owned_i32(o: Option<PropertyEntryModel>) -> Option<i32> {
    match o {
        Some(p) => match p.value {
            PropertyValueModel::Integer32(v) => Some(v),
            _ => None,
        },
        None => None,
    }
}

/// The FILETIME carried by an entry of time type, if any.
pub open spec fn owned_time(o: Option<PropertyEntryModel>) -> Option<i64> {
    match o {
        Some(p) => match p.value {
            PropertyValueModel::Time(t) => Some(t),
            _ => None,
        },
        None => None,
    }
}

/// The bytes carried by an entry of binary type, if any.
pub open spec fn owned_binary(o: Option<PropertyEntryModel>) -> Option<Seq<u8>> {
    match o {
        Some(p) => match p.value {
            PropertyValueModel::Binary(b) => Some(b),
            _ => None,
        },
        None => None,
    }
}

impl<'a> Recipient<'a> {
    /// Selects the recipient-related entries out of a property stream.
    pub fn from(input: &'a PropertyStream) -> (r: Recipient<'a>)
        ensures
            opt_entry_view(r.recipient_type) == spec_lookup(
                input@,
                PropertyId::Known(KnownPropertyId::RecipientType),
            ),
            opt_entry_view(r.display_name) == spec_lookup(
                input@,
                PropertyId::Known(KnownPropertyId::DisplayName),
            ),
            opt_entry_view(r.object_type) == spec_lookup(
                input@,
                PropertyId::Known(KnownPropertyId::ObjectType),
            ),
            opt_entry_view(r.address_type) == spec_lookup(
                input@,
                PropertyId::Known(KnownPropertyId::AddressType),
            ),
            opt_entry_view(r.email_address) == spec_lookup(
                input@,
                PropertyId::Known(KnownPropertyId::EmailAddress),
            ),
            opt_entry_view(r.display_type) == spec_lookup(
                input@,
                PropertyId::Known(KnownPropertyId::DisplayType),
            ),
    {
        Recipient {
            recipient_type: input.get(PropertyId::Known(KnownPropertyId::RecipientType)),
            display_name: input.get(PropertyId::Known(KnownPropertyId::DisplayName)),
            object_type: input.get(PropertyId::Known(KnownPropertyId::ObjectType)),
            address_type: input.get(PropertyId::Known(KnownPropertyId::AddressType)),
            email_address: input.get(PropertyId::Known(KnownPropertyId::EmailAddress)),
            display_type: input.get(PropertyId::Known(KnownPropertyId::DisplayType)),
        }
    }

    /// Resolves each selected entry into its plain value: an entry of the
    /// wrong type yields nothing, as if it were absent.
    pub fn to_owned(&self) -> (r: RecipientOwned)
        ensures
            r@.recipient_type == (match owned_i32(opt_entry_view(self.recipient_type)) {
                Some(v) => Some(crate::oxomsg::spec_recipient_type(v)),
                None => None::<crate::oxomsg::RecipientType>,
            }),
            r@.display_name == owned_string(opt_entry_view(self.display_name)),
            r@.object_type == (match owned_i32(opt_entry_view(self.object_type)) {
                Some(v) => Some(crate::oxcprpt::spec_object_type(v)),
                None => None::<crate::oxcprpt::ObjectType>,
            }),
            r@.address_type == owned_string(opt_entry_view(self.address_type)),
            r@.email_address == owned_string(opt_entry_view(self.email_address)),
            r@.display_type == (match owned_i32(opt_entry_view(self.display_type)) {
                Some(v) => Some(crate::oxnspi::spec_display_type(v)),
                None => None::<crate::oxnspi::DisplayType>,
            }),
    {
        let recipient_type = match self.recipient_type {
            Some(p) => match &p.value {
                PropertyValue::Integer32(v) => Some(crate::oxomsg::RecipientType::from_i32(*v)),
                _ => None,
            },
            None => None,
        };
        let display_name = match self.display_name {
            Some(p) => match &p.value {
                PropertyValue::String(s) => Some(s.clone()),
                _ => None,
            },
            None => None,
        };
        let object_type = match self.object_type {
            Some(p) => match &p.value {
                PropertyValue::Integer32(v) => Some(crate::oxcprpt::ObjectType::from_i32(*v)),
                _ => None,
            },
            None => None,
        };
        let address_type = match self.address_type {
            Some(p) => match &p.value {
                PropertyValue::String(s) => Some(s.clone()),
                _ => None,
            },
            None => None,
        };
        let email_address = match self.email_address {
            Some(p) => match &p.value {
                PropertyValue::String(s) => Some(s.clone()),
                _ => None,
            },
            None => None,
        };
        let display_type = match self.display_type {
            Some(p) => match &p.value {
                PropertyValue::Integer32(v) => Some(crate::oxnspi::DisplayType::from_i32(*v)),
                _ => None,
            },
            None => None,
        };
        RecipientOwned {
            recipient_type,
            display_name,
            object_type,
            address_type,
            email_address,
            display_type,
        }
    }
}

/// A recipient record resolved to plain values.
#[derive(Debug, Clone, PartialEq, Eq)]
pub struct RecipientOwned {
    pub recipient_type: Option<crate::oxomsg::RecipientType>,
    pub display_name: Option<String>,
    pub object_type: Option<crate::oxcprpt::ObjectType>,
    pub address_type: Option<String>,
    pub email_address: Option<String>,
    pub display_type: Option<crate::oxnspi::DisplayType>,
}

/// The mathematical image of a resolved recipient record.
pub struct RecipientOwnedModel {
    pub recipient_type: Option<crate::oxomsg::RecipientType>,
    pub display_name: Option<Seq<char>>,
    pub object_type: Option<crate::oxcprpt::ObjectType>,
    pub address_type: Option<Seq<char>>,
    pub email_address: Option<Seq<char>>,
    pub display_type: Option<crate::oxnspi::DisplayType>,
}

impl View for RecipientOwned {
    type V = RecipientOwnedModel;

    open spec fn view(&self) -> RecipientOwnedModel {
        RecipientOwnedModel {
            recipient_type: self.recipient_type,
            display_name: opt_string_view(self.display_name),
            object_type: self.object_type,
            address_type: opt_string_view(self.address_type),
            email_address: opt_string_view(self.email_address),
            display_type: self.display_type,
        }
    }
}

/// The view of an optional string.
pub open spec fn opt_string_view(o: Option<String>) -> Option<Seq<char>> {
    match o {
        Some(s) => Some(s@),
        None => None,
    }
}

/// The view of an optional byte vector.
pub open spec fn opt_bytes_view(o: Option<Vec<u8>>) -> Option<Seq<u8>> {
    match o {
        Some(v) => Some(v@),
        None => None,
    }
}

/// A borrowed view of the attachment-related entries of a property stream.
pub struct Attachment<'a> {
    pub display_name: Option<&'a PropertyEntry>,
    pub attach_method: Option<&'a PropertyEntry>,
    pub size: Option<&'a PropertyEntry>,
    pub short_filename: Option<&'a PropertyEntry>,
    pub long_filename: Option<&'a PropertyEntry>,
    pub data: Option<&'a PropertyEntry>,
    pub mime_tag: Option<&'a PropertyEntry>,
    pub extension: Option<&'a PropertyEntry>,
}

impl<'a> Attachment<'a> {
    /// Selects the attachment-related entries out of a property stream.
    pub fn from(input: &'a PropertyStream) -> (r: Attachment<'a>)
        ensures
            opt_entry_view(r.display_name) == spec_lookup(
                input@,
                PropertyId::Known(KnownPropertyId::DisplayName),
            ),
            opt_entry_view(r.attach_method) == spec_lookup(
                input@,
                PropertyId::Known(KnownPropertyId::AttachMethod),
            ),
            opt_entry_view(r.size) == spec_lookup(
                input@,
                PropertyId::Known(KnownPropertyId::AttachmentSize),
            ),
            opt_entry_view(r.short_filename) == spec_lookup(
                input@,
                PropertyId::Known(KnownPropertyId::AttachFilename),
            ),
            opt_entry_view(r.long_filename) == spec_lookup(
                input@,
                PropertyId::Known(KnownPropertyId::AttachLongFilename),
            ),
            opt_entry_view(r.data) == spec_lookup(
                input@,
                PropertyId::Known(KnownPropertyId::AttachData),
            ),
            opt_entry_view(r.mime_tag) == spec_lookup(
                input@,
                PropertyId::Known(KnownPropertyId::AttachMimeTag),
            ),
            opt_entry_view(r.extension) == spec_lookup(
                input@,
                PropertyId::Known(KnownPropertyId::AttachExtension),
            ),
    {
        Attachment {
            display_name: input.get(PropertyId::Known(KnownPropertyId::DisplayName)),
            attach_method: input.get(PropertyId::Known(KnownPropertyId::AttachMethod)),
            size: input.get(PropertyId::Known(KnownPropertyId::AttachmentSize)),
            short_filename: input.get(PropertyId::Known(KnownPropertyId::AttachFilename)),
            long_filename: input.get(PropertyId::Known(KnownPropertyId::AttachLongFilename)),
            data: input.get(PropertyId::Known(KnownPropertyId::AttachData)),
            mime_tag: input.get(PropertyId::Known(KnownPropertyId::AttachMimeTag)),
            extension: input.get(PropertyId::Known(KnownPropertyId::AttachExtension)),
        }
    }

    /// Resolves each selected entry into its plain value: an entry of the
    /// wrong type yields nothing, as if it were absent.
    pub fn to_owned(&self) -> (r: AttachmentOwned)
        ensures
            r@.display_name == owned_string(opt_entry_view(self.display_name)),
            r@.attach_method == (match owned_i32(opt_entry_view(self.attach_method)) {
                Some(v) => Some(spec_attach_method(v)),
                None => None::<AttachMethod>,
            }),
            r@.size == owned_i32(opt_entry_view(self.size)),
            r@.short_filename == owned_string(opt_entry_view(self.short_filename)),
            r@.long_filename == owned_string(opt_entry_view(self.long_filename)),
            r@.data == owned_binary(opt_entry_view(self.data)),
            r@.mime_tag == owned_string(opt_entry_view(self.mime_tag)),
            r@.extension == owned_string(opt_entry_view(self.extension)),
    {
        let display_name = match self.display_name {
            Some(p) => match &p.value {
                PropertyValue::String(s) => Some(s.clone()),
                _ => None,
            },
            None => None,
        };
        let attach_method = match self.attach_method {
            Some(p) => match &p.value {
                PropertyValue::Integer32(v) => Some(AttachMethod::from_i32(*v)),
                _ => None,
            },
            None => None,
        };
        let size = match self.size {
            Some(p) => match &p.value {
                PropertyValue::Integer32(v) => Some(*v),
                _ => None,
            },
            None => None,
        };
        let short_filename = match self.short_filename {
            Some(p) => match &p.value {
                PropertyValue::String(s) => Some(s.clone()),
                _ => None,
            },
            None => None,
        };
        let long_filename = match self.long_filename {
            Some(p) => match &p.value {
                PropertyValue::String(s) => Some(s.clone()),
                _ => None,
            },
            None => None,
        };
        let data = match self.data {
            Some(p) => match &p.value {
                PropertyValue::Binary(b) => {
                    let copy = crate::bytes::copy_range(b.as_slice(), 0, b.len());
                    proof {
                        assert(copy@ =~= b@);
                    }
                    Some(copy)
                },
                _ => None,
            },
            None => None,
        };
        let mime_tag = match self.mime_tag {
            Some(p) => match &p.value {
                PropertyValue::String(s) => Some(s.clone()),
                _ => None,
            },
            None => None,
        };
        let extension = match self.extension {
            Some(p) => match &p.value {
                PropertyValue::String(s) => Some(s.clone()),
                _ => None,
            },
            None => None,
        };
        AttachmentOwned {
            display_name,
            attach_method,
            size,
            short_filename,
            long_filename,
            data,
            mime_tag,
            extension,
        }
    }
}

/// An attachment record resolved to plain values.
#[derive(Debug, Clone, PartialEq, Eq)]
pub struct AttachmentOwned {
    pub display_name: Option<String>,
    pub attach_method: Option<AttachMethod>,
    pub size: Option<i32>,
    pub short_filename: Option<String>,
    pub long_filename: Option<String>,
    pub data: Option<Vec<u8>>,
    pub mime_tag: Option<String>,
    pub extension: Option<String>,
}

/// The mathematical image of a resolved attachment record.
pub struct AttachmentOwnedModel {
    pub display_name: Option<Seq<char>>,
    pub attach_method: Option<AttachMethod>,
    pub size: Option<i32>,
    pub short_filename: Option<Seq<char>>,
    pub long_filename: Option<Seq<char>>,
    pub data: Option<Seq<u8>>,
    pub mime_tag: Option<Seq<char>>,
    pub extension: Option<Seq<char>>,
}

impl View for AttachmentOwned {
    type V = AttachmentOwnedModel;

    open spec fn view(&self) -> AttachmentOwnedModel {
        AttachmentOwnedModel {
            display_name: opt_string_view(self.display_name),
            attach_method: self.attach_method,
            size: self.size,
            short_filename: opt_string_view(self.short_filename),
            long_filename: opt_string_view(self.long_filename),
            data: opt_bytes_view(self.data),
            mime_tag: opt_string_view(self.mime_tag),
            extension: opt_string_view(self.extension),
        }
    }
}

/// A borrowed view of the message-level entries of a property stream.
pub struct Message<'a> {
    pub subject: Option<&'a PropertyEntry>,
    pub client_submit_time: Option<&'a PropertyEntry>,
    pub sent_representing_name: Option<&'a PropertyEntry>,
    pub sender_name: Option<&'a PropertyEntry>,
    pub sender_smtp_address: Option<&'a PropertyEntry>,
    pub delivery_time: Option<&'a PropertyEntry>,
    pub flags: Option<&'a PropertyEntry>,
    pub status: Option<&'a PropertyEntry>,
    pub size: Option<&'a PropertyEntry>,
    pub body: Option<&'a PropertyEntry>,
    pub transport_message_headers: Option<&'a PropertyEntry>,
    pub display_to: Option<&'a PropertyEntry>,
}

impl<'a> Message<'a> {
    /// Selects the message-level entries out of a property stream.
    pub fn from(input: &'a PropertyStream) -> (r: Message<'a>)
        ensures
            opt_entry_view(r.subject) == spec_lookup(
                input@,
                PropertyId::Known(KnownPropertyId::SubjectW),
            ),
            opt_entry_view(r.client_submit_time) == spec_lookup(
                input@,
                PropertyId::Known(KnownPropertyId::ClientSubmitTime),
            ),
            opt_entry_view(r.sent_representing_name) == spec_lookup(
                input@,
                PropertyId::Known(KnownPropertyId::SentRepresentingNameW),
            ),
            opt_entry_view(r.sender_name) == spec_lookup(
                input@,
                PropertyId::Known(KnownPropertyId::SenderName),
            ),
            opt_entry_view(r.sender_smtp_address) == spec_lookup(
                input@,
                PropertyId::Known(KnownPropertyId::SenderSmtpAddress),
            ),
            opt_entry_view(r.delivery_time) == spec_lookup(
                input@,
                PropertyId::Known(KnownPropertyId::MessageDeliveryTime),
            ),
            opt_entry_view(r.flags) == spec_lookup(
                input@,
                PropertyId::Known(KnownPropertyId::MessageFlags),
            ),
            opt_entry_view(r.status) == spec_lookup(
                input@,
                PropertyId::Known(KnownPropertyId::MessageStatus),
            ),
            opt_entry_view(r.size) == spec_lookup(
                input@,
                PropertyId::Known(KnownPropertyId::MessageSize),
            ),
            opt_entry_view(r.body) == spec_lookup(
                input@,
                PropertyId::Known(KnownPropertyId::Body),
            ),
            opt_entry_view(r.transport_message_headers) == spec_lookup(
                input@,
                PropertyId::Known(KnownPropertyId::TransportMessageHeaders),
            ),
            opt_entry_view(r.display_to) == spec_lookup(
                input@,
                PropertyId::Known(KnownPropertyId::DisplayToW),
            ),
    {
        Message {
            subject: input.get(PropertyId::Known(KnownPropertyId::SubjectW)),
            client_submit_time: input.get(PropertyId::Known(KnownPropertyId::ClientSubmitTime)),
            sent_representing_name: input.get(
                PropertyId::Known(KnownPropertyId::SentRepresentingNameW),
            ),
            sender_name: input.get(PropertyId::Known(KnownPropertyId::SenderName)),
            sender_smtp_address: input.get(PropertyId::Known(KnownPropertyId::SenderSmtpAddress)),
            delivery_time: input.get(PropertyId::Known(KnownPropertyId::MessageDeliveryTime)),
            flags: input.get(PropertyId::Known(KnownPropertyId::MessageFlags)),
            status: input.get(PropertyId::Known(KnownPropertyId::MessageStatus)),
            size: input.get(PropertyId::Known(KnownPropertyId::MessageSize)),
            body: input.get(PropertyId::Known(KnownPropertyId::Body)),
            transport_message_headers: input.get(
                PropertyId::Known(KnownPropertyId::TransportMessageHeaders),
            ),
            display_to: input.get(PropertyId::Known(KnownPropertyId::DisplayToW)),
        }
    }

    /// Resolves each selected entry into its plain value: an entry of the
    /// wrong type yields nothing, as if it were absent.
    pub fn to_owned(&self) -> (r: MessageOwned)
        ensures
            r@.subject == owned_string(opt_entry_view(self.subject)),
            r@.client_submit_time == owned_time(opt_entry_view(self.client_submit_time)),
            r@.sent_representing_name == owned_string(opt_entry_view(self.sent_representing_name)),
            r@.sender_name == owned_string(opt_entry_view(self.sender_name)),
            r@.sender_smtp_address == owned_string(opt_entry_view(self.sender_smtp_address)),
            r@.delivery_time == owned_time(opt_entry_view(self.delivery_time)),
            r@.flags == owned_i32(opt_entry_view(self.flags)),
            r@.status == (match owned_i32(opt_entry_view(self.status)) {
                Some(v) => Some(spec_message_status(v)),
                None => None::<MessageStatus>,
            }),
            r@.size == owned_i32(opt_entry_view(self.size)),
            r@.body == owned_string(opt_entry_view(self.body)),
            r@.transport_message_headers == owned_string(
                opt_entry_view(self.transport_message_headers),
            ),
            r@.display_to == owned_string(opt_entry_view(self.display_to)),
    {
        let subject = match self.subject {
            Some(p) => match &p.value {
                PropertyValue::String(s) => Some(s.clone()),
                _ => None,
            },
            None => None,
        };
        let client_submit_time = match self.client_submit_time {
            Some(p) => match &p.value {
                PropertyValue::Time(t) => Some(*t),
                _ => None,
            },
            None => None,
        };
        let sent_representing_name = match self.sent_representing_name {
            Some(p) => match &p.value {
                PropertyValue::String(s) => Some(s.clone()),
                _ => None,
            },
            None => None,
        };
        let sender_name = match self.sender_name {
            Some(p) => match &p.value {
                PropertyValue::String(s) => Some(s.clone()),
                _ => None,
            },
            None => None,
        };
        let sender_smtp_address = match self.sender_smtp_address {
            Some(p) => match &p.value {
                PropertyValue::String(s) => Some(s.clone()),
                _ => None,
            },
            None => None,
        };
        let delivery_time = match self.delivery_time {
            Some(p) => match &p.value {
                PropertyValue::Time(t) => Some(*t),
                _ => None,
            },
            None => None,
        };
        let flags = match self.flags {
            Some(p) => match &p.value {
                PropertyValue::Integer32(v) => Some(*v),
                _ => None,
            },
            None => None,
        };
        let status = match self.status {
            Some(p) => match &p.value {
                PropertyValue::Integer32(v) => Some(MessageStatus::from_i32(*v)),
                _ => None,
            },
            None => None,
        };
        let size = match self.size {
            Some(p) => match &p.value {
                PropertyValue::Integer32(v) => Some(*v),
                _ => None,
            },
            None => None,
        };
        let body = match self.body {
            Some(p) => match &p.value {
                PropertyValue::String(s) => Some(s.clone()),
                _ => None,
            },
            None => None,
        };
        let transport_message_headers = match self.transport_message_headers {
            Some(p) => match &p.value {
                PropertyValue::String(s) => Some(s.clone()),
                _ => None,
            },
            None => None,
        };
        let display_to = match self.display_to {
            Some(p) => match &p.value {
                PropertyValue::String(s) => Some(s.clone()),
                _ => None,
            },
            None => None,
        };
        MessageOwned {
            subject,
            client_submit_time,
            sent_representing_name,
            sender_name,
            sender_smtp_address,
            delivery_time,
            flags,
            status,
            size,
            body,
            transport_message_headers,
            display_to,
        }
    }
}

/// A message record resolved to plain values; times are FILETIME ticks.
#[derive(Debug, Clone, PartialEq, Eq)]
pub struct MessageOwned {
    pub subject: Option<String>,
    pub client_submit_time: Option<i64>,
    pub sent_representing_name: Option<String>,
    pub sender_name: Option<String>,
    pub sender_smtp_address: Option<String>,
    pub delivery_time: Option<i64>,
    pub flags: Option<i32>,
    pub status: Option<MessageStatus>,
    pub size: Option<i32>,
    pub body: Option<String>,
    pub transport_message_headers: Option<String>,
    pub display_to: Option<String>,
}

/// The mathematical image of a resolved message record.
pub struct MessageOwnedModel {
    pub subject: Option<Seq<char>>,
    pub client_submit_time: Option<i64>,
    pub sent_representing_name: Option<Seq<char>>,
    pub sender_name: Option<Seq<char>>,
    pub sender_smtp_address: Option<Seq<char>>,
    pub delivery_time: Option<i64>,
    pub flags: Option<i32>,
    pub status: Option<MessageStatus>,
    pub size: Option<i32>,
    pub body: Option<Seq<char>>,
    pub transport_message_headers: Option<Seq<char>>,
    pub display_to: Option<Seq<char>>,
}

impl View for MessageOwned {
    type V = MessageOwnedModel;

    open spec fn view(&self) -> MessageOwnedModel {
        MessageOwnedModel {
            subject: opt_string_view(self.subject),
            client_submit_time: self.client_submit_time,
            sent_representing_name: opt_string_view(self.sent_representing_name),
            sender_name: opt_string_view(self.sender_name),
            sender_smtp_address: opt_string_view(self.sender_smtp_address),
            delivery_time: self.delivery_time,
            flags: self.flags,
            status: self.status,
            size: self.size,
            body: opt_string_view(self.body),
            transport_message_headers: opt_string_view(self.transport_message_headers),
            display_to: opt_string_view(self.display_to),
        }
    }
}

} // verus!
