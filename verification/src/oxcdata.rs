//! Typed data decoding shared by the property layer: FILETIME values,
//! identifiers, property types and values.

use vstd::prelude::*;
use crate::MsgError;
use crate::bytes::{le16, le32, le64, as_i16, as_i32, as_i64};
use crate::oxcmsg::PropertyId;
use crate::strings::{spec_utf16_string, spec_utf16_strings, spec_string8, ascii_to_utf16,
    substg_name_ascii, substg_element_name_ascii};

verus! {

/// Whether chrono accepts a microsecond Unix timestamp as a date.
pub uninterp spec fn unix_micros_in_range(micros: i64) -> bool;

/// Relies on chrono's `DateTime::<Utc>::from_timestamp_micros`: whether a
/// count of microseconds from the Unix epoch names a representable date
/// depends on that count alone.
#[verifier::external_body]
fn micros_in_range(micros: i64) -> (r: bool)
    ensures
        r == unix_micros_in_range(micros),
{
    chrono::DateTime::<chrono::Utc>::from_timestamp_micros(micros).is_some()
}

/// Microseconds between the FILETIME epoch (1601) and the Unix epoch (1970).
pub const FILETIME_UNIX_OFFSET_MICROS: i64 = 11_644_473_600_000_000;

/// The microsecond Unix timestamp of `ticks` 100-nanosecond intervals
/// counted from 1601-01-01, the division truncating toward zero.
pub open spec fn filetime_unix_micros(ticks: i64) -> int {
    (if ticks >= 0 {
        (ticks as int) / 10
    } else {
        -((-(ticks as int)) / 10)
    }) - FILETIME_UNIX_OFFSET_MICROS
}

/// Whether the FILETIME value `ticks` decodes to a representable date.
pub open spec fn filetime_ok(ticks: i64) -> bool {
    unix_micros_in_range(filetime_unix_micros(ticks) as i64)
}

/// Converts a FILETIME tick count to a microsecond Unix timestamp.
pub fn filetime_to_micros(ticks: i64) -> (r: i64)
    ensures
        r as int == filetime_unix_micros(ticks),
{
    let q: i64 = if ticks >= 0 {
        ((ticks as u64) / 10) as i64
    } else if ticks == i64::MIN {
        -922_337_203_685_477_580
    } else {
        -((((-ticks) as u64) / 10) as i64)
    };
    q - FILETIME_UNIX_OFFSET_MICROS
}

/// Decides whether a FILETIME value names a representable date.
pub fn check_filetime(ticks: i64) -> (r: bool)
    ensures
        r == filetime_ok(ticks),
{
    micros_in_range(filetime_to_micros(ticks))
}

/// A FILETIME read at offset `i`: all-zero bytes mean the date is absent;
/// an unrepresentable date fails with `TimeOverflow`.
pub open spec fn spec_date_opt(b: Seq<u8>, i: int) -> Result<Option<i64>, MsgError>
    recommends
        0 <= i,
        i + 8 <= b.len(),
{
    if le64(b, i) == 0 {
        Ok(None)
    } else {
        let ticks = as_i64(le64(b, i));
        if filetime_ok(ticks) {
            Ok(Some(ticks))
        } else {
            Err(MsgError::TimeOverflow)
        }
    }
}

/// Reads an optional FILETIME at offset `i` of `b`.
pub fn date_opt(b: &[u8], i: usize) -> (r: Result<Option<i64>, MsgError>)
    requires
        i + 8 <= b@.len(),
    ensures
        r == spec_date_opt(b@, i as int),
{
    let x: u64 = crate::bytes::read_le64(b, i);
    if x == 0 {
        return Ok(None);
    }
    let ticks: i64 = crate::bytes::to_i64(x);
    if check_filetime(ticks) {
        Ok(Some(ticks))
    } else {
        Err(MsgError::TimeOverflow)
    }
}

/// The property value types the catalog recognises.
#[derive(Debug, Clone, Copy, PartialEq, Eq, Structural)]
pub enum KnownPropertyType {
    Unspecified,
    Null,
    Integer16,
    Integer32,
    Integer64,
    Floating32,
    Floating64,
    FloatingTime,
    Currency,
    ErrorCode,
    Boolean,
    Object,
    String,
    String8,
    Time,
    Guid,
    ServerId,
    Restriction,
    RuleAction,
    Binary,
    MultipleInteger16,
    MultipleInteger32,
    MultipleInteger64,
    MultipleFloating32,
    MultipleFloating64,
    MultipleCurrency,
    MultipleFloatingTime,
    MultipleString,
    MultipleString8,
    MultipleTime,
    MultipleGuid,
    MultipleBinary,
}

/// A property type: a recognised one, or the raw code preserved.
#[derive(Debug, Clone, Copy, PartialEq, Eq, Structural)]
pub enum PropertyType {
    Unknown(u16),
    Known(KnownPropertyType),
}

/// The wire code of a recognised property type.
pub open spec fn spec_type_code(t: KnownPropertyType) -> u16 {
    match t {
        KnownPropertyType::Unspecified => 0x0000,
        KnownPropertyType::Null => 0x0001,
        KnownPropertyType::Integer16 => 0x0002,
        KnownPropertyType::Integer32 => 0x0003,
        KnownPropertyType::Integer64 => 0x0014,
        KnownPropertyType::Floating32 => 0x0004,
        KnownPropertyType::Floating64 => 0x0005,
        KnownPropertyType::FloatingTime => 0x0007,
        KnownPropertyType::Currency => 0x0006,
        KnownPropertyType::ErrorCode => 0x000A,
        KnownPropertyType::Boolean => 0x000B,
        KnownPropertyType::Object => 0x000D,
        KnownPropertyType::String => 0x001F,
        KnownPropertyType::String8 => 0x001E,
        KnownPropertyType::Time => 0x0040,
        KnownPropertyType::Guid => 0x0048,
        KnownPropertyType::ServerId => 0x00FB,
        KnownPropertyType::Restriction => 0x00FD,
        KnownPropertyType::RuleAction => 0x00FE,
        KnownPropertyType::Binary => 0x0102,
        KnownPropertyType::MultipleInteger16 => 0x1002,
        KnownPropertyType::MultipleInteger32 => 0x1003,
        KnownPropertyType::MultipleInteger64 => 0x1014,
        KnownPropertyType::MultipleFloating32 => 0x1004,
        KnownPropertyType::MultipleFloating64 => 0x1005,
        KnownPropertyType::MultipleCurrency => 0x1006,
        KnownPropertyType::MultipleFloatingTime => 0x1007,
        KnownPropertyType::MultipleString => 0x101F,
        KnownPropertyType::MultipleString8 => 0x101E,
        KnownPropertyType::MultipleTime => 0x1040,
        KnownPropertyType::MultipleGuid => 0x1048,
        KnownPropertyType::MultipleBinary => 0x1102,
    }
}

/// The property type decoded from its wire code.
pub open spec fn spec_property_type(input: u16) -> PropertyType {
    match input {
        0x0000 => PropertyType::Known(KnownPropertyType::Unspecified),
        0x0001 => PropertyType::Known(KnownPropertyType::Null),
        0x0002 => PropertyType::Known(KnownPropertyType::Integer16),
        0x0003 => PropertyType::Known(KnownPropertyType::Integer32),
        0x0014 => PropertyType::Known(KnownPropertyType::Integer64),
        0x0004 => PropertyType::Known(KnownPropertyType::Floating32),
        0x0005 => PropertyType::Known(KnownPropertyType::Floating64),
        0x0007 => PropertyType::Known(KnownPropertyType::FloatingTime),
        0x0006 => PropertyType::Known(KnownPropertyType::Currency),
        0x000A => PropertyType::Known(KnownPropertyType::ErrorCode),
        0x000B => PropertyType::Known(KnownPropertyType::Boolean),
        0x000D => PropertyType::Known(KnownPropertyType::Object),
        0x001F => PropertyType::Known(KnownPropertyType::String),
        0x001E => PropertyType::Known(KnownPropertyType::String8),
        0x0040 => PropertyType::Known(KnownPropertyType::Time),
        0x0048 => PropertyType::Known(KnownPropertyType::Guid),
        0x00FB => PropertyType::Known(KnownPropertyType::ServerId),
        0x00FD => PropertyType::Known(KnownPropertyType::Restriction),
        0x00FE => PropertyType::Known(KnownPropertyType::RuleAction),
        0x0102 => PropertyType::Known(KnownPropertyType::Binary),
        0x1002 => PropertyType::Known(KnownPropertyType::MultipleInteger16),
        0x1003 => PropertyType::Known(KnownPropertyType::MultipleInteger32),
        0x1014 => PropertyType::Known(KnownPropertyType::MultipleInteger64),
        0x1004 => PropertyType::Known(KnownPropertyType::MultipleFloating32),
        0x1005 => PropertyType::Known(KnownPropertyType::MultipleFloating64),
        0x1006 => PropertyType::Known(KnownPropertyType::MultipleCurrency),
        0x1007 => PropertyType::Known(KnownPropertyType::MultipleFloatingTime),
        0x101F => PropertyType::Known(KnownPropertyType::MultipleString),
        0x101E => PropertyType::Known(KnownPropertyType::MultipleString8),
        0x1040 => PropertyType::Known(KnownPropertyType::MultipleTime),
        0x1048 => PropertyType::Known(KnownPropertyType::MultipleGuid),
        0x1102 => PropertyType::Known(KnownPropertyType::MultipleBinary),
        _ => PropertyType::Unknown(input),
    }
}

/// Whether a property's value lives in a sibling stream whose size depends
/// on the value (variable-length single values and the string multis).
pub open spec fn spec_is_variable(t: PropertyType) -> bool {
    ||| t == PropertyType::Known(KnownPropertyType::String)
    ||| t == PropertyType::Known(KnownPropertyType::String8)
    ||| t == PropertyType::Known(KnownPropertyType::Binary)
    ||| t == PropertyType::Known(KnownPropertyType::Guid)
    ||| t == PropertyType::Known(KnownPropertyType::Object)
    ||| t == PropertyType::Known(KnownPropertyType::ServerId)
    ||| t == PropertyType::Known(KnownPropertyType::RuleAction)
    ||| t == PropertyType::Known(KnownPropertyType::Restriction)
    ||| t == PropertyType::Known(KnownPropertyType::MultipleString)
    ||| t == PropertyType::Known(KnownPropertyType::MultipleString8)
}

/// Whether a property is multi-valued.
pub open spec fn spec_is_multi(t: PropertyType) -> bool {
    ||| t == PropertyType::Known(KnownPropertyType::MultipleInteger16)
    ||| t == PropertyType::Known(KnownPropertyType::MultipleInteger32)
    ||| t == PropertyType::Known(KnownPropertyType::MultipleInteger64)
    ||| t == PropertyType::Known(KnownPropertyType::MultipleFloating32)
    ||| t == PropertyType::Known(KnownPropertyType::MultipleFloating64)
    ||| t == PropertyType::Known(KnownPropertyType::MultipleCurrency)
    ||| t == PropertyType::Known(KnownPropertyType::MultipleFloatingTime)
    ||| t == PropertyType::Known(KnownPropertyType::MultipleTime)
    ||| t == PropertyType::Known(KnownPropertyType::MultipleGuid)
    ||| t == PropertyType::Known(KnownPropertyType::MultipleBinary)
    ||| t == PropertyType::Known(KnownPropertyType::MultipleString)
    ||| t == PropertyType::Known(KnownPropertyType::MultipleString8)
}

impl PropertyType {
    /// Decodes a property type, preserving unrecognised codes.
    pub fn from_u16(input: u16) -> (r: Self)
        ensures
            r == spec_property_type(input),
    {
        match input {
            0x0000 => Self::Known(KnownPropertyType::Unspecified),
            0x0001 => Self::Known(KnownPropertyType::Null),
            0x0002 => Self::Known(KnownPropertyType::Integer16),
            0x0003 => Self::Known(KnownPropertyType::Integer32),
            0x0014 => Self::Known(KnownPropertyType::Integer64),
            0x0004 => Self::Known(KnownPropertyType::Floating32),
            0x0005 => Self::Known(KnownPropertyType::Floating64),
            0x0007 => Self::Known(KnownPropertyType::FloatingTime),
            0x0006 => Self::Known(KnownPropertyType::Currency),
            0x000A => Self::Known(KnownPropertyType::ErrorCode),
            0x000B => Self::Known(KnownPropertyType::Boolean),
            0x000D => Self::Known(KnownPropertyType::Object),
            0x001F => Self::Known(KnownPropertyType::String),
            0x001E => Self::Known(KnownPropertyType::String8),
            0x0040 => Self::Known(KnownPropertyType::Time),
            0x0048 => Self::Known(KnownPropertyType::Guid),
            0x00FB => Self::Known(KnownPropertyType::ServerId),
            0x00FD => Self::Known(KnownPropertyType::Restriction),
            0x00FE => Self::Known(KnownPropertyType::RuleAction),
            0x0102 => Self::Known(KnownPropertyType::Binary),
            0x1002 => Self::Known(KnownPropertyType::MultipleInteger16),
            0x1003 => Self::Known(KnownPropertyType::MultipleInteger32),
            0x1014 => Self::Known(KnownPropertyType::MultipleInteger64),
            0x1004 => Self::Known(KnownPropertyType::MultipleFloating32),
            0x1005 => Self::Known(KnownPropertyType::MultipleFloating64),
            0x1006 => Self::Known(KnownPropertyType::MultipleCurrency),
            0x1007 => Self::Known(KnownPropertyType::MultipleFloatingTime),
            0x101F => Self::Known(KnownPropertyType::MultipleString),
            0x101E => Self::Known(KnownPropertyType::MultipleString8),
            0x1040 => Self::Known(KnownPropertyType::MultipleTime),
            0x1048 => Self::Known(KnownPropertyType::MultipleGuid),
            0x1102 => Self::Known(KnownPropertyType::MultipleBinary),
            _ => Self::Unknown(input),
        }
    }

    /// The wire code of a recognised property type.
    pub fn type_code(t: KnownPropertyType) -> (r: u16)
        ensures
            r == spec_type_code(t),
    {
        match t {
            KnownPropertyType::Unspecified => 0x0000,
            KnownPropertyType::Null => 0x0001,
            KnownPropertyType::Integer16 => 0x0002,
            KnownPropertyType::Integer32 => 0x0003,
            KnownPropertyType::Integer64 => 0x0014,
            KnownPropertyType::Floating32 => 0x0004,
            KnownPropertyType::Floating64 => 0x0005,
            KnownPropertyType::FloatingTime => 0x0007,
            KnownPropertyType::Currency => 0x0006,
            KnownPropertyType::ErrorCode => 0x000A,
            KnownPropertyType::Boolean => 0x000B,
            KnownPropertyType::Object => 0x000D,
            KnownPropertyType::String => 0x001F,
            KnownPropertyType::String8 => 0x001E,
            KnownPropertyType::Time => 0x0040,
            KnownPropertyType::Guid => 0x0048,
            KnownPropertyType::ServerId => 0x00FB,
            KnownPropertyType::Restriction => 0x00FD,
            KnownPropertyType::RuleAction => 0x00FE,
            KnownPropertyType::Binary => 0x0102,
            KnownPropertyType::MultipleInteger16 => 0x1002,
            KnownPropertyType::MultipleInteger32 => 0x1003,
            KnownPropertyType::MultipleInteger64 => 0x1014,
            KnownPropertyType::MultipleFloating32 => 0x1004,
            KnownPropertyType::MultipleFloating64 => 0x1005,
            KnownPropertyType::MultipleCurrency => 0x1006,
            KnownPropertyType::MultipleFloatingTime => 0x1007,
            KnownPropertyType::MultipleString => 0x101F,
            KnownPropertyType::MultipleString8 => 0x101E,
            KnownPropertyType::MultipleTime => 0x1040,
            KnownPropertyType::MultipleGuid => 0x1048,
            KnownPropertyType::MultipleBinary => 0x1102,
        }
    }

    /// Whether this property's value lives in a sibling stream of
    /// value-dependent size.
    pub fn is_variable(&self) -> (r: bool)
        ensures
            r == spec_is_variable(*self),
    {
        match self {
            Self::Known(KnownPropertyType::String) => true,
            Self::Known(KnownPropertyType::String8) => true,
            Self::Known(KnownPropertyType::Binary) => true,
            Self::Known(KnownPropertyType::Guid) => true,
            Self::Known(KnownPropertyType::Object) => true,
            Self::Known(KnownPropertyType::ServerId) => true,
            Self::Known(KnownPropertyType::RuleAction) => true,
            Self::Known(KnownPropertyType::Restriction) => true,
            Self::Known(KnownPropertyType::MultipleString) => true,
            Self::Known(KnownPropertyType::MultipleString8) => true,
            _ => false,
        }
    }

    /// Whether this property is multi-valued.
    pub fn is_multi(&self) -> (r: bool)
        ensures
            r == spec_is_multi(*self),
    {
        match self {
            Self::Known(KnownPropertyType::MultipleInteger16) => true,
            Self::Known(KnownPropertyType::MultipleInteger32) => true,
            Self::Known(KnownPropertyType::MultipleInteger64) => true,
            Self::Known(KnownPropertyType::MultipleFloating32) => true,
            Self::Known(KnownPropertyType::MultipleFloating64) => true,
            Self::Known(KnownPropertyType::MultipleCurrency) => true,
            Self::Known(KnownPropertyType::MultipleFloatingTime) => true,
            Self::Known(KnownPropertyType::MultipleTime) => true,
            Self::Known(KnownPropertyType::MultipleGuid) => true,
            Self::Known(KnownPropertyType::MultipleBinary) => true,
            Self::Known(KnownPropertyType::MultipleString) => true,
            Self::Known(KnownPropertyType::MultipleString8) => true,
            _ => false,
        }
    }
}

/// Tag round-trip: the wire code of every recognised property type decodes
/// back to that very type.
pub proof fn lemma_type_code_round_trip(t: KnownPropertyType)
    ensures
        spec_property_type(spec_type_code(t)) == PropertyType::Known(t),
{
}

/// Enum closure: every wire code decodes to a recognised property type or
/// to `Unknown` carrying that very code.
pub proof fn lemma_property_type_closure(input: u16)
    ensures
        spec_property_type(input) matches PropertyType::Unknown(v) ==> v == input,
        (spec_property_type(input) is Known) || spec_property_type(input) == PropertyType::Unknown(
            input,
        ),
{
}

/// A 48-bit big-endian counter at offset `i`, shifted into the high bits
/// of a 64-bit value as the wire layout stores it.
pub open spec fn be48(b: Seq<u8>, i: int) -> u64
    recommends
        0 <= i,
        i + 6 <= b.len(),
{
    ((b[i] as int) * 0x100_0000_0000_0000 + (b[i + 1] as int) * 0x1_0000_0000_0000 + (b[i + 2]
        as int) * 0x100_0000_0000 + (b[i + 3] as int) * 0x1_0000_0000 + (b[i + 4] as int)
        * 0x100_0000 + (b[i + 5] as int) * 0x1_0000) as u64
}

fn read_be48(b: &[u8], i: usize) -> (r: u64)
    requires
        i + 6 <= b@.len(),
    ensures
        r == be48(b@, i as int),
{
    (b[i] as u64) * 0x100_0000_0000_0000 + (b[i + 1] as u64) * 0x1_0000_0000_0000 + (b[i + 2]
        as u64) * 0x100_0000_0000 + (b[i + 3] as u64) * 0x1_0000_0000 + (b[i + 4] as u64)
        * 0x100_0000 + (b[i + 5] as u64) * 0x1_0000
}

/// A folder identifier: a replica id and a 48-bit global counter.
#[derive(Debug, Clone, Copy, PartialEq, Eq, Structural)]
pub struct FolderId {
    pub replica_id: u16,
    pub global_counter: u64,
}

/// The folder id stored in the first 8 bytes of `b`.
pub open spec fn spec_folder_id(b: Seq<u8>) -> Result<FolderId, MsgError> {
    if b.len() < 8 {
        Err(MsgError::TruncatedInput)
    } else {
        Ok(FolderId { replica_id: le16(b, 0), global_counter: be48(b, 2) })
    }
}

impl FolderId {
    /// Decodes a folder id from the first 8 bytes of `input`.
    pub fn parse(input: &[u8]) -> (r: Result<Self, MsgError>)
        ensures
            r matches Ok(v) ==> spec_folder_id(input@) == Ok::<FolderId, MsgError>(v),
            r matches Err(e) ==> spec_folder_id(input@) == Err::<FolderId, MsgError>(e),
    {
        if input.len() < 8 {
            return Err(MsgError::TruncatedInput);
        }
        Ok(
            FolderId {
                replica_id: crate::bytes::read_le16(input, 0),
                global_counter: read_be48(input, 2),
            },
        )
    }
}

/// A message identifier: a replica id and a 48-bit global counter.
#[derive(Debug, Clone, Copy, PartialEq, Eq, Structural)]
pub struct MessageId {
    pub replica_id: u16,
    pub global_counter: u64,
}

/// The message id stored in the first 8 bytes of `b`.
pub open spec fn spec_message_id(b: Seq<u8>) -> Result<MessageId, MsgError> {
    if b.len() < 8 {
        Err(MsgError::TruncatedInput)
    } else {
        Ok(MessageId { replica_id: le16(b, 0), global_counter: be48(b, 2) })
    }
}

impl MessageId {
    /// Decodes a message id from the first 8 bytes of `input`.
    pub fn parse(input: &[u8]) -> (r: Result<Self, MsgError>)
        ensures
            r matches Ok(v) ==> spec_message_id(input@) == Ok::<MessageId, MsgError>(v),
            r matches Err(e) ==> spec_message_id(input@) == Err::<MessageId, MsgError>(e),
    {
        if input.len() < 8 {
            return Err(MsgError::TruncatedInput);
        }
        Ok(
            MessageId {
                replica_id: crate::bytes::read_le16(input, 0),
                global_counter: read_be48(input, 2),
            },
        )
    }
}

/// A server id: an ownership flag, a folder id, a message id, an instance.
#[derive(Debug, Clone, Copy, PartialEq, Eq, Structural)]
pub struct ServerId {
    pub ours: bool,
    pub folder_id: FolderId,
    pub msg_id: MessageId,
    pub instance: u32,
}

/// The server id stored in the first 21 bytes of `b`.
pub open spec fn spec_server_id(b: Seq<u8>) -> Result<ServerId, MsgError> {
    if b.len() < 21 {
        Err(MsgError::TruncatedInput)
    } else {
        Ok(
            ServerId {
                ours: b[0] == 0x01u8,
                folder_id: FolderId { replica_id: le16(b, 1), global_counter: be48(b, 3) },
                msg_id: MessageId { replica_id: le16(b, 9), global_counter: be48(b, 11) },
                instance: le32(b, 17),
            },
        )
    }
}

impl ServerId {
    /// Decodes a server id from the first 21 bytes of `input`.
    pub fn parse(input: &[u8]) -> (r: Result<Self, MsgError>)
        ensures
            r matches Ok(v) ==> spec_server_id(input@) == Ok::<ServerId, MsgError>(v),
            r matches Err(e) ==> spec_server_id(input@) == Err::<ServerId, MsgError>(e),
    {
        if input.len() < 21 {
            return Err(MsgError::TruncatedInput);
        }
        Ok(
            ServerId {
                ours: input[0] == 0x01,
                folder_id: FolderId {
                    replica_id: crate::bytes::read_le16(input, 1),
                    global_counter: read_be48(input, 3),
                },
                msg_id: MessageId {
                    replica_id: crate::bytes::read_le16(input, 9),
                    global_counter: read_be48(input, 11),
                },
                instance: crate::bytes::read_le32(input, 17),
            },
        )
    }
}

/// A property tag: the property's id and its value type.
#[derive(Debug, Clone, Copy, PartialEq, Eq, Structural)]
pub struct PropertyTag {
    pub id: PropertyId,
    pub prop_type: PropertyType,
}

/// The tag stored in the first 4 bytes of `b`: the type code first, then
/// the property id, both little-endian.
pub open spec fn spec_tag(b: Seq<u8>) -> Result<PropertyTag, MsgError> {
    if b.len() < 4 {
        Err(MsgError::TruncatedInput)
    } else {
        Ok(
            PropertyTag {
                id: crate::oxcmsg::spec_property_id(le16(b, 2)),
                prop_type: spec_property_type(le16(b, 0)),
            },
        )
    }
}

impl PropertyTag {
    /// Decodes a property tag from the first 4 bytes of `input`.
    pub fn parse(input: &[u8]) -> (r: Result<Self, MsgError>)
        ensures
            r matches Ok(v) ==> spec_tag(input@) == Ok::<PropertyTag, MsgError>(v),
            r matches Err(e) ==> spec_tag(input@) == Err::<PropertyTag, MsgError>(e),
    {
        if input.len() < 4 {
            return Err(MsgError::TruncatedInput);
        }
        let prop_type = PropertyType::from_u16(crate::bytes::read_le16(input, 0));
        let id = PropertyId::from_u16(crate::bytes::read_le16(input, 2));
        Ok(PropertyTag { id, prop_type })
    }
}

/// A decoded property value. Times are FILETIME tick counts; floating
/// values keep their raw little-endian bit patterns.
#[derive(Debug, Clone, PartialEq)]
pub enum PropertyValue {
    Unspecified(Vec<u8>),
    Null,
    Integer16(i16),
    Integer32(i32),
    Integer64(i64),
    Floating32(u32),
    Floating64(u64),
    FloatingTime(u64),
    Currency(i64),
    ErrorCode(u32),
    Boolean(bool),
    Object(Vec<u8>),
    String(String),
    String8(Vec<u8>),
    Time(i64),
    Guid(Vec<u8>),
    ServerId(ServerId),
    Restriction(Vec<u8>),
    RuleAction(Vec<u8>),
    Binary(Vec<u8>),
    MultipleInteger16(Vec<i16>),
    MultipleInteger32(Vec<i32>),
    MultipleInteger64(Vec<i64>),
    MultipleFloating32(Vec<u32>),
    MultipleFloating64(Vec<u64>),
    MultipleCurrency(Vec<i64>),
    MultipleFloatingTime(Vec<u64>),
    MultipleString(Vec<String>),
    MultipleString8(Vec<Vec<u8>>),
    MultipleTime(Vec<i64>),
    MultipleGuid(Vec<Vec<u8>>),
    MultipleBinary(Vec<Vec<u8>>),
}

/// The mathematical image of a property value.
pub enum PropertyValueModel {
    Unspecified(Seq<u8>),
    Null,
    Integer16(i16),
    Integer32(i32),
    Integer64(i64),
    Floating32(u32),
    Floating64(u64),
    FloatingTime(u64),
    Currency(i64),
    ErrorCode(u32),
    Boolean(bool),
    Object(Seq<u8>),
    String(Seq<char>),
    String8(Seq<u8>),
    Time(i64),
    Guid(Seq<u8>),
    ServerId(ServerId),
    Restriction(Seq<u8>),
    RuleAction(Seq<u8>),
    Binary(Seq<u8>),
    MultipleInteger16(Seq<i16>),
    MultipleInteger32(Seq<i32>),
    MultipleInteger64(Seq<i64>),
    MultipleFloating32(Seq<u32>),
    MultipleFloating64(Seq<u64>),
    MultipleCurrency(Seq<i64>),
    MultipleFloatingTime(Seq<u64>),
    MultipleString(Seq<Seq<char>>),
    MultipleString8(Seq<Seq<u8>>),
    MultipleTime(Seq<i64>),
    MultipleGuid(Seq<Seq<u8>>),
    MultipleBinary(Seq<Seq<u8>>),
}

impl View for PropertyValue {
    type V = PropertyValueModel;

    open spec fn view(&self) -> PropertyValueModel {
        match self {
            PropertyValue::Unspecified(v) => PropertyValueModel::Unspecified(v@),
            PropertyValue::Null => PropertyValueModel::Null,
            PropertyValue::Integer16(x) => PropertyValueModel::Integer16(*x),
            PropertyValue::Integer32(x) => PropertyValueModel::Integer32(*x),
            PropertyValue::Integer64(x) => PropertyValueModel::Integer64(*x),
            PropertyValue::Floating32(x) => PropertyValueModel::Floating32(*x),
            PropertyValue::Floating64(x) => PropertyValueModel::Floating64(*x),
            PropertyValue::FloatingTime(x) => PropertyValueModel::FloatingTime(*x),
            PropertyValue::Currency(x) => PropertyValueModel::Currency(*x),
            PropertyValue::ErrorCode(x) => PropertyValueModel::ErrorCode(*x),
            PropertyValue::Boolean(x) => PropertyValueModel::Boolean(*x),
            PropertyValue::Object(v) => PropertyValueModel::Object(v@),
            PropertyValue::String(s) => PropertyValueModel::String(s@),
            PropertyValue::String8(v) => PropertyValueModel::String8(v@),
            PropertyValue::Time(x) => PropertyValueModel::Time(*x),
            PropertyValue::Guid(v) => PropertyValueModel::Guid(v@),
            PropertyValue::ServerId(s) => PropertyValueModel::ServerId(*s),
            PropertyValue::Restriction(v) => PropertyValueModel::Restriction(v@),
            PropertyValue::RuleAction(v) => PropertyValueModel::RuleAction(v@),
            PropertyValue::Binary(v) => PropertyValueModel::Binary(v@),
            PropertyValue::MultipleInteger16(v) => PropertyValueModel::MultipleInteger16(v@),
            PropertyValue::MultipleInteger32(v) => PropertyValueModel::MultipleInteger32(v@),
            PropertyValue::MultipleInteger64(v) => PropertyValueModel::MultipleInteger64(v@),
            PropertyValue::MultipleFloating32(v) => PropertyValueModel::MultipleFloating32(v@),
            PropertyValue::MultipleFloating64(v) => PropertyValueModel::MultipleFloating64(v@),
            PropertyValue::MultipleCurrency(v) => PropertyValueModel::MultipleCurrency(v@),
            PropertyValue::MultipleFloatingTime(v) => PropertyValueModel::MultipleFloatingTime(v@),
            PropertyValue::MultipleString(v) => PropertyValueModel::MultipleString(v.deep_view()),
            PropertyValue::MultipleString8(v) => PropertyValueModel::MultipleString8(v.deep_view()),
            PropertyValue::MultipleTime(v) => PropertyValueModel::MultipleTime(v@),
            PropertyValue::MultipleGuid(v) => PropertyValueModel::MultipleGuid(v.deep_view()),
            PropertyValue::MultipleBinary(v) => PropertyValueModel::MultipleBinary(v.deep_view()),
        }
    }
}

/// The type a property value answers to.
pub open spec fn spec_prop_type(m: PropertyValueModel) -> PropertyType {
    match m {
        PropertyValueModel::Unspecified(_) => PropertyType::Known(KnownPropertyType::Unspecified),
        PropertyValueModel::Null => PropertyType::Known(KnownPropertyType::Null),
        PropertyValueModel::Integer16(_) => PropertyType::Known(KnownPropertyType::Integer16),
        PropertyValueModel::Integer32(_) => PropertyType::Known(KnownPropertyType::Integer32),
        PropertyValueModel::Integer64(_) => PropertyType::Known(KnownPropertyType::Integer64),
        PropertyValueModel::Floating32(_) => PropertyType::Known(KnownPropertyType::Floating32),
        PropertyValueModel::Floating64(_) => PropertyType::Known(KnownPropertyType::Floating64),
        PropertyValueModel::FloatingTime(_) => PropertyType::Known(KnownPropertyType::FloatingTime),
        PropertyValueModel::Currency(_) => PropertyType::Known(KnownPropertyType::Currency),
        PropertyValueModel::ErrorCode(_) => PropertyType::Known(KnownPropertyType::ErrorCode),
        PropertyValueModel::Boolean(_) => PropertyType::Known(KnownPropertyType::Boolean),
        PropertyValueModel::Object(_) => PropertyType::Known(KnownPropertyType::Object),
        PropertyValueModel::String(_) => PropertyType::Known(KnownPropertyType::String),
        PropertyValueModel::String8(_) => PropertyType::Known(KnownPropertyType::String8),
        PropertyValueModel::Time(_) => PropertyType::Known(KnownPropertyType::Time),
        PropertyValueModel::Guid(_) => PropertyType::Known(KnownPropertyType::Guid),
        PropertyValueModel::ServerId(_) => PropertyType::Known(KnownPropertyType::ServerId),
        PropertyValueModel::Restriction(_) => PropertyType::Known(KnownPropertyType::Restriction),
        PropertyValueModel::RuleAction(_) => PropertyType::Known(KnownPropertyType::RuleAction),
        PropertyValueModel::Binary(_) => PropertyType::Known(KnownPropertyType::Binary),
        PropertyValueModel::MultipleInteger16(_) => PropertyType::Known(
            KnownPropertyType::MultipleInteger16,
        ),
        PropertyValueModel::MultipleInteger32(_) => PropertyType::Known(
            KnownPropertyType::MultipleInteger32,
        ),
        PropertyValueModel::MultipleInteger64(_) => PropertyType::Known(
            KnownPropertyType::MultipleInteger64,
        ),
        PropertyValueModel::MultipleFloating32(_) => PropertyType::Known(
            KnownPropertyType::MultipleFloating32,
        ),
        PropertyValueModel::MultipleFloating64(_) => PropertyType::Known(
            KnownPropertyType::MultipleFloating64,
        ),
        PropertyValueModel::MultipleCurrency(_) => PropertyType::Known(
            KnownPropertyType::MultipleCurrency,
        ),
        PropertyValueModel::MultipleFloatingTime(_) => PropertyType::Known(
            KnownPropertyType::MultipleFloatingTime,
        ),
        PropertyValueModel::MultipleString(_) => PropertyType::Known(
            KnownPropertyType::MultipleString,
        ),
        PropertyValueModel::MultipleString8(_) => PropertyType::Known(
            KnownPropertyType::MultipleString8,
        ),
        PropertyValueModel::MultipleTime(_) => PropertyType::Known(KnownPropertyType::MultipleTime),
        PropertyValueModel::MultipleGuid(_) => PropertyType::Known(KnownPropertyType::MultipleGuid),
        PropertyValueModel::MultipleBinary(_) => PropertyType::Known(
            KnownPropertyType::MultipleBinary,
        ),
    }
}

impl PropertyValue {
    /// The type this value answers to.
    pub fn prop_type(&self) -> (r: PropertyType)
        ensures
            r == spec_prop_type(self@),
    {
        match self {
            Self::Unspecified(_) => PropertyType::Known(KnownPropertyType::Unspecified),
            Self::Null => PropertyType::Known(KnownPropertyType::Null),
            Self::Integer16(_) => PropertyType::Known(KnownPropertyType::Integer16),
            Self::Integer32(_) => PropertyType::Known(KnownPropertyType::Integer32),
            Self::Integer64(_) => PropertyType::Known(KnownPropertyType::Integer64),
            Self::Floating32(_) => PropertyType::Known(KnownPropertyType::Floating32),
            Self::Floating64(_) => PropertyType::Known(KnownPropertyType::Floating64),
            Self::FloatingTime(_) => PropertyType::Known(KnownPropertyType::FloatingTime),
            Self::Currency(_) => PropertyType::Known(KnownPropertyType::Currency),
            Self::ErrorCode(_) => PropertyType::Known(KnownPropertyType::ErrorCode),
            Self::Boolean(_) => PropertyType::Known(KnownPropertyType::Boolean),
            Self::Object(_) => PropertyType::Known(KnownPropertyType::Object),
            Self::String(_) => PropertyType::Known(KnownPropertyType::String),
            Self::String8(_) => PropertyType::Known(KnownPropertyType::String8),
            Self::Time(_) => PropertyType::Known(KnownPropertyType::Time),
            Self::Guid(_) => PropertyType::Known(KnownPropertyType::Guid),
            Self::ServerId(_) => PropertyType::Known(KnownPropertyType::ServerId),
            Self::Restriction(_) => PropertyType::Known(KnownPropertyType::Restriction),
            Self::RuleAction(_) => PropertyType::Known(KnownPropertyType::RuleAction),
            Self::Binary(_) => PropertyType::Known(KnownPropertyType::Binary),
            Self::MultipleInteger16(_) => PropertyType::Known(KnownPropertyType::MultipleInteger16),
            Self::MultipleInteger32(_) => PropertyType::Known(KnownPropertyType::MultipleInteger32),
            Self::MultipleInteger64(_) => PropertyType::Known(KnownPropertyType::MultipleInteger64),
            Self::MultipleFloating32(_) => PropertyType::Known(
                KnownPropertyType::MultipleFloating32,
            ),
            Self::MultipleFloating64(_) => PropertyType::Known(
                KnownPropertyType::MultipleFloating64,
            ),
            Self::MultipleCurrency(_) => PropertyType::Known(KnownPropertyType::MultipleCurrency),
            Self::MultipleFloatingTime(_) => PropertyType::Known(
                KnownPropertyType::MultipleFloatingTime,
            ),
            Self::MultipleString(_) => PropertyType::Known(KnownPropertyType::MultipleString),
            Self::MultipleString8(_) => PropertyType::Known(KnownPropertyType::MultipleString8),
            Self::MultipleTime(_) => PropertyType::Known(KnownPropertyType::MultipleTime),
            Self::MultipleGuid(_) => PropertyType::Known(KnownPropertyType::MultipleGuid),
            Self::MultipleBinary(_) => PropertyType::Known(KnownPropertyType::MultipleBinary),
        }
    }
}

/// Length-prefixed byte strings (a 16-bit count, then that many bytes)
/// read off `b` until it is exhausted.
pub open spec fn spec_binaries(b: Seq<u8>) -> Result<Seq<Seq<u8>>, MsgError>
    decreases b.len(),
{
    if b.len() == 0 {
        Ok(Seq::empty())
    } else if b.len() < 2 {
        Err(MsgError::TruncatedInput)
    } else if 2 + (le16(b, 0) as int) > b.len() {
        Err(MsgError::TruncatedInput)
    } else {
        match spec_binaries(b.skip(2 + (le16(b, 0) as int))) {
            Ok(rest) => Ok(seq![b.subrange(2, 2 + (le16(b, 0) as int))] + rest),
            Err(e) => Err(e),
        }
    }
}

/// Reads length-prefixed byte strings until `input` is exhausted.
fn many_binaries(input: &[u8]) -> (r: Result<Vec<Vec<u8>>, MsgError>)
    ensures
        r matches Ok(v) ==> spec_binaries(input@) == Ok::<_, MsgError>(v.deep_view()),
        r matches Err(e) ==> spec_binaries(input@) == Err::<Seq<Seq<u8>>, _>(e),
{
    let n: usize = input.len();
    let mut out: Vec<Vec<u8>> = Vec::new();
    let mut pos: usize = 0;
    proof {
        assert(input@.skip(0) =~= input@);
        match spec_binaries(input@) {
            Ok(rest) => {
                assert(out.deep_view() + rest =~= rest);
            },
            Err(e) => {},
        }
    }
    while pos < n
        invariant
            pos <= n,
            n == input@.len(),
            spec_binaries(input@) == (match spec_binaries(input@.skip(pos as int)) {
                Ok(rest) => Ok::<_, MsgError>(out.deep_view() + rest),
                Err(e) => Err::<Seq<Seq<u8>>, _>(e),
            }),
        decreases n - pos,
    {
        if n - pos < 2 {
            proof {
                assert(input@.skip(pos as int).len() < 2);
            }
            return Err(MsgError::TruncatedInput);
        }
        let c: u16 = crate::bytes::read_le16(input, pos);
        proof {
            assert(le16(input@.skip(pos as int), 0) == le16(input@, pos as int));
        }
        if (c as usize) > n - pos - 2 {
            return Err(MsgError::TruncatedInput);
        }
        let piece = crate::bytes::copy_range(input, pos + 2, c as usize);
        let ghost before = out.deep_view();
        let ghost pv = piece@;
        out.push(piece);
        proof {
            let sk = input@.skip(pos as int);
            assert(pv =~= sk.subrange(2, 2 + (le16(sk, 0) as int)));
            assert(out.deep_view() =~~= before.push(pv));
            assert(before.push(pv) =~= before + seq![pv]);
            match spec_binaries(sk.skip(2 + (le16(sk, 0) as int))) {
                Ok(tail) => {
                    assert(before + (seq![pv] + tail) =~= (before + seq![pv]) + tail);
                },
                Err(e) => {},
            }
            assert(sk.skip(2 + (le16(sk, 0) as int)) =~= input@.skip(
                pos as int + 2 + (le16(sk, 0) as int),
            ));
        }
        pos = pos + 2 + (c as usize);
    }
    proof {
        assert(input@.skip(n as int) =~= Seq::<u8>::empty());
        assert(out.deep_view() + Seq::<Seq<u8>>::empty() =~= out.deep_view());
    }
    Ok(out)
}

/// A property value decoded from `b` at type `t`. Fixed-width values read
/// their own width; variable-length values take the buffer as a whole;
/// multi-valued fixed types read as many elements as `b` holds exactly.
pub open spec fn spec_value(b: Seq<u8>, t: PropertyType) -> Result<PropertyValueModel, MsgError> {
    match t {
        PropertyType::Unknown(_) => Ok(PropertyValueModel::Unspecified(Seq::empty())),
        PropertyType::Known(KnownPropertyType::Unspecified) => Ok(
            PropertyValueModel::Unspecified(Seq::empty()),
        ),
        PropertyType::Known(KnownPropertyType::Null) => Ok(PropertyValueModel::Null),
        PropertyType::Known(KnownPropertyType::Integer16) => if b.len() < 2 {
            Err(MsgError::TruncatedInput)
        } else {
            Ok(PropertyValueModel::Integer16(as_i16(le16(b, 0))))
        },
        PropertyType::Known(KnownPropertyType::Integer32) => if b.len() < 4 {
            Err(MsgError::TruncatedInput)
        } else {
            Ok(PropertyValueModel::Integer32(as_i32(le32(b, 0))))
        },
        PropertyType::Known(KnownPropertyType::Integer64) => if b.len() < 8 {
            Err(MsgError::TruncatedInput)
        } else {
            Ok(PropertyValueModel::Integer64(as_i64(le64(b, 0))))
        },
        PropertyType::Known(KnownPropertyType::Floating32) => if b.len() < 4 {
            Err(MsgError::TruncatedInput)
        } else {
            Ok(PropertyValueModel::Floating32(le32(b, 0)))
        },
        PropertyType::Known(KnownPropertyType::Floating64) => if b.len() < 8 {
            Err(MsgError::TruncatedInput)
        } else {
            Ok(PropertyValueModel::Floating64(le64(b, 0)))
        },
        PropertyType::Known(KnownPropertyType::FloatingTime) => if b.len() < 8 {
            Err(MsgError::TruncatedInput)
        } else {
            Ok(PropertyValueModel::FloatingTime(le64(b, 0)))
        },
        PropertyType::Known(KnownPropertyType::Currency) => if b.len() < 8 {
            Err(MsgError::TruncatedInput)
        } else {
            Ok(PropertyValueModel::Currency(as_i64(le64(b, 0))))
        },
        PropertyType::Known(KnownPropertyType::ErrorCode) => if b.len() < 4 {
            Err(MsgError::TruncatedInput)
        } else {
            Ok(PropertyValueModel::ErrorCode(le32(b, 0)))
        },
        PropertyType::Known(KnownPropertyType::Boolean) => if b.len() < 1 {
            Err(MsgError::TruncatedInput)
        } else {
            Ok(PropertyValueModel::Boolean(b[0] == 1u8))
        },
        PropertyType::Known(KnownPropertyType::Object) => Ok(
            PropertyValueModel::Object(Seq::empty()),
        ),
        PropertyType::Known(KnownPropertyType::String) => match spec_utf16_string(b) {
            Ok(t) => Ok(PropertyValueModel::String(t.0)),
            Err(e) => Err(e),
        },
        PropertyType::Known(KnownPropertyType::String8) => match spec_string8(b) {
            Ok(t) => Ok(PropertyValueModel::String8(t.0)),
            Err(e) => Err(e),
        },
        PropertyType::Known(KnownPropertyType::Time) => if b.len() < 8 {
            Err(MsgError::TruncatedInput)
        } else if filetime_ok(as_i64(le64(b, 0))) {
            Ok(PropertyValueModel::Time(as_i64(le64(b, 0))))
        } else {
            Err(MsgError::TimeOverflow)
        },
        PropertyType::Known(KnownPropertyType::Guid) => if b.len() < 16 {
            Err(MsgError::TruncatedInput)
        } else {
            Ok(PropertyValueModel::Guid(b.take(16)))
        },
        PropertyType::Known(KnownPropertyType::ServerId) => match spec_server_id(b) {
            Ok(s) => Ok(PropertyValueModel::ServerId(s)),
            Err(e) => Err(e),
        },
        PropertyType::Known(KnownPropertyType::Restriction) => Ok(
            PropertyValueModel::Restriction(Seq::empty()),
        ),
        PropertyType::Known(KnownPropertyType::RuleAction) => if b.len() < 2 || 2 + (le16(b, 0)
            as int) > b.len() {
            Err(MsgError::TruncatedInput)
        } else {
            Ok(PropertyValueModel::RuleAction(b.subrange(2, 2 + (le16(b, 0) as int))))
        },
        PropertyType::Known(KnownPropertyType::Binary) => Ok(PropertyValueModel::Binary(b)),
        PropertyType::Known(KnownPropertyType::MultipleInteger16) => if b.len() % 2 != 0 {
            Err(MsgError::TruncatedInput)
        } else {
            Ok(
                PropertyValueModel::MultipleInteger16(
                    Seq::new(b.len() / 2, |k: int| as_i16(le16(b, 2 * k))),
                ),
            )
        },
        PropertyType::Known(KnownPropertyType::MultipleInteger32) => if b.len() % 4 != 0 {
            Err(MsgError::TruncatedInput)
        } else {
            Ok(
                PropertyValueModel::MultipleInteger32(
                    Seq::new(b.len() / 4, |k: int| as_i32(le32(b, 4 * k))),
                ),
            )
        },
        PropertyType::Known(KnownPropertyType::MultipleInteger64) => if b.len() % 8 != 0 {
            Err(MsgError::TruncatedInput)
        } else {
            Ok(
                PropertyValueModel::MultipleInteger64(
                    Seq::new(b.len() / 8, |k: int| as_i64(le64(b, 8 * k))),
                ),
            )
        },
        PropertyType::Known(KnownPropertyType::MultipleFloating32) => if b.len() % 4 != 0 {
            Err(MsgError::TruncatedInput)
        } else {
            Ok(
                PropertyValueModel::MultipleFloating32(
                    Seq::new(b.len() / 4, |k: int| le32(b, 4 * k)),
                ),
            )
        },
        PropertyType::Known(KnownPropertyType::MultipleFloating64) => if b.len() % 8 != 0 {
            Err(MsgError::TruncatedInput)
        } else {
            Ok(
                PropertyValueModel::MultipleFloating64(
                    Seq::new(b.len() / 8, |k: int| le64(b, 8 * k)),
                ),
            )
        },
        PropertyType::Known(KnownPropertyType::MultipleCurrency) => if b.len() % 8 != 0 {
            Err(MsgError::TruncatedInput)
        } else {
            Ok(
                PropertyValueModel::MultipleCurrency(
                    Seq::new(b.len() / 8, |k: int| as_i64(le64(b, 8 * k))),
                ),
            )
        },
        PropertyType::Known(KnownPropertyType::MultipleFloatingTime) => if b.len() % 8 != 0 {
            Err(MsgError::TruncatedInput)
        } else {
            Ok(
                PropertyValueModel::MultipleFloatingTime(
                    Seq::new(b.len() / 8, |k: int| le64(b, 8 * k)),
                ),
            )
        },
        PropertyType::Known(KnownPropertyType::MultipleString) => match spec_utf16_strings(b) {
            Ok(v) => Ok(PropertyValueModel::MultipleString(v)),
            Err(e) => Err(e),
        },
        PropertyType::Known(KnownPropertyType::MultipleString8) => match crate::strings::spec_string8s(
            b,
        ) {
            Ok(v) => Ok(PropertyValueModel::MultipleString8(v)),
            Err(e) => Err(e),
        },
        PropertyType::Known(KnownPropertyType::MultipleTime) => if b.len() % 8 != 0 {
            Err(MsgError::TruncatedInput)
        } else if forall|k: int|
            0 <= k < b.len() / 8 ==> filetime_ok(as_i64(#[trigger] le64(b, 8 * k))) {
            Ok(
                PropertyValueModel::MultipleTime(
                    Seq::new(b.len() / 8, |k: int| as_i64(le64(b, 8 * k))),
                ),
            )
        } else {
            Err(MsgError::TimeOverflow)
        },
        PropertyType::Known(KnownPropertyType::MultipleGuid) => if b.len() % 16 != 0 {
            Err(MsgError::TruncatedInput)
        } else {
            Ok(
                PropertyValueModel::MultipleGuid(
                    Seq::new(b.len() / 16, |k: int| b.subrange(16 * k, 16 * k + 16)),
                ),
            )
        },
        PropertyType::Known(KnownPropertyType::MultipleBinary) => match spec_binaries(b) {
            Ok(v) => Ok(PropertyValueModel::MultipleBinary(v)),
            Err(e) => Err(e),
        },
    }
}

impl PropertyValue {
    /// Decodes a property value from `input` at type `prop_type`.
    pub fn parse(input: &[u8], prop_type: PropertyType) -> (r: Result<Self, MsgError>)
        ensures
            r matches Ok(v) ==> spec_value(input@, prop_type) == Ok::<PropertyValueModel, MsgError>(
                v@,
            ),
            r matches Err(e) ==> spec_value(input@, prop_type) == Err::<
                PropertyValueModel,
                MsgError,
            >(e),
    {
        let n: usize = input.len();
        match prop_type {
            PropertyType::Unknown(_) => Ok(Self::Unspecified(Vec::new())),
            PropertyType::Known(KnownPropertyType::Unspecified) => Ok(
                Self::Unspecified(Vec::new()),
            ),
            PropertyType::Known(KnownPropertyType::Null) => Ok(Self::Null),
            PropertyType::Known(KnownPropertyType::Integer16) => {
                if n < 2 {
                    Err(MsgError::TruncatedInput)
                } else {
                    Ok(Self::Integer16(crate::bytes::to_i16(crate::bytes::read_le16(input, 0))))
                }
            },
            PropertyType::Known(KnownPropertyType::Integer32) => {
                if n < 4 {
                    Err(MsgError::TruncatedInput)
                } else {
                    Ok(Self::Integer32(crate::bytes::to_i32(crate::bytes::read_le32(input, 0))))
                }
            },
            PropertyType::Known(KnownPropertyType::Integer64) => {
                if n < 8 {
                    Err(MsgError::TruncatedInput)
                } else {
                    Ok(Self::Integer64(crate::bytes::to_i64(crate::bytes::read_le64(input, 0))))
                }
            },
            PropertyType::Known(KnownPropertyType::Floating32) => {
                if n < 4 {
                    Err(MsgError::TruncatedInput)
                } else {
                    Ok(Self::Floating32(crate::bytes::read_le32(input, 0)))
                }
            },
            PropertyType::Known(KnownPropertyType::Floating64) => {
                if n < 8 {
                    Err(MsgError::TruncatedInput)
                } else {
                    Ok(Self::Floating64(crate::bytes::read_le64(input, 0)))
                }
            },
            PropertyType::Known(KnownPropertyType::FloatingTime) => {
                if n < 8 {
                    Err(MsgError::TruncatedInput)
                } else {
                    Ok(Self::FloatingTime(crate::bytes::read_le64(input, 0)))
                }
            },
            PropertyType::Known(KnownPropertyType::Currency) => {
                if n < 8 {
                    Err(MsgError::TruncatedInput)
                } else {
                    Ok(Self::Currency(crate::bytes::to_i64(crate::bytes::read_le64(input, 0))))
                }
            },
            PropertyType::Known(KnownPropertyType::ErrorCode) => {
                if n < 4 {
                    Err(MsgError::TruncatedInput)
                } else {
                    Ok(Self::ErrorCode(crate::bytes::read_le32(input, 0)))
                }
            },
            PropertyType::Known(KnownPropertyType::Boolean) => {
                if n < 1 {
                    Err(MsgError::TruncatedInput)
                } else {
                    Ok(Self::Boolean(input[0] == 1))
                }
            },
            PropertyType::Known(KnownPropertyType::Object) => Ok(Self::Object(Vec::new())),
            PropertyType::Known(KnownPropertyType::String) => {
                match crate::strings::complete_utf16le_string(input) {
                    Ok((s, _used, _raw)) => Ok(Self::String(s)),
                    Err(e) => Err(e),
                }
            },
            PropertyType::Known(KnownPropertyType::String8) => {
                match crate::strings::null_terminated_string(input) {
                    Ok((v, _used)) => Ok(Self::String8(v)),
                    Err(e) => Err(e),
                }
            },
            PropertyType::Known(KnownPropertyType::Time) => {
                if n < 8 {
                    Err(MsgError::TruncatedInput)
                } else {
                    let ticks = crate::bytes::to_i64(crate::bytes::read_le64(input, 0));
                    if check_filetime(ticks) {
                        Ok(Self::Time(ticks))
                    } else {
                        Err(MsgError::TimeOverflow)
                    }
                }
            },
            PropertyType::Known(KnownPropertyType::Guid) => {
                if n < 16 {
                    Err(MsgError::TruncatedInput)
                } else {
                    let g = crate::bytes::copy_range(input, 0, 16);
                    proof {
                        assert(g@ =~= input@.take(16));
                    }
                    Ok(Self::Guid(g))
                }
            },
            PropertyType::Known(KnownPropertyType::ServerId) => {
                match ServerId::parse(input) {
                    Ok(s) => Ok(Self::ServerId(s)),
                    Err(e) => Err(e),
                }
            },
            PropertyType::Known(KnownPropertyType::Restriction) => Ok(
                Self::Restriction(Vec::new()),
            ),
            PropertyType::Known(KnownPropertyType::RuleAction) => {
                if n < 2 {
                    Err(MsgError::TruncatedInput)
                } else {
                    let c = crate::bytes::read_le16(input, 0);
                    if (c as usize) > n - 2 {
                        Err(MsgError::TruncatedInput)
                    } else {
                        Ok(Self::RuleAction(crate::bytes::copy_range(input, 2, c as usize)))
                    }
                }
            },
            PropertyType::Known(KnownPropertyType::Binary) => {
                let whole = crate::bytes::copy_range(input, 0, n);
                proof {
                    assert(whole@ =~= input@);
                }
                Ok(Self::Binary(whole))
            },
            PropertyType::Known(KnownPropertyType::MultipleInteger16) => {
                if n % 2 != 0 {
                    return Err(MsgError::TruncatedInput);
                }
                let m: usize = n / 2;
                let mut v: Vec<i16> = Vec::new();
                let mut k: usize = 0;
                while k < m
                    invariant
                        n == input@.len(),
                        k <= m,
                        m == input@.len() / 2,
                        2 * m <= input@.len(),
                        v@ == Seq::new(k as nat, |j: int| as_i16(le16(input@, 2 * j))),
                    decreases m - k,
                {
                    v.push(crate::bytes::to_i16(crate::bytes::read_le16(input, 2 * k)));
                    assert(v@ =~= Seq::new((k + 1) as nat, |j: int| as_i16(le16(input@, 2 * j))));
                    k = k + 1;
                }
                Ok(Self::MultipleInteger16(v))
            },
            PropertyType::Known(KnownPropertyType::MultipleInteger32) => {
                if n % 4 != 0 {
                    return Err(MsgError::TruncatedInput);
                }
                let m: usize = n / 4;
                let mut v: Vec<i32> = Vec::new();
                let mut k: usize = 0;
                while k < m
                    invariant
                        n == input@.len(),
                        k <= m,
                        m == input@.len() / 4,
                        4 * m <= input@.len(),
                        v@ == Seq::new(k as nat, |j: int| as_i32(le32(input@, 4 * j))),
                    decreases m - k,
                {
                    v.push(crate::bytes::to_i32(crate::bytes::read_le32(input, 4 * k)));
                    assert(v@ =~= Seq::new((k + 1) as nat, |j: int| as_i32(le32(input@, 4 * j))));
                    k = k + 1;
                }
                Ok(Self::MultipleInteger32(v))
            },
            PropertyType::Known(KnownPropertyType::MultipleInteger64) => {
                if n % 8 != 0 {
                    return Err(MsgError::TruncatedInput);
                }
                let m: usize = n / 8;
                let mut v: Vec<i64> = Vec::new();
                let mut k: usize = 0;
                while k < m
                    invariant
                        n == input@.len(),
                        k <= m,
                        m == input@.len() / 8,
                        8 * m <= input@.len(),
                        v@ == Seq::new(k as nat, |j: int| as_i64(le64(input@, 8 * j))),
                    decreases m - k,
                {
                    v.push(crate::bytes::to_i64(crate::bytes::read_le64(input, 8 * k)));
                    assert(v@ =~= Seq::new((k + 1) as nat, |j: int| as_i64(le64(input@, 8 * j))));
                    k = k + 1;
                }
                Ok(Self::MultipleInteger64(v))
            },
            PropertyType::Known(KnownPropertyType::MultipleFloating32) => {
                if n % 4 != 0 {
                    return Err(MsgError::TruncatedInput);
                }
                let m: usize = n / 4;
                let mut v: Vec<u32> = Vec::new();
                let mut k: usize = 0;
                while k < m
                    invariant
                        n == input@.len(),
                        k <= m,
                        m == input@.len() / 4,
                        4 * m <= input@.len(),
                        v@ == Seq::new(k as nat, |j: int| le32(input@, 4 * j)),
                    decreases m - k,
                {
                    v.push(crate::bytes::read_le32(input, 4 * k));
                    assert(v@ =~= Seq::new((k + 1) as nat, |j: int| le32(input@, 4 * j)));
                    k = k + 1;
                }
                Ok(Self::MultipleFloating32(v))
            },
            PropertyType::Known(KnownPropertyType::MultipleFloating64) => {
                if n % 8 != 0 {
                    return Err(MsgError::TruncatedInput);
                }
                let m: usize = n / 8;
                let mut v: Vec<u64> = Vec::new();
                let mut k: usize = 0;
                while k < m
                    invariant
                        n == input@.len(),
                        k <= m,
                        m == input@.len() / 8,
                        8 * m <= input@.len(),
                        v@ == Seq::new(k as nat, |j: int| le64(input@, 8 * j)),
                    decreases m - k,
                {
                    v.push(crate::bytes::read_le64(input, 8 * k));
                    assert(v@ =~= Seq::new((k + 1) as nat, |j: int| le64(input@, 8 * j)));
                    k = k + 1;
                }
                Ok(Self::MultipleFloating64(v))
            },
            PropertyType::Known(KnownPropertyType::MultipleCurrency) => {
                if n % 8 != 0 {
                    return Err(MsgError::TruncatedInput);
                }
                let m: usize = n / 8;
                let mut v: Vec<i64> = Vec::new();
                let mut k: usize = 0;
                while k < m
                    invariant
                        n == input@.len(),
                        k <= m,
                        m == input@.len() / 8,
                        8 * m <= input@.len(),
                        v@ == Seq::new(k as nat, |j: int| as_i64(le64(input@, 8 * j))),
                    decreases m - k,
                {
                    v.push(crate::bytes::to_i64(crate::bytes::read_le64(input, 8 * k)));
                    assert(v@ =~= Seq::new((k + 1) as nat, |j: int| as_i64(le64(input@, 8 * j))));
                    k = k + 1;
                }
                Ok(Self::MultipleCurrency(v))
            },
            PropertyType::Known(KnownPropertyType::MultipleFloatingTime) => {
                if n % 8 != 0 {
                    return Err(MsgError::TruncatedInput);
                }
                let m: usize = n / 8;
                let mut v: Vec<u64> = Vec::new();
                let mut k: usize = 0;
                while k < m
                    invariant
                        n == input@.len(),
                        k <= m,
                        m == input@.len() / 8,
                        8 * m <= input@.len(),
                        v@ == Seq::new(k as nat, |j: int| le64(input@, 8 * j)),
                    decreases m - k,
                {
                    v.push(crate::bytes::read_le64(input, 8 * k));
                    assert(v@ =~= Seq::new((k + 1) as nat, |j: int| le64(input@, 8 * j)));
                    k = k + 1;
                }
                Ok(Self::MultipleFloatingTime(v))
            },
            PropertyType::Known(KnownPropertyType::MultipleString) => {
                match crate::strings::complete_many_utf16le_string(input) {
                    Ok(v) => Ok(Self::MultipleString(v)),
                    Err(e) => Err(e),
                }
            },
            PropertyType::Known(KnownPropertyType::MultipleString8) => {
                match crate::strings::many_null_terminated_strings(input) {
                    Ok(v) => Ok(Self::MultipleString8(v)),
                    Err(e) => Err(e),
                }
            },
            PropertyType::Known(KnownPropertyType::MultipleTime) => {
                if n % 8 != 0 {
                    return Err(MsgError::TruncatedInput);
                }
                let m: usize = n / 8;
                let mut v: Vec<i64> = Vec::new();
                let mut k: usize = 0;
                while k < m
                    invariant
                        n == input@.len(),
                        k <= m,
                        m == input@.len() / 8,
                        8 * m <= input@.len(),
                        input@.len() % 8 == 0,
                        prop_type == PropertyType::Known(KnownPropertyType::MultipleTime),
                        v@ == Seq::new(k as nat, |j: int| as_i64(le64(input@, 8 * j))),
                        forall|j: int|
                            0 <= j < k ==> filetime_ok(as_i64(#[trigger] le64(input@, 8 * j))),
                    decreases m - k,
                {
                    let ticks = crate::bytes::to_i64(crate::bytes::read_le64(input, 8 * k));
                    if !check_filetime(ticks) {
                        proof {
                            assert(!filetime_ok(as_i64(le64(input@, 8 * (k as int)))));
                        }
                        return Err(MsgError::TimeOverflow);
                    }
                    v.push(ticks);
                    assert(v@ =~= Seq::new((k + 1) as nat, |j: int| as_i64(le64(input@, 8 * j))));
                    k = k + 1;
                }
                Ok(Self::MultipleTime(v))
            },
            PropertyType::Known(KnownPropertyType::MultipleGuid) => {
                if n % 16 != 0 {
                    return Err(MsgError::TruncatedInput);
                }
                let m: usize = n / 16;
                let mut v: Vec<Vec<u8>> = Vec::new();
                let mut k: usize = 0;
                while k < m
                    invariant
                        n == input@.len(),
                        k <= m,
                        m == input@.len() / 16,
                        16 * m <= input@.len(),
                        v@.len() == k,
                        forall|j: int|
                            0 <= j < k ==> (#[trigger] v@[j])@ == input@.subrange(
                                16 * j,
                                16 * j + 16,
                            ),
                    decreases m - k,
                {
                    v.push(crate::bytes::copy_range(input, 16 * k, 16));
                    k = k + 1;
                }
                proof {
                    assert forall|j: int| 0 <= j < m implies v.deep_view()[j] == input@.subrange(
                        16 * j,
                        16 * j + 16,
                    ) by {
                        assert(v.deep_view()[j] == v@[j].deep_view());
                        assert(v@[j].deep_view() =~= v@[j]@);
                    }
                    assert(v.deep_view() =~= Seq::new(
                        (input@.len() / 16) as nat,
                        |j: int| input@.subrange(16 * j, 16 * j + 16),
                    ));
                }
                Ok(Self::MultipleGuid(v))
            },
            PropertyType::Known(KnownPropertyType::MultipleBinary) => {
                match many_binaries(input) {
                    Ok(v) => Ok(Self::MultipleBinary(v)),
                    Err(e) => Err(e),
                }
            },
        }
    }
}

/// The first child of `parent` (scanning from position `i`) whose name is
/// `name`, as an index into the directory.
pub open spec fn spec_find_child(
    dirs: Seq<crate::dir::DirEntryModel>,
    parent: crate::dir::DirEntryModel,
    name: Seq<u8>,
    i: int,
) -> Option<int>
    decreases parent.children.len() - i,
{
    if i < 0 || i >= parent.children.len() {
        None
    } else if (parent.children[i] as int) < dirs.len() && dirs[parent.children[i] as int].name_raw
        == name {
        Some(parent.children[i] as int)
    } else {
        spec_find_child(dirs, parent, name, i + 1)
    }
}

/// Looks a child stream up by name within the storage `parent`.
pub fn find_child(
    dirs: &Vec<crate::dir::DirectoryEntry>,
    parent: usize,
    name: &Vec<u8>,
) -> (r: Option<usize>)
    requires
        (parent as int) < dirs@.len(),
    ensures
        r matches Some(ci) ==> spec_find_child(
            crate::cfb::dirs_view(dirs@),
            crate::cfb::dirs_view(dirs@)[parent as int],
            name@,
            0,
        ) == Some(ci as int) && (ci as int) < dirs@.len(),
        r is None ==> spec_find_child(
            crate::cfb::dirs_view(dirs@),
            crate::cfb::dirs_view(dirs@)[parent as int],
            name@,
            0,
        ) is None,
{
    let ghost dv = crate::cfb::dirs_view(dirs@);
    let ids = &dirs[parent].children;
    let mut i: usize = 0;
    while i < ids.len()
        invariant
            dv == crate::cfb::dirs_view(dirs@),
            (parent as int) < dirs@.len(),
            ids@ == dv[parent as int].children,
            i <= ids@.len(),
            spec_find_child(dv, dv[parent as int], name@, 0) == spec_find_child(
                dv,
                dv[parent as int],
                name@,
                i as int,
            ),
        decreases ids@.len() - i,
    {
        let id = ids[i];
        if (id as usize) < dirs.len() {
            if crate::strings::bytes_eq(&dirs[id as usize].name_raw, name) {
                return Some(id as usize);
            }
        }
        i = i + 1;
    }
    None
}

/// A property table entry: its tag, its flags and its decoded value.
#[derive(Debug, Clone, PartialEq)]
pub struct PropertyEntry {
    pub tag: PropertyTag,
    pub flags: u32,
    pub value: PropertyValue,
}

/// The mathematical image of a property table entry.
pub struct PropertyEntryModel {
    pub tag: PropertyTag,
    pub flags: u32,
    pub value: PropertyValueModel,
}

impl View for PropertyEntry {
    type V = PropertyEntryModel;

    open spec fn view(&self) -> PropertyEntryModel {
        PropertyEntryModel { tag: self.tag, flags: self.flags, value: self.value@ }
    }
}

impl DeepView for PropertyEntry {
    type V = PropertyEntryModel;

    open spec fn deep_view(&self) -> PropertyEntryModel {
        self.view()
    }
}

/// The concatenation of the element streams `-00000000 ..` of a
/// multi-valued property, starting at element `k` of `n`.
pub open spec fn spec_concat_elements(
    dirs: Seq<crate::dir::DirEntryModel>,
    parent: crate::dir::DirEntryModel,
    tag_raw: u32,
    n: nat,
    k: nat,
) -> Result<Seq<u8>, MsgError>
    decreases n - k,
{
    if k >= n {
        Ok(Seq::empty())
    } else {
        let name = ascii_to_utf16(substg_element_name_ascii(tag_raw, k as u32));
        match spec_find_child(dirs, parent, name, 0) {
            None => Err(MsgError::MissingValueStream),
            Some(ci) => match spec_concat_elements(dirs, parent, tag_raw, n, k + 1) {
                Ok(rest) => Ok(dirs[ci].data + rest),
                Err(e) => Err(e),
            },
        }
    }
}

/// The declared-size check a value stream must pass: UTF-16 strings store
/// two fewer bytes than the declared size, 8-bit strings one fewer, and
/// every other variable type exactly the declared size.
pub open spec fn size_check_ok(t: PropertyType, stream_len: int, size: u32) -> bool {
    if t == PropertyType::Known(KnownPropertyType::String) {
        stream_len + 2 == size
    } else if t == PropertyType::Known(KnownPropertyType::String8) {
        stream_len + 1 == size
    } else {
        stream_len == size
    }
}

/// One 16-byte property table entry decoded against the storage
/// `dirs[parent]`: a fixed-width value reads its 8-byte slot; a
/// variable-length or multi-valued one resolves the sibling stream named
/// after its tag, and a multi-valued variable one further concatenates the
/// per-element streams, one per length recorded in the index stream.
pub open spec fn spec_property_entry(
    entry: Seq<u8>,
    dirs: Seq<crate::dir::DirEntryModel>,
    parent: int,
) -> Result<PropertyEntryModel, MsgError>
    recommends
        0 <= parent < dirs.len(),
{
    if entry.len() < 16 {
        Err(MsgError::TruncatedInput)
    } else {
        let t = spec_property_type(le16(entry, 0));
        let tag = PropertyTag {
            id: crate::oxcmsg::spec_property_id(le16(entry, 2)),
            prop_type: t,
        };
        let tag_raw = le32(entry, 0);
        let flags = le32(entry, 4);
        if spec_is_multi(t) || spec_is_variable(t) {
            let size = le32(entry, 8);
            let name = ascii_to_utf16(substg_name_ascii(tag_raw));
            match spec_find_child(dirs, dirs[parent], name, 0) {
                None => Err(MsgError::MissingValueStream),
                Some(ci) => {
                    let bytes = dirs[ci].data;
                    if !size_check_ok(t, bytes.len() as int, size) {
                        Err(MsgError::ValueSizeMismatch)
                    } else if spec_is_multi(t) && spec_is_variable(t) {
                        let item: int = if t == PropertyType::Known(
                            KnownPropertyType::MultipleBinary,
                        ) {
                            8
                        } else {
                            4
                        };
                        if (bytes.len() as int) % item != 0 {
                            Err(MsgError::ValueSizeMismatch)
                        } else if (bytes.len() as int) / item > 0xFFFF_FFFF {
                            Err(MsgError::ValueSizeMismatch)
                        } else {
                            match spec_concat_elements(
                                dirs,
                                dirs[parent],
                                tag_raw,
                                ((bytes.len() as int) / item) as nat,
                                0,
                            ) {
                                Err(e) => Err(e),
                                Ok(concat) => match spec_value(concat, t) {
                                    Ok(v) => Ok(PropertyEntryModel { tag, flags, value: v }),
                                    Err(e) => Err(e),
                                },
                            }
                        }
                    } else {
                        match spec_value(bytes, t) {
                            Ok(v) => Ok(PropertyEntryModel { tag, flags, value: v }),
                            Err(e) => Err(e),
                        }
                    }
                },
            }
        } else {
            match spec_value(entry.subrange(8, 16), t) {
                Ok(v) => Ok(PropertyEntryModel { tag, flags, value: v }),
                Err(e) => Err(e),
            }
        }
    }
}

impl PropertyEntry {
    /// Decodes one 16-byte property table entry, resolving variable-length
    /// values against the sibling streams of the storage `dirs[parent]`.
    #[verifier::loop_isolation(false)]
    pub fn parse(
        input: &[u8],
        dirs: &Vec<crate::dir::DirectoryEntry>,
        parent: usize,
    ) -> (r: Result<Self, MsgError>)
        requires
            (parent as int) < dirs@.len(),
        ensures
            r matches Ok(v) ==> spec_property_entry(input@, crate::cfb::dirs_view(dirs@), parent as int)
                == Ok::<PropertyEntryModel, MsgError>(v@),
            r matches Err(e) ==> spec_property_entry(input@, crate::cfb::dirs_view(dirs@), parent as int)
                == Err::<PropertyEntryModel, MsgError>(e),
    {
        let ghost dv = crate::cfb::dirs_view(dirs@);
        if input.len() < 16 {
            return Err(MsgError::TruncatedInput);
        }
        let t = PropertyType::from_u16(crate::bytes::read_le16(input, 0));
        let id = PropertyId::from_u16(crate::bytes::read_le16(input, 2));
        let tag = PropertyTag { id, prop_type: t };
        let tag_raw = crate::bytes::read_le32(input, 0);
        let flags = crate::bytes::read_le32(input, 4);
        if t.is_multi() || t.is_variable() {
            let size = crate::bytes::read_le32(input, 8);
            let name = crate::strings::substg_name_utf16(tag_raw);
            let ci = match find_child(dirs, parent, &name) {
                Some(ci) => ci,
                None => {
                    return Err(MsgError::MissingValueStream);
                },
            };
            let stream_len: usize = dirs[ci].data.len();
            let ok_size = if t.is_multi() || !t.is_variable() {
                (stream_len as u64) == (size as u64)
            } else if t.is_variable() && !t.is_multi() {
                // Single-valued variable types: the two string relaxations.
                let want: u64 = size as u64;
                if matches_string_type(&t) {
                    want >= 2 && (stream_len as u64) == want - 2
                } else if matches_string8_type(&t) {
                    want >= 1 && (stream_len as u64) == want - 1
                } else {
                    (stream_len as u64) == want
                }
            } else {
                (stream_len as u64) == (size as u64)
            };
            if !ok_size {
                return Err(MsgError::ValueSizeMismatch);
            }
            if t.is_multi() && t.is_variable() {
                let item: usize = if matches_multi_binary_type(&t) {
                    8
                } else {
                    4
                };
                if stream_len % item != 0 {
                    return Err(MsgError::ValueSizeMismatch);
                }
                let count: usize = stream_len / item;
                if (count as u64) > 0xFFFF_FFFFu64 {
                    return Err(MsgError::ValueSizeMismatch);
                }
                let mut concat: Vec<u8> = Vec::new();
                let mut k: usize = 0;
                proof {
                    assert(concat@ + Seq::<u8>::empty() =~= concat@);
                }
                while k < count
                    invariant
                        dv == crate::cfb::dirs_view(dirs@),
                        (parent as int) < dirs@.len(),
                        k <= count,
                        count <= 0xFFFF_FFFF,
                        spec_concat_elements(dv, dv[parent as int], tag_raw, count as nat, 0) == (
                        match spec_concat_elements(
                            dv,
                            dv[parent as int],
                            tag_raw,
                            count as nat,
                            k as nat,
                        ) {
                            Ok(rest) => Ok::<_, MsgError>(concat@ + rest),
                            Err(e) => Err::<Seq<u8>, _>(e),
                        }),
                    decreases count - k,
                {
                    let ename = crate::strings::substg_element_name_utf16(tag_raw, k as u32);
                    let ei = match find_child(dirs, parent, &ename) {
                        Some(ei) => ei,
                        None => {
                            return Err(MsgError::MissingValueStream);
                        },
                    };
                    let ghost before = concat@;
                    crate::cfb::push_slice(&mut concat, dirs[ei].data.as_slice());
                    proof {
                        let ed = dv[ei as int].data;
                        match spec_concat_elements(
                            dv,
                            dv[parent as int],
                            tag_raw,
                            count as nat,
                            (k + 1) as nat,
                        ) {
                            Ok(rest) => {
                                assert(before + (ed + rest) =~= (before + ed) + rest);
                            },
                            Err(e) => {},
                        }
                    }
                    k = k + 1;
                }
                proof {
                    assert(concat@ + Seq::<u8>::empty() =~= concat@);
                }
                match PropertyValue::parse(concat.as_slice(), t) {
                    Ok(value) => Ok(PropertyEntry { tag, flags, value }),
                    Err(e) => Err(e),
                }
            } else {
                match PropertyValue::parse(dirs[ci].data.as_slice(), t) {
                    Ok(value) => Ok(PropertyEntry { tag, flags, value }),
                    Err(e) => Err(e),
                }
            }
        } else {
            let slot = vstd::slice::slice_subrange(input, 8, 16);
            match PropertyValue::parse(slot, t) {
                Ok(value) => Ok(PropertyEntry { tag, flags, value }),
                Err(e) => Err(e),
            }
        }
    }
}

/// Whether `t` is the UTF-16 string type.
fn matches_string_type(t: &PropertyType) -> (r: bool)
    ensures
        r == (*t == PropertyType::Known(KnownPropertyType::String)),
{
    match t {
        PropertyType::Known(KnownPropertyType::String) => true,
        _ => false,
    }
}

/// Whether `t` is the 8-bit string type.
fn matches_string8_type(t: &PropertyType) -> (r: bool)
    ensures
        r == (*t == PropertyType::Known(KnownPropertyType::String8)),
{
    match t {
        PropertyType::Known(KnownPropertyType::String8) => true,
        _ => false,
    }
}

/// Whether `t` is the multi-valued binary type.
fn matches_multi_binary_type(t: &PropertyType) -> (r: bool)
    ensures
        r == (*t == PropertyType::Known(KnownPropertyType::MultipleBinary)),
{
    match t {
        PropertyType::Known(KnownPropertyType::MultipleBinary) => true,
        _ => false,
    }
}

} // verus!
