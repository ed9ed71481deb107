//! Directory entries: the 128-byte records that name the storages and
//! streams of a compound file and link them into a tree.

use vstd::prelude::*;
use crate::MsgError;
use crate::bytes::{le16, le32, le64};
use crate::strings::{spec_utf16_string, spec_utf16_raw, complete_utf16le_string};
use crate::oxcdata::spec_date_opt;

verus! {

/// Size in bytes of one directory entry record.
pub const ENTRY_SIZE: usize = 128;

/// Object type of an entry that is free or unused.
pub const OBJECT_UNKNOWN: u8 = 0x00;

/// Object type of a storage (a folder).
pub const OBJECT_STORAGE: u8 = 0x01;

/// Object type of a stream (a file).
pub const OBJECT_STREAM: u8 = 0x02;

/// Object type of the root storage.
pub const OBJECT_ROOT_STORAGE: u8 = 0x05;

/// Largest valid directory entry index.
pub const MAXREGSID: u32 = 0xFFFFFFFA;

/// The sentinel for an absent sibling or child pointer.
pub const NOSTREAM: u32 = 0xFFFFFFFF;

/// Red node color in the sibling tree.
pub const COLOR_RED: u8 = 0x00;

/// Black node color in the sibling tree.
pub const COLOR_BLACK: u8 = 0x01;

/// A parsed directory entry, together with the derived fields the container
/// layer fills in: the ids of its children and its materialized bytes.
#[derive(Debug, Clone, PartialEq, Eq)]
pub struct DirectoryEntry {
    pub name: String,
    pub name_raw: Vec<u8>,
    pub object_type: u8,
    pub color_flag: u8,
    pub left_sibling_id: u32,
    pub right_sibling_id: u32,
    pub child_id: u32,
    pub clsid: Vec<u8>,
    pub state_bits: u32,
    pub creation_time: Option<i64>,
    pub modified_time: Option<i64>,
    pub starting_sector: u32,
    pub stream_size: u64,
    pub children: Vec<u32>,
    pub data: Vec<u8>,
}

/// The mathematical image of a directory entry.
pub struct DirEntryModel {
    pub name: Seq<char>,
    pub name_raw: Seq<u8>,
    pub object_type: u8,
    pub color_flag: u8,
    pub left_sibling_id: u32,
    pub right_sibling_id: u32,
    pub child_id: u32,
    pub clsid: Seq<u8>,
    pub state_bits: u32,
    pub creation_time: Option<i64>,
    pub modified_time: Option<i64>,
    pub starting_sector: u32,
    pub stream_size: u64,
    pub children: Seq<u32>,
    pub data: Seq<u8>,
}

impl View for DirectoryEntry {
    type V = DirEntryModel;

    open spec fn view(&self) -> DirEntryModel {
        DirEntryModel {
            name: self.name@,
            name_raw: self.name_raw@,
            object_type: self.object_type,
            color_flag: self.color_flag,
            left_sibling_id: self.left_sibling_id,
            right_sibling_id: self.right_sibling_id,
            child_id: self.child_id,
            clsid: self.clsid@,
            state_bits: self.state_bits,
            creation_time: self.creation_time,
            modified_time: self.modified_time,
            starting_sector: self.starting_sector,
            stream_size: self.stream_size,
            children: self.children@,
            data: self.data@,
        }
    }
}

/// One directory record decoded from the first 128 bytes of `b`. The name
/// field holds 64 bytes; the recorded name length, terminator included,
/// selects the bytes handed to the UTF-16LE decoder. The derived fields
/// `children` and `data` start out empty.
pub open spec fn spec_dir_entry(b: Seq<u8>) -> Result<DirEntryModel, MsgError> {
    if b.len() < ENTRY_SIZE {
        Err(MsgError::TruncatedInput)
    } else {
        let name_len = le16(b, 64);
        if name_len > 64 {
            Err(MsgError::InvalidString)
        } else {
            let name_field = b.subrange(0, name_len as int);
            match spec_utf16_string(name_field) {
                Err(e) => Err(e),
                Ok((name, used)) => match spec_date_opt(b, 100) {
                    Err(e) => Err(e),
                    Ok(ct) => match spec_date_opt(b, 108) {
                        Err(e) => Err(e),
                        Ok(mt) => Ok(
                            DirEntryModel {
                                name,
                                name_raw: spec_utf16_raw(name_field),
                                object_type: b[66],
                                color_flag: b[67],
                                left_sibling_id: le32(b, 68),
                                right_sibling_id: le32(b, 72),
                                child_id: le32(b, 76),
                                clsid: b.subrange(80, 96),
                                state_bits: le32(b, 96),
                                creation_time: ct,
                                modified_time: mt,
                                starting_sector: le32(b, 116),
                                stream_size: le64(b, 120),
                                children: Seq::empty(),
                                data: Seq::empty(),
                            },
                        ),
                    },
                },
            }
        }
    }
}

impl DirectoryEntry {
    /// Decodes one 128-byte directory record from the start of `input`.
    pub fn parse(input: &[u8]) -> (r: Result<Self, MsgError>)
        ensures
            r matches Ok(d) ==> spec_dir_entry(input@) == Ok::<DirEntryModel, MsgError>(d@),
            r matches Err(e) ==> spec_dir_entry(input@) == Err::<DirEntryModel, MsgError>(e),
    {
        if input.len() < ENTRY_SIZE {
            return Err(MsgError::TruncatedInput);
        }
        let name_len: u16 = crate::bytes::read_le16(input, 64);
        if name_len > 64 {
            return Err(MsgError::InvalidString);
        }
        let name_field = vstd::slice::slice_subrange(input, 0, name_len as usize);
        let (name, _used, name_raw) = match complete_utf16le_string(name_field) {
            Ok(t) => t,
            Err(e) => {
                return Err(e);
            },
        };
        let creation_time = match crate::oxcdata::date_opt(input, 100) {
            Ok(v) => v,
            Err(e) => {
                return Err(e);
            },
        };
        let modified_time = match crate::oxcdata::date_opt(input, 108) {
            Ok(v) => v,
            Err(e) => {
                return Err(e);
            },
        };
        let clsid = crate::bytes::copy_range(input, 80, 16);
        let d = DirectoryEntry {
            name,
            name_raw,
            object_type: input[66],
            color_flag: input[67],
            left_sibling_id: crate::bytes::read_le32(input, 68),
            right_sibling_id: crate::bytes::read_le32(input, 72),
            child_id: crate::bytes::read_le32(input, 76),
            clsid,
            state_bits: crate::bytes::read_le32(input, 96),
            creation_time,
            modified_time,
            starting_sector: crate::bytes::read_le32(input, 116),
            stream_size: crate::bytes::read_le64(input, 120),
            children: Vec::new(),
            data: Vec::new(),
        };
        proof {
            assert(d@.clsid =~= input@.subrange(80, 96));
            assert(d@.children =~= Seq::<u32>::empty());
            assert(d@.data =~= Seq::<u8>::empty());
        }
        Ok(d)
    }
}

} // verus!
