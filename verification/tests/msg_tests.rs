//! End-to-end tests over hand-assembled compound file images, plus unit
//! tests of the catalogs and the property table.

use msgcfb::MsgError;
use msgcfb::cfb::CompoundFile;
use msgcfb::dir::DirectoryEntry;
use msgcfb::oxcdata::{KnownPropertyType, PropertyType, PropertyValue};
use msgcfb::oxcmsg::{
    Attachment, KnownAttachMethod, AttachMethod, KnownPropertyId, Message, PropertyId, Recipient,
};
use msgcfb::oxcprpt::{KnownObjectType, ObjectType};
use msgcfb::oxnspi::{DisplayType, KnownDisplayType};
use msgcfb::oxomsg::{KnownRecipientType, RecipientType};
use msgcfb::oxmsg::{MsgFile, PropertyStream};

const ENDOFCHAIN: u32 = 0xFFFFFFFE;
const FREESECT: u32 = 0xFFFFFFFF;
const FATSECT: u32 = 0xFFFFFFFD;
const NOSTREAM: u32 = 0xFFFFFFFF;

fn w16(b: &mut Vec<u8>, v: u16) {
    b.push((v & 0xFF) as u8);
    b.push((v >> 8) as u8);
}

fn w32(b: &mut Vec<u8>, v: u32) {
    for k in 0..4 {
        b.push(((v >> (8 * k)) & 0xFF) as u8);
    }
}

fn w64(b: &mut Vec<u8>, v: u64) {
    for k in 0..8 {
        b.push(((v >> (8 * k)) & 0xFF) as u8);
    }
}

fn pad_to(mut v: Vec<u8>, size: usize) -> Vec<u8> {
    assert!(v.len() <= size);
    v.resize(size, 0);
    v
}

/// A 128-byte directory entry with an ASCII name.
fn dir_entry(name: &str, typ: u8, left: u32, right: u32, child: u32, start: u32, size: u64) -> Vec<u8> {
    let mut e = Vec::new();
    let mut units: Vec<u16> = name.chars().map(|c| c as u16).collect();
    units.push(0);
    assert!(units.len() <= 32);
    for k in 0..32 {
        w16(&mut e, if k < units.len() { units[k] } else { 0 });
    }
    w16(&mut e, (units.len() * 2) as u16); // name length, terminator included
    e.push(typ);
    e.push(1); // black
    w32(&mut e, left);
    w32(&mut e, right);
    w32(&mut e, child);
    for _ in 0..16 {
        e.push(0); // clsid
    }
    w32(&mut e, 0); // state bits
    w64(&mut e, 0); // creation time: absent
    w64(&mut e, 0); // modified time: absent
    w32(&mut e, start);
    w64(&mut e, size);
    assert_eq!(e.len(), 128);
    e
}

/// A v3 header: one FAT sector at `fat_sector`, directory at `dir_first`,
/// MiniFAT chain at `minifat_first`.
fn header_v3(fat_sector: u32, dir_first: u32, minifat_first: u32) -> Vec<u8> {
    let mut h = Vec::new();
    h.extend_from_slice(&[0xD0, 0xCF, 0x11, 0xE0, 0xA1, 0xB1, 0x1A, 0xE1]);
    for _ in 0..16 {
        h.push(0); // clsid
    }
    w16(&mut h, 0x003E);
    w16(&mut h, 0x0003);
    w16(&mut h, 0xFFFE);
    w16(&mut h, 0x0009);
    w16(&mut h, 0x0006);
    for _ in 0..6 {
        h.push(0); // reserved
    }
    w32(&mut h, 0); // dir sector count (v3: unused)
    w32(&mut h, 1); // fat sectors
    w32(&mut h, dir_first);
    w32(&mut h, 0); // transaction signature
    w32(&mut h, 0x1000); // mini stream cutoff
    w32(&mut h, minifat_first);
    w32(&mut h, 1); // minifat sectors
    w32(&mut h, ENDOFCHAIN); // difat first
    w32(&mut h, 0); // difat sectors
    w32(&mut h, fat_sector);
    for _ in 0..108 {
        w32(&mut h, FREESECT);
    }
    assert_eq!(h.len(), 512);
    h
}

/// A 512-byte FAT sector out of the given entries.
fn fat_sector(entries: &[u32]) -> Vec<u8> {
    let mut s = Vec::new();
    for k in 0..128 {
        w32(&mut s, if k < entries.len() { entries[k] } else { FREESECT });
    }
    s
}

/// A 16-byte property entry with an 8-byte value slot.
fn prop_entry(typ: u16, id: u16, slot: &[u8]) -> Vec<u8> {
    let mut e = Vec::new();
    w16(&mut e, typ);
    w16(&mut e, id);
    w32(&mut e, 0); // flags
    e.extend_from_slice(slot);
    assert_eq!(e.len(), 16);
    e
}

fn size_slot(size: u32) -> Vec<u8> {
    let mut s = Vec::new();
    w32(&mut s, size);
    w32(&mut s, 0);
    s
}

fn utf16le(s: &str) -> Vec<u8> {
    let mut v = Vec::new();
    for u in s.encode_utf16() {
        w16(&mut v, u);
    }
    v
}

/// The minimal v3 message: one string property `SubjectW` holding "Hi".
fn fixture_subject() -> Vec<u8> {
    // Sectors: 0 FAT, 1 directory, 2 MiniFAT, 3 mini stream.
    let mut props = pad_to(Vec::new(), 32);
    props.extend_from_slice(&prop_entry(0x001F, 0x0037, &size_slot(6)));
    let subj = utf16le("Hi");

    let mut dirsec = Vec::new();
    dirsec.extend_from_slice(&dir_entry("Root Entry", 5, NOSTREAM, NOSTREAM, 1, 3, 128));
    dirsec.extend_from_slice(&dir_entry(
        "__properties_version1.0",
        2,
        NOSTREAM,
        2,
        NOSTREAM,
        0,
        48,
    ));
    dirsec.extend_from_slice(&dir_entry(
        "__substg1.0_0037001F",
        2,
        NOSTREAM,
        NOSTREAM,
        NOSTREAM,
        1,
        4,
    ));
    dirsec.extend_from_slice(&dir_entry("", 0, NOSTREAM, NOSTREAM, NOSTREAM, 0, 0));

    let mut mini = Vec::new();
    mini.extend_from_slice(&pad_to(props, 64));
    mini.extend_from_slice(&pad_to(subj, 64));

    let mut image = Vec::new();
    image.extend_from_slice(&header_v3(0, 1, 2));
    image.extend_from_slice(&fat_sector(&[FATSECT, ENDOFCHAIN, ENDOFCHAIN, ENDOFCHAIN]));
    image.extend_from_slice(&dirsec);
    image.extend_from_slice(&fat_sector(&[ENDOFCHAIN, ENDOFCHAIN]));
    image.extend_from_slice(&pad_to(mini, 512));
    image
}

#[test]
fn subject_roundtrip() {
    let image = fixture_subject();
    let msg = MsgFile::parse(&image).expect("parse");
    let owned = Message::from(&msg.properties).to_owned();
    assert_eq!(owned.subject, Some(String::from("Hi")));
    assert_eq!(msg.recipients.len(), 0);
    assert_eq!(msg.attachments.len(), 0);
}

#[test]
fn parse_is_idempotent() {
    let image = fixture_subject();
    let a = MsgFile::parse(&image).expect("parse");
    let b = MsgFile::parse(&image).expect("parse");
    assert!(a == b);
}

#[test]
fn root_child_names_are_distinct() {
    let image = fixture_subject();
    let cfb = CompoundFile::parse(&image).expect("parse");
    let root = &cfb.dirs[0];
    for x in 0..root.children.len() {
        for y in (x + 1)..root.children.len() {
            let a = &cfb.dirs[root.children[x] as usize];
            let b = &cfb.dirs[root.children[y] as usize];
            assert_ne!(a.name_raw, b.name_raw);
        }
    }
}

/// Two recipients with display names and types.
fn fixture_recipients() -> Vec<u8> {
    // Sectors: 0 FAT, 1-2 directory, 3 MiniFAT, 4 mini stream.
    let root_props = pad_to(Vec::new(), 32);
    let mut r0 = pad_to(Vec::new(), 8);
    let mut slot1 = Vec::new();
    w32(&mut slot1, 1);
    w32(&mut slot1, 0);
    r0.extend_from_slice(&prop_entry(0x0003, 0x0C15, &slot1));
    r0.extend_from_slice(&prop_entry(0x001F, 0x3001, &size_slot(12)));
    let mut r1 = pad_to(Vec::new(), 8);
    let mut slot2 = Vec::new();
    w32(&mut slot2, 2);
    w32(&mut slot2, 0);
    r1.extend_from_slice(&prop_entry(0x0003, 0x0C15, &slot2));
    r1.extend_from_slice(&prop_entry(0x001F, 0x3001, &size_slot(8)));

    let mut dirsec = Vec::new();
    dirsec.extend_from_slice(&dir_entry("Root Entry", 5, NOSTREAM, NOSTREAM, 1, 4, 320));
    dirsec.extend_from_slice(&dir_entry(
        "__properties_version1.0",
        2,
        NOSTREAM,
        2,
        NOSTREAM,
        0,
        32,
    ));
    dirsec.extend_from_slice(&dir_entry("__recip_version1.0_#00000000", 1, NOSTREAM, 3, 4, 0, 0));
    dirsec.extend_from_slice(&dir_entry("__recip_version1.0_#00000001", 1, NOSTREAM, NOSTREAM, 6, 0, 0));
    dirsec.extend_from_slice(&dir_entry(
        "__properties_version1.0",
        2,
        NOSTREAM,
        5,
        NOSTREAM,
        1,
        40,
    ));
    dirsec.extend_from_slice(&dir_entry(
        "__substg1.0_3001001F",
        2,
        NOSTREAM,
        NOSTREAM,
        NOSTREAM,
        2,
        10,
    ));
    dirsec.extend_from_slice(&dir_entry(
        "__properties_version1.0",
        2,
        NOSTREAM,
        7,
        NOSTREAM,
        3,
        40,
    ));
    dirsec.extend_from_slice(&dir_entry(
        "__substg1.0_3001001F",
        2,
        NOSTREAM,
        NOSTREAM,
        NOSTREAM,
        4,
        6,
    ));

    let mut mini = Vec::new();
    mini.extend_from_slice(&pad_to(root_props, 64));
    mini.extend_from_slice(&pad_to(r0, 64));
    mini.extend_from_slice(&pad_to(utf16le("Alice"), 64));
    mini.extend_from_slice(&pad_to(r1, 64));
    mini.extend_from_slice(&pad_to(utf16le("Bob"), 64));

    let mut image = Vec::new();
    image.extend_from_slice(&header_v3(0, 1, 3));
    image.extend_from_slice(&fat_sector(&[
        FATSECT, 2, ENDOFCHAIN, ENDOFCHAIN, ENDOFCHAIN,
    ]));
    image.extend_from_slice(&dirsec);
    image.extend_from_slice(&fat_sector(&[ENDOFCHAIN, ENDOFCHAIN, ENDOFCHAIN, ENDOFCHAIN, ENDOFCHAIN]));
    image.extend_from_slice(&pad_to(mini, 512));
    image
}

#[test]
fn two_recipients() {
    let image = fixture_recipients();
    let msg = MsgFile::parse(&image).expect("parse");
    assert_eq!(msg.recipients.len(), 2);
    let a = Recipient::from(&msg.recipients[0]).to_owned();
    let b = Recipient::from(&msg.recipients[1]).to_owned();
    assert_eq!(a.display_name, Some(String::from("Alice")));
    assert_eq!(b.display_name, Some(String::from("Bob")));
    assert_eq!(
        a.recipient_type,
        Some(RecipientType::Known(KnownRecipientType::PrimaryRecipient))
    );
    assert_eq!(
        b.recipient_type,
        Some(RecipientType::Known(KnownRecipientType::CcRecipient))
    );
}

/// One binary attachment of 300 pseudo-random bytes.
fn fixture_attachment() -> (Vec<u8>, Vec<u8>) {
    // Sectors: 0 FAT, 1-2 directory, 3 MiniFAT, 4 mini stream.
    let mut payload = Vec::new();
    let mut x: u32 = 0x2545F491;
    for _ in 0..300 {
        x = x.wrapping_mul(1103515245).wrapping_add(12345);
        payload.push((x >> 16) as u8);
    }
    let root_props = pad_to(Vec::new(), 32);
    let mut ap = pad_to(Vec::new(), 8);
    ap.extend_from_slice(&prop_entry(0x001F, 0x3001, &size_slot(16)));
    let mut slot1 = Vec::new();
    w32(&mut slot1, 1);
    w32(&mut slot1, 0);
    ap.extend_from_slice(&prop_entry(0x0003, 0x3705, &slot1));
    ap.extend_from_slice(&prop_entry(0x0102, 0x3701, &size_slot(300)));

    let mut dirsec = Vec::new();
    dirsec.extend_from_slice(&dir_entry("Root Entry", 5, NOSTREAM, NOSTREAM, 1, 4, 512));
    dirsec.extend_from_slice(&dir_entry(
        "__properties_version1.0",
        2,
        NOSTREAM,
        2,
        NOSTREAM,
        0,
        32,
    ));
    dirsec.extend_from_slice(&dir_entry("__attach_version1.0_#00000000", 1, NOSTREAM, NOSTREAM, 3, 0, 0));
    dirsec.extend_from_slice(&dir_entry(
        "__properties_version1.0",
        2,
        NOSTREAM,
        4,
        NOSTREAM,
        1,
        56,
    ));
    dirsec.extend_from_slice(&dir_entry(
        "__substg1.0_3001001F",
        2,
        NOSTREAM,
        5,
        NOSTREAM,
        2,
        14,
    ));
    dirsec.extend_from_slice(&dir_entry(
        "__substg1.0_37010102",
        2,
        NOSTREAM,
        NOSTREAM,
        NOSTREAM,
        3,
        300,
    ));
    dirsec.extend_from_slice(&dir_entry("", 0, NOSTREAM, NOSTREAM, NOSTREAM, 0, 0));
    dirsec.extend_from_slice(&dir_entry("", 0, NOSTREAM, NOSTREAM, NOSTREAM, 0, 0));

    let mut mini = Vec::new();
    mini.extend_from_slice(&pad_to(root_props, 64));
    mini.extend_from_slice(&pad_to(ap, 64));
    mini.extend_from_slice(&pad_to(utf16le("doc.txt"), 64));
    mini.extend_from_slice(&pad_to(payload.clone(), 320));

    let mut image = Vec::new();
    image.extend_from_slice(&header_v3(0, 1, 3));
    image.extend_from_slice(&fat_sector(&[
        FATSECT, 2, ENDOFCHAIN, ENDOFCHAIN, ENDOFCHAIN,
    ]));
    image.extend_from_slice(&dirsec);
    image.extend_from_slice(&fat_sector(&[
        ENDOFCHAIN, ENDOFCHAIN, ENDOFCHAIN, 4, 5, 6, 7, ENDOFCHAIN,
    ]));
    image.extend_from_slice(&pad_to(mini, 512));
    (image, payload)
}

#[test]
fn binary_attachment() {
    let (image, payload) = fixture_attachment();
    let msg = MsgFile::parse(&image).expect("parse");
    assert_eq!(msg.attachments.len(), 1);
    let a = Attachment::from(&msg.attachments[0]).to_owned();
    assert_eq!(a.display_name, Some(String::from("doc.txt")));
    assert_eq!(a.attach_method, Some(AttachMethod::Known(KnownAttachMethod::ByValue)));
    assert_eq!(a.data, Some(payload));
}

/// A v4 header: 4096-byte sectors.
fn header_v4(fat_sector: u32, dir_first: u32, minifat_first: u32) -> Vec<u8> {
    let mut h = Vec::new();
    h.extend_from_slice(&[0xD0, 0xCF, 0x11, 0xE0, 0xA1, 0xB1, 0x1A, 0xE1]);
    for _ in 0..16 {
        h.push(0);
    }
    w16(&mut h, 0x003E);
    w16(&mut h, 0x0004);
    w16(&mut h, 0xFFFE);
    w16(&mut h, 0x000C);
    w16(&mut h, 0x0006);
    for _ in 0..6 {
        h.push(0);
    }
    w32(&mut h, 1);
    w32(&mut h, 1);
    w32(&mut h, dir_first);
    w32(&mut h, 0);
    w32(&mut h, 0x1000);
    w32(&mut h, minifat_first);
    w32(&mut h, 1);
    w32(&mut h, ENDOFCHAIN);
    w32(&mut h, 0);
    w32(&mut h, fat_sector);
    for _ in 0..108 {
        w32(&mut h, FREESECT);
    }
    pad_to(h, 4096)
}

fn fat_sector_v4(entries: &[u32]) -> Vec<u8> {
    let mut s = Vec::new();
    for k in 0..1024 {
        w32(&mut s, if k < entries.len() { entries[k] } else { FREESECT });
    }
    s
}

/// v4 image with one stream just below the mini cutoff and one at it.
fn fixture_v4_boundary() -> Vec<u8> {
    // Sectors: 0 FAT, 1 directory, 2 MiniFAT, 3 mini stream, 4 large stream.
    let mut dirsec = Vec::new();
    dirsec.extend_from_slice(&dir_entry("Root Entry", 5, NOSTREAM, NOSTREAM, 1, 3, 4096));
    dirsec.extend_from_slice(&dir_entry("small", 2, NOSTREAM, 2, NOSTREAM, 0, 4095));
    dirsec.extend_from_slice(&dir_entry("large", 2, NOSTREAM, NOSTREAM, NOSTREAM, 4, 4096));
    for _ in 0..29 {
        dirsec.extend_from_slice(&dir_entry("", 0, NOSTREAM, NOSTREAM, NOSTREAM, 0, 0));
    }

    let mut minifat: Vec<u32> = Vec::new();
    for k in 0..64u32 {
        minifat.push(if k == 63 { ENDOFCHAIN } else { k + 1 });
    }
    let mut minifat_sec = Vec::new();
    for k in 0..1024 {
        w32(&mut minifat_sec, if k < minifat.len() { minifat[k] } else { FREESECT });
    }

    let mut small = Vec::new();
    for k in 0..4095u32 {
        small.push((k % 251) as u8);
    }
    let mut large = Vec::new();
    for k in 0..4096u32 {
        large.push((k % 241) as u8);
    }

    let mut image = Vec::new();
    image.extend_from_slice(&header_v4(0, 1, 2));
    image.extend_from_slice(&fat_sector_v4(&[
        FATSECT, ENDOFCHAIN, ENDOFCHAIN, ENDOFCHAIN, ENDOFCHAIN,
    ]));
    image.extend_from_slice(&dirsec);
    image.extend_from_slice(&minifat_sec);
    image.extend_from_slice(&pad_to(small.clone(), 4096)); // mini stream sector
    image.extend_from_slice(&large);
    image
}

#[test]
fn v4_mini_cutoff_boundary() {
    let image = fixture_v4_boundary();
    let cfb = CompoundFile::parse(&image).expect("parse");
    assert_eq!(cfb.dirs[1].data.len(), 4095);
    assert_eq!(cfb.dirs[2].data.len(), 4096);
    for k in 0..4095usize {
        assert_eq!(cfb.dirs[1].data[k], (k % 251) as u8);
    }
    for k in 0..4096usize {
        assert_eq!(cfb.dirs[2].data[k], (k % 241) as u8);
    }
}

/// A multi-valued string property of three one-character elements.
fn fixture_multistring() -> Vec<u8> {
    // Sectors: 0 FAT, 1-2 directory, 3 MiniFAT, 4 mini stream.
    let mut props = pad_to(Vec::new(), 32);
    props.extend_from_slice(&prop_entry(0x101F, 0x0037, &size_slot(12)));
    let mut index = Vec::new();
    for _ in 0..3 {
        w32(&mut index, 4);
    }
    let alpha = {
        let mut v = utf16le("α");
        w16(&mut v, 0);
        v
    };
    let beta = {
        let mut v = utf16le("β");
        w16(&mut v, 0);
        v
    };
    let gamma = {
        let mut v = utf16le("γ");
        w16(&mut v, 0);
        v
    };

    let mut dirsec = Vec::new();
    dirsec.extend_from_slice(&dir_entry("Root Entry", 5, NOSTREAM, NOSTREAM, 1, 4, 384));
    dirsec.extend_from_slice(&dir_entry(
        "__properties_version1.0",
        2,
        NOSTREAM,
        2,
        NOSTREAM,
        0,
        48,
    ));
    dirsec.extend_from_slice(&dir_entry(
        "__substg1.0_0037101F",
        2,
        NOSTREAM,
        3,
        NOSTREAM,
        1,
        12,
    ));
    dirsec.extend_from_slice(&dir_entry(
        "__substg1.0_0037101F-00000000",
        2,
        NOSTREAM,
        4,
        NOSTREAM,
        2,
        4,
    ));
    dirsec.extend_from_slice(&dir_entry(
        "__substg1.0_0037101F-00000001",
        2,
        NOSTREAM,
        5,
        NOSTREAM,
        3,
        4,
    ));
    dirsec.extend_from_slice(&dir_entry(
        "__substg1.0_0037101F-00000002",
        2,
        NOSTREAM,
        NOSTREAM,
        NOSTREAM,
        4,
        4,
    ));
    dirsec.extend_from_slice(&dir_entry("", 0, NOSTREAM, NOSTREAM, NOSTREAM, 0, 0));
    dirsec.extend_from_slice(&dir_entry("", 0, NOSTREAM, NOSTREAM, NOSTREAM, 0, 0));

    let mut mini = Vec::new();
    mini.extend_from_slice(&pad_to(props, 64));
    mini.extend_from_slice(&pad_to(index, 64));
    mini.extend_from_slice(&pad_to(alpha, 64));
    mini.extend_from_slice(&pad_to(beta, 64));
    mini.extend_from_slice(&pad_to(gamma, 64));
    mini.extend_from_slice(&pad_to(Vec::new(), 64));

    let mut image = Vec::new();
    image.extend_from_slice(&header_v3(0, 1, 3));
    image.extend_from_slice(&fat_sector(&[
        FATSECT, 2, ENDOFCHAIN, ENDOFCHAIN, ENDOFCHAIN,
    ]));
    image.extend_from_slice(&dirsec);
    image.extend_from_slice(&fat_sector(&[
        ENDOFCHAIN, ENDOFCHAIN, ENDOFCHAIN, ENDOFCHAIN, ENDOFCHAIN, ENDOFCHAIN,
    ]));
    image.extend_from_slice(&pad_to(mini, 512));
    image
}

#[test]
fn multistring_elements() {
    let image = fixture_multistring();
    let msg = MsgFile::parse(&image).expect("parse");
    let p = msg
        .properties
        .get(PropertyId::Known(KnownPropertyId::SubjectW))
        .expect("property");
    match &p.value {
        PropertyValue::MultipleString(v) => {
            assert_eq!(v.len(), 3);
            assert_eq!(v[0], String::from("α"));
            assert_eq!(v[1], String::from("β"));
            assert_eq!(v[2], String::from("γ"));
        },
        other => panic!("unexpected value {:?}", other),
    }
}

/// A directory whose sibling link points back at the node itself.
fn fixture_cycle() -> Vec<u8> {
    let mut dirsec = Vec::new();
    dirsec.extend_from_slice(&dir_entry("Root Entry", 5, NOSTREAM, NOSTREAM, 1, ENDOFCHAIN, 0));
    dirsec.extend_from_slice(&dir_entry("a", 2, 1, NOSTREAM, NOSTREAM, ENDOFCHAIN, 0));
    dirsec.extend_from_slice(&dir_entry("", 0, NOSTREAM, NOSTREAM, NOSTREAM, 0, 0));
    dirsec.extend_from_slice(&dir_entry("", 0, NOSTREAM, NOSTREAM, NOSTREAM, 0, 0));

    let mut image = Vec::new();
    image.extend_from_slice(&header_v3(0, 1, ENDOFCHAIN));
    image.extend_from_slice(&fat_sector(&[FATSECT, ENDOFCHAIN]));
    image.extend_from_slice(&dirsec);
    image
}

#[test]
fn directory_cycle_fails() {
    let image = fixture_cycle();
    match CompoundFile::parse(&image) {
        Err(MsgError::DirectoryCycle) => {},
        other => panic!("unexpected result {:?}", other),
    }
}

#[test]
fn duplicate_names_fail() {
    let mut dirsec = Vec::new();
    dirsec.extend_from_slice(&dir_entry("Root Entry", 5, NOSTREAM, NOSTREAM, 1, ENDOFCHAIN, 0));
    dirsec.extend_from_slice(&dir_entry("same", 2, NOSTREAM, 2, NOSTREAM, ENDOFCHAIN, 0));
    dirsec.extend_from_slice(&dir_entry("same", 2, NOSTREAM, NOSTREAM, NOSTREAM, ENDOFCHAIN, 0));
    dirsec.extend_from_slice(&dir_entry("", 0, NOSTREAM, NOSTREAM, NOSTREAM, 0, 0));
    let mut image = Vec::new();
    image.extend_from_slice(&header_v3(0, 1, ENDOFCHAIN));
    image.extend_from_slice(&fat_sector(&[FATSECT, ENDOFCHAIN]));
    image.extend_from_slice(&dirsec);
    match CompoundFile::parse(&image) {
        Err(MsgError::DuplicateName) => {},
        other => panic!("unexpected result {:?}", other),
    }
}

#[test]
fn invalid_child_id_fails() {
    let mut dirsec = Vec::new();
    dirsec.extend_from_slice(&dir_entry("Root Entry", 5, NOSTREAM, NOSTREAM, 100, ENDOFCHAIN, 0));
    for _ in 0..3 {
        dirsec.extend_from_slice(&dir_entry("", 0, NOSTREAM, NOSTREAM, NOSTREAM, 0, 0));
    }
    let mut image = Vec::new();
    image.extend_from_slice(&header_v3(0, 1, ENDOFCHAIN));
    image.extend_from_slice(&fat_sector(&[FATSECT, ENDOFCHAIN]));
    image.extend_from_slice(&dirsec);
    match CompoundFile::parse(&image) {
        Err(MsgError::InvalidChildId) => {},
        other => panic!("unexpected result {:?}", other),
    }
}

#[test]
fn bad_signature_fails() {
    let image = vec![0u8; 512];
    match CompoundFile::parse(&image) {
        Err(MsgError::BadSignature) => {},
        other => panic!("unexpected result {:?}", other),
    }
}

#[test]
fn short_input_fails() {
    let image = vec![0u8; 10];
    match CompoundFile::parse(&image) {
        Err(MsgError::TruncatedInput) => {},
        other => panic!("unexpected result {:?}", other),
    }
}

#[test]
fn unsupported_version_fails() {
    let mut image = header_v3(0, ENDOFCHAIN, ENDOFCHAIN);
    image[26] = 5; // major version
    match CompoundFile::parse(&image) {
        Err(MsgError::UnsupportedVersion) => {},
        other => panic!("unexpected result {:?}", other),
    }
}

#[test]
fn empty_directory_fails() {
    let mut image = Vec::new();
    image.extend_from_slice(&header_v3(0, ENDOFCHAIN, ENDOFCHAIN));
    image.extend_from_slice(&fat_sector(&[FATSECT]));
    match CompoundFile::parse(&image) {
        Err(MsgError::NoRootEntry) => {},
        other => panic!("unexpected result {:?}", other),
    }
}

#[test]
fn fat_cycle_fails() {
    // The root's own chain loops on itself.
    let mut dirsec = Vec::new();
    dirsec.extend_from_slice(&dir_entry("Root Entry", 5, NOSTREAM, NOSTREAM, NOSTREAM, 2, 64));
    for _ in 0..3 {
        dirsec.extend_from_slice(&dir_entry("", 0, NOSTREAM, NOSTREAM, NOSTREAM, 0, 0));
    }
    let mut image = Vec::new();
    image.extend_from_slice(&header_v3(0, 1, ENDOFCHAIN));
    image.extend_from_slice(&fat_sector(&[FATSECT, ENDOFCHAIN, 2]));
    image.extend_from_slice(&dirsec);
    image.extend_from_slice(&[0u8; 512]);
    match CompoundFile::parse(&image) {
        Err(MsgError::ChainLengthMismatch) => {},
        other => panic!("unexpected result {:?}", other),
    }
}

#[test]
fn missing_value_stream_fails() {
    let mut image = fixture_subject();
    // Rename the value stream so the lookup misses it: flip one name byte
    // in directory entry 2 (sector 1, record 2).
    let off = 1024 + 2 * 128;
    image[off] = b'X';
    match MsgFile::parse(&image) {
        Err(MsgError::MissingValueStream) => {},
        other => panic!("unexpected result {:?}", other),
    }
}

#[test]
fn value_size_mismatch_fails() {
    let mut image = fixture_subject();
    // The declared size of the subject (mini sector 0, offset 32 + 8 of the
    // property entry) disagrees with the stream.
    let off = 2048 + 32 + 8;
    image[off] = 9;
    match MsgFile::parse(&image) {
        Err(MsgError::ValueSizeMismatch) => {},
        other => panic!("unexpected result {:?}", other),
    }
}

#[test]
fn misaligned_property_table_fails() {
    let mut image = fixture_subject();
    // Grow the property stream by 8 bytes: no longer a whole number of
    // 16-byte entries (directory entry 1, stream size field at offset 120).
    let off = 1024 + 128 + 120;
    image[off] = 56;
    match MsgFile::parse(&image) {
        Err(MsgError::PropertyTableAlignment) => {},
        other => panic!("unexpected result {:?}", other),
    }
}

#[test]
fn missing_property_stream_fails() {
    let mut image = fixture_subject();
    // Rename the property stream (directory entry 1).
    let off = 1024 + 128;
    image[off] = b'X';
    match MsgFile::parse(&image) {
        Err(MsgError::NoPropertyStream) => {},
        other => panic!("unexpected result {:?}", other),
    }
}

fn fixture_with_time(ticks: u64) -> Vec<u8> {
    let mut image = fixture_subject();
    // Replace the subject entry with a ClientSubmitTime entry.
    let mut entry = Vec::new();
    w16(&mut entry, 0x0040);
    w16(&mut entry, 0x0039);
    w32(&mut entry, 0);
    w64(&mut entry, ticks);
    let off = 2048 + 32;
    image[off..off + 16].copy_from_slice(&entry);
    image
}

#[test]
fn filetime_decodes() {
    // 2020-01-01T00:00:00Z is 13 231 232 400 * 10^7 ticks from 1601.
    let ticks: u64 = 132223104000000000;
    let image = fixture_with_time(ticks);
    let msg = MsgFile::parse(&image).expect("parse");
    let owned = Message::from(&msg.properties).to_owned();
    assert_eq!(owned.client_submit_time, Some(ticks as i64));
}

#[test]
fn filetime_extremes_decode() {
    // Even the largest tick count stays a representable date: an i64 of
    // 100-nanosecond intervals reaches the year 30828, far inside the
    // calendar range the date library covers.
    let image = fixture_with_time(0x7FFF_FFFF_FFFF_FFFF);
    let msg = MsgFile::parse(&image).expect("parse");
    let owned = Message::from(&msg.properties).to_owned();
    assert_eq!(owned.client_submit_time, Some(i64::MAX));
}

#[test]
fn property_type_round_trip() {
    assert_eq!(
        PropertyType::from_u16(0x001F),
        PropertyType::Known(KnownPropertyType::String)
    );
    assert_eq!(
        PropertyType::from_u16(PropertyType::type_code(KnownPropertyType::MultipleBinary)),
        PropertyType::Known(KnownPropertyType::MultipleBinary)
    );
    assert_eq!(PropertyType::from_u16(0x7777), PropertyType::Unknown(0x7777));
}

#[test]
fn enum_closure_preserves_raw_values() {
    assert_eq!(ObjectType::from_i32(5), ObjectType::Known(KnownObjectType::MessageObject));
    assert_eq!(ObjectType::from_i32(999), ObjectType::Unknown(999));
    assert_eq!(DisplayType::from_i32(0x200), DisplayType::Known(KnownDisplayType::Search));
    assert_eq!(DisplayType::from_i32(-7), DisplayType::Unknown(-7));
    assert_eq!(
        RecipientType::from_i32(3),
        RecipientType::Known(KnownRecipientType::BccRecipient)
    );
    assert_eq!(RecipientType::from_i32(77), RecipientType::Unknown(77));
    assert_eq!(AttachMethod::from_i32(6), AttachMethod::Known(KnownAttachMethod::Storage));
    assert_eq!(AttachMethod::from_i32(-2), AttachMethod::Unknown(-2));
    assert_eq!(
        msgcfb::oxcmsg::MessageStatus::from_i32(0x800),
        msgcfb::oxcmsg::MessageStatus::Known(msgcfb::oxcmsg::KnownMessageStatus::InConflict)
    );
    assert_eq!(
        msgcfb::oxcmsg::MessageStatus::from_i32(42),
        msgcfb::oxcmsg::MessageStatus::Unknown(42)
    );
    assert_eq!(
        msgcfb::oxcmsg::PropertyId::from_u16(0x0037),
        PropertyId::Known(KnownPropertyId::SubjectW)
    );
    assert_eq!(PropertyId::from_u16(0x4242), PropertyId::Unknown(0x4242));
}

fn empty_storage() -> DirectoryEntry {
    DirectoryEntry {
        name: String::new(),
        name_raw: Vec::new(),
        object_type: 5,
        color_flag: 1,
        left_sibling_id: NOSTREAM,
        right_sibling_id: NOSTREAM,
        child_id: NOSTREAM,
        clsid: vec![0; 16],
        state_bits: 0,
        creation_time: None,
        modified_time: None,
        starting_sector: ENDOFCHAIN,
        stream_size: 0,
        children: Vec::new(),
        data: Vec::new(),
    }
}

#[test]
fn table_order_does_not_matter() {
    // Two fixed-width entries with distinct ids, in both orders.
    let dirs = vec![empty_storage()];
    let mut slot1 = Vec::new();
    w32(&mut slot1, 17);
    w32(&mut slot1, 0);
    let mut slot2 = Vec::new();
    w32(&mut slot2, 99);
    w32(&mut slot2, 0);
    let e1 = prop_entry(0x0003, 0x0E08, &slot1);
    let e2 = prop_entry(0x0003, 0x0017, &slot2);

    let mut t1 = pad_to(Vec::new(), 8);
    t1.extend_from_slice(&e1);
    t1.extend_from_slice(&e2);
    let mut t2 = pad_to(Vec::new(), 8);
    t2.extend_from_slice(&e2);
    t2.extend_from_slice(&e1);

    let p1 = PropertyStream::parse(&t1, 8, &dirs, 0).expect("parse");
    let p2 = PropertyStream::parse(&t2, 8, &dirs, 0).expect("parse");
    for id in [
        PropertyId::Known(KnownPropertyId::MessageSize),
        PropertyId::Known(KnownPropertyId::Importance),
    ] {
        let a = p1.get(id).expect("present");
        let b = p2.get(id).expect("present");
        assert_eq!(a.value, b.value);
    }
}

#[test]
fn duplicate_id_last_write_wins() {
    let dirs = vec![empty_storage()];
    let mut slot1 = Vec::new();
    w32(&mut slot1, 1);
    w32(&mut slot1, 0);
    let mut slot2 = Vec::new();
    w32(&mut slot2, 2);
    w32(&mut slot2, 0);
    let mut t = pad_to(Vec::new(), 8);
    t.extend_from_slice(&prop_entry(0x0003, 0x0E08, &slot1));
    t.extend_from_slice(&prop_entry(0x0003, 0x0E08, &slot2));
    let p = PropertyStream::parse(&t, 8, &dirs, 0).expect("parse");
    let got = p.get(PropertyId::Known(KnownPropertyId::MessageSize)).expect("present");
    assert_eq!(got.value, PropertyValue::Integer32(2));
}

#[test]
fn header_constructors() {
    let h3 = msgcfb::cfb::CompoundFileHeader::new_v3();
    assert_eq!(h3.version_major, 3);
    assert_eq!(h3.sector_size(), 512);
    assert_eq!(h3.sector_offset(0), 512);
    let h4 = msgcfb::cfb::CompoundFileHeader::new_v4();
    assert_eq!(h4.version_major, 4);
    assert_eq!(h4.sector_size(), 4096);
    assert_eq!(h4.sector_offset(2), 12288);
}

#[test]
fn boolean_and_string8_values() {
    let dirs = vec![empty_storage()];
    let mut slot_true = vec![1u8];
    slot_true.resize(8, 0);
    let mut t = pad_to(Vec::new(), 8);
    t.extend_from_slice(&prop_entry(0x000B, 0x0E0F, &slot_true));
    let p = PropertyStream::parse(&t, 8, &dirs, 0).expect("parse");
    let got = p.get(PropertyId::Known(KnownPropertyId::Responsibility)).expect("present");
    assert_eq!(got.value, PropertyValue::Boolean(true));

    let (s8, used) = msgcfb::strings::null_terminated_string(b"abc\0rest").expect("parse");
    assert_eq!(s8, b"abc".to_vec());
    assert_eq!(used, 4);
}

#[test]
fn folder_and_message_ids() {
    let raw: Vec<u8> = vec![0x34, 0x12, 0xAA, 0xBB, 0xCC, 0xDD, 0xEE, 0xFF];
    let f = msgcfb::oxcdata::FolderId::parse(&raw).expect("parse");
    assert_eq!(f.replica_id, 0x1234);
    assert_eq!(f.global_counter, 0xAABB_CCDD_EEFF_0000);
    let m = msgcfb::oxcdata::MessageId::parse(&raw).expect("parse");
    assert_eq!(m.replica_id, 0x1234);
    assert_eq!(m.global_counter, 0xAABB_CCDD_EEFF_0000);
}

#[test]
fn server_id_fields() {
    let mut raw = vec![0x01u8];
    raw.extend_from_slice(&[0x34, 0x12, 0xAA, 0xBB, 0xCC, 0xDD, 0xEE, 0xFF]);
    raw.extend_from_slice(&[0x78, 0x56, 0x11, 0x22, 0x33, 0x44, 0x55, 0x66]);
    raw.extend_from_slice(&[0x04, 0x03, 0x02, 0x01]);
    let s = msgcfb::oxcdata::ServerId::parse(&raw).expect("parse");
    assert!(s.ours);
    assert_eq!(s.folder_id.replica_id, 0x1234);
    assert_eq!(s.folder_id.global_counter, 0xAABB_CCDD_EEFF_0000);
    assert_eq!(s.msg_id.replica_id, 0x5678);
    assert_eq!(s.msg_id.global_counter, 0x1122_3344_5566_0000);
    assert_eq!(s.instance, 0x01020304);
}

#[test]
fn fixed_multi_values() {
    let raw = [0x01u8, 0x00, 0xFF, 0xFF, 0x10, 0x00];
    let v = PropertyValue::parse(
        &raw,
        PropertyType::Known(KnownPropertyType::MultipleInteger16),
    )
    .expect("parse");
    assert_eq!(v, PropertyValue::MultipleInteger16(vec![1, -1, 16]));

    // A trailing partial element is an error.
    let bad = [0x01u8, 0x00, 0xFF];
    match PropertyValue::parse(&bad, PropertyType::Known(KnownPropertyType::MultipleInteger16)) {
        Err(MsgError::TruncatedInput) => {},
        other => panic!("unexpected result {:?}", other),
    }
}

#[test]
fn rule_action_and_binary_values() {
    let raw = [0x03u8, 0x00, 0xAA, 0xBB, 0xCC, 0xDD];
    let v = PropertyValue::parse(&raw, PropertyType::Known(KnownPropertyType::RuleAction))
        .expect("parse");
    assert_eq!(v, PropertyValue::RuleAction(vec![0xAA, 0xBB, 0xCC]));

    let v = PropertyValue::parse(&raw, PropertyType::Known(KnownPropertyType::Binary))
        .expect("parse");
    assert_eq!(v, PropertyValue::Binary(raw.to_vec()));

    let multi = [0x01u8, 0x00, 0xAA, 0x02, 0x00, 0xBB, 0xCC];
    let v = PropertyValue::parse(&multi, PropertyType::Known(KnownPropertyType::MultipleBinary))
        .expect("parse");
    assert_eq!(v, PropertyValue::MultipleBinary(vec![vec![0xAA], vec![0xBB, 0xCC]]));
}

#[test]
fn guid_and_unknown_values() {
    let raw: Vec<u8> = (0u8..16).collect();
    let v = PropertyValue::parse(&raw, PropertyType::Known(KnownPropertyType::Guid))
        .expect("parse");
    assert_eq!(v, PropertyValue::Guid(raw.clone()));

    let v = PropertyValue::parse(&raw, PropertyType::Unknown(0x4242)).expect("parse");
    assert_eq!(v, PropertyValue::Unspecified(Vec::new()));
    assert_eq!(v.prop_type(), PropertyType::Known(KnownPropertyType::Unspecified));
}

#[test]
fn multi_string8_values() {
    let raw = b"one\0two\0";
    let v = PropertyValue::parse(raw, PropertyType::Known(KnownPropertyType::MultipleString8))
        .expect("parse");
    assert_eq!(
        v,
        PropertyValue::MultipleString8(vec![b"one".to_vec(), b"two".to_vec()])
    );

    // Trailing bytes without a terminator are an error.
    match PropertyValue::parse(b"one\0tw", PropertyType::Known(KnownPropertyType::MultipleString8)) {
        Err(MsgError::TruncatedInput) => {},
        other => panic!("unexpected result {:?}", other),
    }
}

#[test]
fn utf16_strings_empty_and_terminated() {
    let (s, used, _) = msgcfb::strings::complete_utf16le_string(&[]).expect("parse");
    assert_eq!(s, "");
    assert_eq!(used, 0);
    // A terminator ends the string and is consumed.
    let raw = [0x48u8, 0x00, 0x00, 0x00, 0x69, 0x00];
    let (s, used, _) = msgcfb::strings::complete_utf16le_string(&raw).expect("parse");
    assert_eq!(s, "H");
    assert_eq!(used, 4);
    // An odd length without a terminator is an error.
    match msgcfb::strings::complete_utf16le_string(&[0x48, 0x00, 0x69]) {
        Err(MsgError::TruncatedInput) => {},
        other => panic!("unexpected result {:?}", other),
    }
}
